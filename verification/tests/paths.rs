use picharvest::paths::{dest_dir, image_file_name, join_path, site_name};

#[test]
fn site_name_is_first_label() {
    assert_eq!(site_name("img.example.com"), "img");
}

#[test]
fn site_name_of_single_label_host() {
    assert_eq!(site_name("localhost"), "localhost");
}

#[test]
fn site_name_of_multi_label_tld() {
    assert_eq!(site_name("www.example.co.uk"), "www");
}

#[test]
fn dest_dir_under_docroot() {
    assert_eq!(dest_dir("/home/u/Documents", "img.example.com"), "/home/u/Documents/PicHarvest/img");
}

#[test]
fn image_file_name_is_last_segment() {
    assert_eq!(image_file_name("img/pics/cat.png"), "cat.png");
}

#[test]
fn image_file_name_without_slash_is_whole_reference() {
    assert_eq!(image_file_name("cat.png"), "cat.png");
}

#[test]
fn image_file_name_of_trailing_slash_is_empty() {
    assert_eq!(image_file_name("img/pics/"), "");
}

#[test]
fn join_path_inserts_one_slash() {
    assert_eq!(join_path("/tmp/dir", "cat.png"), "/tmp/dir/cat.png");
}
