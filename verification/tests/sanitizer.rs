use picharvest::sanitize::sanitize_filename;

#[test]
fn space_becomes_underscore() {
    assert_eq!(sanitize_filename("a b.jpg"), "a_b.jpg");
}

#[test]
fn allowed_characters_kept() {
    assert_eq!(sanitize_filename("Cat_01.photo.PNG"), "Cat_01.photo.PNG");
}

#[test]
fn every_disallowed_character_replaced() {
    assert_eq!(sanitize_filename("a-b+c?d=e&f g%h.png"), "a_b_c_d_e_f_g_h.png");
}

#[test]
fn non_ascii_characters_replaced() {
    assert_eq!(sanitize_filename("héllo.png"), "h_llo.png");
}

#[test]
fn sanitize_is_idempotent_on_examples() {
    let once = sanitize_filename("we?ird na/me*.jpg");
    let twice = sanitize_filename(&once);
    assert_eq!(once, twice);
}

#[test]
fn empty_name_stays_empty() {
    assert_eq!(sanitize_filename(""), "");
}
