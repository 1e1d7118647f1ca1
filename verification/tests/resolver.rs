use picharvest::resolve::resolve_image_url;

#[test]
fn absolute_http_reference_unchanged() {
    let r = resolve_image_url("https://example.com", "http://cdn.example.com/x.png");
    assert_eq!(r, "http://cdn.example.com/x.png");
}

#[test]
fn absolute_https_reference_unchanged() {
    let r = resolve_image_url("https://example.com", "https://cdn.other.com/a b.jpg");
    assert_eq!(r, "https://cdn.other.com/a b.jpg");
}

#[test]
fn relative_reference_appended_to_base() {
    let r = resolve_image_url("https://example.com", "cat.png");
    assert_eq!(r, "https://example.com/cat.png");
}

#[test]
fn trailing_slash_of_base_trimmed() {
    let r = resolve_image_url("https://example.com/", "cat.png");
    assert_eq!(r, "https://example.com/cat.png");
}

#[test]
fn all_trailing_slashes_of_base_trimmed() {
    let r = resolve_image_url("https://example.com///", "img/cat.png");
    assert_eq!(r, "https://example.com/img/cat.png");
}

#[test]
fn scheme_prefix_must_be_exact() {
    // "httpx://" carries no recognized scheme, so it is appended as-is.
    let r = resolve_image_url("https://example.com", "httpx://odd/ref.png");
    assert_eq!(r, "https://example.com/httpx://odd/ref.png");
}

#[test]
fn empty_reference_appended() {
    let r = resolve_image_url("https://example.com/", "");
    assert_eq!(r, "https://example.com/");
}
