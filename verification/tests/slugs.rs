use rari_doc::api::RariApi;

#[test]
fn lowercases_and_replaces_spaces() {
    assert_eq!(RariApi::anchorize("Hello World"), "hello_world");
}

#[test]
fn all_stripped_falls_back_to_sentinel() {
    assert_eq!(RariApi::anchorize("###"), "sect1");
}

#[test]
fn empty_input_falls_back_to_sentinel() {
    assert_eq!(RariApi::anchorize(""), "sect1");
    assert!(!RariApi::anchorize("").is_empty());
}

#[test]
fn clean_slug_is_unchanged() {
    assert_eq!(RariApi::anchorize("hello_world"), "hello_world");
    assert_eq!(RariApi::anchorize("intro2"), "intro2");
    assert_eq!(RariApi::anchorize("a.b-c"), "a.b-c");
}

#[test]
fn strips_rejected_punctuation() {
    assert_eq!(
        RariApi::anchorize("Getting Started: A/B?"),
        "getting_started_ab"
    );
    assert_eq!(RariApi::anchorize("a<b>c\"d$e#f%g&h"), "abcdefgh");
    assert_eq!(RariApi::anchorize("x[y]z^w`v{u|t}s~r"), "xyzwvutsr");
    assert_eq!(RariApi::anchorize("a'b(c)d\\e"), "abcde");
    assert_eq!(RariApi::anchorize("a+b,c:d;e=f?g@h"), "abcdefgh");
}

#[test]
fn keeps_non_ascii_letters() {
    assert_eq!(RariApi::anchorize("Héllo Wörld"), "héllo_wörld");
}

#[test]
fn double_application_is_stable() {
    let once = RariApi::anchorize("See Also: Links");
    let twice = RariApi::anchorize(&once);
    assert_eq!(once, twice);
}

#[test]
fn encodes_path_segment_reserved_bytes() {
    assert_eq!(RariApi::decode_uri_component("a b"), "a%20b");
    assert_eq!(RariApi::decode_uri_component("a/b"), "a%2Fb");
    assert_eq!(RariApi::decode_uri_component("50%"), "50%25");
    assert_eq!(RariApi::decode_uri_component("a?b#c"), "a%3Fb%23c");
    assert_eq!(RariApi::decode_uri_component("<\"{x}\">"), "%3C%22%7Bx%7D%22%3E");
}

#[test]
fn passes_unreserved_bytes_through() {
    assert_eq!(RariApi::decode_uri_component("Array.prototype"), "Array.prototype");
    assert_eq!(RariApi::decode_uri_component("a~b-c_d"), "a~b-c_d");
    assert_eq!(RariApi::decode_uri_component(""), "");
}

#[test]
fn encodes_utf8_bytes_of_non_ascii() {
    assert_eq!(RariApi::decode_uri_component("café"), "caf%C3%A9");
}
