use native_list_item::text::escape_ampersands;

#[test]
fn escape_empty_text_stays_empty() {
    assert_eq!(escape_ampersands(""), "");
}

#[test]
fn escape_plain_text_is_unchanged() {
    assert_eq!(escape_ampersands("Apple"), "Apple");
}

#[test]
fn escape_doubles_single_ampersand() {
    assert_eq!(escape_ampersands("&"), "&&");
}

#[test]
fn escape_doubles_each_ampersand_of_a_pair() {
    assert_eq!(escape_ampersands("&&"), "&&&&");
}

#[test]
fn escape_embedded_ampersand() {
    assert_eq!(escape_ampersands("Item&3"), "Item&&3");
    assert_eq!(escape_ampersands("a&b&c"), "a&&b&&c");
}
