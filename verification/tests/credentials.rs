use hirotrack::store::{
    clear_credentials, load_credentials, save_credentials, StoreDoc, StoreValue,
};

#[test]
fn round_trip_save_load() {
    let mut doc = StoreDoc::new();
    save_credentials(
        &mut doc,
        String::from("https://track.example.com"),
        String::from("tok-12345"),
    );
    let loaded = load_credentials(&doc);
    assert_eq!(
        loaded,
        Some((String::from("https://track.example.com"), String::from("tok-12345")))
    );
}

#[test]
fn round_trip_empty_strings_are_present() {
    let mut doc = StoreDoc::new();
    save_credentials(&mut doc, String::from(""), String::from(""));
    let loaded = load_credentials(&doc);
    assert_eq!(loaded, Some((String::from(""), String::from(""))));
}

#[test]
fn round_trip_unicode() {
    let mut doc = StoreDoc::new();
    save_credentials(
        &mut doc,
        String::from("https://пример.рф/ψ"),
        String::from("トークン🗝"),
    );
    let loaded = load_credentials(&doc);
    assert_eq!(
        loaded,
        Some((String::from("https://пример.рф/ψ"), String::from("トークン🗝")))
    );
}

#[test]
fn save_overwrites_previous_pair() {
    let mut doc = StoreDoc::new();
    save_credentials(&mut doc, String::from("old-url"), String::from("old-token"));
    save_credentials(&mut doc, String::from("new-url"), String::from("new-token"));
    let loaded = load_credentials(&doc);
    assert_eq!(loaded, Some((String::from("new-url"), String::from("new-token"))));
}

#[test]
fn load_on_never_created_document_is_none() {
    let doc = StoreDoc::new();
    assert_eq!(load_credentials(&doc), None);
}

#[test]
fn clear_then_load_is_none() {
    let mut doc = StoreDoc::new();
    save_credentials(&mut doc, String::from("u"), String::from("t"));
    clear_credentials(&mut doc);
    assert_eq!(load_credentials(&doc), None);
}

#[test]
fn only_server_url_set_loads_none() {
    let mut doc = StoreDoc::new();
    doc.server_url = Some(StoreValue::Text(String::from("https://track.example.com")));
    assert_eq!(load_credentials(&doc), None);
}

#[test]
fn only_api_token_set_loads_none() {
    let mut doc = StoreDoc::new();
    doc.api_token = Some(StoreValue::Text(String::from("tok")));
    assert_eq!(load_credentials(&doc), None);
}

#[test]
fn non_string_entry_loads_none() {
    let mut doc = StoreDoc::new();
    doc.server_url = Some(StoreValue::Other);
    doc.api_token = Some(StoreValue::Text(String::from("tok")));
    assert_eq!(load_credentials(&doc), None);
}
