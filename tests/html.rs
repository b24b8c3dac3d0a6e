use newsroom::html::{elm_page, page_with_flags, PAGE_HEAD, PAGE_TAIL};

#[test]
fn page_embeds_the_flags() {
    let page = page_with_flags(Some("\"tok\"".to_string()));
    assert_eq!(page, format!("{}\"tok\"{}", PAGE_HEAD, PAGE_TAIL));
    assert!(page.starts_with("<!DOCTYPE html><html><head>"));
    assert!(page.ends_with("var app=Elm.Main.init({flags:\"tok\"});</script></body></html>"));
}

#[test]
fn page_without_flags_hands_over_null() {
    assert_eq!(page_with_flags(None), format!("{}null{}", PAGE_HEAD, PAGE_TAIL));
}

#[test]
fn anonymous_page_has_null_flags() {
    assert_eq!(elm_page(&None), format!("{}null{}", PAGE_HEAD, PAGE_TAIL));
}

#[test]
fn session_payload_is_quoted_and_escaped_in_the_page() {
    let payload = "{\"username\":\"alice\",\"roles\":[2]}".to_string();
    let page = elm_page(&Some(payload));
    assert_eq!(
        page,
        format!("{}\"{{\\\"username\\\":\\\"alice\\\",\\\"roles\\\":[2]}}\"{}", PAGE_HEAD, PAGE_TAIL)
    );
}
