use ear_api::client::{build_selector, parse_u8, resolve_action, url};

#[test]
fn selector_only_when_an_option_is_given() {
    assert!(build_selector(&None, &None, &None).is_none());
    let s = build_selector(&None, &Some("21".to_string()), &None).expect("sku given");
    assert_eq!(s.sku.as_deref(), Some("21"));
    assert!(s.model_id.is_none());
    assert!(s.base.is_none());
}

#[test]
fn url_joins_with_one_slash() {
    assert_eq!(url("http://127.0.0.1:8787", "/api/battery"), "http://127.0.0.1:8787/api/battery");
    assert_eq!(url("http://h//", "api"), "http://h/api");
    assert_eq!(url("", "//x"), "/x");
}

#[test]
fn bytes_parse_like_u8_from_str() {
    for text in ["0", "7", "+12", "255", "007", "256", "", "+", "-1", "1a", " 1", "99999999999"] {
        assert_eq!(parse_u8(text), text.parse::<u8>().ok(), "{text}");
    }
}

#[test]
fn actions_by_number_or_name() {
    assert_eq!(resolve_action("9"), Some(9));
    assert_eq!(resolve_action("200"), Some(200));
    assert_eq!(resolve_action("skip_back"), Some(8));
    assert_eq!(resolve_action("dance"), None);
}
