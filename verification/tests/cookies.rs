use npipe_web::render::login::{extract_cookie, extract_cookies};
use npipe_web::resource::HttpResponse;

fn with_headers(headers: &[(&str, &str)]) -> HttpResponse {
    HttpResponse {
        ok: true,
        status: 200,
        status_text: "OK".to_string(),
        headers: headers.iter().map(|(n, v)| (n.to_string(), v.to_string())).collect(),
        bytes: Vec::new(),
    }
}

#[test]
fn attributes_are_left_out() {
    assert_eq!(
        extract_cookie("Set-Cookie", "auth-id=XYZ%2F1; HttpOnly; Path=/; Max-Age=3600"),
        Some("auth-id=XYZ%2F1".to_string())
    );
    assert_eq!(
        extract_cookies(&with_headers(&[(
            "Set-Cookie",
            "auth-id=XYZ%2F1; HttpOnly; Path=/; Max-Age=3600"
        )])),
        vec!["auth-id=XYZ%2F1".to_string()]
    );
}

#[test]
fn header_name_is_matched_without_regard_to_case() {
    for name in ["Set-Cookie", "set-cookie", "SET-COOKIE", "sEt-cOOKIE"] {
        assert_eq!(extract_cookie(name, "a=b"), Some("a=b".to_string()));
    }
    for name in ["Cookie", "Set-Cookie2", "Set_Cookie", " Set-Cookie", "", "Set-Cooki\u{212a}"] {
        assert_eq!(extract_cookie(name, "a=b"), None);
    }
}

#[test]
fn every_set_cookie_header_gives_one_cookie_in_order() {
    let response = with_headers(&[
        ("Content-Type", "text/plain; charset=utf-8"),
        ("set-cookie", "b=2; Path=/"),
        ("X-Other", "c=3"),
        ("Set-Cookie", "a=1"),
        ("SET-COOKIE", "HttpOnly"),
        ("Set-Cookie", "Secure; d=4; e=5"),
    ]);
    assert_eq!(
        extract_cookies(&response),
        vec!["b=2".to_string(), "a=1".to_string(), "d=4".to_string()]
    );
    assert!(extract_cookies(&with_headers(&[])).is_empty());
}

#[test]
fn values_the_pattern_does_not_match_give_nothing() {
    assert_eq!(extract_cookie("Set-Cookie", ""), None);
    assert_eq!(extract_cookie("Set-Cookie", "HttpOnly; Secure"), None);
    assert_eq!(extract_cookie("Set-Cookie", "=value"), None);
    assert_eq!(extract_cookie("Set-Cookie", " k=v w; x"), Some("k=v w".to_string()));
    assert_eq!(extract_cookie("Set-Cookie", "k="), Some("k=".to_string()));
    assert_eq!(extract_cookie("Set-Cookie", "a b=c"), Some("b=c".to_string()));
}
