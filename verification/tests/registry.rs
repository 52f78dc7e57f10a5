use npipe_web::app::{
    get_current_url, HttpRequest, MenuEvents, MenuFrame, Promise, SavedState, TemplateApp,
};
use npipe_web::resource::{HttpResponse, Resource};

fn ack(code: i32) -> Resource {
    let body = format!("{{\"code\":{},\"msg\":\"m\"}}", code);
    Resource::from_response(
        HttpResponse {
            ok: true,
            status: 200,
            status_text: "OK".to_string(),
            headers: Vec::new(),
            bytes: body.into_bytes(),
        },
        "op".to_string(),
    )
}

fn key(s: &str) -> String {
    s.to_string()
}

#[test]
fn default_app_is_logged_out_and_idle() {
    let app = TemplateApp::default();
    assert_eq!(app.api_url(), "http://127.0.0.1:8120/api/");
    assert_eq!(app.username(), "admin");
    assert_eq!(app.password(), "");
    assert!(app.is_dark_them());
    assert!(app.can_modify_api_url());
    assert!(!app.logged_in());
    assert!(app.cookies().is_empty());
    assert!(!app.need_check());
    assert_eq!(app.issued(), 0);
    assert_eq!(app.promise_count(), 0);
}

#[test]
fn can_request_is_true_without_a_promise_and_with_a_resolved_one() {
    let mut app = TemplateApp::default();
    assert!(app.can_request(&key("login")));
    let request = app.http_request("login", None, Vec::new());
    assert!(!app.can_request(&key("login")));
    assert!(app.can_request(&key("logout")));
    app.resolve(request.ticket, Ok(ack(0)));
    assert!(app.can_request(&key("login")));
    let request = app.http_request("login", None, Vec::new());
    assert!(!app.can_request(&key("login")));
    app.resolve(request.ticket, Err("down".to_string()));
    assert!(app.can_request(&key("login")));
    assert_eq!(app.promise("login").unwrap().ready(), Some(&Err("down".to_string())));
}

#[test]
fn second_submission_replaces_the_first() {
    let mut app = TemplateApp::default();
    let first = app.http_request("player_list", None, Vec::new());
    let second = app.http_request("player_list", None, Vec::new());
    assert_ne!(first.ticket, second.ticket);
    assert_eq!(app.promise_count(), 1);
    // The first outcome arrives late and is dropped.
    app.resolve(first.ticket, Ok(ack(1)));
    assert!(!app.can_request(&key("player_list")));
    assert_eq!(
        app.promise("player_list"),
        Some(&Promise { ticket: second.ticket, result: None })
    );
    app.resolve(second.ticket, Ok(ack(2)));
    assert!(app.can_request(&key("player_list")));
    assert_eq!(
        app.promise("player_list"),
        Some(&Promise { ticket: second.ticket, result: Some(Ok(ack(2))) })
    );
    // And once more, after the second: still no effect.
    app.resolve(first.ticket, Ok(ack(3)));
    assert_eq!(
        app.promise("player_list"),
        Some(&Promise { ticket: second.ticket, result: Some(Ok(ack(2))) })
    );
}

#[test]
fn outcome_for_a_cleared_promise_is_dropped() {
    let mut app = TemplateApp::default();
    let request = app.http_request("a", None, Vec::new());
    app.clear();
    assert_eq!(app.promise_count(), 0);
    app.resolve(request.ticket, Ok(ack(0)));
    assert_eq!(app.promise_count(), 0);
    assert!(app.promise("a").is_none());
    assert!(app.need_check());
    // A new request under the same key is not taken for the old one.
    let again = app.http_request("a", None, Vec::new());
    app.resolve(request.ticket, Ok(ack(0)));
    assert_eq!(app.promise("a"), Some(&Promise { ticket: again.ticket, result: None }));
}

#[test]
fn an_outcome_is_taken_only_once() {
    let mut app = TemplateApp::default();
    let request = app.http_request("a", None, Vec::new());
    app.resolve(request.ticket, Ok(ack(1)));
    app.resolve(request.ticket, Ok(ack(2)));
    assert_eq!(app.promise("a").unwrap().result, Some(Ok(ack(1))));
}

#[test]
fn keys_do_not_disturb_each_other() {
    let mut app = TemplateApp::default();
    let a = app.http_request_ex("update", key("update:1"), None, Vec::new());
    let b = app.http_request_ex("update", key("update:2"), None, Vec::new());
    assert_eq!(a.path, "update");
    assert_eq!(b.path, "update");
    assert_eq!((a.ticket, b.ticket, app.issued()), (0, 1, 2));
    assert_eq!(app.promise_count(), 2);
    app.resolve(b.ticket, Ok(ack(0)));
    assert!(!app.can_request(&key("update:1")));
    assert!(app.can_request(&key("update:2")));
    app.forget("update:2");
    assert!(app.promise("update:2").is_none());
    assert_eq!(app.promise_count(), 1);
    app.forget("nothing");
    assert_eq!(app.promise_count(), 1);
}

#[test]
fn request_address_and_headers() {
    let mut app = TemplateApp::default();
    let request = app.http_request("login", None, vec![1, 2, 3]);
    assert_eq!(
        request,
        HttpRequest {
            ticket: 0,
            method: key("POST"),
            path: key("login"),
            url: key("http://127.0.0.1:8120/api/login"),
            headers: vec![(key("Cookie"), String::new())],
            body: vec![1, 2, 3],
        }
    );
    app.set_api_url(key("https://host/base"));
    let request = app.http_request("test_auth", Some(Vec::new()), Vec::new());
    assert_eq!(request.url, "https://host/base/test_auth");
    let params = vec![(key("a"), key("1")), (key("b c"), key("d&e=\u{e9}"))];
    let request = app.http_request("find", Some(params), Vec::new());
    assert_eq!(request.url, "https://host/base/find?a=1&b+c=d%26e%3D%C3%A9");
    app.set_api_url(String::new());
    let request = app.http_request("x", None, Vec::new());
    assert_eq!(request.url, "/x");
}

#[test]
fn cookies_travel_in_one_header_where_the_transport_wants_them() {
    let mut app = TemplateApp::new(None, true, None);
    app.login_success(vec![key("a=1"), key("b=2"), key("c=3")]);
    let request = app.http_request("x", None, Vec::new());
    assert_eq!(request.headers, vec![(key("Cookie"), key("a=1; b=2; c=3"))]);
    app.login_success(vec![key("only=one")]);
    let request = app.http_request("x", None, Vec::new());
    assert_eq!(request.headers, vec![(key("Cookie"), key("only=one"))]);

    let mut browser = TemplateApp::new(None, false, Some(key("https://panel.example/api/")));
    browser.login_success(vec![key("a=1")]);
    let request = browser.http_request("x", None, Vec::new());
    assert!(request.headers.is_empty());
    assert_eq!(request.url, "https://panel.example/api/x");
    assert!(!browser.can_modify_api_url());
}

#[test]
fn saved_state_is_taken_up() {
    let saved = SavedState {
        api_url: key("http://server/api"),
        username: key("root"),
        password: key("pw"),
        is_dark_them: false,
        logged_in: true,
        cookies: vec![key("auth-id=1")],
    };
    let app = TemplateApp::new(Some(saved), true, None);
    assert_eq!(app.api_url(), "http://server/api");
    assert_eq!(app.username(), "root");
    assert_eq!(app.password(), "pw");
    assert!(!app.is_dark_them());
    assert!(app.logged_in());
    assert_eq!(app.cookies(), &vec![key("auth-id=1")]);
    assert!(app.can_modify_api_url());
    assert_eq!(
        app.saved_state(),
        SavedState {
            api_url: key("http://server/api"),
            username: key("root"),
            password: key("pw"),
            is_dark_them: false,
            logged_in: true,
            cookies: vec![key("auth-id=1")],
        }
    );
}

#[test]
fn saved_cookies_without_a_login_are_dropped() {
    let saved = SavedState {
        api_url: key("http://server/api/"),
        username: key("root"),
        password: String::new(),
        is_dark_them: true,
        logged_in: false,
        cookies: vec![key("stale=1")],
    };
    let app = TemplateApp::new(Some(saved), true, Some(key("http://page/api/")));
    assert!(!app.logged_in());
    assert!(app.cookies().is_empty());
    assert_eq!(app.api_url(), "http://page/api/");
    assert!(!app.can_modify_api_url());
}

#[test]
fn setters_change_one_field() {
    let mut app = TemplateApp::default();
    app.set_username(key("u"));
    app.set_password(key("p"));
    app.set_dark_them(false);
    app.set_api_url(key("http://h/"));
    assert_eq!(
        app.saved_state(),
        SavedState {
            api_url: key("http://h/"),
            username: key("u"),
            password: key("p"),
            is_dark_them: false,
            logged_in: false,
            cookies: Vec::new(),
        }
    );
}

#[test]
fn api_address_of_the_page() {
    assert_eq!(
        get_current_url("http://example.com:8080/index.html?x=1#frag"),
        Some(key("http://example.com:8080/api/?x=1#frag"))
    );
    assert_eq!(get_current_url("https://panel.example"), Some(key("https://panel.example/api/")));
    assert_eq!(get_current_url("not a url"), None);
    assert_eq!(get_current_url(""), None);
    let long = format!("http://example.com/{}", "a".repeat(0x10_0000));
    assert_eq!(get_current_url(&long), None);
}

#[test]
fn menu_sends_logout_once_and_test_always() {
    let mut app = TemplateApp::default();
    let both = MenuEvents { logout: true, test: true };
    let none = MenuEvents { logout: false, test: false };
    assert_eq!(app.update(&none), MenuFrame { logout: None, test: None });
    // Nobody is logged in: there is no logout to send.
    let frame = app.update(&both);
    assert_eq!(frame.logout, None);
    let test = frame.test.unwrap();
    assert_eq!((test.path.as_str(), test.method.as_str()), ("test_auth", "POST"));
    assert!(test.body.is_empty());

    app.login_success(vec![key("a=1")]);
    let frame = app.update(&both);
    let logout = frame.logout.unwrap();
    assert_eq!(logout.url, "http://127.0.0.1:8120/api/logout");
    assert_eq!(logout.headers, vec![(key("Cookie"), key("a=1"))]);
    assert!(logout.ticket < frame.test.unwrap().ticket);
    // While the logout is in flight no second one is sent.
    let frame = app.update(&both);
    assert_eq!(frame.logout, None);
    assert!(frame.test.is_some());
    app.resolve(logout.ticket, Err(key("unreachable")));
    assert!(app.update(&MenuEvents { logout: true, test: false }).logout.is_some());
}

#[test]
fn update_sweeps_before_it_looks_at_the_menu() {
    let mut app = TemplateApp::default();
    app.login_success(vec![key("a=1")]);
    let request = app.http_request("player_list", None, Vec::new());
    app.resolve(
        request.ticket,
        Ok(Resource::from_response(
            HttpResponse {
                ok: false,
                status: 401,
                status_text: String::new(),
                headers: Vec::new(),
                bytes: Vec::new(),
            },
            key("player_list"),
        )),
    );
    let frame = app.update(&MenuEvents { logout: true, test: false });
    assert_eq!(frame, MenuFrame { logout: None, test: None });
    assert!(!app.logged_in());
    assert_eq!(app.promise_count(), 0);
}
