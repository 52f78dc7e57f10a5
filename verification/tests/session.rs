use npipe_web::app::{default_pages, reset_pages, Page, Promise, SubPage, TemplateApp};
use npipe_web::render::login::{ui, LoginFrame, LoginStatus};
use npipe_web::render::player;
use npipe_web::resource::{HttpResponse, Resource};

fn response(status: u16, body: &str) -> HttpResponse {
    HttpResponse {
        ok: (200..300).contains(&status),
        status,
        status_text: String::new(),
        headers: Vec::new(),
        bytes: body.as_bytes().to_vec(),
    }
}

fn resource(status: u16, body: &str) -> Resource {
    Resource::from_response(response(status, body), "op".to_string())
}

fn key(s: &str) -> String {
    s.to_string()
}

fn logged_in_app() -> TemplateApp {
    let mut app = TemplateApp::default();
    app.login_success(vec![key("auth-id=1")]);
    app
}

fn assert_logged_out(app: &TemplateApp) {
    assert!(!app.logged_in());
    assert!(app.cookies().is_empty());
    assert_eq!(app.promise_count(), 0);
    assert!(!app.need_check());
}

#[test]
fn login_success_sets_cookies_and_clears_requests() {
    let mut app = TemplateApp::default();
    let _ = app.http_request("stale", None, Vec::new());
    app.login_success(vec![key("auth-id=ABC"), key("other=1")]);
    assert!(app.logged_in());
    assert_eq!(app.cookies(), &vec![key("auth-id=ABC"), key("other=1")]);
    assert_eq!(app.promise_count(), 0);
    assert!(app.can_request(&key("stale")));
}

#[test]
fn logout_clears_cookies_and_requests() {
    let mut app = logged_in_app();
    let _ = app.http_request("a", None, Vec::new());
    let _ = app.http_request("b", None, Vec::new());
    app.logout();
    assert!(!app.logged_in());
    assert!(app.cookies().is_empty());
    assert_eq!(app.promise_count(), 0);
    // Once more, from the logged-out state.
    app.logout();
    assert!(!app.logged_in());
}

#[test]
fn status_401_forces_logout() {
    for body in ["", "whatever", r#"{"code":0,"msg":""}"#, "\u{0}"] {
        let mut app = logged_in_app();
        let other = app.http_request("player_list", None, Vec::new());
        let request = app.http_request("test_auth", None, Vec::new());
        app.resolve(request.ticket, Ok(resource(401, body)));
        assert!(app.need_check());
        assert!(app.logged_in());
        app.http_response_check();
        assert_logged_out(&app);
        // The request that was still in flight is an orphan now.
        app.resolve(other.ticket, Ok(resource(200, r#"{"code":0,"msg":""}"#)));
        assert_eq!(app.promise_count(), 0);
    }
}

#[test]
fn expired_code_forces_logout() {
    let mut app = logged_in_app();
    let request = app.http_request("player_list", None, Vec::new());
    app.resolve(request.ticket, Ok(resource(200, r#"{"code":10086,"msg":"expired"}"#)));
    app.http_response_check();
    assert_logged_out(&app);
}

#[test]
fn sweep_without_signal_keeps_the_session_and_marks_responses() {
    let mut app = logged_in_app();
    let a = app.http_request("a", None, Vec::new());
    let b = app.http_request("b", None, Vec::new());
    let c = app.http_request("c", None, Vec::new());
    let _pending = app.http_request("d", None, Vec::new());
    app.resolve(a.ticket, Ok(resource(200, r#"{"code":0,"msg":""}"#)));
    app.resolve(b.ticket, Ok(resource(500, r#"{"code":10086,"msg":"expired"}"#)));
    app.resolve(c.ticket, Err("no route".to_string()));
    assert!(app.need_check());
    app.http_response_check();
    assert!(!app.need_check());
    assert!(app.logged_in());
    assert_eq!(app.cookies(), &vec![key("auth-id=1")]);
    assert_eq!(app.promise_count(), 4);
    let mut looked_at = resource(200, r#"{"code":0,"msg":""}"#);
    looked_at.checked = true;
    assert_eq!(app.promise("a"), Some(&Promise { ticket: a.ticket, result: Some(Ok(looked_at)) }));
    match app.promise("b").unwrap().ready() {
        Some(Ok(r)) => assert!(r.checked),
        _ => panic!("b has a response"),
    }
    assert_eq!(app.promise("c").unwrap().ready(), Some(&Err("no route".to_string())));
    assert!(app.promise("d").unwrap().ready().is_none());
}

#[test]
fn sweep_does_nothing_while_the_flag_is_clear() {
    let mut app = logged_in_app();
    let _ = app.http_request("a", None, Vec::new());
    assert!(!app.need_check());
    app.http_response_check();
    assert!(app.logged_in());
    assert_eq!(app.promise_count(), 1);
    assert!(!app.need_check());
}

#[test]
fn sweep_runs_again_after_a_later_outcome() {
    let mut app = logged_in_app();
    let a = app.http_request("a", None, Vec::new());
    let b = app.http_request("b", None, Vec::new());
    app.resolve(a.ticket, Ok(resource(200, r#"{"code":0,"msg":""}"#)));
    app.http_response_check();
    assert!(app.logged_in());
    app.resolve(b.ticket, Ok(resource(401, "")));
    assert!(app.need_check());
    app.http_response_check();
    assert_logged_out(&app);
}

#[test]
fn orphaned_outcome_sets_the_flag_but_cannot_log_out() {
    let mut app = logged_in_app();
    let first = app.http_request("a", None, Vec::new());
    let _second = app.http_request("a", None, Vec::new());
    app.resolve(first.ticket, Ok(resource(401, "")));
    assert!(app.need_check());
    app.http_response_check();
    assert!(app.logged_in());
    assert!(!app.need_check());
    assert_eq!(app.promise_count(), 1);
}

#[test]
fn login_end_to_end() {
    let mut app = TemplateApp::default();
    let mut pages = default_pages();
    app.set_password(key("secret"));
    let LoginFrame { status, request } = ui(&mut app, &mut pages, true);
    assert_eq!(status, LoginStatus::Waiting);
    let request = request.expect("a click sends the login");
    assert_eq!(request.url, "http://127.0.0.1:8120/api/login");
    assert_eq!(request.path, "login");
    assert_eq!(request.body, br#"{"password":"secret","username":"admin"}"#.to_vec());
    // A second click while the login is in flight sends nothing.
    let frame = ui(&mut app, &mut pages, true);
    assert_eq!(frame, LoginFrame { status: LoginStatus::Waiting, request: None });

    let mut answer = response(200, r#"{"code":0,"msg":""}"#);
    answer.headers = vec![
        (key("Content-Type"), key("application/json")),
        (key("Set-Cookie"), key("auth-id=ABC; HttpOnly")),
    ];
    app.resolve(request.ticket, Ok(Resource::from_response(answer, request.path.clone())));
    let frame = ui(&mut app, &mut pages, false);
    assert_eq!(frame, LoginFrame { status: LoginStatus::LoggedIn, request: None });
    assert!(app.logged_in());
    assert_eq!(app.cookies(), &vec![key("auth-id=ABC")]);
    assert_eq!(app.promise_count(), 0);
    // The next request carries the cookie.
    let next = app.http_request("player_list", None, Vec::new());
    assert_eq!(next.headers, vec![(key("Cookie"), key("auth-id=ABC"))]);
}

#[test]
fn login_window_shows_what_went_wrong() {
    let mut app = TemplateApp::default();
    let mut pages: Vec<SubPage> = Vec::new();
    assert_eq!(
        ui(&mut app, &mut pages, false),
        LoginFrame { status: LoginStatus::Idle, request: None }
    );
    let request = ui(&mut app, &mut pages, true).request.unwrap();
    app.resolve(request.ticket, Err(String::new()));
    assert_eq!(
        ui(&mut app, &mut pages, false).status,
        LoginStatus::Error(key("Login failed"))
    );
    let request = ui(&mut app, &mut pages, true).request.unwrap();
    app.resolve(request.ticket, Err(key("dns")));
    assert_eq!(ui(&mut app, &mut pages, false).status, LoginStatus::Error(key("dns")));
    let request = ui(&mut app, &mut pages, true).request.unwrap();
    app.resolve(
        request.ticket,
        Ok(Resource::from_response(response(200, r#"{"code":1,"msg":"wrong password"}"#), key("login"))),
    );
    assert_eq!(
        ui(&mut app, &mut pages, false).status,
        LoginStatus::Error(key("code:1 (wrong password)"))
    );
    let request = ui(&mut app, &mut pages, true).request.unwrap();
    app.resolve(
        request.ticket,
        Ok(Resource::from_response(
            response(200, r#"{"players":[],"cur_page_number":0,"total_count":0}"#),
            key("player_list"),
        )),
    );
    assert_eq!(ui(&mut app, &mut pages, false).status, LoginStatus::Error(key("Unknown error")));
    assert!(!app.logged_in());
}

#[test]
fn login_makes_pages_forget() {
    let mut app = TemplateApp::default();
    let mut pages = default_pages();
    assert_eq!(pages.len(), 2);
    assert_eq!(pages[0].name, "\u{1F465}Player");
    assert_eq!(pages[1].name, "\u{1F500}Channel");
    match &mut pages[0].render {
        Page::Player(logic) => {
            logic.wait_player_list = true;
            logic.show_create_window = true;
            logic.create_data.username = key("typed");
        }
        _ => panic!("the first page shows the players"),
    }
    let request = ui(&mut app, &mut pages, true).request.unwrap();
    app.resolve(
        request.ticket,
        Ok(Resource::from_response(response(200, r#"{"code":0,"msg":""}"#), key("login"))),
    );
    assert_eq!(ui(&mut app, &mut pages, false).status, LoginStatus::LoggedIn);
    match &pages[0].render {
        Page::Player(logic) => {
            assert!(!logic.wait_player_list);
            assert!(!logic.show_create_window);
            assert_eq!(logic.create_data.username, "");
            assert!(logic.data.is_none());
            assert_eq!(logic.key_get_list, "player_list");
        }
        _ => panic!("the first page shows the players"),
    }
    assert!(matches!(pages[1].render, Page::Channel(_)));
}

#[test]
fn reset_pages_keeps_names_and_kinds() {
    let mut logic = player::Logic::new();
    logic.wait_player_list = true;
    let mut pages = vec![SubPage { name: key("p"), render: Page::Player(logic) }];
    reset_pages(&mut pages);
    assert_eq!(pages.len(), 1);
    assert_eq!(pages[0].name, "p");
    match &pages[0].render {
        Page::Player(logic) => assert!(!logic.wait_player_list),
        _ => panic!("kind changed"),
    }
}
