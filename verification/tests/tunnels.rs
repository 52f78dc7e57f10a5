use npipe_web::app::TemplateApp;
use npipe_web::proto::{TunnelListItem, TunnelListResponse};
use npipe_web::render::channel;
use npipe_web::render::operation::{Cell, ItemOperation, OperationResult};
use npipe_web::render::tunnel::{ContentEvents, CreateFrame, CreateStatus, Logic, PAGE_SIZE};
use npipe_web::render::{ContentFrame, ListStatus};
use npipe_web::resource::{HttpResponse, Resource};

fn key(s: &str) -> String {
    s.to_string()
}

fn answer(path: &str, status: u16, body: &str) -> Resource {
    Resource::from_response(
        HttpResponse {
            ok: (200..300).contains(&status),
            status,
            status_text: "S".to_string(),
            headers: Vec::new(),
            bytes: body.as_bytes().to_vec(),
        },
        path.to_string(),
    )
}

fn quiet() -> ContentEvents {
    ContentEvents { retry: false, refresh: false, page: None, new_item: false }
}

fn tunnel(id: u32) -> TunnelListItem {
    TunnelListItem {
        id,
        source: format!("s{}", id),
        endpoint: format!("e{}", id),
        enabled: id % 2 == 1,
        sender: id + 1,
        receiver: id + 2,
        description: String::new(),
    }
}

fn list(ids: &[u32], page: usize, total: usize) -> TunnelListResponse {
    TunnelListResponse {
        tunnels: ids.iter().map(|id| tunnel(*id)).collect(),
        cur_page_number: page,
        total_count: total,
    }
}

fn text(body: &[u8]) -> &str {
    std::str::from_utf8(body).unwrap()
}

const ACK: &str = r#"{"code":0,"msg":""}"#;

#[test]
fn new_tunnel_page_holds_nothing() {
    let logic = Logic::new();
    assert_eq!(logic.key_get_list, "tunnel_list");
    assert_eq!(logic.key_remove_item, "remove_tunnel");
    assert_eq!(logic.key_add_item, "add_tunnel");
    assert_eq!(logic.key_update_item, "update_tunnel");
    assert_eq!(logic.item_operation_map.len(), 0);
    assert!(!logic.wait_data_list);
    assert!(logic.data.is_none());
    assert!(!logic.show_create_window);
    assert_eq!(
        (
            logic.create_data.source.as_str(),
            logic.create_data.endpoint.as_str(),
            logic.create_data.sender,
            logic.create_data.receiver,
            logic.create_data.description.as_str()
        ),
        ("", "", 0, 0, "")
    );
    assert_eq!(PAGE_SIZE, 20);
    let _channels = channel::Logic::new();
}

#[test]
fn tunnel_list_is_asked_for_and_taken_up() {
    let mut app = TemplateApp::default();
    let mut logic = Logic::new();
    let ContentFrame { status, request } = logic.render_content(&mut app, &quiet(), false);
    assert_eq!(status, ListStatus::Missing);
    let request = request.unwrap();
    assert_eq!(request.url, "http://127.0.0.1:8120/api/tunnel_list");
    assert_eq!(text(&request.body), r#"{"page_number":0,"page_size":20}"#);
    assert!(logic.wait_data_list);
    // An operation from before the list came is forgotten with the new list.
    let _ = logic.render_table(&mut app, None, Some(4));
    assert_eq!(logic.item_operation_map.len(), 1);
    app.resolve(
        request.ticket,
        Ok(answer(
            "tunnel_list",
            200,
            r#"{"cur_page_number":0,"total_count":1,"tunnels":[{"id":1,"source":"s1",
            "endpoint":"e1","enabled":true,"sender":2,"receiver":3,"description":""}]}"#,
        )),
    );
    assert_eq!(
        logic.render_content(&mut app, &quiet(), false),
        ContentFrame { status: ListStatus::Loaded, request: None }
    );
    assert_eq!(logic.data, Some(list(&[1], 0, 1)));
    assert_eq!(logic.item_operation_map.len(), 0);
    assert!(!logic.wait_data_list);
}

#[test]
fn every_error_of_the_tunnel_list_can_be_retried() {
    let mut retry = quiet();
    retry.retry = true;
    for (outcome, shown) in [
        (Ok(answer("tunnel_list", 200, r#"{"code":3,"msg":"no"}"#)), "code:3 (no)"),
        (Ok(answer("tunnel_list", 200, ACK)), "Unknown error"),
        (Ok(answer("tunnel_list", 404, "")), "status:404 (S)\nerror:        "),
        (Err(String::new()), "Request failed"),
        (Err(key("offline")), "offline"),
    ] {
        let mut app = TemplateApp::default();
        let mut logic = Logic::new();
        let request = logic.render_content(&mut app, &quiet(), false).request.unwrap();
        app.resolve(request.ticket, outcome);
        assert_eq!(
            logic.render_content(&mut app, &quiet(), false),
            ContentFrame { status: ListStatus::Failed(key(shown)), request: None }
        );
        assert!(logic.render_content(&mut app, &retry, false).request.is_some());
    }
}

#[test]
fn an_added_tunnel_asks_for_the_page_again() {
    let mut app = TemplateApp::default();
    let mut logic = Logic::new();
    let request = app.http_request("tunnel_list", None, Vec::new());
    app.resolve(request.ticket, Err(key("x")));
    logic.data = Some(list(&[1], 2, 41));
    assert_eq!(logic.render_content(&mut app, &quiet(), false).request, None);
    let request = logic.render_content(&mut app, &quiet(), true).request.unwrap();
    assert_eq!(text(&request.body), r#"{"page_number":2,"page_size":20}"#);
    app.resolve(request.ticket, Err(key("x")));
    let mut events = quiet();
    events.page = Some(0);
    let request = logic.render_content(&mut app, &events, false).request.unwrap();
    assert_eq!(text(&request.body), r#"{"page_number":0,"page_size":20}"#);
}

#[test]
fn update_of_a_tunnel_sends_its_fields() {
    let mut app = TemplateApp::default();
    let mut logic = Logic::new();
    let frame = logic.render_table(&mut app, Some(tunnel(3)), None);
    let update = frame.update.unwrap();
    assert_eq!(update.path, "update_tunnel");
    assert_eq!(
        text(&update.body),
        r#"{"description":"","enabled":1,"endpoint":"e3","id":3,"receiver":5,"sender":4,"source":"s3"}"#
    );
    let update = logic.render_table(&mut app, Some(tunnel(4)), None).update.unwrap();
    assert_eq!(
        text(&update.body),
        r#"{"description":"","enabled":0,"endpoint":"e4","id":4,"receiver":6,"sender":5,"source":"s4"}"#
    );
    assert_eq!(
        logic.item_operation_map.get("update_tunnel"),
        Some(&ItemOperation { id: 4, result: OperationResult::Wait })
    );
    assert_eq!(logic.update_cell(4), Cell::Busy);
    assert_eq!(logic.remove_cell(4), Cell::Hidden);
    assert_eq!(logic.remove_cell(3), Cell::Action);
}

#[test]
fn removal_of_a_tunnel_takes_it_out_of_the_list() {
    let mut app = TemplateApp::default();
    let mut logic = Logic::new();
    logic.data = Some(list(&[1, 2, 3], 0, 3));
    let remove = logic.render_table(&mut app, None, Some(2)).remove.unwrap();
    assert_eq!(text(&remove.body), r#"{"id":2}"#);
    assert!(!logic.busy(&mut app));
    assert_eq!(logic.remove_cell(2), Cell::Busy);
    app.resolve(remove.ticket, Ok(answer("remove_tunnel", 200, ACK)));
    assert!(!logic.busy(&mut app));
    assert_eq!(logic.data, Some(list(&[1, 3], 0, 2)));
    assert_eq!(logic.remove_cell(2), Cell::Action);
}

#[test]
fn create_window_sends_the_tunnel_and_closes_when_done() {
    let mut app = TemplateApp::default();
    let mut logic = Logic::new();
    logic.data = Some(list(&[1], 0, 1));
    // A closed window does nothing, whatever is clicked.
    assert_eq!(
        logic.render_create_window(&mut app, true, true),
        CreateFrame { status: CreateStatus::Closed, request: None, need_update_page: false }
    );
    logic.show_create_window = true;
    logic.create_data.source = key("0.0.0.0:1");
    logic.create_data.endpoint = key("h:2");
    logic.create_data.sender = 3;
    logic.create_data.receiver = 4;
    logic.create_data.description = key("d");
    assert_eq!(
        logic.render_create_window(&mut app, true, false),
        CreateFrame { status: CreateStatus::Idle, request: None, need_update_page: false }
    );
    // A window that is not enabled takes no click.
    assert_eq!(
        logic.render_create_window(&mut app, false, true),
        CreateFrame { status: CreateStatus::Idle, request: None, need_update_page: false }
    );
    let frame = logic.render_create_window(&mut app, true, true);
    assert_eq!(frame.status, CreateStatus::Waiting);
    assert!(!frame.need_update_page);
    let request = frame.request.unwrap();
    assert_eq!(request.path, "add_tunnel");
    assert_eq!(
        text(&request.body),
        r#"{"description":"d","enabled":1,"endpoint":"h:2","receiver":4,"sender":3,"source":"0.0.0.0:1"}"#
    );
    assert!(logic.busy(&mut app));
    // No second request while the first is in flight.
    assert_eq!(
        logic.render_create_window(&mut app, true, true),
        CreateFrame { status: CreateStatus::Waiting, request: None, need_update_page: false }
    );
    app.resolve(request.ticket, Ok(answer("add_tunnel", 200, ACK)));
    assert_eq!(
        logic.render_create_window(&mut app, true, false),
        CreateFrame { status: CreateStatus::Finished, request: None, need_update_page: true }
    );
    assert!(!logic.show_create_window);
    assert_eq!(logic.data, Some(list(&[1], 0, 2)));
    assert!(app.promise("add_tunnel").is_none());
    assert!(!logic.busy(&mut app));
}

#[test]
fn create_window_shows_errors_and_stays_open() {
    for (outcome, shown) in [
        (Ok(answer("add_tunnel", 200, r#"{"code":9,"msg":"dup"}"#)), "code:9 (dup)"),
        (Ok(answer("add_tunnel", 500, "")), "status:500 (S)\nerror:        "),
        (Err(String::new()), "Login failed"),
        (Err(key("offline")), "offline"),
    ] {
        let mut app = TemplateApp::default();
        let mut logic = Logic::new();
        logic.show_create_window = true;
        let request = logic.render_create_window(&mut app, true, true).request.unwrap();
        app.resolve(request.ticket, outcome);
        assert_eq!(
            logic.render_create_window(&mut app, true, false),
            CreateFrame {
                status: CreateStatus::Error(key(shown)),
                request: None,
                need_update_page: false
            }
        );
        assert!(logic.show_create_window);
        assert!(app.promise("add_tunnel").is_some());
        // The user may send the tunnel again.
        assert!(logic.render_create_window(&mut app, true, true).request.is_some());
    }
}

#[test]
fn a_full_page_is_not_loaded_again_after_an_addition() {
    let mut app = TemplateApp::default();
    let mut logic = Logic::new();
    let ids: Vec<u32> = (0..20).collect();
    logic.data = Some(list(&ids, 0, 20));
    logic.show_create_window = true;
    let request = logic.render_create_window(&mut app, true, true).request.unwrap();
    app.resolve(request.ticket, Ok(answer("add_tunnel", 200, ACK)));
    assert_eq!(
        logic.render_create_window(&mut app, true, false),
        CreateFrame { status: CreateStatus::Finished, request: None, need_update_page: false }
    );
    assert_eq!(logic.data, Some(list(&ids, 0, 21)));

    // Without a list there is nothing to count up or to load again.
    let mut logic = Logic::new();
    logic.show_create_window = true;
    let request = logic.render_create_window(&mut app, true, true).request.unwrap();
    app.resolve(request.ticket, Ok(answer("add_tunnel", 200, ACK)));
    assert_eq!(
        logic.render_create_window(&mut app, true, false),
        CreateFrame { status: CreateStatus::Finished, request: None, need_update_page: false }
    );
    assert!(logic.data.is_none());
}

#[test]
fn tunnel_count_does_not_wrap() {
    let mut app = TemplateApp::default();
    let mut logic = Logic::new();
    logic.data = Some(list(&[], 0, usize::MAX));
    logic.show_create_window = true;
    let request = logic.render_create_window(&mut app, true, true).request.unwrap();
    app.resolve(request.ticket, Ok(answer("add_tunnel", 200, ACK)));
    let frame = logic.render_create_window(&mut app, true, false);
    assert_eq!(frame.status, CreateStatus::Finished);
    assert_eq!(logic.data, Some(list(&[], 0, usize::MAX)));
}
