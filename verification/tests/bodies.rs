use npipe_web::proto::{
    LoginAck, LoginReq, PlayerListRequest, PlayerRemoveReq, PlayerUpdateReq, TunnelAddReq,
    TunnelListRequest, TunnelRemoveReq, TunnelUpdateReq, SESSION_EXPIRED_CODE,
};

fn text(body: Vec<u8>) -> String {
    String::from_utf8(body).expect("a body is text")
}

#[test]
fn login_body() {
    let req = LoginReq { username: "admin".to_string(), password: "p\"w\\".to_string() };
    assert_eq!(text(req.to_body()), r#"{"password":"p\"w\\","username":"admin"}"#);
    let read: serde_json::Value = serde_json::from_slice(&req.to_body()).unwrap();
    assert_eq!(read.get("username").and_then(|v| v.as_str()), Some("admin"));
    assert_eq!(read.get("password").and_then(|v| v.as_str()), Some("p\"w\\"));
    assert_eq!(read.as_object().map(|o| o.len()), Some(2));
}

#[test]
fn login_ack_holds_a_token() {
    let ack = LoginAck { token: "t".to_string() };
    assert_eq!(ack, LoginAck { token: "t".to_string() });
    assert_eq!(SESSION_EXPIRED_CODE, 10086);
}

#[test]
fn list_request_bodies() {
    assert_eq!(
        text(PlayerListRequest { page_number: 0, page_size: 20 }.to_body()),
        r#"{"page_number":0,"page_size":20}"#
    );
    assert_eq!(
        text(PlayerListRequest { page_number: u32::MAX, page_size: 1 }.to_body()),
        r#"{"page_number":4294967295,"page_size":1}"#
    );
    assert_eq!(
        text(TunnelListRequest { page_number: 3, page_size: 20 }.to_body()),
        r#"{"page_number":3,"page_size":20}"#
    );
}

#[test]
fn item_request_bodies() {
    assert_eq!(text(PlayerRemoveReq { id: 7 }.to_body()), r#"{"id":7}"#);
    assert_eq!(text(TunnelRemoveReq { id: 0 }.to_body()), r#"{"id":0}"#);
    assert_eq!(
        text(
            PlayerUpdateReq { id: 7, username: "ann".to_string(), password: String::new() }
                .to_body()
        ),
        r#"{"id":7,"password":"","username":"ann"}"#
    );
    let update = TunnelUpdateReq {
        id: 9,
        source: "s".to_string(),
        endpoint: "e".to_string(),
        enabled: 0,
        sender: 1,
        receiver: 2,
        description: "d\n".to_string(),
    };
    assert_eq!(
        text(update.to_body()),
        r#"{"description":"d\n","enabled":0,"endpoint":"e","id":9,"receiver":2,"sender":1,"source":"s"}"#
    );
    let add = TunnelAddReq {
        source: "s".to_string(),
        endpoint: "e".to_string(),
        enabled: 1,
        sender: 4294967295,
        receiver: 0,
        description: "\u{e9}".to_string(),
    };
    assert_eq!(
        text(add.to_body()),
        "{\"description\":\"\u{e9}\",\"enabled\":1,\"endpoint\":\"e\",\"receiver\":0,\"sender\":4294967295,\"source\":\"s\"}"
    );
}
