use message_board::client::{check_response_status, ApiError};
use message_board::message::{CreateMessage, Message};
use message_board::service::{
    create_message, create_reply, get_messages, list_reply, storage_failure, HttpError, Reply,
    STATUS_BAD_REQUEST, STATUS_CREATED, STATUS_INTERNAL_SERVER_ERROR, STATUS_OK,
};
use message_board::store::{MessageStore, StoreError, RECENT_LIMIT};

fn listed(reply: &Reply) -> Vec<(u32, String)> {
    match reply {
        Reply::Messages(ms) => ms.iter().map(|m| (m.id, m.content.clone())).collect(),
        _ => panic!("expected a listing"),
    }
}

fn failure(reply: &Reply) -> (u16, String) {
    match reply {
        Reply::Failure(e) => (e.code, e.message.clone()),
        _ => panic!("expected a failure"),
    }
}

#[test]
fn list_recent_caps_at_ten_newest_first() {
    for n in [0usize, 1, 5, 9, 10, 11, 25] {
        let mut store = MessageStore::new();
        let mut last: u32 = 0;
        for k in 0..n {
            let id = match store.insert(format!("m{}", k)) {
                Ok(id) => id,
                Err(_) => panic!("insert failed"),
            };
            assert!(id > last);
            last = id;
        }
        let items = store.list_recent(RECENT_LIMIT);
        assert_eq!(items.len(), n.min(10));
        for w in items.windows(2) {
            assert!(w[0].id > w[1].id);
        }
        if n > 0 {
            assert_eq!(items[0].id, n as u32);
            assert_eq!(items[0].content, format!("m{}", n - 1));
        }
    }
}

#[test]
fn ids_count_from_one() {
    let mut store = MessageStore::new();
    assert!(matches!(store.insert("a".to_string()), Ok(1)));
    assert!(matches!(store.insert("b".to_string()), Ok(2)));
    assert!(matches!(store.insert("c".to_string()), Ok(3)));
    assert_eq!(store.len(), 3);
}

#[test]
fn insert_hello_then_list() {
    let mut store = MessageStore::new();
    store.insert("earlier".to_string()).ok();
    let id = match store.insert("hello".to_string()) {
        Ok(id) => id,
        Err(_) => panic!("insert failed"),
    };
    let items = store.list_recent(RECENT_LIMIT);
    let hello: Vec<&Message> = items.iter().filter(|m| m.content == "hello").collect();
    assert_eq!(hello.len(), 1);
    assert_eq!(hello[0].id, id);
    assert_eq!(items.iter().filter(|m| m.id == id).count(), 1);
}

#[test]
fn listing_empty_store() {
    let store = MessageStore::new();
    let reply = get_messages(&store);
    assert_eq!(reply.status(), STATUS_OK);
    assert_eq!(reply.status(), 200);
    assert!(listed(&reply).is_empty());
}

#[test]
fn put_then_get_first_is_new() {
    let mut store = MessageStore::new();
    create_message(&mut store, Ok(CreateMessage::new("old".to_string())));
    let put = create_message(&mut store, Ok(CreateMessage::new("x".to_string())));
    assert_eq!(put.status(), STATUS_CREATED);
    assert_eq!(put.status(), 201);
    let get = get_messages(&store);
    assert_eq!(get.status(), 200);
    assert_eq!(listed(&get), vec![(2, "x".to_string()), (1, "old".to_string())]);
}

#[test]
fn malformed_body_is_bad_request() {
    let mut store = MessageStore::new();
    let reply = create_message(&mut store, Err("missing field `content`".to_string()));
    assert_eq!(reply.status(), 400);
    assert_eq!(failure(&reply), (STATUS_BAD_REQUEST, "missing field `content`".to_string()));
    assert_eq!(store.len(), 0);
}

#[test]
fn broken_storage_on_get_is_500() {
    let reply = list_reply(Err("database is locked".to_string()));
    assert_eq!(reply.status(), 500);
    assert_eq!(failure(&reply), (500, "database is locked".to_string()));
}

#[test]
fn broken_storage_on_put_is_500() {
    let reply = create_reply(Err("disk I/O error".to_string()));
    assert_eq!(reply.status(), STATUS_INTERNAL_SERVER_ERROR);
    assert_eq!(failure(&reply).1, "disk I/O error");
}

#[test]
fn storage_failure_without_text_still_says_something() {
    let e = storage_failure(String::new());
    assert_eq!(e.code, 500);
    assert_eq!(e.message, "storage backend failed");
    let reply = list_reply(Err(String::new()));
    assert!(!failure(&reply).1.is_empty());
}

#[test]
fn successful_outcomes() {
    assert_eq!(create_reply(Ok(7)).status(), 201);
    let ms = vec![Message::new(3, "c".to_string()), Message::new(1, "a".to_string())];
    let reply = list_reply(Ok(ms));
    assert_eq!(listed(&reply), vec![(3, "c".to_string()), (1, "a".to_string())]);
}

#[test]
fn exhausted_ids_description() {
    assert!(!StoreError::IdsExhausted.describe().is_empty());
}

#[test]
fn http_error_constructors() {
    let e = HttpError::bad_request("bad".to_string());
    assert_eq!((e.code, e.message.as_str()), (400, "bad"));
    let e = HttpError::internal_server_error("boom".to_string());
    assert_eq!(e.code, 500);
    let (code, body) = HttpError::new(418, "teapot".to_string()).into_response();
    assert_eq!(code, 418);
    assert_eq!(body.message, "teapot");
}

#[test]
fn duplicate_keeps_fields() {
    let m = Message::new(9, "nine".to_string());
    let d = m.duplicate();
    assert_eq!((d.id, d.content), (9, "nine".to_string()));
}

#[test]
fn client_status_check() {
    assert!(check_response_status(200, String::new()).is_ok());
    assert!(check_response_status(299, "x".to_string()).is_ok());
    match check_response_status(300, "moved".to_string()) {
        Err(e) => assert_eq!(e.to_string(), "moved"),
        Ok(()) => panic!("expected an error"),
    }
    match check_response_status(500, "{\"message\":\"boom\"}".to_string()) {
        Err(e) => assert_eq!(e.message, "{\"message\":\"boom\"}"),
        Ok(()) => panic!("expected an error"),
    }
    assert_eq!(ApiError::transport().message, "系统内部错误");
}
