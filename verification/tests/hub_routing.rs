use tamichat::db::StoredMessage;
use tamichat::hub::{Delivery, Hub};
use tamichat::protocol::ServerMsg;

fn online_users(d: &Delivery) -> Vec<String> {
    match &d.msg {
        ServerMsg::OnlineUsers { users } => users.clone(),
        _ => panic!("not an online list"),
    }
}

fn system(d: &Delivery) -> String {
    match &d.msg {
        ServerMsg::System { content } => content.clone(),
        _ => panic!("not a system notice"),
    }
}

#[test]
fn joining_broadcasts_list_and_notice() {
    let mut hub = Hub::new();
    let first = hub.join("amy".to_string()).unwrap();
    assert_eq!(first.len(), 1);
    assert_eq!(first[0].to, "amy");
    assert_eq!(online_users(&first[0]), vec!["amy".to_string()]);

    let second = hub.join("ben".to_string()).unwrap();
    assert_eq!(second.len(), 3);
    assert_eq!(second[0].to, "amy");
    assert_eq!(second[1].to, "ben");
    assert_eq!(online_users(&second[1]), vec!["amy".to_string(), "ben".to_string()]);
    assert_eq!(second[2].to, "amy");
    assert_eq!(system(&second[2]), "ben 上线了");
}

#[test]
fn duplicate_join_is_refused() {
    let mut hub = Hub::new();
    hub.join("amy".to_string()).unwrap();
    assert!(hub.join("amy".to_string()).is_none());
    assert_eq!(hub.online_list(), vec!["amy".to_string()]);
}

#[test]
fn leaving_notifies_the_rest() {
    let mut hub = Hub::new();
    hub.join("amy".to_string()).unwrap();
    hub.join("ben".to_string()).unwrap();
    hub.join("cat".to_string()).unwrap();
    let d = hub.leave("ben");
    assert_eq!(hub.online_list(), vec!["amy".to_string(), "cat".to_string()]);
    assert!(!hub.is_online("ben"));
    assert_eq!(d.len(), 4);
    assert_eq!(d[0].to, "amy");
    assert_eq!(d[1].to, "cat");
    assert_eq!(system(&d[2]), "ben 下线了");
    assert_eq!(d[3].to, "cat");
}

#[test]
fn leave_undoes_join() {
    let mut hub = Hub::new();
    hub.join("amy".to_string()).unwrap();
    hub.join("ben".to_string()).unwrap();
    hub.leave("ben");
    assert_eq!(hub.online_list(), vec!["amy".to_string()]);
    let d = hub.leave("nobody");
    assert_eq!(hub.online_list(), vec!["amy".to_string()]);
    assert_eq!(d.len(), 2);
}

#[test]
fn message_to_online_user_is_delivered() {
    let mut hub = Hub::new();
    hub.join("amy".to_string()).unwrap();
    hub.join("ben".to_string()).unwrap();
    let d = hub.deliver("amy", "ben", "hi", "2024-01-01T00:00:00+00:00").unwrap();
    assert_eq!(d.to, "ben");
    match d.msg {
        ServerMsg::NewMessage { from, content, to_me, created_at } => {
            assert_eq!(from, "amy");
            assert_eq!(content, "hi");
            assert!(to_me);
            assert_eq!(created_at, "2024-01-01T00:00:00+00:00");
        }
        _ => panic!("wrong message"),
    }
    let echo = Hub::after_delivery("amy", "ben", "hi", "t", true);
    assert_eq!(echo.to, "amy");
    match echo.msg {
        ServerMsg::NewMessage { from, to_me, .. } => {
            assert_eq!(from, "amy");
            assert!(!to_me);
        }
        _ => panic!("wrong message"),
    }
}

#[test]
fn message_to_offline_user_reports_error() {
    let mut hub = Hub::new();
    hub.join("amy".to_string()).unwrap();
    assert!(hub.deliver("amy", "zed", "hi", "t").is_none());
    let e = Hub::after_delivery("amy", "zed", "hi", "t", false);
    assert_eq!(e.to, "amy");
    match e.msg {
        ServerMsg::Error { content } => assert_eq!(content, "zed 不在线"),
        _ => panic!("wrong message"),
    }
}

fn row(id: i64, from: &str, to: &str, content: &str) -> StoredMessage {
    StoredMessage {
        id,
        from_user: from.to_string(),
        to_user: to.to_string(),
        content: content.to_string(),
        created_at: format!("t{}", id),
        delivered: 1,
    }
}

#[test]
fn history_reply_marks_own_messages() {
    let rows = vec![row(1, "amy", "ben", "hello"), row(2, "ben", "amy", "yo")];
    match Hub::history_reply("amy", "ben", &rows) {
        ServerMsg::History { with, messages } => {
            assert_eq!(with, "ben");
            assert_eq!(messages.len(), 2);
            assert_eq!(messages[0].from, "amy");
            assert!(!messages[0].to_me);
            assert_eq!(messages[0].created_at, "t1");
            assert_eq!(messages[1].content, "yo");
            assert!(messages[1].to_me);
        }
        _ => panic!("wrong message"),
    }
}
