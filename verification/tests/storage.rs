use tamichat::db::{
    chronological, create_user_result, delivered_flag, should_mark_delivered, InsertOutcome,
    StoredMessage,
};
use tamichat::text::trim;

fn row(id: i64) -> StoredMessage {
    StoredMessage {
        id,
        from_user: "a".to_string(),
        to_user: "b".to_string(),
        content: format!("m{}", id),
        created_at: String::new(),
        delivered: 0,
    }
}

#[test]
fn history_rows_come_back_oldest_first() {
    let rows = vec![row(9), row(5), row(2)];
    let ids: Vec<i64> = chronological(rows).iter().map(|m| m.id).collect();
    assert_eq!(ids, vec![2, 5, 9]);
    assert!(chronological(Vec::new()).is_empty());
}

#[test]
fn create_user_outcomes() {
    assert_eq!(create_user_result(InsertOutcome::Inserted), Ok(()));
    assert_eq!(
        create_user_result(InsertOutcome::UniqueViolation),
        Err("用户名已被占用".to_string())
    );
    assert_eq!(
        create_user_result(InsertOutcome::Failed("disk full".to_string())),
        Err("数据库错误: disk full".to_string())
    );
}

#[test]
fn delivered_flag_values() {
    assert_eq!(delivered_flag(true), 1);
    assert_eq!(delivered_flag(false), 0);
}

#[test]
fn marking_only_when_something_was_fetched() {
    assert!(!should_mark_delivered(&Vec::new()));
    assert!(should_mark_delivered(&vec![row(1)]));
}

#[test]
fn trim_follows_unicode_white_space() {
    assert_eq!(trim("  x y  "), "x y");
    assert_eq!(trim("\u{a0}\u{2003}z\u{205f}"), "z");
    assert_eq!(trim(" \t\n"), "");
    assert_eq!(trim("\u{200b}z"), "\u{200b}z");
    assert_eq!(trim(&trim("  q  ")), "q");
}
