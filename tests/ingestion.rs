use msg_logger::batch::merge_user;
use msg_logger::config::Config;
use msg_logger::entities::users;
use msg_logger::ingest::{
    prepare_write, truncate_with_marker, with_message_id, InboundMessage, Ingestor, MAX_JSON_LEN,
    MAX_TEXT_LEN,
};
use msg_logger::text::contains_text;

fn event(text: &str, raw: &str) -> InboundMessage {
    InboundMessage {
        message_id: 77,
        user_id: 1001,
        group_id: Some(555),
        message_type: "group".to_string(),
        sub_type: "normal".to_string(),
        raw_json: raw.to_string(),
        text: Some(text.to_string()),
        nickname: Some("小明".to_string()),
        card: Some("card".to_string()),
        role: None,
        time: 1704067200,
    }
}

#[test]
fn truncation_keeps_prefix_and_adds_marker() {
    assert_eq!(truncate_with_marker("abcdef", 3), "abc...(truncated)");
    // Each of these characters takes three bytes: six bytes keep two, seven or eight too.
    assert_eq!(truncate_with_marker("你好世界", 6), "你好...(truncated)");
    assert_eq!(truncate_with_marker("你好世界", 8), "你好...(truncated)");
    assert_eq!(truncate_with_marker("你好世界", 2), "...(truncated)");
    assert_eq!(truncate_with_marker("你好世界", 12), "你好世界");
    assert_eq!(truncate_with_marker("abc", 3), "abc");
    assert_eq!(truncate_with_marker("", 0), "");
}

#[test]
fn wide_text_is_cut_by_bytes() {
    let text: String = std::iter::repeat('字').take(1400).collect();
    assert_eq!(text.len(), 4200);
    let out = truncate_with_marker(&text, MAX_TEXT_LEN);
    let kept = out.strip_suffix("...(truncated)").expect("marker");
    assert_eq!(kept.len(), 3999);
    assert!(text.starts_with(kept));
}

#[test]
fn substring_search() {
    assert!(contains_text("xx\"type\":\"at\"yy", "\"type\":\"at\""));
    assert!(!contains_text("\"type\":\"a", "\"type\":\"at\""));
    assert!(contains_text("abc", ""));
    assert!(!contains_text("", "a"));
    assert!(contains_text("今天天气", "天气"));
}

#[test]
fn message_row_fields_and_flags() {
    let raw = r#"{"message":[{"type":"image"},{"type":"reply"}]}"#;
    let w = prepare_write(&event("hello", raw), 8, 1, &vec![("hello".to_string(), 5)]);
    let m = &w.message;
    assert_eq!(m.id, 0);
    assert_eq!(m.message_id, 77);
    assert_eq!(m.user_id, 1001);
    assert_eq!(m.group_id, Some(555));
    assert_eq!(m.msg_type, "group");
    assert_eq!(m.sub_type.as_deref(), Some("normal"));
    assert_eq!(m.clean_text, "hello");
    assert_eq!(m.text_length, 5);
    assert!(m.has_image);
    assert!(!m.has_at);
    assert!(m.is_reply);
    assert_eq!(m.sender_nickname, "小明");
    assert_eq!(m.sender_card.as_deref(), Some("card"));
    assert_eq!(m.sender_role, None);
    assert_eq!(m.created_at, 1704067200);
    assert_eq!(m.hour_of_day, 8);
    assert_eq!(m.day_of_week, 1);
    assert_eq!(w.user_upsert.user_id, 1001);
    assert_eq!(w.user_upsert.nickname, "小明");
    assert_eq!(w.user_upsert.first_seen, 1704067200);
    assert_eq!(w.user_upsert.last_seen, 1704067200);
    assert_eq!(w.user_upsert.message_count, 1);
    assert_eq!(w.keywords.len(), 1);
    assert_eq!(w.keywords[0].word, "hello");
    assert_eq!(w.keywords[0].word_length, 5);
    assert_eq!(w.keywords[0].group_id, Some(555));
    assert_eq!(w.keywords[0].user_id, 1001);
    assert_eq!(w.keywords[0].message_id, 0);
}

#[test]
fn oversized_text_and_payload_are_capped() {
    let text: String = std::iter::repeat('a').take(MAX_TEXT_LEN + 10).collect();
    let raw: String = std::iter::repeat('{').take(MAX_JSON_LEN + 1).collect();
    let short_wide: String = std::iter::repeat('字').take(1400).collect();
    let w = prepare_write(&event(&short_wide, "{}"), 0, 0, &vec![]);
    assert_eq!(w.message.text_length, 1333 + 14);
    let mut ev = event(&text, &raw);
    ev.text = Some(text);
    ev.nickname = None;
    let w = prepare_write(&ev, 0, 0, &vec![]);
    assert_eq!(w.message.clean_text.chars().count(), MAX_TEXT_LEN + 14);
    assert!(w.message.clean_text.ends_with("...(truncated)"));
    assert_eq!(w.message.text_length as usize, MAX_TEXT_LEN + 14);
    assert_eq!(w.message.raw_json.chars().count(), MAX_JSON_LEN + 14);
    assert_eq!(w.message.sender_nickname, "");
}

#[test]
fn missing_text_is_stored_empty() {
    let mut ev = event("x", "{}");
    ev.text = None;
    let w = prepare_write(&ev, 3, 4, &vec![]);
    assert_eq!(w.message.clean_text, "");
    assert_eq!(w.message.text_length, 0);
    assert!(w.keywords.is_empty());
}

#[test]
fn keywords_get_owner_id() {
    let w = prepare_write(&event("a", "{}"), 0, 0, &vec![("你好".to_string(), 2), ("天气".to_string(), 2)]);
    let ks = with_message_id(&w.keywords, 99);
    assert_eq!(ks.len(), 2);
    assert!(ks.iter().all(|k| k.message_id == 99));
    assert_eq!(ks[1].word, "天气");
}

#[test]
fn end_to_end_group_message_keywords_and_count() {
    let ingestor = Ingestor::new();
    let snap = Config::default().snapshot();
    let w = ingestor.prepare(&event("你好，今天天气真好", "{}"), &snap);
    assert!(!w.keywords.is_empty());
    for k in &w.keywords {
        assert!(k.word.chars().count() >= 2);
        assert!(!snap.is_stop_word(&k.word));
        assert_eq!(k.group_id, Some(555));
    }
    assert!(w.message.hour_of_day >= 0 && w.message.hour_of_day < 24);
    assert!(w.message.day_of_week >= 0 && w.message.day_of_week < 7);
    let before = users::Model {
        user_id: 1001,
        nickname: "old".to_string(),
        first_seen: 100,
        last_seen: 200,
        message_count: 5,
    };
    let after = merge_user(Some(&before), &w.user_upsert);
    assert_eq!(after.message_count, 6);
    assert_eq!(after.nickname, "小明");
    assert_eq!(after.first_seen, 100);
    assert_eq!(after.last_seen, 1704067200);
    let fresh = merge_user(None, &w.user_upsert);
    assert_eq!(fresh.message_count, 1);
    assert_eq!(fresh.first_seen, 1704067200);
}

#[test]
fn direct_and_batched_paths_share_fields() {
    let ingestor = Ingestor::new();
    let snap = Config::default().snapshot();
    let ev = event("你好，今天天气真好", r#"[{"type":"at"}]"#);
    let a = ingestor.prepare(&ev, &snap);
    let b = ingestor.prepare(&ev, &snap);
    assert_eq!(a.message.clean_text, b.message.clean_text);
    assert_eq!(a.message.raw_json, b.message.raw_json);
    assert_eq!(a.message.hour_of_day, b.message.hour_of_day);
    assert_eq!(a.message.day_of_week, b.message.day_of_week);
    assert_eq!(a.message.has_at, b.message.has_at);
    assert!(a.message.has_at);
    let mut wa: Vec<String> = a.keywords.iter().map(|k| k.word.clone()).collect();
    let mut wb: Vec<String> = b.keywords.iter().map(|k| k.word.clone()).collect();
    wa.sort();
    wb.sort();
    assert_eq!(wa, wb);
}
