use msg_logger::config::{Config, RecordMode};
use msg_logger::segment::{select_keywords, Segmenter, MAX_WORD_LENGTH};

fn words(ws: &[&str]) -> Vec<String> {
    ws.iter().map(|w| w.to_string()).collect()
}

#[test]
fn select_trims_filters_and_dedups() {
    let cands = words(&[" 你好 ", "，", "今天", "你好", "的", "ab", "a", "今天"]);
    let stops = words(&["的", "ab"]);
    let got = select_keywords(&cands, 2, &stops);
    assert_eq!(got, vec![("你好".to_string(), 2), ("今天".to_string(), 2)]);
}

#[test]
fn select_checks_stop_words_in_lowercase() {
    let cands = words(&["Hello", "World"]);
    let stops = words(&["hello"]);
    let got = select_keywords(&cands, 2, &stops);
    assert_eq!(got, vec![("World".to_string(), 5)]);
}

#[test]
fn select_drops_stop_words_as_written() {
    let cands = words(&["Hello", "World", "ok"]);
    let stops = words(&["Hello"]);
    let got = select_keywords(&cands, 2, &stops);
    assert_eq!(got, vec![("World".to_string(), 5), ("ok".to_string(), 2)]);
}

#[test]
fn select_caps_word_length() {
    let long: String = std::iter::repeat('字').take(MAX_WORD_LENGTH + 1).collect();
    let edge: String = std::iter::repeat('字').take(MAX_WORD_LENGTH).collect();
    let got = select_keywords(&vec![long, edge.clone()], 2, &vec![]);
    assert_eq!(got, vec![(edge, 20)]);
}

#[test]
fn select_of_nothing_is_empty() {
    assert!(select_keywords(&vec![], 1, &vec![]).is_empty());
}

#[test]
fn segmenter_skips_disabled_or_blank_text() {
    let seg = Segmenter::new();
    let mut cfg = Config::default();
    let snap = cfg.snapshot();
    assert!(seg.keywords("   ", &snap).is_empty());
    assert!(seg.keywords("", &snap).is_empty());
    cfg.tokenizer.enabled = false;
    let snap = cfg.snapshot();
    assert!(seg.keywords("今天天气真好", &snap).is_empty());
    assert_eq!(cfg.mode, RecordMode::Whitelist);
}

#[test]
fn segmenter_keywords_respect_filters() {
    let seg = Segmenter::new();
    let cfg = Config::default();
    let snap = cfg.snapshot();
    let ks = seg.keywords("我们今天今天去公园，我们很开心的", &snap);
    assert!(!ks.is_empty());
    for (i, (w, n)) in ks.iter().enumerate() {
        assert!(w.chars().count() >= 2);
        assert_eq!(*n as usize, w.chars().count());
        assert!(!snap.is_stop_word(w));
        for (w2, _) in ks.iter().skip(i + 1) {
            assert_ne!(w, w2);
        }
    }
}

#[test]
fn cut_covers_text() {
    let seg = Segmenter::new();
    let parts = seg.cut("今天天气真好");
    assert_eq!(parts.concat(), "今天天气真好");
}
