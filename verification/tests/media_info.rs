use std::collections::HashMap;

use avio_core::media_info::ChapterInfo;

fn chapter(start_time_ms: i64, end_time_ms: i64) -> ChapterInfo {
    let mut metadata = HashMap::new();
    metadata.insert(String::from("language"), String::from("eng"));
    ChapterInfo {
        index: 0,
        title: String::from("Opening"),
        start_time_ms,
        end_time_ms,
        metadata,
    }
}

#[test]
fn chapter_span_is_end_minus_start() {
    assert_eq!(chapter(1_000, 61_000).span_ms(), Some(60_000));
    assert_eq!(chapter(0, 0).span_ms(), Some(0));
}

#[test]
fn chapter_span_rejects_inverted_bounds() {
    assert_eq!(chapter(5_000, 4_000).span_ms(), None);
}

#[test]
fn chapter_span_rejects_unrepresentable_width() {
    assert_eq!(chapter(i64::MIN, i64::MAX).span_ms(), None);
}

#[test]
fn chapter_carries_its_metadata() {
    let c = chapter(0, 1000);
    assert_eq!(c.title, "Opening");
    assert_eq!(c.metadata.get("language"), Some(&String::from("eng")));
    assert_eq!(c.index, 0);
}
