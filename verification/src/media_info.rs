//! Probe-report records that carry only plain values.
//!
//! The descriptive probe report itself is assembled outside the core,
//! stream by stream, from the container's metadata; the records here are
//! the parts of it the core's callers exchange as plain data.

use std::collections::HashMap;

use vstd::prelude::*;

verus! {

/// One chapter of the container: its position in the chapter list, its
/// title, its span in milliseconds, and its metadata tags.
#[derive(Debug, Clone)]
pub struct ChapterInfo {
    pub index: usize,
    pub title: String,
    pub start_time_ms: i64,
    pub end_time_ms: i64,
    pub metadata: HashMap<String, String>,
}

impl ChapterInfo {
    /// The span of the chapter, where the container reports a sane one:
    /// an end at or after the start, with a representable difference.
    pub fn span_ms(&self) -> (span: Option<i64>)
        ensures
            (self.start_time_ms <= self.end_time_ms && self.end_time_ms - self.start_time_ms
                <= i64::MAX as int) <==> (span matches Some(s) && s == self.end_time_ms
                - self.start_time_ms),
            (self.start_time_ms > self.end_time_ms || self.end_time_ms - self.start_time_ms
                > i64::MAX as int) <==> span is None,
    {
        if self.start_time_ms <= self.end_time_ms {
            self.end_time_ms.checked_sub(self.start_time_ms)
        } else {
            None
        }
    }
}

} // verus!
