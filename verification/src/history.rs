//! Records of past queries, and the checks a record passes before it is
//! stored.
use vstd::prelude::*;

use crate::error::AppError;
use crate::text::{trim, trim_str};
use crate::width::{truncate_chars, truncate_chars_spec};

verus! {

/// The most characters of a result summary that are stored.
pub const MAX_SUMMARY_CHARS: usize = 2000;

/// How many records the interactive history drawer lists.
pub const DRAWER_HISTORY_LIMIT: usize = 100;

/// How many records the command-line history lists.
pub const CLI_HISTORY_LIMIT: usize = 50;

/// The most records that are kept besides the favorites.
pub const MAX_UNFAVORITED_HISTORY: i64 = 1000;

/// One stored query with its result summary.
#[derive(Debug)]
pub struct HistoryItem {
    pub id: i64,
    pub query: String,
    pub result_summary: String,
    pub is_favorite: bool,
    pub created_at: String,
}

impl Clone for HistoryItem {
    fn clone(&self) -> (r: HistoryItem)
        ensures
            r.id == self.id,
            r.query@ == self.query@,
            r.result_summary@ == self.result_summary@,
            r.is_favorite == self.is_favorite,
            r.created_at@ == self.created_at@,
    {
        HistoryItem {
            id: self.id,
            query: self.query.clone(),
            result_summary: self.result_summary.clone(),
            is_favorite: self.is_favorite,
            created_at: self.created_at.clone(),
        }
    }
}

/// The query and summary that are stored for a record: both trimmed, the
/// summary cut to `MAX_SUMMARY_CHARS` characters; a blank query is rejected.
pub fn prepare_record(query: &str, result_summary: &str) -> (r: Result<(String, String), AppError>)
    ensures
        r is Err <==> trim(query@).len() == 0,
        r matches Err(e) ==> (e matches AppError::InvalidInput(m) && m@ == "历史记录内容不能为空"@),
        r matches Ok((q, s)) ==> q@ == trim(query@) && s@ == truncate_chars_spec(
            trim(result_summary@),
            MAX_SUMMARY_CHARS as nat,
        ),
{
    let q = trim_str(query);
    if q.as_str().is_empty() {
        return Err(AppError::InvalidInput("历史记录内容不能为空".to_string()));
    }
    let s = trim_str(result_summary);
    let summary = truncate_chars(s.as_str(), MAX_SUMMARY_CHARS);
    Ok((q, summary))
}

} // verus!
