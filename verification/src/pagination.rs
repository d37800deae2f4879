//! Cursor pagination shared by the paged backend queries.

use vstd::prelude::*;

use crate::text::opt_view;

verus! {

/// A page's cursor information.
pub struct PageInfo {
    /// Whether the backend reports a further page.
    pub has_next_page: bool,
    /// The cursor after the last row of this page.
    pub end_cursor: String,
}

/// The arguments that select one page.
pub struct PageArgs {
    /// Page size.
    pub first: u32,
    /// Cursor to continue after; empty for the first page.
    pub after: String,
}

/// A protobuf timestamp.
#[derive(Debug, Clone, Copy, PartialEq, Eq, Structural)]
pub struct Timestamp {
    /// Unix seconds.
    pub seconds: i64,
    /// Nanoseconds within the second.
    pub nanos: i32,
}

/// The cursor to continue after: the page's end cursor when the backend
/// reports a further page and the cursor is not empty; otherwise the walk is
/// complete.
pub open spec fn spec_next_cursor(info: Option<PageInfo>) -> Option<Seq<char>> {
    match info {
        Some(i) => if i.has_next_page && i.end_cursor@.len() > 0 {
            Some(i.end_cursor@)
        } else {
            None
        },
        None => None,
    }
}

/// The walk continues exactly when there is page information that reports a
/// further page under a non-empty cursor, and it continues after that page's
/// end cursor.
pub proof fn law_next_cursor(info: Option<PageInfo>)
    ensures
        spec_next_cursor(info) is Some <==> (info is Some && info.unwrap().has_next_page
            && info.unwrap().end_cursor@.len() != 0),
        spec_next_cursor(info) is Some ==> spec_next_cursor(info).unwrap() == info.unwrap().end_cursor@,
{
}

/// The cursor to continue after, or `None` when the walk is complete.
pub fn next_cursor(info: &Option<PageInfo>) -> (r: Option<String>)
    ensures
        opt_view(r) == spec_next_cursor(*info),
{
    match info {
        Some(i) => if i.has_next_page && !i.end_cursor.as_str().is_empty() {
            Some(i.end_cursor.clone())
        } else {
            None
        },
        None => None,
    }
}

} // verus!
