//! What the pages of the panel decide: what to show for the state they are
//! in, and what to ask of the server for what the user did.

pub mod channel;
pub mod login;
pub mod operation;
pub mod player;
pub mod tunnel;

use crate::app::HttpRequest;
use crate::text::{parse_u32, u32_of};
use vstd::prelude::*;

verus! {

/// How the list of a page stands.
#[derive(Debug, PartialEq, Eq)]
pub enum ListStatus {
    /// No list was asked for.
    Missing,
    /// The list is on its way.
    Pending,
    /// The list has come.
    Loaded,
    /// The server answered with an error.
    Error(String),
    /// The request failed, and may be tried again.
    Failed(String),
}

/// What [`ListStatus`] stands for in contracts.
pub enum ListStatusView {
    Missing,
    Pending,
    Loaded,
    Error(Seq<char>),
    Failed(Seq<char>),
}

impl View for ListStatus {
    type V = ListStatusView;

    open spec fn view(&self) -> ListStatusView {
        match self {
            ListStatus::Missing => ListStatusView::Missing,
            ListStatus::Pending => ListStatusView::Pending,
            ListStatus::Loaded => ListStatusView::Loaded,
            ListStatus::Error(e) => ListStatusView::Error(e@),
            ListStatus::Failed(e) => ListStatusView::Failed(e@),
        }
    }
}

/// What the page shows for its list, and the request to send where the page
/// asks for a list.
#[derive(Debug, PartialEq, Eq)]
pub struct ContentFrame {
    pub status: ListStatus,
    pub request: Option<HttpRequest>,
}

/// The requests to send for the change and the removal of an item.
#[derive(Debug, PartialEq, Eq)]
pub struct TableFrame {
    pub update: Option<HttpRequest>,
    pub remove: Option<HttpRequest>,
}


/// The number of pages that `total_count` items fill, with `page_size` items
/// to a page; one page where there is no item.
pub open spec fn pages_for(total_count: nat, page_size: nat) -> nat {
    let full = if total_count % page_size == 0 {
        total_count / page_size
    } else {
        total_count / page_size + 1
    };
    if full == 0 {
        1
    } else {
        full
    }
}

/// The page to show where page `current` was shown last and there are
/// `page_count` pages: the last page where `current` lies behind it.
pub open spec fn page_within(current: nat, page_count: nat) -> nat {
    if current >= page_count && page_count > 0 {
        (page_count - 1) as nat
    } else {
        current
    }
}

/// Counts the pages of a list.
pub fn page_count(total_count: u64, page_size: u64) -> (count: u64)
    requires
        page_size > 0,
    ensures
        count == pages_for(total_count as nat, page_size as nat),
        count >= 1,
        (count - 1) * page_size <= total_count,
        total_count <= count * page_size,
{
    let full = total_count / page_size;
    let rest = total_count % page_size;
    assert(total_count == full * page_size + rest && full * page_size <= total_count) by (nonlinear_arith)
        requires
            full == total_count / page_size,
            rest == total_count % page_size,
            page_size > 0,
    ;
    assert(rest > 0 ==> full < u64::MAX) by (nonlinear_arith)
        requires
            total_count == full * page_size + rest,
            page_size > 0,
            full >= 0,
            total_count <= u64::MAX,
    ;
    let pages = if rest == 0 {
        full
    } else {
        full + 1
    };
    let count = if pages == 0 {
        1
    } else {
        pages
    };
    assert((count - 1) * page_size <= total_count && total_count <= count * page_size)
        by (nonlinear_arith)
        requires
            total_count == full * page_size + rest,
            0 <= rest < page_size,
            full >= 0,
            count == if rest == 0 {
                if full == 0 {
                    1
                } else {
                    full as int
                }
            } else {
                full + 1
            },
    ;
    count
}

/// Brings the page that was shown last within the pages that there are.
/// The second part of the result says whether the page changed, and so has
/// to be asked for.
pub fn clamp_page(current: u64, page_count: u64) -> (r: (u64, bool))
    ensures
        r.0 == page_within(current as nat, page_count as nat),
        page_count >= 1 ==> r.0 < page_count,
        r.1 == (r.0 != current),
        r.1 == (current >= page_count && page_count >= 1),
{
    if page_count >= 1 && page_count <= current {
        (page_count - 1, true)
    } else {
        (current, false)
    }
}

/// Takes up what the user typed into the field of a number: the number
/// that the text stands for, where it stands for one, and else the number
/// that the field held.
pub fn render_number_u32(number: &mut u32, text: &str)
    ensures
        *final(number) == match u32_of(text@) {
            Some(typed) => typed,
            None => *old(number),
        },
{
    if let Some(typed) = parse_u32(text) {
        *number = typed;
    }
}

} // verus!
