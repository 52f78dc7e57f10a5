//! The operations on single items of a list, and what the rows of the list
//! show for them.

use crate::app::Promise;
use crate::resource::{describe_failure, failure_text, ResponseType};
use vstd::prelude::*;

verus! {

/// The id that stands for no item.
pub const INVALID_ITEM_ID: u32 = 0xffff_ffff;

/// How an operation on an item stands.
#[derive(Debug, PartialEq, Eq)]
pub enum OperationResult {
    Idle,
    Wait,
    Error(String),
}

/// What [`OperationResult`] stands for in contracts.
pub enum OperationResultView {
    Idle,
    Wait,
    Error(Seq<char>),
}

impl View for OperationResult {
    type V = OperationResultView;

    open spec fn view(&self) -> OperationResultView {
        match self {
            OperationResult::Idle => OperationResultView::Idle,
            OperationResult::Wait => OperationResultView::Wait,
            OperationResult::Error(e) => OperationResultView::Error(e@),
        }
    }
}

/// An operation of one kind: the item that it works on, or no item where it
/// is not under way, and how it stands.
#[derive(Debug, PartialEq, Eq)]
pub struct ItemOperation {
    pub id: u32,
    pub result: OperationResult,
}

/// What [`ItemOperation`] stands for in contracts.
pub struct ItemOperationView {
    pub id: u32,
    pub result: OperationResultView,
}

impl View for ItemOperation {
    type V = ItemOperationView;

    open spec fn view(&self) -> ItemOperationView {
        ItemOperationView { id: self.id, result: self.result@ }
    }
}

/// The operation without an item.
pub open spec fn no_operation() -> ItemOperationView {
    ItemOperationView { id: INVALID_ITEM_ID, result: OperationResultView::Idle }
}

/// Whether the operation came to a good end: it is under way, and its
/// request was answered with an acknowledgment.
pub open spec fn completed(op: ItemOperationView, promise: Option<Promise>) -> bool {
    &&& op.id != INVALID_ITEM_ID
    &&& promise matches Some(p)
    &&& p.result matches Some(Ok(r))
    &&& r.response_data is GeneralResponse
}

/// How the operation stands given the promise of its request. An operation
/// that is not under way stays as it is. One whose request was answered with
/// an acknowledgment, or has no promise any more, is over. One whose request
/// failed shows the error, and one whose request is in flight waits.
pub open spec fn refreshed(op: ItemOperationView, promise: Option<Promise>) -> ItemOperationView {
    if op.id == INVALID_ITEM_ID {
        op
    } else {
        match promise {
            None => no_operation(),
            Some(p) => match p.result {
                None => ItemOperationView { id: op.id, result: OperationResultView::Wait },
                Some(Err(error)) => ItemOperationView {
                    id: op.id,
                    result: OperationResultView::Error(failure_text(error@, "Request failed"@)),
                },
                Some(Ok(r)) => match r.response_data {
                    ResponseType::GeneralResponse(_) => no_operation(),
                    ResponseType::Error(e) => ItemOperationView {
                        id: op.id,
                        result: OperationResultView::Error(e@),
                    },
                    _ => ItemOperationView {
                        id: op.id,
                        result: OperationResultView::Error("Unknown error"@),
                    },
                },
            },
        }
    }
}

impl ItemOperation {
    /// Brings the operation up to date with the promise of its request.
    /// Returns whether the operation came to a good end.
    pub fn refresh(&mut self, promise: Option<&Promise>) -> (done: bool)
        ensures
            final(self)@ == refreshed(
                old(self)@,
                match promise {
                    Some(p) => Some(*p),
                    None => None,
                },
            ),
            done == completed(
                old(self)@,
                match promise {
                    Some(p) => Some(*p),
                    None => None,
                },
            ),
    {
        if self.id == INVALID_ITEM_ID {
            return false;
        }
        match promise {
            None => {
                self.result = OperationResult::Idle;
                self.id = INVALID_ITEM_ID;
                false
            },
            Some(p) => match p.ready() {
                None => {
                    self.result = OperationResult::Wait;
                    false
                },
                Some(Err(error)) => {
                    self.result = OperationResult::Error(describe_failure(error, "Request failed"));
                    false
                },
                Some(Ok(resource)) => match &resource.response_data {
                    ResponseType::GeneralResponse(_) => {
                        self.result = OperationResult::Idle;
                        self.id = INVALID_ITEM_ID;
                        true
                    },
                    ResponseType::Error(e) => {
                        self.result = OperationResult::Error(e.clone());
                        false
                    },
                    _ => {
                        self.result = OperationResult::Error("Unknown error".to_owned());
                        false
                    },
                },
            },
        }
    }
}

/// What a row of a list shows in the place of an operation.
#[derive(Debug, PartialEq, Eq)]
pub enum Cell {
    /// The button that starts the operation.
    Action,
    /// Nothing: another item is being worked on.
    Hidden,
    /// The button to try again, and the error of the last try.
    Retry(String),
    /// A sign that the operation is under way.
    Busy,
}

/// What [`Cell`] stands for in contracts.
pub enum CellView {
    Action,
    Hidden,
    Retry(Seq<char>),
    Busy,
}

impl View for Cell {
    type V = CellView;

    open spec fn view(&self) -> CellView {
        match self {
            Cell::Action => CellView::Action,
            Cell::Hidden => CellView::Hidden,
            Cell::Retry(e) => CellView::Retry(e@),
            Cell::Busy => CellView::Busy,
        }
    }
}

/// What the row of the item `item_id` shows while the operation `op` works
/// on the same item.
pub open spec fn progress_cell(op: ItemOperationView) -> CellView {
    match op.result {
        OperationResultView::Error(message) => CellView::Retry(message),
        _ => CellView::Busy,
    }
}

/// What the row of the item `item_id` shows for the update: the button
/// while no update is under way; the progress of the update of this item;
/// nothing while another item is updated.
pub open spec fn update_cell(update: Option<ItemOperationView>, item_id: u32) -> CellView {
    match update {
        None => CellView::Action,
        Some(op) => if op.id == INVALID_ITEM_ID {
            CellView::Action
        } else if op.id != item_id {
            CellView::Hidden
        } else {
            progress_cell(op)
        },
    }
}

/// What the row of the item `item_id` shows for the removal. While no
/// removal is under way: the button, but nothing in the row of an item that
/// an update names. Else the progress of the removal of this item, and
/// nothing while another item is removed.
pub open spec fn remove_cell(
    remove: Option<ItemOperationView>,
    update: Option<ItemOperationView>,
    item_id: u32,
) -> CellView {
    if remove is None || remove.unwrap().id == INVALID_ITEM_ID {
        match update {
            Some(op) => if op.id != item_id {
                CellView::Action
            } else {
                CellView::Hidden
            },
            None => CellView::Action,
        }
    } else if remove.unwrap().id != item_id {
        CellView::Hidden
    } else {
        progress_cell(remove.unwrap())
    }
}

/// What an operation stands for in contracts, where there is one.
pub open spec fn operation_view(op: Option<ItemOperation>) -> Option<ItemOperationView> {
    match op {
        Some(o) => Some(o@),
        None => None,
    }
}

fn show_progress(op: &ItemOperation) -> (cell: Cell)
    ensures
        cell@ == progress_cell(op@),
{
    match &op.result {
        OperationResult::Error(message) => Cell::Retry(message.clone()),
        _ => Cell::Busy,
    }
}

/// Decides what the row of the item `item_id` shows for the update.
pub fn show_update(update: Option<&ItemOperation>, item_id: u32) -> (cell: Cell)
    ensures
        cell@ == update_cell(
            match update {
                Some(op) => Some(op@),
                None => None,
            },
            item_id,
        ),
{
    match update {
        None => Cell::Action,
        Some(op) => if op.id == INVALID_ITEM_ID {
            Cell::Action
        } else if op.id != item_id {
            Cell::Hidden
        } else {
            show_progress(op)
        },
    }
}

/// Decides what the row of the item `item_id` shows for the removal.
pub fn show_remove(
    remove: Option<&ItemOperation>,
    update: Option<&ItemOperation>,
    item_id: u32,
) -> (cell: Cell)
    ensures
        cell@ == remove_cell(
            match remove {
                Some(op) => Some(op@),
                None => None,
            },
            match update {
                Some(op) => Some(op@),
                None => None,
            },
            item_id,
        ),
{
    let idle = match remove {
        None => true,
        Some(op) => op.id == INVALID_ITEM_ID,
    };
    if idle {
        match update {
            Some(op) => if op.id != item_id {
                Cell::Action
            } else {
                Cell::Hidden
            },
            None => Cell::Action,
        }
    } else {
        let op = remove.unwrap();
        if op.id != item_id {
            Cell::Hidden
        } else {
            show_progress(op)
        }
    }
}

} // verus!
