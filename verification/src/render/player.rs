//! The page of the players: their list by pages, and the change and removal
//! of single players.

use crate::app::{AppView, Promise, TemplateApp};
use crate::proto::{
    id_json, json_body, page_json, player_update_json, PlayerListItem, PlayerListRequest,
    PlayerListResponse, PlayerListResponseView, PlayerRemoveReq, PlayerUpdateReq,
};
use crate::render::operation::{
    completed, refreshed, remove_cell, show_remove, show_update,
    update_cell, Cell, ItemOperation, ItemOperationView, OperationResult, OperationResultView,
};
use crate::render::{
    clamp_page, page_count, page_within, pages_for, ContentFrame, ListStatus, ListStatusView,
    TableFrame,
};
use crate::resource::{describe_failure, failure_text, ResponseType};
use crate::string_map::StringMap;
use vstd::prelude::*;

verus! {

/// The number of players on a page.
pub const PAGE_SIZE: u32 = 20;

/// What the window for a new player holds.
pub struct CreateData {
    pub username: String,
    pub password: String,
}

/// The state of the page of the players.
pub struct Logic {
    pub key_get_list: String,
    pub key_remove_item: String,
    pub key_add_item: String,
    pub key_update_item: String,
    /// The operations on single players, by the key of their requests.
    pub item_operation_map: StringMap<ItemOperation>,
    /// Whether the page waits for a list that it asked for.
    pub wait_player_list: bool,
    pub data: Option<PlayerListResponse>,
    pub show_create_window: bool,
    pub create_data: CreateData,
}

/// What the user did on the page since it was last shown.
pub struct ContentEvents {
    /// The button to try a failed request again was pressed.
    pub retry: bool,
    /// The button to load the list again was pressed.
    pub refresh: bool,
    /// A page was picked.
    pub page: Option<u32>,
    /// The button for a new player was pressed.
    pub new_item: bool,
}

/// How the list stands, given the promise of the request for it.
pub open spec fn list_status(promise: Option<Promise>) -> ListStatusView {
    match promise {
        None => ListStatusView::Missing,
        Some(p) => match p.result {
            None => ListStatusView::Pending,
            Some(Err(error)) => ListStatusView::Failed(failure_text(error@, "Request failed"@)),
            Some(Ok(r)) => match r.response_data {
                ResponseType::PlayerListResponse(_) => ListStatusView::Loaded,
                ResponseType::Error(e) => ListStatusView::Error(e@),
                _ => ListStatusView::Error("Unknown error"@),
            },
        },
    }
}

/// The list that a promise holds, where it holds one.
pub open spec fn list_in(promise: Option<Promise>) -> Option<PlayerListResponseView> {
    match promise {
        Some(p) => match p.result {
            Some(Ok(r)) => match r.response_data {
                ResponseType::PlayerListResponse(list) => Some(list@),
                _ => None,
            },
            _ => None,
        },
        None => None,
    }
}

/// What a list stands for in contracts, where there is one.
pub open spec fn data_view(data: Option<PlayerListResponse>) -> Option<PlayerListResponseView> {
    match data {
        Some(list) => Some(list@),
        None => None,
    }
}

/// The list that the page holds once it has looked at the promise of its
/// request: the list of the promise where the page waited for one and it
/// has come, and the list that the page held otherwise.
pub open spec fn absorbed(
    data: Option<PlayerListResponseView>,
    waiting: bool,
    promise: Option<Promise>,
) -> Option<PlayerListResponseView> {
    if waiting && list_in(promise) is Some {
        list_in(promise)
    } else {
        data
    }
}

/// The number of pages of a list.
pub open spec fn pages_of(list: PlayerListResponseView) -> nat {
    pages_for(list.total_count as nat, PAGE_SIZE as nat)
}

/// The page that the page of the players shows or asks for: the page that
/// the user picked, where there is more than one page and the pick is
/// another page than the one of the list; else the page of the list, or the
/// last page where that one lies behind it. Without a list it is the first.
pub open spec fn page_wanted(data: Option<PlayerListResponseView>, events: ContentEvents) -> nat {
    match data {
        None => 0,
        Some(list) => {
            let shown = page_within(list.cur_page_number as nat, pages_of(list));
            match events.page {
                Some(picked) => if pages_of(list) > 1 && picked < pages_of(list) && picked
                    != shown {
                    picked as nat
                } else {
                    shown
                },
                None => shown,
            }
        },
    }
}

/// Whether the page asks for a list: there is no request for one; or the
/// request failed and the user wants it tried again; or there is a list and
/// the user wants it loaded again, or the page to show is not the page of
/// the list.
pub open spec fn list_wanted(
    status: ListStatusView,
    data: Option<PlayerListResponseView>,
    events: ContentEvents,
) -> bool {
    ||| status is Missing
    ||| status is Failed && events.retry
    ||| data matches Some(list) && (events.refresh || page_wanted(data, events)
        != list.cur_page_number)
}

/// The players but the one with the id `id`.
pub open spec fn others(id: u32) -> spec_fn(PlayerListItem) -> bool {
    |p: PlayerListItem| p.id != id
}

impl Logic {
    /// The map of the operations is well formed.
    pub open spec fn wf(&self) -> bool {
        self.item_operation_map.wf()
    }

    /// The page holds nothing: no list, no operation, no window.
    pub open spec fn is_fresh(&self) -> bool {
        &&& self.item_operation_map@ == Map::<Seq<char>, ItemOperation>::empty()
        &&& !self.wait_player_list
        &&& self.data is None
        &&& !self.show_create_window
        &&& self.create_data.username@ == Seq::<char>::empty()
        &&& self.create_data.password@ == Seq::<char>::empty()
    }

    /// The operation of the kind `key`, where there is one.
    pub open spec fn operation(&self, key: Seq<char>) -> Option<ItemOperationView> {
        if self.item_operation_map@.contains_key(key) {
            Some(self.item_operation_map@[key]@)
        } else {
            None
        }
    }

    /// The page as it starts.
    pub fn new() -> (logic: Self)
        ensures
            logic.wf(),
            logic.is_fresh(),
            logic.key_get_list@ == "player_list"@,
            logic.key_remove_item@ == "remove_player"@,
            logic.key_add_item@ == "add_player"@,
            logic.key_update_item@ == "update_player"@,
    {
        Logic {
            key_get_list: "player_list".to_owned(),
            key_remove_item: "remove_player".to_owned(),
            key_add_item: "add_player".to_owned(),
            key_update_item: "update_player".to_owned(),
            item_operation_map: StringMap::new(),
            wait_player_list: false,
            data: None,
            show_create_window: false,
            create_data: CreateData { username: String::new(), password: String::new() },
        }
    }

    /// Forgets what the page holds.
    pub fn reset(&mut self)
        ensures
            final(self).wf(),
            final(self).is_fresh(),
            final(self).key_get_list == old(self).key_get_list,
            final(self).key_remove_item == old(self).key_remove_item,
            final(self).key_add_item == old(self).key_add_item,
            final(self).key_update_item == old(self).key_update_item,
    {
        self.data = None;
        self.wait_player_list = false;
        self.item_operation_map.clear();
        self.show_create_window = false;
        self.create_data = CreateData { username: String::new(), password: String::new() };
    }

    /// What the row of the player `item_id` shows for the update.
    pub fn update_cell(&self, item_id: u32) -> (cell: Cell)
        requires
            self.wf(),
        ensures
            cell@ == update_cell(self.operation(self.key_update_item@), item_id),
    {
        show_update(self.item_operation_map.get(self.key_update_item.as_str()), item_id)
    }

    /// What the row of the player `item_id` shows for the removal.
    pub fn remove_cell(&self, item_id: u32) -> (cell: Cell)
        requires
            self.wf(),
        ensures
            cell@ == remove_cell(
                self.operation(self.key_remove_item@),
                self.operation(self.key_update_item@),
                item_id,
            ),
    {
        show_remove(
            self.item_operation_map.get(self.key_remove_item.as_str()),
            self.item_operation_map.get(self.key_update_item.as_str()),
            item_id,
        )
    }

    /// How the list stands.
    pub fn list_status(&self, app: &TemplateApp) -> (status: ListStatus)
        requires
            app.wf(),
        ensures
            status@ == list_status(app@.slot(self.key_get_list@)),
    {
        match app.promise(self.key_get_list.as_str()) {
            None => ListStatus::Missing,
            Some(promise) => match promise.ready() {
                None => ListStatus::Pending,
                Some(Err(error)) => ListStatus::Failed(describe_failure(error, "Request failed")),
                Some(Ok(resource)) => match &resource.response_data {
                    ResponseType::PlayerListResponse(_) => ListStatus::Loaded,
                    ResponseType::Error(e) => ListStatus::Error(e.clone()),
                    _ => ListStatus::Error("Unknown error".to_owned()),
                },
            },
        }
    }

    /// Takes up the list where the page waited for one and it has come.
    fn absorb(&mut self, app: &TemplateApp)
        requires
            app.wf(),
        ensures
            data_view(final(self).data) == absorbed(
                data_view(old(self).data),
                old(self).wait_player_list,
                app@.slot(old(self).key_get_list@),
            ),
            final(self).wait_player_list == (old(self).wait_player_list && list_in(
                app@.slot(old(self).key_get_list@),
            ) is None),
            final(self).key_get_list == old(self).key_get_list,
            final(self).key_remove_item == old(self).key_remove_item,
            final(self).key_add_item == old(self).key_add_item,
            final(self).key_update_item == old(self).key_update_item,
            final(self).item_operation_map == old(self).item_operation_map,
            final(self).show_create_window == old(self).show_create_window,
            final(self).create_data == old(self).create_data,
    {
        if self.wait_player_list {
            if let Some(promise) = app.promise(self.key_get_list.as_str()) {
                if let Some(Ok(resource)) = promise.ready() {
                    if let ResponseType::PlayerListResponse(list) = &resource.response_data {
                        self.wait_player_list = false;
                        self.data = Some(list.clone());
                    }
                }
            }
        }
    }

    /// The page to show or to ask for, given what the user did.
    fn choose_page(&self, events: &ContentEvents) -> (page: u32)
        ensures
            page == page_wanted(data_view(self.data), *events),
    {
        match &self.data {
            None => 0,
            Some(list) => {
                let count = page_count(list.total_count as u64, PAGE_SIZE as u64);
                let (shown, _) = clamp_page(list.cur_page_number as u64, count);
                match events.page {
                    Some(picked) => if count > 1 && (picked as u64) < count && picked as u64
                        != shown {
                        picked
                    } else {
                        shown as u32
                    },
                    None => shown as u32,
                }
            },
        }
    }

    /// One step of the page's content: takes up a list that has come, and
    /// asks for a list where one is wanted. The result says how the list
    /// stood before the step, and holds the request to send.
    pub fn render_content(&mut self, app: &mut TemplateApp, events: &ContentEvents) -> (frame:
        ContentFrame)
        requires
            old(self).wf(),
            old(app).wf(),
            old(app)@.issued < u64::MAX,
        ensures
            final(self).wf(),
            final(app).wf(),
            final(self).key_get_list == old(self).key_get_list,
            final(self).key_remove_item == old(self).key_remove_item,
            final(self).key_add_item == old(self).key_add_item,
            final(self).key_update_item == old(self).key_update_item,
            final(self).item_operation_map == old(self).item_operation_map,
            final(self).create_data == old(self).create_data,
            frame.status@ == list_status(old(app)@.slot(old(self).key_get_list@)),
            data_view(final(self).data) == absorbed(
                data_view(old(self).data),
                old(self).wait_player_list,
                old(app)@.slot(old(self).key_get_list@),
            ),
            final(self).show_create_window == (old(self).show_create_window || (final(self).data
                is Some && events.new_item)),
            ({
                let wanted = list_wanted(frame.status@, data_view(final(self).data), *events);
                let page = page_wanted(data_view(final(self).data), *events);
                if wanted {
                    &&& final(self).wait_player_list
                    &&& final(app)@ == old(app)@.submit(old(self).key_get_list@)
                    &&& frame.request matches Some(request)
                    &&& old(app)@.describes(
                        request,
                        old(self).key_get_list@,
                        None,
                        json_body(page_json(page as int, PAGE_SIZE as int)),
                    )
                } else {
                    &&& final(self).wait_player_list == (old(self).wait_player_list && list_in(
                        old(app)@.slot(old(self).key_get_list@),
                    ) is None)
                    &&& final(app)@ == old(app)@
                    &&& frame.request is None
                }
            }),
    {
        let status = self.list_status(app);
        self.absorb(app);
        let mut need_request = match &status {
            ListStatus::Missing => true,
            ListStatus::Failed(_) => events.retry,
            _ => false,
        };
        let page = self.choose_page(events);
        if let Some(list) = &self.data {
            if events.refresh || page != list.cur_page_number {
                need_request = true;
            }
            if events.new_item {
                self.show_create_window = true;
            }
        }
        let request = if need_request {
            let body = PlayerListRequest { page_number: page, page_size: PAGE_SIZE }.to_body();
            let request = app.http_request(self.key_get_list.as_str(), None, body);
            self.wait_player_list = true;
            Some(request)
        } else {
            None
        };
        ContentFrame { status, request }
    }

    /// The player whose removal came to a good end, where one did.
    pub open spec fn removed(&self, app: AppView) -> Option<u32> {
        match self.operation(self.key_remove_item@) {
            Some(op) => if completed(op, app.slot(self.key_remove_item@)) {
                Some(op.id)
            } else {
                None
            },
            None => None,
        }
    }

    /// Brings the operations on single players up to date with the promises
    /// of their requests, and takes a player whose removal came to a good
    /// end out of the list. Returns whether the page is busy: whether the
    /// request for the list or the one for a new player is in flight.
    pub fn busy(&mut self, app: &mut TemplateApp) -> (r: bool)
        requires
            old(self).wf(),
            old(app).wf(),
        ensures
            final(self).wf(),
            *final(app) == *old(app),
            r == (!old(app)@.can_request(old(self).key_get_list@) || !old(app)@.can_request(
                old(self).key_add_item@,
            )),
            final(self).key_get_list == old(self).key_get_list,
            final(self).key_remove_item == old(self).key_remove_item,
            final(self).key_add_item == old(self).key_add_item,
            final(self).key_update_item == old(self).key_update_item,
            final(self).wait_player_list == old(self).wait_player_list,
            final(self).show_create_window == old(self).show_create_window,
            final(self).create_data == old(self).create_data,
            forall|key: Seq<char>| #[trigger]
                final(self).operation(key) == match old(self).operation(key) {
                    Some(op) => Some(refreshed(op, old(app)@.slot(key))),
                    None => None,
                },
            match (old(self).removed(old(app)@), old(self).data) {
                (Some(id), Some(list)) => final(self).data matches Some(rest) && rest.players@
                    == list.players@.filter(others(id)) && rest.cur_page_number
                    == list.cur_page_number && rest.total_count == if list.total_count > 0 {
                    (list.total_count - 1) as u32
                } else {
                    0
                },
                _ => final(self).data == old(self).data,
            },
    {
        let ghost keys = self.item_operation_map.keys();
        let ghost before = self.item_operation_map.values();
        let ghost slots = app@;
        let ghost key_remove = self.key_remove_item@;
        let n = self.item_operation_map.len();
        let mut removed_id: Option<u32> = None;
        let mut i: usize = 0;
        while i < n
            invariant
                i <= n,
                n == keys.len(),
                n == before.len(),
                app.wf(),
                app@ == slots,
                self.item_operation_map.wf(),
                self.item_operation_map.keys() == keys,
                self.item_operation_map.values().len() == n,
                forall|j: int|
                    0 <= j < i ==> (#[trigger] self.item_operation_map.values()[j])@ == refreshed(
                        before[j]@,
                        slots.slot(keys[j]),
                    ),
                forall|j: int| i <= j < n ==> self.item_operation_map.values()[j] == before[j],
                match removed_id {
                    Some(id) => exists|j: int|
                        0 <= j < i && #[trigger] keys[j] == key_remove && completed(
                            before[j]@,
                            slots.slot(key_remove),
                        ) && before[j].id == id,
                    None => forall|j: int|
                        0 <= j < i ==> !(#[trigger] keys[j] == key_remove && completed(
                            before[j]@,
                            slots.slot(key_remove),
                        )),
                },
                self.key_get_list == old(self).key_get_list,
                self.key_remove_item == old(self).key_remove_item,
                self.key_remove_item@ == key_remove,
                self.key_add_item == old(self).key_add_item,
                self.key_update_item == old(self).key_update_item,
                self.wait_player_list == old(self).wait_player_list,
                self.show_create_window == old(self).show_create_window,
                self.create_data == old(self).create_data,
                self.data == old(self).data,
            decreases n - i,
        {
            let key = self.item_operation_map.key_at(i).clone();
            let is_removal = key == self.key_remove_item;
            let promise = app.promise(key.as_str());
            let operation = self.item_operation_map.value_at_mut(i);
            let id = operation.id;
            let done = operation.refresh(promise);
            if done && is_removal {
                removed_id = Some(id);
            }
            i = i + 1;
        }
        if let Some(id) = removed_id {
            if let Some(list) = &mut self.data {
                let rest = without_player(&list.players, id);
                list.players = rest;
                if list.total_count > 0 {
                    list.total_count = list.total_count - 1;
                }
            }
        }
        let list_free = app.can_request(&self.key_get_list);
        let add_free = app.can_request(&self.key_add_item);
        !list_free || !add_free
    }

    /// Starts what the user asked for in the rows of the list: the change of
    /// a player, the removal of a player, or both.
    pub fn render_table(
        &mut self,
        app: &mut TemplateApp,
        update: Option<PlayerListItem>,
        remove: Option<u32>,
    ) -> (frame: TableFrame)
        requires
            old(self).wf(),
            old(app).wf(),
            old(app)@.issued + 2 <= u64::MAX,
        ensures
            final(self).wf(),
            final(app).wf(),
            final(self).key_get_list == old(self).key_get_list,
            final(self).key_remove_item == old(self).key_remove_item,
            final(self).key_add_item == old(self).key_add_item,
            final(self).key_update_item == old(self).key_update_item,
            final(self).wait_player_list == old(self).wait_player_list,
            final(self).data == old(self).data,
            final(self).show_create_window == old(self).show_create_window,
            final(self).create_data == old(self).create_data,
            ({
                let key_update = old(self).key_update_item@;
                let key_remove = old(self).key_remove_item@;
                let app1 = match update {
                    Some(_) => old(app)@.submit(key_update),
                    None => old(app)@,
                };
                let app2 = match remove {
                    Some(_) => app1.submit(key_remove),
                    None => app1,
                };
                &&& final(app)@ == app2
                &&& match update {
                    Some(item) => frame.update matches Some(request) && old(app)@.describes(
                        request,
                        key_update,
                        None,
                        json_body(player_update_json(item.id as int, item.username@, item.password@)),
                    ),
                    None => frame.update is None,
                }
                &&& match remove {
                    Some(id) => frame.remove matches Some(request) && app1.describes(
                        request,
                        key_remove,
                        None,
                        json_body(id_json(id as int)),
                    ),
                    None => frame.remove is None,
                }
                &&& forall|key: Seq<char>| #[trigger]
                    final(self).operation(key) == if remove is Some && key == key_remove {
                        Some(
                            ItemOperationView {
                                id: remove.unwrap(),
                                result: OperationResultView::Wait,
                            },
                        )
                    } else if update is Some && key == key_update {
                        Some(
                            ItemOperationView {
                                id: update.unwrap().id,
                                result: OperationResultView::Wait,
                            },
                        )
                    } else {
                        old(self).operation(key)
                    }
            }),
    {
        let update_request = match update {
            Some(info) => {
                self.item_operation_map.insert(
                    self.key_update_item.clone(),
                    ItemOperation { id: info.id, result: OperationResult::Wait },
                );
                let body = PlayerUpdateReq {
                    id: info.id,
                    username: info.username,
                    password: info.password,
                }.to_body();
                Some(app.http_request(self.key_update_item.as_str(), None, body))
            },
            None => None,
        };
        let remove_request = match remove {
            Some(id) => {
                self.item_operation_map.insert(
                    self.key_remove_item.clone(),
                    ItemOperation { id, result: OperationResult::Wait },
                );
                let body = PlayerRemoveReq { id }.to_body();
                Some(app.http_request(self.key_remove_item.as_str(), None, body))
            },
            None => None,
        };
        TableFrame { update: update_request, remove: remove_request }
    }
}

/// The players of a list but the one with the id `id`.
fn without_player(players: &Vec<PlayerListItem>, id: u32) -> (rest: Vec<PlayerListItem>)
    ensures
        rest@ == players@.filter(others(id)),
{
    let mut rest: Vec<PlayerListItem> = Vec::new();
    let mut i: usize = 0;
    while i < players.len()
        invariant
            i <= players.len(),
            rest@ == players@.take(i as int).filter(others(id)),
        decreases players.len() - i,
    {
        proof {
            reveal(Seq::filter);
            assert(players@.take(i + 1).drop_last() =~= players@.take(i as int));
        }
        if players[i].id != id {
            rest.push(players[i].clone());
        }
        i = i + 1;
    }
    assert(players@.take(players.len() as int) =~= players@);
    rest
}

} // verus!
