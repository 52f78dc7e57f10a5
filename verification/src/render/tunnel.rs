//! The page of the tunnels: their list by pages, and the addition, change
//! and removal of single tunnels.

use crate::app::{AppView, HttpRequest, Promise, TemplateApp};
use crate::json::Json;
use crate::proto::{
    id_json, json_body, page_json, tunnel_members, TunnelAddReq, TunnelListItem,
    TunnelListRequest, TunnelListResponse, TunnelListResponseView, TunnelRemoveReq,
    TunnelUpdateReq,
};
use crate::render::operation::{
    completed, refreshed, remove_cell, show_remove, show_update,
    update_cell, Cell, ItemOperation, ItemOperationView, OperationResult, OperationResultView,
};
use crate::render::{
    clamp_page, page_count, page_within, pages_for, ContentFrame, ListStatus, ListStatusView,
    TableFrame,
};
use crate::resource::{describe_failure, failure_text, ResponseType};
use crate::string_map::StringMap;
use vstd::prelude::*;

verus! {

/// The number of tunnels on a page.
pub const PAGE_SIZE: usize = 20;

/// What the window for a new tunnel holds.
pub struct CreateData {
    pub source: String,
    pub endpoint: String,
    pub sender: u32,
    pub receiver: u32,
    pub description: String,
}

/// The state of the page of the tunnels.
pub struct Logic {
    pub key_get_list: String,
    pub key_remove_item: String,
    pub key_add_item: String,
    pub key_update_item: String,
    /// The operations on single tunnels, by the key of their requests.
    pub item_operation_map: StringMap<ItemOperation>,
    /// Whether the page waits for a list that it asked for.
    pub wait_data_list: bool,
    pub data: Option<TunnelListResponse>,
    pub show_create_window: bool,
    pub create_data: CreateData,
}

/// What the user did on the page since it was last shown.
pub struct ContentEvents {
    /// The button to try a failed request again was pressed.
    pub retry: bool,
    /// The button to load the list again was pressed.
    pub refresh: bool,
    /// A page was picked.
    pub page: Option<usize>,
    /// The button for a new tunnel was pressed.
    pub new_item: bool,
}

/// How the addition of a tunnel stands.
#[derive(Debug, PartialEq, Eq)]
pub enum CreateStatus {
    /// The window for a new tunnel is not shown.
    Closed,
    /// No tunnel was sent to be added.
    Idle,
    /// The request to add the tunnel is in flight.
    Waiting,
    /// The tunnel was not added.
    Error(String),
    /// The tunnel was added.
    Finished,
}

/// What [`CreateStatus`] stands for in contracts.
pub enum CreateStatusView {
    Closed,
    Idle,
    Waiting,
    Error(Seq<char>),
    Finished,
}

impl View for CreateStatus {
    type V = CreateStatusView;

    open spec fn view(&self) -> CreateStatusView {
        match self {
            CreateStatus::Closed => CreateStatusView::Closed,
            CreateStatus::Idle => CreateStatusView::Idle,
            CreateStatus::Waiting => CreateStatusView::Waiting,
            CreateStatus::Error(e) => CreateStatusView::Error(e@),
            CreateStatus::Finished => CreateStatusView::Finished,
        }
    }
}

/// What the window for a new tunnel shows, the request to send where the
/// user sent a tunnel to be added, and whether the page that is shown has to
/// be loaded again.
#[derive(Debug, PartialEq, Eq)]
pub struct CreateFrame {
    pub status: CreateStatus,
    pub request: Option<HttpRequest>,
    pub need_update_page: bool,
}

/// How the addition of a tunnel stands, given the promise of its request.
pub open spec fn create_status(promise: Option<Promise>) -> CreateStatusView {
    match promise {
        None => CreateStatusView::Idle,
        Some(p) => match p.result {
            None => CreateStatusView::Waiting,
            Some(Err(error)) => CreateStatusView::Error(failure_text(error@, "Login failed"@)),
            Some(Ok(r)) => match r.response_data {
                ResponseType::GeneralResponse(_) => CreateStatusView::Finished,
                ResponseType::Error(e) => CreateStatusView::Error(e@),
                _ => CreateStatusView::Error("Unknown error"@),
            },
        },
    }
}

/// The JSON value of the request to add the tunnel that the window holds.
pub open spec fn create_json(create_data: CreateData) -> Json {
    Json::Object(
        tunnel_members(
            create_data.source@,
            create_data.endpoint@,
            1,
            create_data.sender as int,
            create_data.receiver as int,
            create_data.description@,
        ),
    )
}

/// The list after one tunnel was added on the server: it counts one more.
pub open spec fn counted_up(list: TunnelListResponse) -> TunnelListResponse {
    TunnelListResponse {
        tunnels: list.tunnels,
        cur_page_number: list.cur_page_number,
        total_count: if list.total_count < usize::MAX {
            (list.total_count + 1) as usize
        } else {
            list.total_count
        },
    }
}

/// How the list stands, given the promise of the request for it.
pub open spec fn list_status(promise: Option<Promise>) -> ListStatusView {
    match promise {
        None => ListStatusView::Missing,
        Some(p) => match p.result {
            None => ListStatusView::Pending,
            Some(Err(error)) => ListStatusView::Failed(failure_text(error@, "Request failed"@)),
            Some(Ok(r)) => match r.response_data {
                ResponseType::TunnelListResponse(_) => ListStatusView::Loaded,
                ResponseType::Error(e) => ListStatusView::Failed(e@),
                _ => ListStatusView::Failed("Unknown error"@),
            },
        },
    }
}

/// The list that a promise holds, where it holds one.
pub open spec fn list_in(promise: Option<Promise>) -> Option<TunnelListResponseView> {
    match promise {
        Some(p) => match p.result {
            Some(Ok(r)) => match r.response_data {
                ResponseType::TunnelListResponse(list) => Some(list@),
                _ => None,
            },
            _ => None,
        },
        None => None,
    }
}

/// What a list stands for in contracts, where there is one.
pub open spec fn data_view(data: Option<TunnelListResponse>) -> Option<TunnelListResponseView> {
    match data {
        Some(list) => Some(list@),
        None => None,
    }
}

/// The list that the page holds once it has looked at the promise of its
/// request: the list of the promise where the page waited for one and it
/// has come, and the list that the page held otherwise.
pub open spec fn absorbed(
    data: Option<TunnelListResponseView>,
    waiting: bool,
    promise: Option<Promise>,
) -> Option<TunnelListResponseView> {
    if waiting && list_in(promise) is Some {
        list_in(promise)
    } else {
        data
    }
}

/// The number of pages of a list.
pub open spec fn pages_of(list: TunnelListResponseView) -> nat {
    pages_for(list.total_count as nat, PAGE_SIZE as nat)
}

/// The page that the page of the tunnels shows or asks for: the page that
/// the user picked, where there is more than one page and the pick is
/// another page than the one of the list; else the page of the list, or the
/// last page where that one lies behind it. Without a list it is the first.
pub open spec fn page_wanted(data: Option<TunnelListResponseView>, events: ContentEvents) -> nat {
    match data {
        None => 0,
        Some(list) => {
            let shown = page_within(list.cur_page_number as nat, pages_of(list));
            match events.page {
                Some(picked) => if pages_of(list) > 1 && picked < pages_of(list) && picked
                    != shown {
                    picked as nat
                } else {
                    shown
                },
                None => shown,
            }
        },
    }
}

/// Whether the page asks for a list: a tunnel was added to the page that is
/// shown; or there is no request for a list; or the request failed and the
/// user wants it tried again; or there is a list and the user wants it
/// loaded again, or the page to show is not the page of the list.
pub open spec fn list_wanted(
    status: ListStatusView,
    data: Option<TunnelListResponseView>,
    events: ContentEvents,
    need_update_page: bool,
) -> bool {
    ||| need_update_page
    ||| status is Missing
    ||| status is Failed && events.retry
    ||| data matches Some(list) && (events.refresh || page_wanted(data, events)
        != list.cur_page_number)
}

/// The JSON value of the request to change a tunnel to what `item` holds.
pub open spec fn update_json(item: TunnelListItem) -> Json {
    Json::Object(
        tunnel_members(
            item.source@,
            item.endpoint@,
            if item.enabled {
                1
            } else {
                0
            },
            item.sender as int,
            item.receiver as int,
            item.description@,
        ).insert("id"@, Json::Int(item.id as int)),
    )
}

/// The tunnels but the one with the id `id`.
pub open spec fn others(id: u32) -> spec_fn(TunnelListItem) -> bool {
    |p: TunnelListItem| p.id != id
}

impl Logic {
    /// The map of the operations is well formed.
    pub open spec fn wf(&self) -> bool {
        self.item_operation_map.wf()
    }

    /// The page holds nothing: no list, no operation, no window.
    pub open spec fn is_fresh(&self) -> bool {
        &&& self.item_operation_map@ == Map::<Seq<char>, ItemOperation>::empty()
        &&& !self.wait_data_list
        &&& self.data is None
        &&& !self.show_create_window
        &&& self.create_data.source@ == Seq::<char>::empty()
        &&& self.create_data.endpoint@ == Seq::<char>::empty()
        &&& self.create_data.sender == 0
        &&& self.create_data.receiver == 0
        &&& self.create_data.description@ == Seq::<char>::empty()
    }

    /// The operation of the kind `key`, where there is one.
    pub open spec fn operation(&self, key: Seq<char>) -> Option<ItemOperationView> {
        if self.item_operation_map@.contains_key(key) {
            Some(self.item_operation_map@[key]@)
        } else {
            None
        }
    }

    /// The page as it starts.
    pub fn new() -> (logic: Self)
        ensures
            logic.wf(),
            logic.is_fresh(),
            logic.key_get_list@ == "tunnel_list"@,
            logic.key_remove_item@ == "remove_tunnel"@,
            logic.key_add_item@ == "add_tunnel"@,
            logic.key_update_item@ == "update_tunnel"@,
    {
        Logic {
            key_get_list: "tunnel_list".to_owned(),
            key_remove_item: "remove_tunnel".to_owned(),
            key_add_item: "add_tunnel".to_owned(),
            key_update_item: "update_tunnel".to_owned(),
            item_operation_map: StringMap::new(),
            wait_data_list: false,
            data: None,
            show_create_window: false,
            create_data: CreateData {
                source: String::new(),
                endpoint: String::new(),
                sender: 0,
                receiver: 0,
                description: String::new(),
            },
        }
    }

    /// Forgets what the page holds.
    pub fn reset(&mut self)
        ensures
            final(self).wf(),
            final(self).is_fresh(),
            final(self).key_get_list == old(self).key_get_list,
            final(self).key_remove_item == old(self).key_remove_item,
            final(self).key_add_item == old(self).key_add_item,
            final(self).key_update_item == old(self).key_update_item,
    {
        self.data = None;
        self.wait_data_list = false;
        self.item_operation_map.clear();
        self.show_create_window = false;
        self.create_data = CreateData {
            source: String::new(),
            endpoint: String::new(),
            sender: 0,
            receiver: 0,
            description: String::new(),
        };
    }

    /// What the row of the tunnel `item_id` shows for the update.
    pub fn update_cell(&self, item_id: u32) -> (cell: Cell)
        requires
            self.wf(),
        ensures
            cell@ == update_cell(self.operation(self.key_update_item@), item_id),
    {
        show_update(self.item_operation_map.get(self.key_update_item.as_str()), item_id)
    }

    /// What the row of the tunnel `item_id` shows for the removal.
    pub fn remove_cell(&self, item_id: u32) -> (cell: Cell)
        requires
            self.wf(),
        ensures
            cell@ == remove_cell(
                self.operation(self.key_remove_item@),
                self.operation(self.key_update_item@),
                item_id,
            ),
    {
        show_remove(
            self.item_operation_map.get(self.key_remove_item.as_str()),
            self.item_operation_map.get(self.key_update_item.as_str()),
            item_id,
        )
    }

    /// How the list stands.
    pub fn list_status(&self, app: &TemplateApp) -> (status: ListStatus)
        requires
            app.wf(),
        ensures
            status@ == list_status(app@.slot(self.key_get_list@)),
    {
        match app.promise(self.key_get_list.as_str()) {
            None => ListStatus::Missing,
            Some(promise) => match promise.ready() {
                None => ListStatus::Pending,
                Some(Err(error)) => ListStatus::Failed(describe_failure(error, "Request failed")),
                Some(Ok(resource)) => match &resource.response_data {
                    ResponseType::TunnelListResponse(_) => ListStatus::Loaded,
                    ResponseType::Error(e) => ListStatus::Failed(e.clone()),
                    _ => ListStatus::Failed("Unknown error".to_owned()),
                },
            },
        }
    }

    /// Takes up the list where the page waited for one and it has come; the
    /// operations on single tunnels are then forgotten.
    fn absorb(&mut self, app: &TemplateApp)
        requires
            old(self).wf(),
            app.wf(),
        ensures
            data_view(final(self).data) == absorbed(
                data_view(old(self).data),
                old(self).wait_data_list,
                app@.slot(old(self).key_get_list@),
            ),
            final(self).wait_data_list == (old(self).wait_data_list && list_in(
                app@.slot(old(self).key_get_list@),
            ) is None),
            final(self).key_get_list == old(self).key_get_list,
            final(self).key_remove_item == old(self).key_remove_item,
            final(self).key_add_item == old(self).key_add_item,
            final(self).key_update_item == old(self).key_update_item,
            final(self).item_operation_map.wf(),
            if old(self).wait_data_list && list_in(app@.slot(old(self).key_get_list@)) is Some {
                final(self).item_operation_map@ == Map::<Seq<char>, ItemOperation>::empty()
            } else {
                final(self).item_operation_map == old(self).item_operation_map
            },
            final(self).show_create_window == old(self).show_create_window,
            final(self).create_data == old(self).create_data,
    {
        if self.wait_data_list {
            if let Some(promise) = app.promise(self.key_get_list.as_str()) {
                if let Some(Ok(resource)) = promise.ready() {
                    if let ResponseType::TunnelListResponse(list) = &resource.response_data {
                        self.wait_data_list = false;
                        self.data = Some(list.clone());
                        self.item_operation_map.clear();
                    }
                }
            }
        }
    }

    /// The page to show or to ask for, given what the user did.
    fn choose_page(&self, events: &ContentEvents) -> (page: usize)
        ensures
            page == page_wanted(data_view(self.data), *events),
    {
        match &self.data {
            None => 0,
            Some(list) => {
                let count = page_count(list.total_count as u64, PAGE_SIZE as u64);
                let (shown, _) = clamp_page(list.cur_page_number as u64, count);
                assert(shown <= usize::MAX) by (nonlinear_arith)
                    requires
                        (count - 1) * PAGE_SIZE <= list.total_count,
                        shown < count,
                        shown >= 0,
                        PAGE_SIZE == 20,
                        list.total_count <= usize::MAX,
                ;
                match events.page {
                    Some(picked) => if count > 1 && (picked as u64) < count && picked as u64
                        != shown {
                        picked
                    } else {
                        shown as usize
                    },
                    None => shown as usize,
                }
            },
        }
    }

    /// One step of the page's content: takes up a list that has come, and
    /// asks for a list where one is wanted. The result says how the list
    /// stood before the step, and holds the request to send.
    pub fn render_content(
        &mut self,
        app: &mut TemplateApp,
        events: &ContentEvents,
        need_update_page: bool,
    ) -> (frame: ContentFrame)
        requires
            old(self).wf(),
            old(app).wf(),
            old(app)@.issued < u64::MAX,
        ensures
            final(self).wf(),
            final(app).wf(),
            final(self).key_get_list == old(self).key_get_list,
            final(self).key_remove_item == old(self).key_remove_item,
            final(self).key_add_item == old(self).key_add_item,
            final(self).key_update_item == old(self).key_update_item,
            if old(self).wait_data_list && list_in(old(app)@.slot(old(self).key_get_list@))
                is Some {
                final(self).item_operation_map@ == Map::<Seq<char>, ItemOperation>::empty()
            } else {
                final(self).item_operation_map == old(self).item_operation_map
            },
            final(self).create_data == old(self).create_data,
            frame.status@ == list_status(old(app)@.slot(old(self).key_get_list@)),
            data_view(final(self).data) == absorbed(
                data_view(old(self).data),
                old(self).wait_data_list,
                old(app)@.slot(old(self).key_get_list@),
            ),
            final(self).show_create_window == (old(self).show_create_window || (final(self).data
                is Some && events.new_item)),
            ({
                let wanted = list_wanted(
                    frame.status@,
                    data_view(final(self).data),
                    *events,
                    need_update_page,
                );
                let page = page_wanted(data_view(final(self).data), *events);
                if wanted {
                    &&& final(self).wait_data_list
                    &&& final(app)@ == old(app)@.submit(old(self).key_get_list@)
                    &&& frame.request matches Some(request)
                    &&& old(app)@.describes(
                        request,
                        old(self).key_get_list@,
                        None,
                        json_body(page_json(page as int, PAGE_SIZE as int)),
                    )
                } else {
                    &&& final(self).wait_data_list == (old(self).wait_data_list && list_in(
                        old(app)@.slot(old(self).key_get_list@),
                    ) is None)
                    &&& final(app)@ == old(app)@
                    &&& frame.request is None
                }
            }),
    {
        let status = self.list_status(app);
        self.absorb(app);
        let mut need_request = need_update_page || match &status {
            ListStatus::Missing => true,
            ListStatus::Failed(_) => events.retry,
            _ => false,
        };
        let page = self.choose_page(events);
        if let Some(list) = &self.data {
            if events.refresh || page != list.cur_page_number {
                need_request = true;
            }
            if events.new_item {
                self.show_create_window = true;
            }
        }
        let request = if need_request {
            let body = TunnelListRequest { page_number: page, page_size: PAGE_SIZE }.to_body();
            let request = app.http_request(self.key_get_list.as_str(), None, body);
            self.wait_data_list = true;
            Some(request)
        } else {
            None
        };
        ContentFrame { status, request }
    }

    /// How the addition of a tunnel stands.
    pub fn create_status(&self, app: &TemplateApp) -> (status: CreateStatus)
        requires
            app.wf(),
        ensures
            status@ == create_status(app@.slot(self.key_add_item@)),
    {
        match app.promise(self.key_add_item.as_str()) {
            None => CreateStatus::Idle,
            Some(promise) => match promise.ready() {
                None => CreateStatus::Waiting,
                Some(Err(error)) => CreateStatus::Error(describe_failure(error, "Login failed")),
                Some(Ok(resource)) => match &resource.response_data {
                    ResponseType::GeneralResponse(_) => CreateStatus::Finished,
                    ResponseType::Error(e) => CreateStatus::Error(e.clone()),
                    _ => CreateStatus::Error("Unknown error".to_owned()),
                },
            },
        }
    }

    /// One step of the window for a new tunnel. Nothing happens while the
    /// window is not shown. Else, where the user sent the tunnel off, the
    /// window is enabled and no request to add a tunnel is in flight, the
    /// tunnel is sent to be added. Where the request to add a tunnel was
    /// answered with an acknowledgment, its promise is dropped, the window
    /// closes and the list counts one more; the page that is shown has to be
    /// loaded again where it is not full.
    pub fn render_create_window(
        &mut self,
        app: &mut TemplateApp,
        enabled: bool,
        ok_clicked: bool,
    ) -> (frame: CreateFrame)
        requires
            old(self).wf(),
            old(app).wf(),
            old(app)@.issued < u64::MAX,
        ensures
            final(self).wf(),
            final(app).wf(),
            final(self).key_get_list == old(self).key_get_list,
            final(self).key_remove_item == old(self).key_remove_item,
            final(self).key_add_item == old(self).key_add_item,
            final(self).key_update_item == old(self).key_update_item,
            final(self).item_operation_map == old(self).item_operation_map,
            final(self).wait_data_list == old(self).wait_data_list,
            final(self).create_data == old(self).create_data,
            !old(self).show_create_window ==> {
                &&& frame.status is Closed
                &&& frame.request is None
                &&& !frame.need_update_page
                &&& final(app)@ == old(app)@
                &&& final(self).data == old(self).data
                &&& !final(self).show_create_window
            },
            old(self).show_create_window ==> ({
                let key = old(self).key_add_item@;
                let sent = enabled && ok_clicked && old(app)@.can_request(key);
                let app1 = if sent {
                    old(app)@.submit(key)
                } else {
                    old(app)@
                };
                let finished = frame.status is Finished;
                &&& if sent {
                    frame.request matches Some(request) && old(app)@.describes(
                        request,
                        key,
                        None,
                        json_body(create_json(old(self).create_data)),
                    )
                } else {
                    frame.request is None
                }
                &&& frame.status@ == create_status(app1.slot(key))
                &&& final(app)@ == if finished {
                    app1.forget(key)
                } else {
                    app1
                }
                &&& final(self).show_create_window == !finished
                &&& final(self).data == match old(self).data {
                    Some(list) => if finished {
                        Some(counted_up(list))
                    } else {
                        Some(list)
                    },
                    None => None,
                }
                &&& frame.need_update_page == (finished && match old(self).data {
                    Some(list) => list.tunnels@.len() < PAGE_SIZE,
                    None => false,
                })
            }),
    {
        if !self.show_create_window {
            return CreateFrame {
                status: CreateStatus::Closed,
                request: None,
                need_update_page: false,
            };
        }
        let request = if enabled && ok_clicked && app.can_request(&self.key_add_item) {
            let body = TunnelAddReq {
                source: self.create_data.source.clone(),
                endpoint: self.create_data.endpoint.clone(),
                enabled: 1,
                sender: self.create_data.sender,
                receiver: self.create_data.receiver,
                description: self.create_data.description.clone(),
            }.to_body();
            Some(app.http_request(self.key_add_item.as_str(), None, body))
        } else {
            None
        };
        let status = self.create_status(app);
        let mut need_update_page = false;
        if let CreateStatus::Finished = &status {
            app.forget(self.key_add_item.as_str());
            self.show_create_window = false;
            if let Some(list) = &mut self.data {
                if list.total_count < usize::MAX {
                    list.total_count = list.total_count + 1;
                }
                if list.tunnels.len() < PAGE_SIZE {
                    need_update_page = true;
                }
            }
        }
        CreateFrame { status, request, need_update_page }
    }

    /// The tunnel whose removal came to a good end, where one did.
    pub open spec fn removed(&self, app: AppView) -> Option<u32> {
        match self.operation(self.key_remove_item@) {
            Some(op) => if completed(op, app.slot(self.key_remove_item@)) {
                Some(op.id)
            } else {
                None
            },
            None => None,
        }
    }

    /// Brings the operations on single tunnels up to date with the promises
    /// of their requests, and takes a tunnel whose removal came to a good
    /// end out of the list. Returns whether the page is busy: whether the
    /// request for the list or the one for a new tunnel is in flight.
    pub fn busy(&mut self, app: &mut TemplateApp) -> (r: bool)
        requires
            old(self).wf(),
            old(app).wf(),
        ensures
            final(self).wf(),
            *final(app) == *old(app),
            r == (!old(app)@.can_request(old(self).key_get_list@) || !old(app)@.can_request(
                old(self).key_add_item@,
            )),
            final(self).key_get_list == old(self).key_get_list,
            final(self).key_remove_item == old(self).key_remove_item,
            final(self).key_add_item == old(self).key_add_item,
            final(self).key_update_item == old(self).key_update_item,
            final(self).wait_data_list == old(self).wait_data_list,
            final(self).show_create_window == old(self).show_create_window,
            final(self).create_data == old(self).create_data,
            forall|key: Seq<char>| #[trigger]
                final(self).operation(key) == match old(self).operation(key) {
                    Some(op) => Some(refreshed(op, old(app)@.slot(key))),
                    None => None,
                },
            match (old(self).removed(old(app)@), old(self).data) {
                (Some(id), Some(list)) => final(self).data matches Some(rest) && rest.tunnels@
                    == list.tunnels@.filter(others(id)) && rest.cur_page_number
                    == list.cur_page_number && rest.total_count == if list.total_count > 0 {
                    (list.total_count - 1) as usize
                } else {
                    0
                },
                _ => final(self).data == old(self).data,
            },
    {
        let ghost keys = self.item_operation_map.keys();
        let ghost before = self.item_operation_map.values();
        let ghost slots = app@;
        let ghost key_remove = self.key_remove_item@;
        let n = self.item_operation_map.len();
        let mut removed_id: Option<u32> = None;
        let mut i: usize = 0;
        while i < n
            invariant
                i <= n,
                n == keys.len(),
                n == before.len(),
                app.wf(),
                app@ == slots,
                self.item_operation_map.wf(),
                self.item_operation_map.keys() == keys,
                self.item_operation_map.values().len() == n,
                forall|j: int|
                    0 <= j < i ==> (#[trigger] self.item_operation_map.values()[j])@ == refreshed(
                        before[j]@,
                        slots.slot(keys[j]),
                    ),
                forall|j: int| i <= j < n ==> self.item_operation_map.values()[j] == before[j],
                match removed_id {
                    Some(id) => exists|j: int|
                        0 <= j < i && #[trigger] keys[j] == key_remove && completed(
                            before[j]@,
                            slots.slot(key_remove),
                        ) && before[j].id == id,
                    None => forall|j: int|
                        0 <= j < i ==> !(#[trigger] keys[j] == key_remove && completed(
                            before[j]@,
                            slots.slot(key_remove),
                        )),
                },
                self.key_get_list == old(self).key_get_list,
                self.key_remove_item == old(self).key_remove_item,
                self.key_remove_item@ == key_remove,
                self.key_add_item == old(self).key_add_item,
                self.key_update_item == old(self).key_update_item,
                self.wait_data_list == old(self).wait_data_list,
                self.show_create_window == old(self).show_create_window,
                self.create_data == old(self).create_data,
                self.data == old(self).data,
            decreases n - i,
        {
            let key = self.item_operation_map.key_at(i).clone();
            let is_removal = key == self.key_remove_item;
            let promise = app.promise(key.as_str());
            let operation = self.item_operation_map.value_at_mut(i);
            let id = operation.id;
            let done = operation.refresh(promise);
            if done && is_removal {
                removed_id = Some(id);
            }
            i = i + 1;
        }
        if let Some(id) = removed_id {
            if let Some(list) = &mut self.data {
                let rest = without_tunnel(&list.tunnels, id);
                list.tunnels = rest;
                if list.total_count > 0 {
                    list.total_count = list.total_count - 1;
                }
            }
        }
        let list_free = app.can_request(&self.key_get_list);
        let add_free = app.can_request(&self.key_add_item);
        !list_free || !add_free
    }

    /// Starts what the user asked for in the rows of the list: the change of
    /// a tunnel, the removal of a tunnel, or both.
    pub fn render_table(
        &mut self,
        app: &mut TemplateApp,
        update: Option<TunnelListItem>,
        remove: Option<u32>,
    ) -> (frame: TableFrame)
        requires
            old(self).wf(),
            old(app).wf(),
            old(app)@.issued + 2 <= u64::MAX,
        ensures
            final(self).wf(),
            final(app).wf(),
            final(self).key_get_list == old(self).key_get_list,
            final(self).key_remove_item == old(self).key_remove_item,
            final(self).key_add_item == old(self).key_add_item,
            final(self).key_update_item == old(self).key_update_item,
            final(self).wait_data_list == old(self).wait_data_list,
            final(self).data == old(self).data,
            final(self).show_create_window == old(self).show_create_window,
            final(self).create_data == old(self).create_data,
            ({
                let key_update = old(self).key_update_item@;
                let key_remove = old(self).key_remove_item@;
                let app1 = match update {
                    Some(_) => old(app)@.submit(key_update),
                    None => old(app)@,
                };
                let app2 = match remove {
                    Some(_) => app1.submit(key_remove),
                    None => app1,
                };
                &&& final(app)@ == app2
                &&& match update {
                    Some(item) => frame.update matches Some(request) && old(app)@.describes(
                        request,
                        key_update,
                        None,
                        json_body(update_json(item)),
                    ),
                    None => frame.update is None,
                }
                &&& match remove {
                    Some(id) => frame.remove matches Some(request) && app1.describes(
                        request,
                        key_remove,
                        None,
                        json_body(id_json(id as int)),
                    ),
                    None => frame.remove is None,
                }
                &&& forall|key: Seq<char>| #[trigger]
                    final(self).operation(key) == if remove is Some && key == key_remove {
                        Some(
                            ItemOperationView {
                                id: remove.unwrap(),
                                result: OperationResultView::Wait,
                            },
                        )
                    } else if update is Some && key == key_update {
                        Some(
                            ItemOperationView {
                                id: update.unwrap().id,
                                result: OperationResultView::Wait,
                            },
                        )
                    } else {
                        old(self).operation(key)
                    }
            }),
    {
        let update_request = match update {
            Some(info) => {
                self.item_operation_map.insert(
                    self.key_update_item.clone(),
                    ItemOperation { id: info.id, result: OperationResult::Wait },
                );
                let body = TunnelUpdateReq {
                    id: info.id,
                    source: info.source,
                    endpoint: info.endpoint,
                    enabled: if info.enabled {
                        1
                    } else {
                        0
                    },
                    sender: info.sender,
                    receiver: info.receiver,
                    description: info.description,
                }.to_body();
                Some(app.http_request(self.key_update_item.as_str(), None, body))
            },
            None => None,
        };
        let remove_request = match remove {
            Some(id) => {
                self.item_operation_map.insert(
                    self.key_remove_item.clone(),
                    ItemOperation { id, result: OperationResult::Wait },
                );
                let body = TunnelRemoveReq { id }.to_body();
                Some(app.http_request(self.key_remove_item.as_str(), None, body))
            },
            None => None,
        };
        TableFrame { update: update_request, remove: remove_request }
    }
}

/// The tunnels of a list but the one with the id `id`.
fn without_tunnel(tunnels: &Vec<TunnelListItem>, id: u32) -> (rest: Vec<TunnelListItem>)
    ensures
        rest@ == tunnels@.filter(others(id)),
{
    let mut rest: Vec<TunnelListItem> = Vec::new();
    let mut i: usize = 0;
    while i < tunnels.len()
        invariant
            i <= tunnels.len(),
            rest@ == tunnels@.take(i as int).filter(others(id)),
        decreases tunnels.len() - i,
    {
        proof {
            reveal(Seq::filter);
            assert(tunnels@.take(i + 1).drop_last() =~= tunnels@.take(i as int));
        }
        if tunnels[i].id != id {
            rest.push(tunnels[i].clone());
        }
        i = i + 1;
    }
    assert(tunnels@.take(tunnels.len() as int) =~= tunnels@);
    rest
}

} // verus!
