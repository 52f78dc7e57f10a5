//! The session and the registry of requests in flight.
//!
//! The panel's thread owns a [`TemplateApp`]. To start an operation it asks
//! for an [`HttpRequest`] and hands that to its transport; when the
//! transport is done it gives the outcome back under the request's ticket.
//! Nothing here waits: a request that has no outcome yet is a pending
//! [`Promise`], and each key has at most one promise, the one of the last
//! request made under it.

use crate::json::{json_parse, parse, Json};
use crate::proto::{general_of, GeneralResponse, SESSION_EXPIRED_CODE};
use crate::render::channel;
use crate::render::player;
use crate::render::tunnel;
use crate::resource::{parsed_view, Resource};
use crate::string_map::StringMap;
use crate::text::{ends_with_char, join, join_strings, string_views};
use crate::wire::{
    encode_query, pair_views, url_encoded, url_with_path, with_path, URL_LIMIT,
};
use vstd::prelude::*;
use vstd::string::{StrSliceExecFns, StringExecFns};

verus! {

/// The outcome of one request: nothing while the request is in flight, then
/// the decoded response, or the transport's message where no response came.
#[derive(Debug, PartialEq, Eq)]
pub struct Promise {
    /// The number under which the request was handed to the transport.
    pub ticket: u64,
    pub result: Option<Result<Resource, String>>,
}

impl Promise {
    /// The outcome, once there is one.
    pub fn ready(&self) -> (r: Option<&Result<Resource, String>>)
        ensures
            match r {
                Some(outcome) => self.result == Some(*outcome),
                None => self.result is None,
            },
    {
        match &self.result {
            Some(outcome) => Some(outcome),
            None => None,
        }
    }
}

/// A request for the transport to send.
#[derive(Debug, PartialEq, Eq)]
pub struct HttpRequest {
    /// The number under which the outcome is to be given back.
    pub ticket: u64,
    /// The method, which is always `POST`.
    pub method: String,
    /// The operation, by which the response is decoded.
    pub path: String,
    pub url: String,
    /// Headers to send besides those of the transport.
    pub headers: Vec<(String, String)>,
    pub body: Vec<u8>,
}

/// The state of one page of the panel.
pub enum Page {
    Player(player::Logic),
    Channel(channel::Logic),
    Tunnel(tunnel::Logic),
}

impl Page {
    /// The state of the page is well formed.
    pub open spec fn wf(&self) -> bool {
        match self {
            Page::Player(logic) => logic.wf(),
            Page::Channel(_) => true,
            Page::Tunnel(logic) => logic.wf(),
        }
    }

    /// The page holds nothing of what it showed or did before.
    pub open spec fn is_fresh(&self) -> bool {
        match self {
            Page::Player(logic) => logic.is_fresh(),
            Page::Channel(_) => true,
            Page::Tunnel(logic) => logic.is_fresh(),
        }
    }

    /// Whether two pages show the same thing of the server.
    pub open spec fn same_kind(&self, other: &Page) -> bool {
        match (self, other) {
            (Page::Player(_), Page::Player(_)) => true,
            (Page::Channel(_), Page::Channel(_)) => true,
            (Page::Tunnel(_), Page::Tunnel(_)) => true,
            _ => false,
        }
    }

    /// Forgets what the page holds.
    pub fn reset(&mut self)
        ensures
            final(self).wf(),
            final(self).is_fresh(),
            final(self).same_kind(old(self)),
    {
        match self {
            Page::Player(logic) => logic.reset(),
            Page::Channel(_) => {},
            Page::Tunnel(logic) => logic.reset(),
        }
    }
}

/// A page of the panel under its name.
pub struct SubPage {
    pub name: String,
    pub render: Page,
}

/// The pages of a panel as it starts: the players and the channels.
pub fn default_pages() -> (pages: Vec<SubPage>)
    ensures
        pages@.len() == 2,
        pages@[0].name@ == "\u{1F465}Player"@,
        pages@[0].render is Player,
        pages@[1].name@ == "\u{1F500}Channel"@,
        pages@[1].render is Channel,
        forall|i: int| 0 <= i < pages@.len() ==> pages@[i].render.wf() && pages@[i].render.is_fresh(),
{
    let mut pages: Vec<SubPage> = Vec::new();
    pages.push(
        SubPage {
            name: "\u{1F465}Player".to_owned(),
            render: Page::Player(player::Logic::new()),
        },
    );
    pages.push(
        SubPage {
            name: "\u{1F500}Channel".to_owned(),
            render: Page::Channel(channel::Logic::new()),
        },
    );
    pages
}

/// Makes every page forget what it holds.
pub fn reset_pages(pages: &mut Vec<SubPage>)
    ensures
        final(pages)@.len() == old(pages)@.len(),
        forall|i: int|
            0 <= i < final(pages)@.len() ==> {
                &&& (#[trigger] final(pages)@[i]).name == old(pages)@[i].name
                &&& final(pages)@[i].render.same_kind(&old(pages)@[i].render)
                &&& final(pages)@[i].render.wf()
                &&& final(pages)@[i].render.is_fresh()
            },
{
    let n = pages.len();
    let mut i: usize = 0;
    while i < n
        invariant
            i <= n,
            n == pages@.len(),
            n == old(pages)@.len(),
            forall|j: int|
                0 <= j < i ==> {
                    &&& (#[trigger] pages@[j]).name == old(pages)@[j].name
                    &&& pages@[j].render.same_kind(&old(pages)@[j].render)
                    &&& pages@[j].render.wf()
                    &&& pages@[j].render.is_fresh()
                },
            forall|j: int| i <= j < n ==> pages@[j] == old(pages)@[j],
        decreases n - i,
    {
        pages[i].render.reset();
        i = i + 1;
    }
}

/// What the user asked for in the menu since the panel was last shown.
pub struct MenuEvents {
    /// The entry to log out was picked.
    pub logout: bool,
    /// The entry to test the login was picked.
    pub test: bool,
}

/// The requests to send for what the user asked for in the menu.
#[derive(Debug, PartialEq, Eq)]
pub struct MenuFrame {
    pub logout: Option<HttpRequest>,
    pub test: Option<HttpRequest>,
}

/// What the panel keeps from one run to the next.
#[derive(Debug, PartialEq, Eq)]
pub struct SavedState {
    pub api_url: String,
    pub username: String,
    pub password: String,
    pub is_dark_them: bool,
    pub logged_in: bool,
    pub cookies: Vec<String>,
}

/// The state of the panel: where the server is, who is logged in and with
/// which cookies, and the requests in flight.
pub struct TemplateApp {
    api_url: String,
    username: String,
    password: String,
    is_dark_them: bool,
    can_modify_api_url: bool,
    logged_in: bool,
    cookies: Vec<String>,
    promise_map: StringMap<Promise>,
    issued: u64,
    need_check: bool,
    explicit_cookies: bool,
}

/// What a [`TemplateApp`] holds.
pub struct AppView {
    pub api_url: Seq<char>,
    pub username: Seq<char>,
    pub password: Seq<char>,
    pub is_dark_them: bool,
    pub can_modify_api_url: bool,
    pub logged_in: bool,
    pub cookies: Seq<Seq<char>>,
    /// The promise of each key.
    pub slots: Map<Seq<char>, Promise>,
    /// How many requests were made so far; the next ticket.
    pub issued: nat,
    /// Whether an outcome came in since the last sweep.
    pub need_check: bool,
    /// Whether the transport wants the cookies in a header of each request.
    pub explicit_cookies: bool,
}

/// Whether a promise holds a response that the sweep has not looked at.
pub open spec fn unchecked(p: Promise) -> bool {
    p.result matches Some(Ok(r)) && !r.checked
}

/// The promise after the sweep has looked at it.
pub open spec fn inspected(p: Promise) -> Promise {
    match p.result {
        Some(Ok(r)) => Promise {
            ticket: p.ticket,
            result: Some(
                Ok(Resource { response: r.response, checked: true, response_data: r.response_data }),
            ),
        },
        _ => p,
    }
}

/// Whether an acknowledgment read from a body says that the session is over.
pub open spec fn body_says_expired(parsed: Result<Json, Seq<char>>) -> bool {
    parsed matches Ok(j) && general_of(j) matches Ok(g) && g.code == SESSION_EXPIRED_CODE
}

/// Whether a response says that the session is over: by the status 401, or,
/// where the status is one of success, by the code of its acknowledgment.
pub open spec fn says_expired(status: u16, ok: bool, body: Seq<u8>) -> bool {
    status == 401 || (ok && body_says_expired(json_parse(body)))
}

/// Whether a decoded response says that the session is over.
pub open spec fn signals_expiry(r: Resource) -> bool {
    says_expired(r.response.status, r.response.ok, r.response.bytes@)
}

/// The address of the server's interface with a `/` at its end.
pub open spec fn base_url(api_url: Seq<char>) -> Seq<char> {
    if api_url.len() > 0 && api_url.last() == '/' {
        api_url
    } else {
        api_url + "/"@
    }
}

/// The query that stands for the parameters of a request, where it has any.
pub open spec fn query_of(params: Option<Seq<(Seq<char>, Seq<char>)>>) -> Option<Seq<char>> {
    match params {
        Some(pairs) => url_encoded(pairs),
        None => None,
    }
}

/// The address of a request: the server's interface, the operation, and the
/// query behind a `?` where there is one and it is not empty.
pub open spec fn request_url(api_url: Seq<char>, path: Seq<char>, query: Option<Seq<char>>) -> Seq<
    char,
> {
    let address = base_url(api_url) + path;
    match query {
        Some(q) => if q.len() > 0 {
            address + "?"@ + q
        } else {
            address
        },
        None => address,
    }
}

/// The headers that a request carries for the session: the cookies in one
/// `Cookie` header, the one after the other with `; ` between them, where
/// the transport wants them there, and none otherwise.
pub open spec fn session_headers(explicit_cookies: bool, cookies: Seq<Seq<char>>) -> Seq<
    (Seq<char>, Seq<char>),
> {
    if explicit_cookies {
        seq![("Cookie"@, join(cookies, "; "@))]
    } else {
        Seq::empty()
    }
}

impl AppView {
    /// What holds of every state that the panel can reach: without a login
    /// there are no cookies; every promise has a ticket of its own, lower
    /// than the next one; and while a response waits for the sweep, the
    /// sweep is due.
    pub open spec fn valid(self) -> bool {
        &&& !self.logged_in ==> self.cookies.len() == 0
        &&& self.issued <= u64::MAX
        &&& self.slots.dom().finite()
        &&& forall|k: Seq<char>|
            self.slots.contains_key(k) ==> (#[trigger] self.slots[k]).ticket < self.issued
        &&& forall|a: Seq<char>, b: Seq<char>|
            self.slots.contains_key(a) && self.slots.contains_key(b) && a != b ==> (
            #[trigger] self.slots[a]).ticket != (#[trigger] self.slots[b]).ticket
        &&& forall|k: Seq<char>|
            self.slots.contains_key(k) && unchecked(#[trigger] self.slots[k]) ==> self.need_check
    }

    /// The promise of `key`, where it has one.
    pub open spec fn slot(self, key: Seq<char>) -> Option<Promise> {
        if self.slots.contains_key(key) {
            Some(self.slots[key])
        } else {
            None
        }
    }

    /// Whether `request` is the request that a panel in this state makes for
    /// the operation `path` with the given query and body: it has the next
    /// ticket, the address of the operation, the headers of the session and
    /// the body.
    pub open spec fn describes(
        self,
        request: HttpRequest,
        path: Seq<char>,
        query: Option<Seq<char>>,
        body: Seq<u8>,
    ) -> bool {
        &&& request.ticket == self.issued
        &&& request.method@ == "POST"@
        &&& request.path@ == path
        &&& request.url@ == request_url(self.api_url, path, query)
        &&& pair_views(request.headers@) == session_headers(self.explicit_cookies, self.cookies)
        &&& request.body@ == body
    }

    /// Whether a request may be made under `key`: the key has no promise, or
    /// its promise has its outcome.
    pub open spec fn can_request(self, key: Seq<char>) -> bool {
        !self.slots.contains_key(key) || self.slots[key].result is Some
    }

    /// The state after a request was made under `key`: the key has a new,
    /// pending promise in place of any that it had.
    pub open spec fn submit(self, key: Seq<char>) -> AppView {
        AppView {
            slots: self.slots.insert(key, Promise { ticket: self.issued as u64, result: None }),
            issued: self.issued + 1,
            ..self
        }
    }

    /// Whether the promise of `key` is the one of the request `ticket`.
    pub open spec fn holds_ticket(self, key: Seq<char>, ticket: u64) -> bool {
        self.slots.contains_key(key) && self.slots[key].ticket == ticket
    }

    /// Whether the request `ticket` is still waited for: some key's promise
    /// is that of this request, and it is pending.
    pub open spec fn awaits(self, ticket: u64) -> bool {
        exists|k: Seq<char>| #[trigger] self.holds_ticket(k, ticket) && self.slots[k].result is None
    }

    /// The key that waits for the request `ticket`.
    pub open spec fn waiting_key(self, ticket: u64) -> Seq<char> {
        choose|k: Seq<char>| #[trigger] self.holds_ticket(k, ticket) && self.slots[k].result is None
    }

    /// The state after the outcome of the request `ticket` came in. Where
    /// the request is still waited for, its promise now holds the outcome;
    /// where its promise was replaced or removed, no promise changes. Either
    /// way the sweep is due.
    pub open spec fn resolve(self, ticket: u64, outcome: Result<Resource, String>) -> AppView {
        if self.awaits(ticket) {
            AppView {
                slots: self.slots.insert(
                    self.waiting_key(ticket),
                    Promise { ticket, result: Some(outcome) },
                ),
                need_check: true,
                ..self
            }
        } else {
            AppView { need_check: true, ..self }
        }
    }

    /// The state without the promise of `key`.
    pub open spec fn forget(self, key: Seq<char>) -> AppView {
        AppView { slots: self.slots.remove(key), ..self }
    }

    /// The state without any promise.
    pub open spec fn clear(self) -> AppView {
        AppView { slots: Map::empty(), ..self }
    }

    /// The state after a login with the given cookies.
    pub open spec fn login_success(self, cookies: Seq<Seq<char>>) -> AppView {
        AppView { logged_in: true, cookies, slots: Map::empty(), ..self }
    }

    /// The state after a logout.
    pub open spec fn logout(self) -> AppView {
        AppView { logged_in: false, cookies: Seq::empty(), slots: Map::empty(), ..self }
    }

    /// Whether some response that the sweep has not looked at says that the
    /// session is over.
    pub open spec fn expiry_pending(self) -> bool {
        exists|k: Seq<char>|
            self.slots.contains_key(k) && unchecked(#[trigger] self.slots[k]) && signals_expiry(
                self.slots[k].result->Some_0->Ok_0,
            )
    }

    /// The state after the sweep. Where no outcome came in since the last
    /// one, nothing changes. Else, where a response says that the session is
    /// over, the user is logged out; where none does, every response there
    /// is has been looked at. The sweep is then no longer due.
    pub open spec fn sweep(self) -> AppView {
        if !self.need_check {
            self
        } else if self.expiry_pending() {
            AppView { need_check: false, ..self.logout() }
        } else {
            AppView {
                slots: self.slots.map_values(|p: Promise| inspected(p)),
                need_check: false,
                ..self
            }
        }
    }
}

impl View for TemplateApp {
    type V = AppView;

    closed spec fn view(&self) -> AppView {
        AppView {
            api_url: self.api_url@,
            username: self.username@,
            password: self.password@,
            is_dark_them: self.is_dark_them,
            can_modify_api_url: self.can_modify_api_url,
            logged_in: self.logged_in,
            cookies: string_views(self.cookies@),
            slots: self.promise_map@,
            issued: self.issued as nat,
            need_check: self.need_check,
            explicit_cookies: self.explicit_cookies,
        }
    }
}

impl Resource {
    /// Whether an acknowledgment read from a body says that the session is
    /// over, given what the JSON reader made of the body.
    pub fn body_says_expired(parsed: &Result<serde_json::Value, String>) -> (r: bool)
        ensures
            r == body_says_expired(parsed_view(*parsed)),
    {
        match parsed {
            Ok(v) => match GeneralResponse::from_json(v) {
                Ok(g) => g.code == SESSION_EXPIRED_CODE,
                Err(_) => false,
            },
            Err(_) => false,
        }
    }

    /// Whether the response says that the session is over.
    pub fn signals_expiry(&self) -> (r: bool)
        ensures
            r == signals_expiry(*self),
    {
        if self.response.status == 401 {
            true
        } else if self.response.ok {
            let parsed = parse(self.response.bytes.as_slice());
            Resource::body_says_expired(&parsed)
        } else {
            false
        }
    }
}

impl TemplateApp {
    /// The fields agree with each other, and `self@` is a state that the
    /// panel can reach.
    pub closed spec fn wf(&self) -> bool {
        &&& self.promise_map.wf()
        &&& self@.valid()
    }

    /// A well-formed panel is in a state that the panel can reach.
    pub proof fn lemma_wf(&self)
        requires
            self.wf(),
        ensures
            self@.valid(),
    {
    }

    /// The panel as it starts: a saved state is taken up where there is
    /// one, without its cookies where it holds no login; and where the
    /// panel runs inside a page, the address of the page's server replaces
    /// any other and can no longer be changed.
    pub fn new(saved: Option<SavedState>, explicit_cookies: bool, page_url: Option<String>) -> (app:
        Self)
        ensures
            app.wf(),
            app@.slots == Map::<Seq<char>, Promise>::empty(),
            app@.issued == 0,
            !app@.need_check,
            app@.explicit_cookies == explicit_cookies,
            app@.can_modify_api_url == (page_url is None),
            app@.api_url == match (page_url, saved) {
                (Some(url), _) => url@,
                (None, Some(s)) => s.api_url@,
                (None, None) => "http://127.0.0.1:8120/api/"@,
            },
            match saved {
                Some(s) => {
                    &&& app@.username == s.username@
                    &&& app@.password == s.password@
                    &&& app@.is_dark_them == s.is_dark_them
                    &&& app@.logged_in == s.logged_in
                    &&& app@.cookies == if s.logged_in {
                        string_views(s.cookies@)
                    } else {
                        Seq::<Seq<char>>::empty()
                    }
                },
                None => {
                    &&& app@.username == "admin"@
                    &&& app@.password == ""@
                    &&& app@.is_dark_them
                    &&& !app@.logged_in
                    &&& app@.cookies == Seq::<Seq<char>>::empty()
                },
            },
    {
        let mut app = match saved {
            Some(s) => {
                let cookies = if s.logged_in {
                    s.cookies
                } else {
                    Vec::new()
                };
                TemplateApp {
                    api_url: s.api_url,
                    username: s.username,
                    password: s.password,
                    is_dark_them: s.is_dark_them,
                    can_modify_api_url: true,
                    logged_in: s.logged_in,
                    cookies,
                    promise_map: StringMap::new(),
                    issued: 0,
                    need_check: false,
                    explicit_cookies,
                }
            },
            None => TemplateApp {
                api_url: "http://127.0.0.1:8120/api/".to_owned(),
                username: "admin".to_owned(),
                password: "".to_owned(),
                is_dark_them: true,
                can_modify_api_url: true,
                logged_in: false,
                cookies: Vec::new(),
                promise_map: StringMap::new(),
                issued: 0,
                need_check: false,
                explicit_cookies,
            },
        };
        if let Some(url) = page_url {
            app.api_url = url;
            app.can_modify_api_url = false;
        }
        assert(app@.cookies.len() == 0 || app@.logged_in);
        app
    }

    /// What is to be kept for the next run.
    pub fn saved_state(&self) -> (s: SavedState)
        ensures
            s.api_url@ == self@.api_url,
            s.username@ == self@.username,
            s.password@ == self@.password,
            s.is_dark_them == self@.is_dark_them,
            s.logged_in == self@.logged_in,
            string_views(s.cookies@) == self@.cookies,
    {
        SavedState {
            api_url: self.api_url.clone(),
            username: self.username.clone(),
            password: self.password.clone(),
            is_dark_them: self.is_dark_them,
            logged_in: self.logged_in,
            cookies: copy_strings(&self.cookies),
        }
    }

    /// The address of the server's interface.
    pub fn api_url(&self) -> (r: &String)
        ensures
            r@ == self@.api_url,
    {
        &self.api_url
    }

    /// The name to log in with.
    pub fn username(&self) -> (r: &String)
        ensures
            r@ == self@.username,
    {
        &self.username
    }

    /// The password to log in with.
    pub fn password(&self) -> (r: &String)
        ensures
            r@ == self@.password,
    {
        &self.password
    }

    /// Whether the panel shows its dark theme.
    pub fn is_dark_them(&self) -> (r: bool)
        ensures
            r == self@.is_dark_them,
    {
        self.is_dark_them
    }

    /// Whether the user may change the address of the server's interface.
    pub fn can_modify_api_url(&self) -> (r: bool)
        ensures
            r == self@.can_modify_api_url,
    {
        self.can_modify_api_url
    }

    /// Changes the address of the server's interface.
    pub fn set_api_url(&mut self, api_url: String)
        requires
            old(self).wf(),
        ensures
            final(self).wf(),
            final(self)@ == (AppView { api_url: api_url@, ..old(self)@ }),
    {
        self.api_url = api_url;
    }

    /// Changes the name to log in with.
    pub fn set_username(&mut self, username: String)
        requires
            old(self).wf(),
        ensures
            final(self).wf(),
            final(self)@ == (AppView { username: username@, ..old(self)@ }),
    {
        self.username = username;
    }

    /// Changes the password to log in with.
    pub fn set_password(&mut self, password: String)
        requires
            old(self).wf(),
        ensures
            final(self).wf(),
            final(self)@ == (AppView { password: password@, ..old(self)@ }),
    {
        self.password = password;
    }

    /// Chooses between the dark theme and the light one.
    pub fn set_dark_them(&mut self, is_dark_them: bool)
        requires
            old(self).wf(),
        ensures
            final(self).wf(),
            final(self)@ == (AppView { is_dark_them, ..old(self)@ }),
    {
        self.is_dark_them = is_dark_them;
    }

    /// Whether a user is logged in.
    pub fn logged_in(&self) -> (r: bool)
        ensures
            r == self@.logged_in,
    {
        self.logged_in
    }

    /// The cookies of the session.
    pub fn cookies(&self) -> (r: &Vec<String>)
        ensures
            string_views(r@) == self@.cookies,
    {
        &self.cookies
    }

    /// Whether an outcome came in since the last sweep.
    pub fn need_check(&self) -> (r: bool)
        ensures
            r == self@.need_check,
    {
        self.need_check
    }

    /// How many requests were made so far.
    pub fn issued(&self) -> (r: u64)
        ensures
            r == self@.issued,
    {
        self.issued
    }

    /// How many keys have a promise.
    pub fn promise_count(&self) -> (n: usize)
        requires
            self.wf(),
        ensures
            n == self@.slots.dom().len(),
    {
        proof {
            self.promise_map.keys().unique_seq_to_set();
        }
        self.promise_map.len()
    }

    /// The promise of `key`.
    pub fn promise(&self, key: &str) -> (r: Option<&Promise>)
        requires
            self.wf(),
        ensures
            match r {
                Some(p) => self@.slots.contains_key(key@) && *p == self@.slots[key@],
                None => !self@.slots.contains_key(key@),
            },
            self@.slot(key@) == match r {
                Some(p) => Some(*p),
                None => None,
            },
    {
        self.promise_map.get(key)
    }

    /// Whether a request may be made under the key: it has no promise, or
    /// its promise has its outcome. A request that is made all the same
    /// replaces the promise.
    pub fn can_request(&mut self, request_type: &String) -> (r: bool)
        requires
            old(self).wf(),
        ensures
            *final(self) == *old(self),
            r == old(self)@.can_request(request_type@),
            r <==> !old(self)@.slots.contains_key(request_type@) || old(self)@.slots[request_type@].result
                is Some,
    {
        match self.promise_map.get(request_type.as_str()) {
            Some(promise) => promise.ready().is_some(),
            None => true,
        }
    }

    /// Makes a request for the operation `path` under `key`, with the
    /// parameters in the query of its address and `body` as its body. The
    /// key gets a pending promise, in place of any that it had, and the
    /// request is returned for the transport to send.
    pub fn http_request_ex(
        &mut self,
        path: &str,
        key: String,
        params: Option<Vec<(String, String)>>,
        body: Vec<u8>,
    ) -> (request: HttpRequest)
        requires
            old(self).wf(),
            old(self)@.issued < u64::MAX,
        ensures
            final(self).wf(),
            final(self)@ == old(self)@.submit(key@),
            request.ticket == old(self)@.issued,
            request.method@ == "POST"@,
            request.path@ == path@,
            request.url@ == request_url(
                old(self)@.api_url,
                path@,
                query_of(
                    match params {
                        Some(pairs) => Some(pair_views(pairs@)),
                        None => None,
                    },
                ),
            ),
            pair_views(request.headers@) == session_headers(
                old(self)@.explicit_cookies,
                old(self)@.cookies,
            ),
            request.body == body,
    {
        let mut url = if ends_with_char(self.api_url.as_str(), '/') {
            self.api_url.clone()
        } else {
            let mut with_slash = self.api_url.clone();
            with_slash.append("/");
            with_slash
        };
        url.append(path);
        if let Some(pairs) = &params {
            if let Some(encoded) = encode_query(pairs) {
                if !encoded.as_str().is_empty() {
                    url.append("?");
                    url.append(encoded.as_str());
                }
            }
        }
        let mut headers: Vec<(String, String)> = Vec::new();
        if self.explicit_cookies {
            headers.push(("Cookie".to_owned(), join_strings(&self.cookies, "; ")));
        } else {
        }
        let ticket = self.issued;
        self.promise_map.insert(key, Promise { ticket, result: None });
        self.issued = self.issued + 1;
        HttpRequest { ticket, method: "POST".to_owned(), path: path.to_owned(), url, headers, body }
    }

    /// Makes a request for the operation `path` under the key `path`.
    pub fn http_request(
        &mut self,
        path: &str,
        params: Option<Vec<(String, String)>>,
        body: Vec<u8>,
    ) -> (request: HttpRequest)
        requires
            old(self).wf(),
            old(self)@.issued < u64::MAX,
        ensures
            final(self).wf(),
            final(self)@ == old(self)@.submit(path@),
            request.ticket == old(self)@.issued,
            request.method@ == "POST"@,
            request.path@ == path@,
            request.url@ == request_url(
                old(self)@.api_url,
                path@,
                query_of(
                    match params {
                        Some(pairs) => Some(pair_views(pairs@)),
                        None => None,
                    },
                ),
            ),
            pair_views(request.headers@) == session_headers(
                old(self)@.explicit_cookies,
                old(self)@.cookies,
            ),
            request.body == body,
    {
        self.http_request_ex(path, path.to_owned(), params, body)
    }

    /// The place of the promise that waits for the request `ticket`.
    fn waiting_place(&self, ticket: u64) -> (r: Option<usize>)
        requires
            self.wf(),
        ensures
            match r {
                Some(i) => i < self.promise_map.keys().len() && self@.awaits(ticket)
                    && self@.waiting_key(ticket) == self.promise_map.keys()[i as int],
                None => !self@.awaits(ticket),
            },
    {
        let n = self.promise_map.len();
        let mut i: usize = 0;
        while i < n
            invariant
                self.wf(),
                i <= n,
                n == self.promise_map.keys().len(),
                n == self.promise_map.values().len(),
                forall|j: int|
                    0 <= j < i ==> !(self.promise_map.values()[j].ticket == ticket
                        && self.promise_map.values()[j].result is None),
            decreases n - i,
        {
            let promise = self.promise_map.value_at(i);
            if promise.ticket == ticket && promise.result.is_none() {
                proof {
                    let key = self.promise_map.keys()[i as int];
                    assert(self@.holds_ticket(key, ticket));
                }
                return Some(i);
            }
            i = i + 1;
        }
        None
    }

    /// Takes in the outcome of the request `ticket`. Where the request is
    /// still waited for, its promise now holds the outcome; an outcome that
    /// comes for a promise that was replaced or removed is dropped. Either
    /// way the sweep is due.
    pub fn resolve(&mut self, ticket: u64, outcome: Result<Resource, String>)
        requires
            old(self).wf(),
        ensures
            final(self).wf(),
            final(self)@ == old(self)@.resolve(ticket, outcome),
    {
        let place = self.waiting_place(ticket);
        self.need_check = true;
        if let Some(i) = place {
            self.promise_map.set_value_at(i, Promise { ticket, result: Some(outcome) });
        }
    }

    /// Drops the promise of `key`.
    pub fn forget(&mut self, key: &str)
        requires
            old(self).wf(),
        ensures
            final(self).wf(),
            final(self)@ == old(self)@.forget(key@),
    {
        self.promise_map.remove(key);
    }

    /// Drops every promise.
    pub fn clear(&mut self)
        requires
            old(self).wf(),
        ensures
            final(self).wf(),
            final(self)@ == old(self)@.clear(),
    {
        self.promise_map.clear();
    }

    /// Looks at the responses that came in since the last sweep, and logs
    /// the user out where one of them says that the session is over.
    pub fn http_response_check(&mut self)
        requires
            old(self).wf(),
        ensures
            final(self).wf(),
            final(self)@ == old(self)@.sweep(),
    {
        if !self.need_check {
            return ;
        }
        proof {
            lemma_sweep_valid(self@);
        }
        let ghost keys = self.promise_map.keys();
        let ghost before = self.promise_map.values();
        let n = self.promise_map.len();
        let mut i: usize = 0;
        while i < n
            invariant
                i <= n,
                n == keys.len(),
                n == before.len(),
                self.promise_map.wf(),
                self.promise_map.keys() == keys,
                self.promise_map.values().len() == n,
                forall|j: int|
                    0 <= j < i ==> self.promise_map.values()[j] == inspected(before[j]) && !(
                    unchecked(before[j]) && signals_expiry(before[j].result->Some_0->Ok_0)),
                forall|j: int| i <= j < n ==> self.promise_map.values()[j] == before[j],
                keys == old(self).promise_map.keys(),
                before == old(self).promise_map.values(),
                old(self).wf(),
                old(self).need_check,
                old(self)@.sweep().valid(),
                self.api_url == old(self).api_url,
                self.username == old(self).username,
                self.password == old(self).password,
                self.is_dark_them == old(self).is_dark_them,
                self.can_modify_api_url == old(self).can_modify_api_url,
                self.logged_in == old(self).logged_in,
                self.cookies == old(self).cookies,
                self.issued == old(self).issued,
                self.explicit_cookies == old(self).explicit_cookies,
            decreases n - i,
        {
            let promise = self.promise_map.value_at_mut(i);
            let mut expired = false;
            if let Some(Ok(resource)) = &mut promise.result {
                if !resource.checked {
                    if resource.signals_expiry() {
                        expired = true;
                    } else {
                        resource.checked = true;
                    }
                }
            }
            if expired {
                proof {
                    old(self).promise_map.lemma_view();
                    assert(old(self)@.slots.contains_key(keys[i as int]));
                }
                self.drop_session();
                self.need_check = false;
                assert(string_views(self.cookies@) =~= Seq::<Seq<char>>::empty());
                return ;
            }
            i = i + 1;
        }
        self.need_check = false;
        proof {
            self.promise_map.lemma_view();
            assert(self@.slots =~= old(self)@.slots.map_values(|p: Promise| inspected(p)));
        }
    }

    /// Drops the cookies, the login and every promise.
    fn drop_session(&mut self)
        ensures
            final(self).promise_map.wf(),
            final(self).promise_map@ == Map::<Seq<char>, Promise>::empty(),
            !final(self).logged_in,
            final(self).cookies@ == Seq::<String>::empty(),
            final(self).api_url == old(self).api_url,
            final(self).username == old(self).username,
            final(self).password == old(self).password,
            final(self).is_dark_them == old(self).is_dark_them,
            final(self).can_modify_api_url == old(self).can_modify_api_url,
            final(self).issued == old(self).issued,
            final(self).need_check == old(self).need_check,
            final(self).explicit_cookies == old(self).explicit_cookies,
    {
        self.promise_map.clear();
        self.logged_in = false;
        self.cookies.clear();
    }

    /// One step of the panel before its pages are shown: the sweep for the
    /// end of the session, and then what the user asked for in the menu. A
    /// logout is sent to the server where a user is logged in and no logout
    /// is in flight; a test of the login is sent whenever it is asked for.
    pub fn update(&mut self, events: &MenuEvents) -> (frame: MenuFrame)
        requires
            old(self).wf(),
            old(self)@.issued + 2 <= u64::MAX,
        ensures
            final(self).wf(),
            ({
                let swept = old(self)@.sweep();
                let logout = events.logout && swept.logged_in && swept.can_request("logout"@);
                let asked = if logout {
                    swept.submit("logout"@)
                } else {
                    swept
                };
                &&& if logout {
                    frame.logout matches Some(request) && swept.describes(
                        request,
                        "logout"@,
                        None,
                        Seq::empty(),
                    )
                } else {
                    frame.logout is None
                }
                &&& if events.test {
                    &&& frame.test matches Some(request) && asked.describes(
                        request,
                        "test_auth"@,
                        None,
                        Seq::empty(),
                    )
                    &&& final(self)@ == asked.submit("test_auth"@)
                } else {
                    &&& frame.test is None
                    &&& final(self)@ == asked
                }
            }),
    {
        self.http_response_check();
        let key = "logout".to_owned();
        let logout = if events.logout && self.logged_in && self.can_request(&key) {
            Some(self.http_request("logout", None, Vec::new()))
        } else {
            None
        };
        let test = if events.test {
            Some(self.http_request("test_auth", None, Vec::new()))
        } else {
            None
        };
        MenuFrame { logout, test }
    }

    /// Takes up a login: the user is logged in with the given cookies, and
    /// every promise is dropped.
    pub fn login_success(&mut self, cookies: Vec<String>)
        requires
            old(self).wf(),
        ensures
            final(self).wf(),
            final(self)@ == old(self)@.login_success(string_views(cookies@)),
            final(self)@.logged_in,
            final(self)@.cookies == string_views(cookies@),
            final(self)@.slots == Map::<Seq<char>, Promise>::empty(),
    {
        self.promise_map.clear();
        self.logged_in = true;
        self.cookies = cookies;
    }

    /// Logs the user out: no cookie and no promise is kept.
    pub fn logout(&mut self)
        requires
            old(self).wf(),
        ensures
            final(self).wf(),
            final(self)@ == old(self)@.logout(),
            !final(self)@.logged_in,
            final(self)@.cookies == Seq::<Seq<char>>::empty(),
            final(self)@.slots == Map::<Seq<char>, Promise>::empty(),
    {
        self.drop_session();
        assert(string_views(self.cookies@) =~= Seq::<Seq<char>>::empty());
    }
}

impl Default for TemplateApp {
    /// The panel as it starts without a saved state, outside a page.
    fn default() -> (app: Self)
        ensures
            app.wf(),
            app@ == (AppView {
                api_url: "http://127.0.0.1:8120/api/"@,
                username: "admin"@,
                password: ""@,
                is_dark_them: true,
                can_modify_api_url: true,
                logged_in: false,
                cookies: Seq::empty(),
                slots: Map::empty(),
                issued: 0,
                need_check: false,
                explicit_cookies: true,
            }),
    {
        TemplateApp::new(None, true, None)
    }
}

/// The address of the server's interface for a panel that runs inside the
/// page at `location`: the address of the page with the path `/api/`.
pub open spec fn page_api_url(location: Seq<char>) -> Option<Seq<char>> {
    if location.len() <= URL_LIMIT {
        url_with_path(location, "/api/"@)
    } else {
        None
    }
}

/// Finds the address of the server's interface from the address of the
/// page that the panel runs in.
pub fn get_current_url(location: &str) -> (r: Option<String>)
    ensures
        match r {
            Some(url) => page_api_url(location@) == Some(url@),
            None => page_api_url(location@) is None,
        },
{
    proof {
        reveal_strlit("/api/");
    }
    if location.unicode_len() <= URL_LIMIT {
        with_path(location, "/api/")
    } else {
        None
    }
}

fn copy_strings(strings: &Vec<String>) -> (copy: Vec<String>)
    ensures
        copy@ == strings@,
{
    let mut copy: Vec<String> = Vec::new();
    let mut i: usize = 0;
    while i < strings.len()
        invariant
            i <= strings.len(),
            copy@ == strings@.take(i as int),
        decreases strings.len() - i,
    {
        copy.push(strings[i].clone());
        i = i + 1;
    }
    copy
}

/// A request made in a state that the panel can reach, with a ticket left,
/// leads to such a state.
pub proof fn lemma_submit_valid(v: AppView, key: Seq<char>)
    requires
        v.valid(),
        v.issued < u64::MAX,
    ensures
        v.submit(key).valid(),
{
}

/// An outcome taken in leads from a state that the panel can reach to
/// another.
pub proof fn lemma_resolve_valid(v: AppView, ticket: u64, outcome: Result<Resource, String>)
    requires
        v.valid(),
    ensures
        v.resolve(ticket, outcome).valid(),
{
}

/// The sweep leads from a state that the panel can reach to another.
pub proof fn lemma_sweep_valid(v: AppView)
    requires
        v.valid(),
    ensures
        v.sweep().valid(),
{
    let w = v.sweep();
    if v.need_check && !v.expiry_pending() {
        assert(w.slots.dom() =~= v.slots.dom());
    }
}

/// Dropping promises, a login and a logout lead from a state that the panel
/// can reach to another.
pub proof fn lemma_session_steps_valid(v: AppView, key: Seq<char>, cookies: Seq<Seq<char>>)
    requires
        v.valid(),
    ensures
        v.forget(key).valid(),
        v.clear().valid(),
        v.login_success(cookies).valid(),
        v.logout().valid(),
{
}

/// Of two requests made under one key before either has its outcome, only
/// the second counts: the outcome of the first is dropped, whether it comes
/// before the outcome of the second or after it, and the promise of the key
/// takes the outcome of the second.
pub proof fn law_last_request_wins(
    v: AppView,
    key: Seq<char>,
    first: Result<Resource, String>,
    second: Result<Resource, String>,
)
    requires
        v.valid(),
        v.issued + 1 < u64::MAX,
    ensures
        ({
            let twice = v.submit(key).submit(key);
            let t1 = v.issued as u64;
            let t2 = (v.issued + 1) as u64;
            &&& !twice.can_request(key)
            &&& twice.resolve(t1, first).slots == twice.slots
            &&& twice.resolve(t2, second).slots == twice.slots.insert(
                key,
                Promise { ticket: t2, result: Some(second) },
            )
            &&& twice.resolve(t1, first).resolve(t2, second).slots == twice.resolve(
                t2,
                second,
            ).slots
            &&& twice.resolve(t2, second).resolve(t1, first).slots == twice.resolve(
                t2,
                second,
            ).slots
        }),
{
    let once = v.submit(key);
    let twice = once.submit(key);
    let t1 = v.issued as u64;
    let t2 = (v.issued + 1) as u64;
    // The promise of the key has the second ticket, and none has the first.
    assert(twice.holds_ticket(key, t2));
    // That is still so once the outcome of the first has come.
    assert(twice.resolve(t1, first).holds_ticket(key, t2));
}

/// When a response that says that the session is over comes in for a request
/// that is waited for, the next sweep logs the user out: no login, no
/// cookie and no promise is left.
pub proof fn law_expired_response_logs_out(v: AppView, ticket: u64, response: Resource)
    requires
        v.valid(),
        v.awaits(ticket),
        !response.checked,
        signals_expiry(response),
    ensures
        ({
            let swept = v.resolve(ticket, Ok(response)).sweep();
            &&& !swept.logged_in
            &&& swept.cookies == Seq::<Seq<char>>::empty()
            &&& swept.slots == Map::<Seq<char>, Promise>::empty()
            &&& !swept.need_check
        }),
{
    let key = v.waiting_key(ticket);
    let w = v.resolve(ticket, Ok(response));
    assert(unchecked(w.slots[key]));
}

/// A response with the status 401 says that the session is over, whatever
/// its body holds.
pub proof fn law_status_401_says_expired(response: Resource)
    requires
        response.response.status == 401,
    ensures
        signals_expiry(response),
{
}

/// A response with a status of success whose body is an acknowledgment with
/// the code for an ended session says that the session is over.
pub proof fn law_expired_code_says_expired(response: Resource, body: Json, msg: Seq<char>)
    requires
        response.response.ok,
        json_parse(response.response.bytes@) == Ok::<Json, Seq<char>>(body),
        general_of(body) == Ok::<crate::proto::GeneralResponseView, Seq<char>>(
            crate::proto::GeneralResponseView { code: SESSION_EXPIRED_CODE, msg },
        ),
    ensures
        signals_expiry(response),
{
}

/// A sweep that finds nothing changes nothing but what it has looked at:
/// login and cookies stay, and every key keeps its promise.
pub proof fn law_quiet_sweep_keeps_session(v: AppView)
    requires
        v.valid(),
        !v.expiry_pending(),
    ensures
        v.sweep().logged_in == v.logged_in,
        v.sweep().cookies == v.cookies,
        v.sweep().slots.dom() == v.slots.dom(),
        forall|k: Seq<char>|
            v.slots.contains_key(k) ==> (#[trigger] v.sweep().slots[k]).ticket == v.slots[k].ticket
                && (v.sweep().slots[k].result is Some <==> v.slots[k].result is Some),
        forall|k: Seq<char>| v.sweep().can_request(k) == v.can_request(k),
        !v.sweep().need_check,
{
}

/// At most one request under a key counts at a time: a request made under a
/// key keeps the key busy, and no other key, until its outcome comes in.
pub proof fn law_single_flight(
    v: AppView,
    key: Seq<char>,
    other: Seq<char>,
    outcome: Result<Resource, String>,
)
    requires
        v.valid(),
        v.issued < u64::MAX,
        other != key,
    ensures
        !v.submit(key).can_request(key),
        v.submit(key).can_request(other) == v.can_request(other),
        v.submit(key).resolve(v.issued as u64, outcome).can_request(key),
        v.submit(key).resolve(v.issued as u64, outcome).can_request(other) == v.can_request(other),
{
    let w = v.submit(key);
    let ticket = v.issued as u64;
    assert(w.holds_ticket(key, ticket));
}

/// A login, a logout and the dropping of all promises free every key.
pub proof fn law_session_change_frees_every_key(
    v: AppView,
    cookies: Seq<Seq<char>>,
    key: Seq<char>,
)
    ensures
        v.login_success(cookies).can_request(key),
        v.logout().can_request(key),
        v.clear().can_request(key),
{
}

/// After a sweep no response waits to be looked at, and a second sweep in
/// a row changes nothing.
pub proof fn law_sweep_settles(v: AppView)
    requires
        v.valid(),
    ensures
        v.need_check ==> forall|k: Seq<char>|
            v.sweep().slots.contains_key(k) ==> !unchecked(#[trigger] v.sweep().slots[k]),
        v.sweep().sweep() == v.sweep(),
{
}

} // verus!
