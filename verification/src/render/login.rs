//! The login: its request, its outcome, and the cookies of the session.

use crate::app::{reset_pages, HttpRequest, Promise, SubPage, TemplateApp};
use crate::proto::{json_body, login_json, LoginReq};
use crate::resource::{describe_failure, failure_text, HttpResponse, ResponseType};
use crate::text::{eq_ignore_ascii_case, same_ignoring_ascii_case, string_views};
use crate::wire::{first_match, pair_views, regex_first_match};
use vstd::prelude::*;

verus! {

/// The regular expression for the name and value at the start of a cookie:
/// a name without `;`, `=` or blanks, a `=`, and what follows up to the next
/// `;`.
pub open spec fn cookie_pattern() -> Seq<char> {
    "[^;=\\s]+=[^;]*"@
}

/// Whether a header is one that sets a cookie.
pub open spec fn is_set_cookie(name: Seq<char>) -> bool {
    same_ignoring_ascii_case(name, "Set-Cookie"@)
}

/// The cookie that a header sets: the first name and value in the value of
/// a `Set-Cookie` header, without the attributes that follow them.
pub open spec fn cookie_of(header: (Seq<char>, Seq<char>)) -> Option<Seq<char>> {
    if is_set_cookie(header.0) {
        regex_first_match(cookie_pattern(), header.1)
    } else {
        None
    }
}

/// The cookies that the headers set, in the order of the headers.
pub open spec fn cookies_of(headers: Seq<(Seq<char>, Seq<char>)>) -> Seq<Seq<char>>
    decreases headers.len(),
{
    if headers.len() == 0 {
        Seq::empty()
    } else {
        let before = cookies_of(headers.drop_last());
        match cookie_of(headers.last()) {
            Some(cookie) => before.push(cookie),
            None => before,
        }
    }
}

/// The cookies come in the order of the headers: those of a list of
/// headers, and then those of the headers that follow it. Headers that set
/// no cookie add nothing.
pub proof fn law_cookies_follow_headers(
    first: Seq<(Seq<char>, Seq<char>)>,
    then: Seq<(Seq<char>, Seq<char>)>,
)
    ensures
        cookies_of(first + then) == cookies_of(first) + cookies_of(then),
        (forall|i: int| 0 <= i < then.len() ==> cookie_of(#[trigger] then[i]) is None)
            ==> cookies_of(first + then) == cookies_of(first),
    decreases then.len(),
{
    if then.len() > 0 {
        law_cookies_follow_headers(first, then.drop_last());
        assert((first + then).drop_last() =~= first + then.drop_last());
        if forall|i: int| 0 <= i < then.len() ==> cookie_of(#[trigger] then[i]) is None {
            assert(forall|i: int|
                0 <= i < then.drop_last().len() ==> cookie_of(#[trigger] then.drop_last()[i])
                    is None);
        }
    }
}

/// The cookie that one header sets.
pub fn extract_cookie(name: &str, value: &str) -> (cookie: Option<String>)
    ensures
        match cookie {
            Some(c) => cookie_of((name@, value@)) == Some(c@),
            None => cookie_of((name@, value@)) is None,
        },
{
    if eq_ignore_ascii_case(name, "Set-Cookie") {
        first_match("[^;=\\s]+=[^;]*", value)
    } else {
        None
    }
}

/// The cookies that a response sets, in the order of its headers.
pub fn extract_cookies(response: &HttpResponse) -> (cookies: Vec<String>)
    ensures
        string_views(cookies@) == cookies_of(pair_views(response.headers@)),
{
    let mut cookies: Vec<String> = Vec::new();
    let mut i: usize = 0;
    let ghost headers = pair_views(response.headers@);
    while i < response.headers.len()
        invariant
            i <= response.headers.len(),
            headers == pair_views(response.headers@),
            string_views(cookies@) == cookies_of(headers.take(i as int)),
        decreases response.headers.len() - i,
    {
        proof {
            assert(headers.take(i + 1).drop_last() =~= headers.take(i as int));
        }
        let header = &response.headers[i];
        if let Some(cookie) = extract_cookie(header.0.as_str(), header.1.as_str()) {
            cookies.push(cookie);
        }
        i = i + 1;
    }
    assert(headers.take(response.headers.len() as int) =~= headers);
    cookies
}

/// How the login stands.
#[derive(Debug, PartialEq, Eq)]
pub enum LoginStatus {
    /// No login was sent.
    Idle,
    /// The login is on its way.
    Waiting,
    /// The server took the login.
    LoggedIn,
    /// The login failed.
    Error(String),
}

/// What [`LoginStatus`] stands for in contracts.
pub enum LoginStatusView {
    Idle,
    Waiting,
    LoggedIn,
    Error(Seq<char>),
}

impl View for LoginStatus {
    type V = LoginStatusView;

    open spec fn view(&self) -> LoginStatusView {
        match self {
            LoginStatus::Idle => LoginStatusView::Idle,
            LoginStatus::Waiting => LoginStatusView::Waiting,
            LoginStatus::LoggedIn => LoginStatusView::LoggedIn,
            LoginStatus::Error(e) => LoginStatusView::Error(e@),
        }
    }
}

/// What the login window shows, and the request to send where the user
/// sent the login off.
#[derive(Debug, PartialEq, Eq)]
pub struct LoginFrame {
    pub status: LoginStatus,
    pub request: Option<HttpRequest>,
}

/// How the login stands, given the promise of its request.
pub open spec fn login_status(promise: Option<Promise>) -> LoginStatusView {
    match promise {
        None => LoginStatusView::Idle,
        Some(p) => match p.result {
            None => LoginStatusView::Waiting,
            Some(Err(error)) => LoginStatusView::Error(failure_text(error@, "Login failed"@)),
            Some(Ok(r)) => match r.response_data {
                ResponseType::GeneralResponse(_) => LoginStatusView::LoggedIn,
                ResponseType::Error(e) => LoginStatusView::Error(e@),
                _ => LoginStatusView::Error("Unknown error"@),
            },
        },
    }
}

/// The cookies that the response in a promise sets.
pub open spec fn cookies_in(promise: Option<Promise>) -> Seq<Seq<char>> {
    match promise {
        Some(p) => match p.result {
            Some(Ok(r)) => cookies_of(pair_views(r.response.headers@)),
            _ => Seq::empty(),
        },
        None => Seq::empty(),
    }
}

/// The key of the login among the requests.
pub open spec fn key_login() -> Seq<char> {
    "login"@
}

/// One step of the login window. Where the user sent the login off and no
/// login is in flight, the name and password of the panel are sent to the
/// server. Where the server took a login, the user is logged in with the
/// cookies that the response sets, every page forgets what it holds, and no
/// promise is kept.
pub fn ui(app: &mut TemplateApp, pages: &mut Vec<SubPage>, clicked: bool) -> (frame: LoginFrame)
    requires
        old(app).wf(),
        old(app)@.issued < u64::MAX,
    ensures
        final(app).wf(),
        final(pages)@.len() == old(pages)@.len(),
        ({
            let sent = clicked && old(app)@.can_request(key_login());
            let app1 = if sent {
                old(app)@.submit(key_login())
            } else {
                old(app)@
            };
            &&& if sent {
                frame.request matches Some(request) && old(app)@.describes(
                    request,
                    key_login(),
                    None,
                    json_body(login_json(old(app)@.username, old(app)@.password)),
                )
            } else {
                frame.request is None
            }
            &&& frame.status@ == login_status(app1.slot(key_login()))
            &&& if frame.status is LoggedIn {
                &&& final(app)@ == app1.login_success(cookies_in(app1.slot(key_login())))
                &&& forall|i: int|
                    0 <= i < final(pages)@.len() ==> {
                        &&& (#[trigger] final(pages)@[i]).name == old(pages)@[i].name
                        &&& final(pages)@[i].render.same_kind(&old(pages)@[i].render)
                        &&& final(pages)@[i].render.wf()
                        &&& final(pages)@[i].render.is_fresh()
                    }
            } else {
                &&& final(app)@ == app1
                &&& final(pages)@ == old(pages)@
            }
        }),
{
    let key = "login".to_owned();
    let request = if clicked && app.can_request(&key) {
        let body = LoginReq {
            username: app.username().clone(),
            password: app.password().clone(),
        }.to_body();
        Some(app.http_request("login", None, body))
    } else {
        None
    };
    let mut cookies: Option<Vec<String>> = None;
    let status = match app.promise("login") {
        None => LoginStatus::Idle,
        Some(promise) => match promise.ready() {
            None => LoginStatus::Waiting,
            Some(Err(error)) => LoginStatus::Error(describe_failure(error, "Login failed")),
            Some(Ok(resource)) => match &resource.response_data {
                ResponseType::GeneralResponse(_) => {
                    cookies = Some(extract_cookies(&resource.response));
                    LoginStatus::LoggedIn
                },
                ResponseType::Error(e) => LoginStatus::Error(e.clone()),
                _ => LoginStatus::Error("Unknown error".to_owned()),
            },
        },
    };
    if let Some(cookies) = cookies {
        reset_pages(pages);
        app.login_success(cookies);
    }
    LoginFrame { status, request }
}

} // verus!
