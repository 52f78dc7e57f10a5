//! Responses and what they decode to.

use crate::json::{json_parse, json_view, parse, Json};
use crate::proto::{
    general_of, player_list_of, tunnel_list_of, GeneralResponse, GeneralResponseView,
    PlayerListResponse, PlayerListResponseView, TunnelListResponse, TunnelListResponseView,
};
use crate::text::{decimal, i64_to_string, signed_decimal, str_eq, u64_to_string, utf8_text};
use vstd::prelude::*;
use vstd::string::StringExecFns;
use vstd::utf8::{decode_utf8, valid_utf8};

verus! {

/// A response as the transport hands it over.
#[derive(Debug, PartialEq, Eq)]
pub struct HttpResponse {
    /// Whether the status is one of success.
    pub ok: bool,
    pub status: u16,
    pub status_text: String,
    /// Header names and values, in the order in which they came.
    pub headers: Vec<(String, String)>,
    pub bytes: Vec<u8>,
}

/// What a response decodes to.
#[derive(Debug, PartialEq, Eq)]
pub enum ResponseType {
    Error(String),
    GeneralResponse(GeneralResponse),
    PlayerListResponse(PlayerListResponse),
    TunnelListResponse(TunnelListResponse),
}

/// What [`ResponseType`] stands for in contracts.
pub enum ResponseTypeView {
    Error(Seq<char>),
    GeneralResponse(GeneralResponseView),
    PlayerListResponse(PlayerListResponseView),
    TunnelListResponse(TunnelListResponseView),
}

impl View for ResponseType {
    type V = ResponseTypeView;

    open spec fn view(&self) -> ResponseTypeView {
        match self {
            ResponseType::Error(e) => ResponseTypeView::Error(e@),
            ResponseType::GeneralResponse(g) => ResponseTypeView::GeneralResponse(g@),
            ResponseType::PlayerListResponse(l) => ResponseTypeView::PlayerListResponse(l@),
            ResponseType::TunnelListResponse(l) => ResponseTypeView::TunnelListResponse(l@),
        }
    }
}

/// A response together with what it decoded to.
#[derive(Debug, PartialEq, Eq)]
pub struct Resource {
    pub response: HttpResponse,
    /// Whether the sweep for the end of the session has looked at it.
    pub checked: bool,
    pub response_data: ResponseType,
}

/// The words for a request that got no response: the transport's, or
/// `fallback` where it has none.
pub open spec fn failure_text(error: Seq<char>, fallback: Seq<char>) -> Seq<char> {
    if error.len() == 0 {
        fallback
    } else {
        error
    }
}

/// The words for a request that got no response.
pub fn describe_failure(error: &String, fallback: &str) -> (text: String)
    ensures
        text@ == failure_text(error@, fallback@),
{
    if error.as_str().is_empty() {
        fallback.to_owned()
    } else {
        error.clone()
    }
}

/// The error text for JSON that could not be read, with the reader's words.
pub open spec fn json_error_text(detail: Seq<char>) -> Seq<char> {
    "json decode: "@ + detail
}

/// The error text for an acknowledgment with a code other than zero.
pub open spec fn code_error_text(code: int, msg: Seq<char>) -> Seq<char> {
    "code:"@ + signed_decimal(code) + " ("@ + msg + ")"@
}

/// The error text for a response whose status is not one of success: the
/// status and its reason, and the body where it is text.
pub open spec fn status_error_text(status: u16, reason: Seq<char>, body: Seq<u8>) -> Seq<char> {
    let head = "status:"@ + decimal(status as nat) + " ("@ + reason + ")"@;
    if valid_utf8(body) {
        head + "\nerror:        "@ + decode_utf8(body)
    } else {
        head
    }
}

/// What an acknowledgment stands for: itself where its code is zero, an
/// error that carries code and message otherwise.
pub open spec fn acknowledged(g: GeneralResponseView) -> ResponseTypeView {
    if g.code == 0 {
        ResponseTypeView::GeneralResponse(g)
    } else {
        ResponseTypeView::Error(code_error_text(g.code as int, g.msg))
    }
}

/// What the JSON value `j` decodes to where no list is expected, or where
/// the list that was expected is not what `j` spells.
pub open spec fn decode_general(j: Json) -> ResponseTypeView {
    match general_of(j) {
        Ok(g) => acknowledged(g),
        Err(detail) => ResponseTypeView::Error(json_error_text(detail)),
    }
}

/// What the JSON value `j` decodes to as the answer to the operation `path`:
/// the list that the operation asks for where `j` spells one, and else what
/// it decodes to as an acknowledgment.
pub open spec fn decode_json(path: Seq<char>, j: Json) -> ResponseTypeView {
    if path == "player_list"@ && player_list_of(j) is Some {
        ResponseTypeView::PlayerListResponse(player_list_of(j).unwrap())
    } else if path == "tunnel_list"@ && tunnel_list_of(j) is Some {
        ResponseTypeView::TunnelListResponse(tunnel_list_of(j).unwrap())
    } else {
        decode_general(j)
    }
}

/// What the body of a successful response decodes to, given what the JSON
/// reader made of it.
pub open spec fn decode_parsed(path: Seq<char>, parsed: Result<Json, Seq<char>>) -> ResponseTypeView {
    match parsed {
        Ok(j) => decode_json(path, j),
        Err(detail) => ResponseTypeView::Error(json_error_text(detail)),
    }
}

/// What a response decodes to as the answer to the operation `path`.
pub open spec fn decode(
    path: Seq<char>,
    ok: bool,
    status: u16,
    reason: Seq<char>,
    body: Seq<u8>,
) -> ResponseTypeView {
    if ok {
        decode_parsed(path, json_parse(body))
    } else {
        ResponseTypeView::Error(status_error_text(status, reason, body))
    }
}

/// What the outcome of a request decodes to as the answer to the operation
/// `path`: a response as [`decode`] says, and the transport's words, or
/// `Request failed` in their place, where no response came.
pub open spec fn decode_outcome(path: Seq<char>, outcome: Result<HttpResponse, String>) -> ResponseTypeView {
    match outcome {
        Ok(r) => decode(path, r.ok, r.status, r.status_text@, r.bytes@),
        Err(error) => ResponseTypeView::Error(failure_text(error@, "Request failed"@)),
    }
}

/// What the JSON reader's result stands for in contracts.
pub open spec fn parsed_view(parsed: Result<serde_json::Value, String>) -> Result<Json, Seq<char>> {
    match parsed {
        Ok(v) => Ok(json_view(v)),
        Err(e) => Err(e@),
    }
}

impl ResponseType {
    /// Turns an acknowledgment into what it stands for.
    pub fn from_general(g: GeneralResponse) -> (r: ResponseType)
        ensures
            r@ == acknowledged(g@),
    {
        if g.code == 0 {
            ResponseType::GeneralResponse(g)
        } else {
            let mut text = String::from_str("code:");
            let code = i64_to_string(g.code as i64);
            text.append(code.as_str());
            text.append(" (");
            text.append(g.msg.as_str());
            text.append(")");
            ResponseType::Error(text)
        }
    }

    /// Decodes the body of a successful response to the operation `path`,
    /// given what the JSON reader made of the body.
    pub fn from_parsed(path: &str, parsed: Result<serde_json::Value, String>) -> (r: ResponseType)
        ensures
            r@ == decode_parsed(path@, parsed_view(parsed)),
    {
        match parsed {
            Err(detail) => ResponseType::Error(json_error(detail.as_str())),
            Ok(v) => {
                if str_eq(path, "player_list") {
                    if let Some(list) = PlayerListResponse::from_json(&v) {
                        return ResponseType::PlayerListResponse(list);
                    }
                }
                if str_eq(path, "tunnel_list") {
                    if let Some(list) = TunnelListResponse::from_json(&v) {
                        return ResponseType::TunnelListResponse(list);
                    }
                }
                match GeneralResponse::from_json(&v) {
                    Ok(g) => ResponseType::from_general(g),
                    Err(detail) => ResponseType::Error(json_error(detail.as_str())),
                }
            },
        }
    }

    /// The error for a response whose status is not one of success.
    pub fn from_status(status: u16, reason: &str, body: &[u8]) -> (r: ResponseType)
        ensures
            r@ == ResponseTypeView::Error(status_error_text(status, reason@, body@)),
    {
        let mut text = String::from_str("status:");
        let number = u64_to_string(status as u64);
        text.append(number.as_str());
        text.append(" (");
        text.append(reason);
        text.append(")");
        if let Some(body_text) = utf8_text(body) {
            text.append("\nerror:        ");
            text.append(body_text);
        }
        ResponseType::Error(text)
    }
}

impl ResponseType {
    /// Decodes a response as the answer to the operation `path`.
    pub fn decode(response: &HttpResponse, path: &str) -> (r: ResponseType)
        ensures
            r@ == decode(
                path@,
                response.ok,
                response.status,
                response.status_text@,
                response.bytes@,
            ),
    {
        if response.ok {
            ResponseType::from_parsed(path, parse(response.bytes.as_slice()))
        } else {
            ResponseType::from_status(
                response.status,
                response.status_text.as_str(),
                response.bytes.as_slice(),
            )
        }
    }

    /// Decodes the outcome of a request as the answer to the operation
    /// `path`, whether a response came or not.
    pub fn from_outcome(outcome: &Result<HttpResponse, String>, path: &str) -> (r: ResponseType)
        ensures
            r@ == decode_outcome(path@, *outcome),
    {
        match outcome {
            Ok(response) => ResponseType::decode(response, path),
            Err(error) => ResponseType::Error(describe_failure(error, "Request failed")),
        }
    }
}

fn json_error(detail: &str) -> (text: String)
    ensures
        text@ == json_error_text(detail@),
{
    let mut text = String::from_str("json decode: ");
    text.append(detail);
    text
}

impl Resource {
    /// Decodes a response as the answer to the operation `path`. A response
    /// whose status is not one of success becomes an error that names the
    /// status; the body of any other is read as JSON, as the list that the
    /// operation asks for where it is one, else as an acknowledgment.
    pub fn from_response(response: HttpResponse, path: String) -> (r: Resource)
        ensures
            r.response == response,
            !r.checked,
            r.response_data@ == decode(
                path@,
                response.ok,
                response.status,
                response.status_text@,
                response.bytes@,
            ),
    {
        let response_data = ResponseType::decode(&response, path.as_str());
        Resource { response, checked: false, response_data }
    }
}

/// A response whose status is not one of success decodes to an error,
/// whatever its body holds.
pub proof fn law_error_status_decodes_to_error(
    path: Seq<char>,
    status: u16,
    reason: Seq<char>,
    body: Seq<u8>,
)
    ensures
        decode(path, false, status, reason, body) is Error,
{
}

/// A list comes only as the answer to the operation that asks for it, and an
/// acknowledgment counts as an answer only with the code zero.
pub proof fn law_answers_fit_their_operations(
    path: Seq<char>,
    ok: bool,
    status: u16,
    reason: Seq<char>,
    body: Seq<u8>,
)
    ensures
        decode(path, ok, status, reason, body) is PlayerListResponse ==> ok && path
            == "player_list"@,
        decode(path, ok, status, reason, body) is TunnelListResponse ==> ok && path
            == "tunnel_list"@,
        decode(path, ok, status, reason, body) matches ResponseTypeView::GeneralResponse(g) ==> ok
            && g.code == 0,
{
}

/// An acknowledgment with a code other than zero decodes to the error that
/// carries its code and message, unless the body is the list that the
/// operation asks for.
pub proof fn law_refusal_decodes_to_its_error(
    path: Seq<char>,
    status: u16,
    reason: Seq<char>,
    body: Seq<u8>,
    j: Json,
    g: GeneralResponseView,
)
    requires
        json_parse(body) == Ok::<Json, Seq<char>>(j),
        general_of(j) == Ok::<GeneralResponseView, Seq<char>>(g),
        g.code != 0,
        !(path == "player_list"@ && player_list_of(j) is Some),
        !(path == "tunnel_list"@ && tunnel_list_of(j) is Some),
    ensures
        decode(path, true, status, reason, body) == ResponseTypeView::Error(
            code_error_text(g.code as int, g.msg),
        ),
{
}

/// The error for an acknowledgment with a code other than zero holds the
/// code, in decimal, and the message: the text is `code:`, the code, ` (`,
/// the message and `)`.
pub proof fn law_code_error_holds_code_and_message(code: int, msg: Seq<char>)
    ensures
        ({
            let text = code_error_text(code, msg);
            let digits = signed_decimal(code);
            let from = 5 + digits.len() as int;
            &&& text.len() == from + 2 + msg.len() + 1
            &&& text.subrange(5, from) == digits
            &&& text.subrange(from + 2, text.len() - 1) == msg
        }),
{
    reveal_strlit("code:");
    reveal_strlit(" (");
    reveal_strlit(")");
    let text = code_error_text(code, msg);
    let digits = signed_decimal(code);
    let from = 5 + digits.len() as int;
}

} // verus!
