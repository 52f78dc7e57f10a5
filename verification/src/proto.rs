//! The messages that travel between the panel and the server, and their
//! JSON shapes.

use crate::json::{
    as_array, as_bool, as_i64, as_string, as_u64, empty_object, json_text, json_view, member,
    set_member, string_value, to_bytes, uint_value, Json,
};
use vstd::prelude::*;

verus! {

/// The body of a login request.
#[derive(Debug, PartialEq, Eq)]
pub struct LoginReq {
    pub username: String,
    pub password: String,
}

/// What the server answers to a login with a token.
#[derive(Debug, PartialEq, Eq)]
pub struct LoginAck {
    pub token: String,
}

/// The generic acknowledgment: an application code, zero for success, and a
/// message.
#[derive(Debug, PartialEq, Eq)]
pub struct GeneralResponse {
    pub code: i32,
    pub msg: String,
}

/// What [`GeneralResponse`] stands for in contracts.
pub struct GeneralResponseView {
    pub code: i32,
    pub msg: Seq<char>,
}

impl View for GeneralResponse {
    type V = GeneralResponseView;

    open spec fn view(&self) -> GeneralResponseView {
        GeneralResponseView { code: self.code, msg: self.msg@ }
    }
}

/// The application code by which the server says that the session is over.
pub const SESSION_EXPIRED_CODE: i32 = 10086;

/// The member `key` of an object, where `j` is an object that has it.
pub open spec fn member_of(j: Json, key: Seq<char>) -> Option<Json> {
    match j {
        Json::Object(o) => if o.contains_key(key) {
            Some(o[key])
        } else {
            None
        },
        _ => None,
    }
}

/// The member `key` of `j`, where it is an integer from `lo` to `hi`.
pub open spec fn int_member(j: Json, key: Seq<char>, lo: int, hi: int) -> Option<int> {
    match member_of(j, key) {
        Some(Json::Int(n)) => if lo <= n <= hi {
            Some(n)
        } else {
            None
        },
        _ => None,
    }
}

/// The member `key` of `j`, where it is a string.
pub open spec fn str_member(j: Json, key: Seq<char>) -> Option<Seq<char>> {
    match member_of(j, key) {
        Some(Json::Str(s)) => Some(s),
        _ => None,
    }
}

/// The member `key` of `j`, where it is a boolean.
pub open spec fn bool_member(j: Json, key: Seq<char>) -> Option<bool> {
    match member_of(j, key) {
        Some(Json::Bool(b)) => Some(b),
        _ => None,
    }
}

/// The member `key` of `j`, where it is an array.
pub open spec fn array_member(j: Json, key: Seq<char>) -> Option<Seq<Json>> {
    match member_of(j, key) {
        Some(Json::Array(a)) => Some(a),
        _ => None,
    }
}

pub(crate) fn read_i32(v: &serde_json::Value, key: &str) -> (r: Option<i32>)
    ensures
        match r {
            Some(n) => int_member(json_view(*v), key@, i32::MIN as int, i32::MAX as int) == Some(
                n as int,
            ),
            None => int_member(json_view(*v), key@, i32::MIN as int, i32::MAX as int) is None,
        },
{
    match member(v, key) {
        Some(m) => match as_i64(m) {
            Some(n) => if -0x8000_0000 <= n && n <= 0x7fff_ffff {
                Some(n as i32)
            } else {
                None
            },
            None => None,
        },
        None => None,
    }
}

pub(crate) fn read_u64(v: &serde_json::Value, key: &str) -> (r: Option<u64>)
    ensures
        match r {
            Some(n) => int_member(json_view(*v), key@, 0, u64::MAX as int) == Some(n as int),
            None => int_member(json_view(*v), key@, 0, u64::MAX as int) is None,
        },
{
    match member(v, key) {
        Some(m) => as_u64(m),
        None => None,
    }
}

pub(crate) fn read_u32(v: &serde_json::Value, key: &str) -> (r: Option<u32>)
    ensures
        match r {
            Some(n) => int_member(json_view(*v), key@, 0, u32::MAX as int) == Some(n as int),
            None => int_member(json_view(*v), key@, 0, u32::MAX as int) is None,
        },
{
    match read_u64(v, key) {
        Some(n) => if n <= 0xffff_ffff {
            Some(n as u32)
        } else {
            None
        },
        None => None,
    }
}

pub(crate) fn read_usize(v: &serde_json::Value, key: &str) -> (r: Option<usize>)
    ensures
        match r {
            Some(n) => int_member(json_view(*v), key@, 0, usize::MAX as int) == Some(n as int),
            None => int_member(json_view(*v), key@, 0, usize::MAX as int) is None,
        },
{
    match read_u64(v, key) {
        Some(n) => if n <= usize::MAX as u64 {
            Some(n as usize)
        } else {
            None
        },
        None => None,
    }
}

pub(crate) fn read_string(v: &serde_json::Value, key: &str) -> (r: Option<String>)
    ensures
        match r {
            Some(s) => str_member(json_view(*v), key@) == Some(s@),
            None => str_member(json_view(*v), key@) is None,
        },
{
    match member(v, key) {
        Some(m) => as_string(m),
        None => None,
    }
}

pub(crate) fn read_bool(v: &serde_json::Value, key: &str) -> (r: Option<bool>)
    ensures
        r == bool_member(json_view(*v), key@),
{
    match member(v, key) {
        Some(m) => as_bool(m),
        None => None,
    }
}

/// The acknowledgment that `j` spells: an object with an integer `code` that
/// fits 32 bits and a string `msg`; or what is wrong with it.
pub open spec fn general_of(j: Json) -> Result<GeneralResponseView, Seq<char>> {
    match int_member(j, "code"@, i32::MIN as int, i32::MAX as int) {
        None => Err("missing or invalid field `code`"@),
        Some(code) => match str_member(j, "msg"@) {
            None => Err("missing or invalid field `msg`"@),
            Some(msg) => Ok(GeneralResponseView { code: code as i32, msg }),
        },
    }
}

impl GeneralResponse {
    /// Reads an acknowledgment out of a JSON value.
    pub(crate) fn from_json(v: &serde_json::Value) -> (r: Result<GeneralResponse, String>)
        ensures
            match r {
                Ok(g) => general_of(json_view(*v)) == Ok::<GeneralResponseView, Seq<char>>(g@),
                Err(e) => general_of(json_view(*v)) == Err::<GeneralResponseView, Seq<char>>(e@),
            },
    {
        match read_i32(v, "code") {
            None => Err("missing or invalid field `code`".to_owned()),
            Some(code) => match read_string(v, "msg") {
                None => Err("missing or invalid field `msg`".to_owned()),
                Some(msg) => Ok(GeneralResponse { code, msg }),
            },
        }
    }
}

/// The text that stands for a JSON value on the wire; empty where
/// `serde_json` writes none.
pub open spec fn json_body(j: Json) -> Seq<u8> {
    match json_text(j) {
        Some(bytes) => bytes,
        None => Seq::empty(),
    }
}

pub(crate) fn body_of(v: &serde_json::Value) -> (body: Vec<u8>)
    ensures
        body@ == json_body(json_view(*v)),
{
    match to_bytes(v) {
        Some(bytes) => bytes,
        None => Vec::new(),
    }
}

/// An object without members.
pub open spec fn no_members() -> Map<Seq<char>, Json> {
    Map::empty()
}

/// The JSON value of a login request.
pub open spec fn login_json(username: Seq<char>, password: Seq<char>) -> Json {
    Json::Object(
        no_members().insert("username"@, Json::Str(username)).insert(
            "password"@,
            Json::Str(password),
        ),
    )
}

impl LoginReq {
    /// The request as the body of a POST.
    pub fn to_body(&self) -> (body: Vec<u8>)
        ensures
            body@ == json_body(login_json(self.username@, self.password@)),
    {
        let mut v = empty_object();
        set_member(&mut v, "username", string_value(self.username.as_str()));
        set_member(&mut v, "password", string_value(self.password.as_str()));
        body_of(&v)
    }
}

/// One player of a player list.
#[derive(Debug, PartialEq, Eq)]
pub struct PlayerListItem {
    pub id: u32,
    pub username: String,
    pub password: String,
    pub online: bool,
}

/// What [`PlayerListItem`] stands for in contracts.
pub struct PlayerListItemView {
    pub id: u32,
    pub username: Seq<char>,
    pub password: Seq<char>,
    pub online: bool,
}

impl View for PlayerListItem {
    type V = PlayerListItemView;

    open spec fn view(&self) -> PlayerListItemView {
        PlayerListItemView {
            id: self.id,
            username: self.username@,
            password: self.password@,
            online: self.online,
        }
    }
}

impl Clone for PlayerListItem {
    fn clone(&self) -> (r: Self)
        ensures
            r == *self,
    {
        PlayerListItem {
            id: self.id,
            username: self.username.clone(),
            password: self.password.clone(),
            online: self.online,
        }
    }
}

/// One page of the list of players.
#[derive(Debug, PartialEq, Eq)]
pub struct PlayerListResponse {
    pub players: Vec<PlayerListItem>,
    pub cur_page_number: u32,
    pub total_count: u32,
}

/// What [`PlayerListResponse`] stands for in contracts.
pub struct PlayerListResponseView {
    pub players: Seq<PlayerListItemView>,
    pub cur_page_number: u32,
    pub total_count: u32,
}

impl View for PlayerListResponse {
    type V = PlayerListResponseView;

    open spec fn view(&self) -> PlayerListResponseView {
        PlayerListResponseView {
            players: self.players@.map_values(|p: PlayerListItem| p@),
            cur_page_number: self.cur_page_number,
            total_count: self.total_count,
        }
    }
}

impl Clone for PlayerListResponse {
    fn clone(&self) -> (r: Self)
        ensures
            r.players@ == self.players@,
            r.cur_page_number == self.cur_page_number,
            r.total_count == self.total_count,
            r@ == self@,
    {
        let mut players: Vec<PlayerListItem> = Vec::new();
        let mut i: usize = 0;
        while i < self.players.len()
            invariant
                i <= self.players.len(),
                players@ == self.players@.take(i as int),
            decreases self.players.len() - i,
        {
            players.push(self.players[i].clone());
            i = i + 1;
        }
        assert(players@ =~= self.players@);
        PlayerListResponse {
            players,
            cur_page_number: self.cur_page_number,
            total_count: self.total_count,
        }
    }
}

/// The player that `j` spells: an object with `id`, `username`, `password`
/// and `online`.
pub open spec fn player_item_of(j: Json) -> Option<PlayerListItemView> {
    match (
        int_member(j, "id"@, 0, u32::MAX as int),
        str_member(j, "username"@),
        str_member(j, "password"@),
        bool_member(j, "online"@),
    ) {
        (Some(id), Some(username), Some(password), Some(online)) => Some(
            PlayerListItemView { id: id as u32, username, password, online },
        ),
        _ => None,
    }
}

/// The players that the items of an array spell, where each spells one.
pub open spec fn player_items_of(a: Seq<Json>) -> Option<Seq<PlayerListItemView>> {
    if forall|i: int| 0 <= i < a.len() ==> (#[trigger] player_item_of(a[i])) is Some {
        Some(Seq::new(a.len(), |i: int| player_item_of(a[i]).unwrap()))
    } else {
        None
    }
}

/// The page of players that `j` spells: an object with the array `players`
/// and the numbers `cur_page_number` and `total_count`.
pub open spec fn player_list_of(j: Json) -> Option<PlayerListResponseView> {
    match (
        array_member(j, "players"@),
        int_member(j, "cur_page_number"@, 0, u32::MAX as int),
        int_member(j, "total_count"@, 0, u32::MAX as int),
    ) {
        (Some(a), Some(page), Some(total)) => match player_items_of(a) {
            Some(players) => Some(
                PlayerListResponseView {
                    players,
                    cur_page_number: page as u32,
                    total_count: total as u32,
                },
            ),
            None => None,
        },
        _ => None,
    }
}

pub(crate) fn read_array<'a>(v: &'a serde_json::Value, key: &str) -> (r: Option<
    &'a Vec<serde_json::Value>,
>)
    ensures
        match r {
            Some(items) => array_member(json_view(*v), key@) matches Some(a) && a.len()
                == items@.len() && forall|i: int|
                0 <= i < a.len() ==> a[i] == json_view(#[trigger] items@[i]),
            None => array_member(json_view(*v), key@) is None,
        },
{
    match member(v, key) {
        Some(m) => as_array(m),
        None => None,
    }
}

impl PlayerListItem {
    /// Reads a player out of a JSON value.
    pub(crate) fn from_json(v: &serde_json::Value) -> (r: Option<PlayerListItem>)
        ensures
            match r {
                Some(item) => player_item_of(json_view(*v)) == Some(item@),
                None => player_item_of(json_view(*v)) is None,
            },
    {
        let id = read_u32(v, "id");
        let username = read_string(v, "username");
        let password = read_string(v, "password");
        let online = read_bool(v, "online");
        match (id, username, password, online) {
            (Some(id), Some(username), Some(password), Some(online)) => Some(
                PlayerListItem { id, username, password, online },
            ),
            _ => None,
        }
    }
}

impl PlayerListResponse {
    /// Reads a page of players out of a JSON value.
    #[verifier::loop_isolation(false)]
    pub(crate) fn from_json(v: &serde_json::Value) -> (r: Option<PlayerListResponse>)
        ensures
            match r {
                Some(list) => player_list_of(json_view(*v)) == Some(list@),
                None => player_list_of(json_view(*v)) is None,
            },
    {
        let items = read_array(v, "players");
        let page = read_u32(v, "cur_page_number");
        let total = read_u32(v, "total_count");
        match (items, page, total) {
            (Some(items), Some(cur_page_number), Some(total_count)) => {
                let ghost a = array_member(json_view(*v), "players"@).unwrap();
                let mut players: Vec<PlayerListItem> = Vec::new();
                let mut i: usize = 0;
                while i < items.len()
                    invariant
                        i <= items.len(),
                        a.len() == items@.len(),
                        forall|k: int| 0 <= k < a.len() ==> a[k] == json_view(#[trigger] items@[k]),
                        players@.len() == i,
                        forall|k: int|
                            0 <= k < i ==> (#[trigger] player_item_of(a[k])) == Some(players@[k]@),
                    decreases items.len() - i,
                {
                    match PlayerListItem::from_json(&items[i]) {
                        Some(item) => {
                            players.push(item);
                        },
                        None => {
                            return None;
                        },
                    }
                    i = i + 1;
                }
                let list = PlayerListResponse { players, cur_page_number, total_count };
                assert(list@.players =~= player_items_of(a).unwrap());
                Some(list)
            },
            _ => None,
        }
    }
}

/// One tunnel of a tunnel list.
#[derive(Debug, PartialEq, Eq)]
pub struct TunnelListItem {
    pub id: u32,
    pub source: String,
    pub endpoint: String,
    pub enabled: bool,
    pub sender: u32,
    pub receiver: u32,
    pub description: String,
}

/// What [`TunnelListItem`] stands for in contracts.
pub struct TunnelListItemView {
    pub id: u32,
    pub source: Seq<char>,
    pub endpoint: Seq<char>,
    pub enabled: bool,
    pub sender: u32,
    pub receiver: u32,
    pub description: Seq<char>,
}

impl View for TunnelListItem {
    type V = TunnelListItemView;

    open spec fn view(&self) -> TunnelListItemView {
        TunnelListItemView {
            id: self.id,
            source: self.source@,
            endpoint: self.endpoint@,
            enabled: self.enabled,
            sender: self.sender,
            receiver: self.receiver,
            description: self.description@,
        }
    }
}

impl Clone for TunnelListItem {
    fn clone(&self) -> (r: Self)
        ensures
            r == *self,
    {
        TunnelListItem {
            id: self.id,
            source: self.source.clone(),
            endpoint: self.endpoint.clone(),
            enabled: self.enabled,
            sender: self.sender,
            receiver: self.receiver,
            description: self.description.clone(),
        }
    }
}

/// One page of the list of tunnels.
#[derive(Debug, PartialEq, Eq)]
pub struct TunnelListResponse {
    pub tunnels: Vec<TunnelListItem>,
    pub cur_page_number: usize,
    pub total_count: usize,
}

/// What [`TunnelListResponse`] stands for in contracts.
pub struct TunnelListResponseView {
    pub tunnels: Seq<TunnelListItemView>,
    pub cur_page_number: usize,
    pub total_count: usize,
}

impl View for TunnelListResponse {
    type V = TunnelListResponseView;

    open spec fn view(&self) -> TunnelListResponseView {
        TunnelListResponseView {
            tunnels: self.tunnels@.map_values(|t: TunnelListItem| t@),
            cur_page_number: self.cur_page_number,
            total_count: self.total_count,
        }
    }
}

impl Clone for TunnelListResponse {
    fn clone(&self) -> (r: Self)
        ensures
            r.tunnels@ == self.tunnels@,
            r.cur_page_number == self.cur_page_number,
            r.total_count == self.total_count,
            r@ == self@,
    {
        let mut tunnels: Vec<TunnelListItem> = Vec::new();
        let mut i: usize = 0;
        while i < self.tunnels.len()
            invariant
                i <= self.tunnels.len(),
                tunnels@ == self.tunnels@.take(i as int),
            decreases self.tunnels.len() - i,
        {
            tunnels.push(self.tunnels[i].clone());
            i = i + 1;
        }
        assert(tunnels@ =~= self.tunnels@);
        TunnelListResponse {
            tunnels,
            cur_page_number: self.cur_page_number,
            total_count: self.total_count,
        }
    }
}

/// The tunnel that `j` spells: an object with `id`, `source`, `endpoint`,
/// `enabled`, `sender`, `receiver` and `description`.
pub open spec fn tunnel_item_of(j: Json) -> Option<TunnelListItemView> {
    match (
        int_member(j, "id"@, 0, u32::MAX as int),
        str_member(j, "source"@),
        str_member(j, "endpoint"@),
        bool_member(j, "enabled"@),
        int_member(j, "sender"@, 0, u32::MAX as int),
        int_member(j, "receiver"@, 0, u32::MAX as int),
        str_member(j, "description"@),
    ) {
        (
            Some(id),
            Some(source),
            Some(endpoint),
            Some(enabled),
            Some(sender),
            Some(receiver),
            Some(description),
        ) => Some(
            TunnelListItemView {
                id: id as u32,
                source,
                endpoint,
                enabled,
                sender: sender as u32,
                receiver: receiver as u32,
                description,
            },
        ),
        _ => None,
    }
}

/// The tunnels that the items of an array spell, where each spells one.
pub open spec fn tunnel_items_of(a: Seq<Json>) -> Option<Seq<TunnelListItemView>> {
    if forall|i: int| 0 <= i < a.len() ==> (#[trigger] tunnel_item_of(a[i])) is Some {
        Some(Seq::new(a.len(), |i: int| tunnel_item_of(a[i]).unwrap()))
    } else {
        None
    }
}

/// The page of tunnels that `j` spells: an object with the array `tunnels`
/// and the numbers `cur_page_number` and `total_count`.
pub open spec fn tunnel_list_of(j: Json) -> Option<TunnelListResponseView> {
    match (
        array_member(j, "tunnels"@),
        int_member(j, "cur_page_number"@, 0, usize::MAX as int),
        int_member(j, "total_count"@, 0, usize::MAX as int),
    ) {
        (Some(a), Some(page), Some(total)) => match tunnel_items_of(a) {
            Some(tunnels) => Some(
                TunnelListResponseView {
                    tunnels,
                    cur_page_number: page as usize,
                    total_count: total as usize,
                },
            ),
            None => None,
        },
        _ => None,
    }
}

impl TunnelListItem {
    /// Reads a tunnel out of a JSON value.
    pub(crate) fn from_json(v: &serde_json::Value) -> (r: Option<TunnelListItem>)
        ensures
            match r {
                Some(item) => tunnel_item_of(json_view(*v)) == Some(item@),
                None => tunnel_item_of(json_view(*v)) is None,
            },
    {
        let id = read_u32(v, "id");
        let source = read_string(v, "source");
        let endpoint = read_string(v, "endpoint");
        let enabled = read_bool(v, "enabled");
        let sender = read_u32(v, "sender");
        let receiver = read_u32(v, "receiver");
        let description = read_string(v, "description");
        match (id, source, endpoint, enabled, sender, receiver, description) {
            (
                Some(id),
                Some(source),
                Some(endpoint),
                Some(enabled),
                Some(sender),
                Some(receiver),
                Some(description),
            ) => Some(
                TunnelListItem { id, source, endpoint, enabled, sender, receiver, description },
            ),
            _ => None,
        }
    }
}

impl TunnelListResponse {
    /// Reads a page of tunnels out of a JSON value.
    #[verifier::loop_isolation(false)]
    pub(crate) fn from_json(v: &serde_json::Value) -> (r: Option<TunnelListResponse>)
        ensures
            match r {
                Some(list) => tunnel_list_of(json_view(*v)) == Some(list@),
                None => tunnel_list_of(json_view(*v)) is None,
            },
    {
        let items = read_array(v, "tunnels");
        let page = read_usize(v, "cur_page_number");
        let total = read_usize(v, "total_count");
        match (items, page, total) {
            (Some(items), Some(cur_page_number), Some(total_count)) => {
                let ghost a = array_member(json_view(*v), "tunnels"@).unwrap();
                let mut tunnels: Vec<TunnelListItem> = Vec::new();
                let mut i: usize = 0;
                while i < items.len()
                    invariant
                        i <= items.len(),
                        tunnels@.len() == i,
                        forall|k: int|
                            0 <= k < i ==> (#[trigger] tunnel_item_of(a[k])) == Some(tunnels@[k]@),
                    decreases items.len() - i,
                {
                    match TunnelListItem::from_json(&items[i]) {
                        Some(item) => {
                            tunnels.push(item);
                        },
                        None => {
                            return None;
                        },
                    }
                    i = i + 1;
                }
                let list = TunnelListResponse { tunnels, cur_page_number, total_count };
                assert(list@.tunnels =~= tunnel_items_of(a).unwrap());
                Some(list)
            },
            _ => None,
        }
    }
}

/// Asks for one page of the list of players.
#[derive(Debug, PartialEq, Eq)]
pub struct PlayerListRequest {
    pub page_number: u32,
    pub page_size: u32,
}

/// Asks to change the name and password of a player.
#[derive(Debug, PartialEq, Eq)]
pub struct PlayerUpdateReq {
    pub id: u32,
    pub username: String,
    pub password: String,
}

/// Asks to remove a player.
#[derive(Debug, PartialEq, Eq)]
pub struct PlayerRemoveReq {
    pub id: u32,
}

/// Asks for one page of the list of tunnels.
#[derive(Debug, PartialEq, Eq)]
pub struct TunnelListRequest {
    pub page_number: usize,
    pub page_size: usize,
}

/// Asks to change a tunnel.
#[derive(Debug, PartialEq, Eq)]
pub struct TunnelUpdateReq {
    pub id: u32,
    pub source: String,
    pub endpoint: String,
    pub enabled: u8,
    pub sender: u32,
    pub receiver: u32,
    pub description: String,
}

/// Asks to remove a tunnel.
#[derive(Debug, PartialEq, Eq)]
pub struct TunnelRemoveReq {
    pub id: u32,
}

/// Asks to add a tunnel.
#[derive(Debug, PartialEq, Eq)]
pub struct TunnelAddReq {
    pub source: String,
    pub endpoint: String,
    pub enabled: u8,
    pub sender: u32,
    pub receiver: u32,
    pub description: String,
}

/// The JSON value of a request for a page: its number and its size.
pub open spec fn page_json(page_number: int, page_size: int) -> Json {
    Json::Object(
        no_members().insert("page_number"@, Json::Int(page_number)).insert(
            "page_size"@,
            Json::Int(page_size),
        ),
    )
}

/// The JSON value of a request that names one item by its id.
pub open spec fn id_json(id: int) -> Json {
    Json::Object(no_members().insert("id"@, Json::Int(id)))
}

/// The JSON value of a request to change a player.
pub open spec fn player_update_json(id: int, username: Seq<char>, password: Seq<char>) -> Json {
    Json::Object(
        no_members().insert("id"@, Json::Int(id)).insert("username"@, Json::Str(username)).insert(
            "password"@,
            Json::Str(password),
        ),
    )
}

/// The members that a request to add a tunnel and one to change it share.
pub open spec fn tunnel_members(
    source: Seq<char>,
    endpoint: Seq<char>,
    enabled: int,
    sender: int,
    receiver: int,
    description: Seq<char>,
) -> Map<Seq<char>, Json> {
    no_members().insert("source"@, Json::Str(source)).insert(
        "endpoint"@,
        Json::Str(endpoint),
    ).insert("enabled"@, Json::Int(enabled)).insert("sender"@, Json::Int(sender)).insert(
        "receiver"@,
        Json::Int(receiver),
    ).insert("description"@, Json::Str(description))
}

fn tunnel_object(
    source: &str,
    endpoint: &str,
    enabled: u8,
    sender: u32,
    receiver: u32,
    description: &str,
) -> (v: serde_json::Value)
    ensures
        json_view(v) == Json::Object(
            tunnel_members(
                source@,
                endpoint@,
                enabled as int,
                sender as int,
                receiver as int,
                description@,
            ),
        ),
{
    let mut v = empty_object();
    set_member(&mut v, "source", string_value(source));
    set_member(&mut v, "endpoint", string_value(endpoint));
    set_member(&mut v, "enabled", uint_value(enabled as u64));
    set_member(&mut v, "sender", uint_value(sender as u64));
    set_member(&mut v, "receiver", uint_value(receiver as u64));
    set_member(&mut v, "description", string_value(description));
    v
}

impl PlayerListRequest {
    /// The request as the body of a POST.
    pub fn to_body(&self) -> (body: Vec<u8>)
        ensures
            body@ == json_body(page_json(self.page_number as int, self.page_size as int)),
    {
        let mut v = empty_object();
        set_member(&mut v, "page_number", uint_value(self.page_number as u64));
        set_member(&mut v, "page_size", uint_value(self.page_size as u64));
        body_of(&v)
    }
}

impl PlayerUpdateReq {
    /// The request as the body of a POST.
    pub fn to_body(&self) -> (body: Vec<u8>)
        ensures
            body@ == json_body(
                player_update_json(self.id as int, self.username@, self.password@),
            ),
    {
        let mut v = empty_object();
        set_member(&mut v, "id", uint_value(self.id as u64));
        set_member(&mut v, "username", string_value(self.username.as_str()));
        set_member(&mut v, "password", string_value(self.password.as_str()));
        body_of(&v)
    }
}

impl PlayerRemoveReq {
    /// The request as the body of a POST.
    pub fn to_body(&self) -> (body: Vec<u8>)
        ensures
            body@ == json_body(id_json(self.id as int)),
    {
        let mut v = empty_object();
        set_member(&mut v, "id", uint_value(self.id as u64));
        body_of(&v)
    }
}

impl TunnelListRequest {
    /// The request as the body of a POST.
    pub fn to_body(&self) -> (body: Vec<u8>)
        ensures
            body@ == json_body(page_json(self.page_number as int, self.page_size as int)),
    {
        let mut v = empty_object();
        set_member(&mut v, "page_number", uint_value(self.page_number as u64));
        set_member(&mut v, "page_size", uint_value(self.page_size as u64));
        body_of(&v)
    }
}

impl TunnelUpdateReq {
    /// The request as the body of a POST.
    pub fn to_body(&self) -> (body: Vec<u8>)
        ensures
            body@ == json_body(
                Json::Object(
                    tunnel_members(
                        self.source@,
                        self.endpoint@,
                        self.enabled as int,
                        self.sender as int,
                        self.receiver as int,
                        self.description@,
                    ).insert("id"@, Json::Int(self.id as int)),
                ),
            ),
    {
        let mut v = tunnel_object(
            self.source.as_str(),
            self.endpoint.as_str(),
            self.enabled,
            self.sender,
            self.receiver,
            self.description.as_str(),
        );
        set_member(&mut v, "id", uint_value(self.id as u64));
        body_of(&v)
    }
}

impl TunnelRemoveReq {
    /// The request as the body of a POST.
    pub fn to_body(&self) -> (body: Vec<u8>)
        ensures
            body@ == json_body(id_json(self.id as int)),
    {
        let mut v = empty_object();
        set_member(&mut v, "id", uint_value(self.id as u64));
        body_of(&v)
    }
}

impl TunnelAddReq {
    /// The request as the body of a POST.
    pub fn to_body(&self) -> (body: Vec<u8>)
        ensures
            body@ == json_body(
                Json::Object(
                    tunnel_members(
                        self.source@,
                        self.endpoint@,
                        self.enabled as int,
                        self.sender as int,
                        self.receiver as int,
                        self.description@,
                    ),
                ),
            ),
    {
        let v = tunnel_object(
            self.source.as_str(),
            self.endpoint.as_str(),
            self.enabled,
            self.sender,
            self.receiver,
            self.description.as_str(),
        );
        body_of(&v)
    }
}

} // verus!
