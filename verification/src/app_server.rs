//! The JSON-RPC exchange with the Codex app-server: the messages sent, the
//! request ids, and what each incoming line means for a pending request.
use vstd::prelude::*;

use crate::json::{
    entry_value, get_str, get_u64, json_error_text, json_get, json_of_text, json_str, json_u64,
    parse_json_text, Json, JsonNumber,
};
use crate::text::decimal;

verus! {

/// The ids given to requests, counting up from 1.
pub struct RequestIds {
    next_id: u64,
}

impl RequestIds {
    /// The id that the next request gets.
    pub closed spec fn upcoming(&self) -> u64 {
        self.next_id
    }

    pub fn new() -> (ids: Self)
        ensures
            ids.upcoming() == 1,
    {
        RequestIds { next_id: 1 }
    }

    /// Whether another id can be handed out without overflowing the counter.
    pub fn can_take(&self) -> (available: bool)
        ensures
            available == (self.upcoming() < u64::MAX),
    {
        self.next_id < u64::MAX
    }

    /// Hands out the next id.
    pub fn take(&mut self) -> (id: u64)
        requires
            old(self).upcoming() < u64::MAX,
        ensures
            id == old(self).upcoming(),
            final(self).upcoming() == id + 1,
    {
        let id = self.next_id;
        self.next_id = self.next_id + 1;
        id
    }
}

fn json_number(n: u64) -> (number: JsonNumber)
    ensures
        number.text@ == decimal(n as nat),
        number.unsigned == Some(n),
        number.signed == (if n <= i64::MAX as u64 {
            Some(n as i64)
        } else {
            None::<i64>
        }),
{
    let mut text = String::new();
    crate::text::push_decimal(&mut text, n);
    assert(text@ =~= decimal(n as nat));
    let signed = if n <= i64::MAX as u64 {
        Some(n as i64)
    } else {
        None
    };
    JsonNumber { text, unsigned: Some(n), signed }
}

/// The keys of an object's entries, in order.
pub open spec fn keys_of(entries: Seq<(String, Json)>) -> Seq<Seq<char>> {
    entries.map_values(|e: (String, Json)| e.0@)
}

fn entry(key: &str, value: Json) -> (e: (String, Json))
    ensures
        e.0@ == key@,
        e.1 == value,
{
    (String::from_str(key), value)
}

/// The request `{"id": id, "method": method, "params": params}`.
pub fn request_message(method: &str, id: u64, params: Json) -> (message: Json)
    ensures
        message matches Json::Object(entries) && keys_of(entries@) == seq!["id"@, "method"@, "params"@]
            && json_u64(Some(entries@[0].1)) == Some(id) && json_str(Some(entries@[1].1)) == Some(
            method@,
        ) && entries@[2].1 == params,
{
    let mut entries: Vec<(String, Json)> = Vec::new();
    entries.push(entry("id", Json::Number(json_number(id))));
    entries.push(entry("method", Json::Str(String::from_str(method))));
    entries.push(entry("params", params));
    assert(keys_of(entries@) =~= seq!["id"@, "method"@, "params"@]);
    Json::Object(entries)
}

/// The notification `{"method": method, "params": params}`, which gets no reply.
pub fn notification_message(method: &str, params: Json) -> (message: Json)
    ensures
        message matches Json::Object(entries) && keys_of(entries@) == seq!["method"@, "params"@]
            && json_str(Some(entries@[0].1)) == Some(method@) && entries@[1].1 == params,
{
    let mut entries: Vec<(String, Json)> = Vec::new();
    entries.push(entry("method", Json::Str(String::from_str(method))));
    entries.push(entry("params", params));
    assert(keys_of(entries@) =~= seq!["method"@, "params"@]);
    Json::Object(entries)
}

/// The empty object `{}`.
pub fn empty_object() -> (object: Json)
    ensures
        object matches Json::Object(entries) && entries@.len() == 0,
{
    Json::Object(Vec::new())
}

/// The parameters of `initialize`: the client's name, title and version,
/// and the experimental API capability.
pub fn initialize_params(version: &str) -> (params: Json)
    ensures
        params matches Json::Object(entries) && keys_of(entries@) == seq![
            "capabilities"@,
            "clientInfo"@,
        ] && (entries@[0].1 matches Json::Object(capabilities) && keys_of(capabilities@)
            == seq!["experimentalApi"@] && capabilities@[0].1 == Json::Bool(true)) && (
        entries@[1].1 matches Json::Object(info) && keys_of(info@) == seq![
            "name"@,
            "title"@,
            "version"@,
        ] && json_str(Some(info@[0].1)) == Some("codex_usage_widget"@) && json_str(
            Some(info@[1].1),
        ) == Some("Codex Pulse"@) && json_str(Some(info@[2].1)) == Some(version@)),
{
    let mut capabilities: Vec<(String, Json)> = Vec::new();
    capabilities.push(entry("experimentalApi", Json::Bool(true)));
    assert(keys_of(capabilities@) =~= seq!["experimentalApi"@]);
    let mut info: Vec<(String, Json)> = Vec::new();
    info.push(entry("name", Json::Str(String::from_str("codex_usage_widget"))));
    info.push(entry("title", Json::Str(String::from_str("Codex Pulse"))));
    info.push(entry("version", Json::Str(String::from_str(version))));
    assert(keys_of(info@) =~= seq!["name"@, "title"@, "version"@]);
    let mut entries: Vec<(String, Json)> = Vec::new();
    entries.push(entry("capabilities", Json::Object(capabilities)));
    entries.push(entry("clientInfo", Json::Object(info)));
    assert(keys_of(entries@) =~= seq!["capabilities"@, "clientInfo"@]);
    Json::Object(entries)
}

/// The parameters of `account/read`: `{"refreshToken": false}`.
pub fn account_read_params() -> (params: Json)
    ensures
        params matches Json::Object(entries) && keys_of(entries@) == seq!["refreshToken"@]
            && entries@[0].1 == Json::Bool(false),
{
    let mut entries: Vec<(String, Json)> = Vec::new();
    entries.push(entry("refreshToken", Json::Bool(false)));
    assert(keys_of(entries@) =~= seq!["refreshToken"@]);
    Json::Object(entries)
}

/// What an incoming message means for the request with a given id.
#[derive(Debug)]
pub enum ResponseStep {
    /// The message is not the reply to this request: keep reading.
    Skip,
    /// The reply: its result, or the error message.
    Reply(Result<Json, String>),
}

/// The text given when an error reply carries no message.
pub open spec fn request_failed_text() -> Seq<char> {
    "Codex app-server 요청이 실패했습니다."@
}

/// The text given when a reply carries neither an error nor a result.
pub open spec fn missing_result_text() -> Seq<char> {
    "Codex app-server 응답에 result가 없습니다."@
}

/// What `message` means for the request `id`: not its reply unless its `id`
/// is that number; an error reply (with the error's message, if a string)
/// when it has an `error`; else its `result`, which must be there.
pub open spec fn response_meaning(message: Json, id: u64) -> Option<Result<Json, Seq<char>>> {
    if json_u64(json_get(message, "id"@)) != Some(id) {
        None
    } else if json_get(message, "error"@) is Some {
        Some(
            Err(
                match json_str(json_get(json_get(message, "error"@)->0, "message"@)) {
                    Some(text) => text,
                    None => request_failed_text(),
                },
            ),
        )
    } else {
        match json_get(message, "result"@) {
            Some(result) => Some(Ok(result)),
            None => Some(Err(missing_result_text())),
        }
    }
}

pub open spec fn step_meaning(step: ResponseStep) -> Option<Result<Json, Seq<char>>> {
    match step {
        ResponseStep::Skip => None,
        ResponseStep::Reply(Ok(result)) => Some(Ok(result)),
        ResponseStep::Reply(Err(text)) => Some(Err(text@)),
    }
}

/// The index of the first entry with `key`.
fn key_index(entries: &Vec<(String, Json)>, key: &str) -> (index: Option<usize>)
    ensures
        match index {
            Some(k) => k < entries@.len() && entry_value(entries@, key@) == Some(entries@[k as int].1),
            None => entry_value(entries@, key@) is None,
        },
{
    let mut i: usize = 0;
    assert(entries@.skip(0) =~= entries@);
    while i < entries.len()
        invariant
            i <= entries@.len(),
            entry_value(entries@, key@) == entry_value(entries@.skip(i as int), key@),
        decreases entries@.len() - i,
    {
        assert(entries@.skip(i as int)[0] == entries@[i as int]);
        if crate::text::str_equals(entries[i].0.as_str(), key) {
            return Some(i);
        }
        assert(entries@.skip(i as int).drop_first() =~= entries@.skip(i + 1));
        i = i + 1;
    }
    None
}

/// Reads one incoming message while waiting for the reply to request `id`.
pub fn classify_response(message: Json, id: u64) -> (step: ResponseStep)
    ensures
        step_meaning(step) == response_meaning(message, id),
{
    let matches_id = match get_u64(&message, "id") {
        Some(n) => n == id,
        None => false,
    };
    if !matches_id {
        return ResponseStep::Skip;
    }
    match message.get("error") {
        Some(error) => {
            let text = match get_str(error, "message") {
                Some(text) => text.clone(),
                None => String::from_str("Codex app-server 요청이 실패했습니다."),
            };
            return ResponseStep::Reply(Err(text));
        },
        None => {},
    }
    match message {
        Json::Object(mut entries) => match key_index(&entries, "result") {
            Some(k) => {
                let (_, result) = entries.remove(k);
                ResponseStep::Reply(Ok(result))
            },
            None => ResponseStep::Reply(
                Err(String::from_str("Codex app-server 응답에 result가 없습니다.")),
            ),
        },
        _ => ResponseStep::Reply(Err(String::from_str("Codex app-server 응답에 result가 없습니다."))),
    }
}

/// The text given for a line of the app-server's output that is not JSON,
/// before the parser's message.
pub open spec fn malformed_reply_prefix() -> Seq<char> {
    "Codex app-server 응답 형식이 올바르지 않습니다: "@
}

/// What a line read from the app-server's output means for the request
/// `id`: that of the JSON message it holds, or a failed reply with the
/// parser's message when it holds none.
pub fn reply_line_step(line: &str, id: u64) -> (step: ResponseStep)
    ensures
        match json_of_text(line@) {
            Some(message) => step_meaning(step) == response_meaning(message, id),
            None => step_meaning(step) == Some(
                Err::<Json, Seq<char>>(malformed_reply_prefix() + json_error_text(line@)),
            ),
        },
{
    match parse_json_text(line) {
        Ok(message) => classify_response(message, id),
        Err(error) => {
            let mut text = String::from_str("Codex app-server 응답 형식이 올바르지 않습니다: ");
            text.append(error.as_str());
            ResponseStep::Reply(Err(text))
        },
    }
}

} // verus!
