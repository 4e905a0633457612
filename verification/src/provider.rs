//! Reading the Codex account, its rate limits and its usage out of the
//! app-server's replies.
use vstd::prelude::*;

use crate::clock::{rfc3339_from_unix, unix_to_rfc3339};
use crate::json::{
    get_i64, get_present, get_str, get_u64, json_get, json_i64, json_str, json_u64, present,
    same_value, Json, JsonNumber,
};
use crate::text::{ascii_lower, ascii_lower_equals, decimal, push_decimal};
use crate::usage::{daily_entries, read_daily_usage, stably_sorted_by_date, DailyUsage};

verus! {

/// Why live data could not be read; each reason has the message shown in
/// place of the live figures.
#[derive(Clone, Copy, Debug, PartialEq, Eq, Structural)]
pub enum LiveError {
    NotSignedIn,
    NotChatGpt,
    EmptyRateLimits,
    MissingLimit,
    MissingPercent,
}

pub open spec fn live_error_text(error: LiveError) -> Seq<char> {
    match error {
        LiveError::NotSignedIn => "Codex에 로그인되어 있지 않아 데모 데이터를 표시합니다."@,
        LiveError::NotChatGpt => "ChatGPT 구독 로그인이 아니어서 데모 데이터를 표시합니다."@,
        LiveError::EmptyRateLimits => "Codex 사용 한도 응답이 비어 있습니다."@,
        LiveError::MissingLimit => "Codex 사용 한도 값이 없습니다."@,
        LiveError::MissingPercent => "Codex 사용 한도 비율이 없습니다."@,
    }
}

impl LiveError {
    pub fn message(self) -> (text: &'static str)
        ensures
            text@ == live_error_text(self),
    {
        match self {
            LiveError::NotSignedIn => "Codex에 로그인되어 있지 않아 데모 데이터를 표시합니다.",
            LiveError::NotChatGpt => "ChatGPT 구독 로그인이 아니어서 데모 데이터를 표시합니다.",
            LiveError::EmptyRateLimits => "Codex 사용 한도 응답이 비어 있습니다.",
            LiveError::MissingLimit => "Codex 사용 한도 값이 없습니다.",
            LiveError::MissingPercent => "Codex 사용 한도 비율이 없습니다.",
        }
    }
}

// ---------------------------------------------------------------------------
// Plan names

/// A plan identifier (already in lower case) that has a display name.
pub open spec fn known_plan(id: Seq<char>) -> bool {
    ||| id == "free"@
    ||| id == "go"@
    ||| id == "plus"@
    ||| id == "pro"@
    ||| id == "prolite"@
    ||| id == "team"@
    ||| id == "self_serve_business_usage_based"@
    ||| id == "business"@
    ||| id == "ent26"@
    ||| id == "enterprise"@
    ||| id == "hc"@
    ||| id == "enterprise_cbp_usage_based"@
    ||| id == "education"@
    ||| id == "edu"@
}

/// The display name of a plan: known identifiers, in any ASCII case, map to
/// their names; any other text is shown as it is.
pub open spec fn plan_name(raw: Seq<char>) -> Seq<char> {
    let id = ascii_lower(raw);
    if id == "free"@ {
        "Free"@
    } else if id == "go"@ {
        "Go"@
    } else if id == "plus"@ {
        "Plus"@
    } else if id == "pro"@ {
        "Pro"@
    } else if id == "prolite"@ {
        "Pro Lite"@
    } else if id == "team"@ {
        "Team"@
    } else if id == "self_serve_business_usage_based"@ {
        "Self Serve Business Usage Based"@
    } else if id == "business"@ {
        "Business"@
    } else if id == "ent26"@ || id == "enterprise"@ || id == "hc"@ {
        "Enterprise"@
    } else if id == "enterprise_cbp_usage_based"@ {
        "Enterprise CBP Usage Based"@
    } else if id == "education"@ || id == "edu"@ {
        "Edu"@
    } else {
        raw
    }
}

pub fn plan_display_name(raw: &str) -> (name: String)
    ensures
        name@ == plan_name(raw@),
{
    if ascii_lower_equals(raw, "free") {
        String::from_str("Free")
    } else if ascii_lower_equals(raw, "go") {
        String::from_str("Go")
    } else if ascii_lower_equals(raw, "plus") {
        String::from_str("Plus")
    } else if ascii_lower_equals(raw, "pro") {
        String::from_str("Pro")
    } else if ascii_lower_equals(raw, "prolite") {
        String::from_str("Pro Lite")
    } else if ascii_lower_equals(raw, "team") {
        String::from_str("Team")
    } else if ascii_lower_equals(raw, "self_serve_business_usage_based") {
        String::from_str("Self Serve Business Usage Based")
    } else if ascii_lower_equals(raw, "business") {
        String::from_str("Business")
    } else if ascii_lower_equals(raw, "ent26") || ascii_lower_equals(raw, "enterprise")
        || ascii_lower_equals(raw, "hc") {
        String::from_str("Enterprise")
    } else if ascii_lower_equals(raw, "enterprise_cbp_usage_based") {
        String::from_str("Enterprise CBP Usage Based")
    } else if ascii_lower_equals(raw, "education") || ascii_lower_equals(raw, "edu") {
        String::from_str("Edu")
    } else {
        String::from_str(raw)
    }
}

/// Plan identifiers that differ only in ASCII case get the same display name
/// whenever one of them is known.
pub proof fn lemma_plan_name_ignores_ascii_case(a: Seq<char>, b: Seq<char>)
    requires
        ascii_lower(a) == ascii_lower(b),
        known_plan(ascii_lower(a)),
    ensures
        plan_name(a) == plan_name(b),
{
}

/// The lengths and first letters of the known plan identifiers, which tell
/// them apart from the lower-cased display names.
proof fn lemma_plan_id_shapes()
    ensures
        "free"@.len() == 4,
        "go"@.len() == 2,
        "plus"@.len() == 4,
        "pro"@.len() == 3,
        "prolite"@.len() == 7,
        "team"@.len() == 4,
        "self_serve_business_usage_based"@.len() == 31,
        "business"@.len() == 8,
        "ent26"@.len() == 5,
        "enterprise"@.len() == 10,
        "hc"@.len() == 2,
        "enterprise_cbp_usage_based"@.len() == 26,
        "education"@.len() == 9,
        "edu"@.len() == 3,
        "free"@[0] == 'f',
        "go"@[0] == 'g',
        "plus"@[0] == 'p',
        "pro"@[0] == 'p',
        "prolite"@[0] == 'p',
        "team"@[0] == 't',
        "self_serve_business_usage_based"@[0] == 's',
        "business"@[0] == 'b',
        "ent26"@[0] == 'e',
        "enterprise"@[0] == 'e',
        "hc"@[0] == 'h',
        "enterprise_cbp_usage_based"@[0] == 'e',
        "education"@[0] == 'e',
        "edu"@[0] == 'e',
{
    reveal_strlit("free");
    reveal_strlit("go");
    reveal_strlit("plus");
    reveal_strlit("pro");
    reveal_strlit("prolite");
    reveal_strlit("team");
    reveal_strlit("self_serve_business_usage_based");
    reveal_strlit("business");
    reveal_strlit("ent26");
    reveal_strlit("enterprise");
    reveal_strlit("hc");
    reveal_strlit("enterprise_cbp_usage_based");
    reveal_strlit("education");
    reveal_strlit("edu");
}

/// Every display name is its own display name: showing a plan's name again
/// changes nothing.
pub proof fn lemma_plan_name_idempotent(raw: Seq<char>)
    ensures
        plan_name(plan_name(raw)) == plan_name(raw),
{
    assert(plan_name("Free"@) == "Free"@) by {
        reveal_strlit("Free");
        reveal_strlit("free");
        assert(ascii_lower("Free"@) =~= "free"@);
        lemma_plan_id_shapes();
    }
    assert(plan_name("Go"@) == "Go"@) by {
        reveal_strlit("Go");
        reveal_strlit("go");
        assert(ascii_lower("Go"@) =~= "go"@);
        lemma_plan_id_shapes();
    }
    assert(plan_name("Plus"@) == "Plus"@) by {
        reveal_strlit("Plus");
        reveal_strlit("plus");
        assert(ascii_lower("Plus"@) =~= "plus"@);
        lemma_plan_id_shapes();
    }
    assert(plan_name("Pro"@) == "Pro"@) by {
        reveal_strlit("Pro");
        reveal_strlit("pro");
        assert(ascii_lower("Pro"@) =~= "pro"@);
        lemma_plan_id_shapes();
    }
    assert(plan_name("Pro Lite"@) == "Pro Lite"@) by {
        reveal_strlit("Pro Lite");
        reveal_strlit("pro lite");
        assert(ascii_lower("Pro Lite"@) =~= "pro lite"@);
        lemma_plan_id_shapes();
    }
    assert(plan_name("Team"@) == "Team"@) by {
        reveal_strlit("Team");
        reveal_strlit("team");
        assert(ascii_lower("Team"@) =~= "team"@);
        lemma_plan_id_shapes();
    }
    assert(plan_name("Self Serve Business Usage Based"@) == "Self Serve Business Usage Based"@) by {
        reveal_strlit("Self Serve Business Usage Based");
        reveal_strlit("self serve business usage based");
        assert(ascii_lower("Self Serve Business Usage Based"@) =~= "self serve business usage based"@);
        lemma_plan_id_shapes();
    }
    assert(plan_name("Business"@) == "Business"@) by {
        reveal_strlit("Business");
        reveal_strlit("business");
        assert(ascii_lower("Business"@) =~= "business"@);
        lemma_plan_id_shapes();
    }
    assert(plan_name("Enterprise"@) == "Enterprise"@) by {
        reveal_strlit("Enterprise");
        reveal_strlit("enterprise");
        assert(ascii_lower("Enterprise"@) =~= "enterprise"@);
        lemma_plan_id_shapes();
    }
    assert(plan_name("Enterprise CBP Usage Based"@) == "Enterprise CBP Usage Based"@) by {
        reveal_strlit("Enterprise CBP Usage Based");
        reveal_strlit("enterprise cbp usage based");
        assert(ascii_lower("Enterprise CBP Usage Based"@) =~= "enterprise cbp usage based"@);
        lemma_plan_id_shapes();
    }
    assert(plan_name("Edu"@) == "Edu"@) by {
        reveal_strlit("Edu");
        reveal_strlit("edu");
        assert(ascii_lower("Edu"@) =~= "edu"@);
        lemma_plan_id_shapes();
    }
}

// ---------------------------------------------------------------------------
// Limit labels

/// The label of a rate limit whose window lasts `window_duration_minutes`.
pub open spec fn limit_label_text(window_duration_minutes: Option<u64>) -> Seq<char> {
    match window_duration_minutes {
        Some(minutes) => if minutes == 300 {
            "5시간 한도"@
        } else if minutes == 10_080 {
            "주간 한도"@
        } else if minutes % 1_440 == 0 {
            decimal((minutes / 1_440) as nat) + "일 한도"@
        } else if minutes % 60 == 0 {
            decimal((minutes / 60) as nat) + "시간 한도"@
        } else {
            "Codex 사용 한도"@
        },
        None => "Codex 사용 한도"@,
    }
}

pub fn limit_label(window_duration_minutes: Option<u64>) -> (label: String)
    ensures
        label@ == limit_label_text(window_duration_minutes),
{
    match window_duration_minutes {
        Some(300) => String::from_str("5시간 한도"),
        Some(10_080) => String::from_str("주간 한도"),
        Some(minutes) => {
            if minutes % 1_440 == 0 {
                let mut label = String::new();
                push_decimal(&mut label, minutes / 1_440);
                label.append("일 한도");
                label
            } else if minutes % 60 == 0 {
                let mut label = String::new();
                push_decimal(&mut label, minutes / 60);
                label.append("시간 한도");
                label
            } else {
                String::from_str("Codex 사용 한도")
            }
        },
        None => String::from_str("Codex 사용 한도"),
    }
}

// ---------------------------------------------------------------------------
// Rate limits

/// A rate limit as the app-server reports it: its label, the used share as
/// the number that was sent, the window's length in minutes and the reset
/// instant as RFC 3339 text.
#[derive(Debug)]
pub struct LimitReading {
    pub label: String,
    pub used_percent: JsonNumber,
    pub window_duration_minutes: Option<u64>,
    pub resets_at: Option<String>,
}

/// The abstract content of a `LimitReading`.
pub struct LimitModel {
    pub label: Seq<char>,
    pub used_percent: JsonNumber,
    pub window_duration_minutes: Option<u64>,
    pub resets_at: Option<Seq<char>>,
}

pub open spec fn opt_text(s: Option<String>) -> Option<Seq<char>> {
    match s {
        Some(t) => Some(t@),
        None => None,
    }
}

impl View for LimitReading {
    type V = LimitModel;

    open spec fn view(&self) -> LimitModel {
        LimitModel {
            label: self.label@,
            used_percent: self.used_percent,
            window_duration_minutes: self.window_duration_minutes,
            resets_at: opt_text(self.resets_at),
        }
    }
}

pub open spec fn opt_model(l: Option<LimitReading>) -> Option<LimitModel> {
    match l {
        Some(x) => Some(x@),
        None => None,
    }
}

/// The reset instant of a limit whose `resetsAt` field holds `timestamp`.
pub open spec fn reset_text(timestamp: Option<i64>) -> Option<Seq<char>> {
    match timestamp {
        Some(t) => rfc3339_from_unix(t),
        None => None,
    }
}

/// The reading of a limit object, when its `usedPercent` is a number.
pub open spec fn limit_model(value: Json) -> Option<LimitModel> {
    match json_get(value, "usedPercent"@) {
        Some(Json::Number(n)) => {
            let window = json_u64(json_get(value, "windowDurationMins"@));
            Some(
                LimitModel {
                    label: limit_label_text(window),
                    used_percent: n,
                    window_duration_minutes: window,
                    resets_at: reset_text(json_i64(json_get(value, "resetsAt"@))),
                },
            )
        },
        _ => None,
    }
}

impl JsonNumber {
    /// A copy of the number.
    pub fn duplicate(&self) -> (n: JsonNumber)
        ensures
            n == *self,
    {
        JsonNumber { text: self.text.clone(), unsigned: self.unsigned, signed: self.signed }
    }
}

/// Reads a limit object: `MissingLimit` when there is none, `MissingPercent`
/// when its `usedPercent` is not a number.
pub fn parse_limit(value: Option<&Json>) -> (r: Result<LimitReading, LiveError>)
    ensures
        match value {
            None => r == Err::<LimitReading, LiveError>(LiveError::MissingLimit),
            Some(v) => match limit_model(*v) {
                Some(m) => r matches Ok(l) && l@ == m,
                None => r == Err::<LimitReading, LiveError>(LiveError::MissingPercent),
            },
        },
{
    let value = match value {
        Some(v) => v,
        None => return Err(LiveError::MissingLimit),
    };
    let used = match value.get("usedPercent") {
        Some(Json::Number(n)) => n.duplicate(),
        _ => return Err(LiveError::MissingPercent),
    };
    let resets_at = match get_i64(value, "resetsAt") {
        Some(timestamp) => unix_to_rfc3339(timestamp),
        None => None,
    };
    let window_duration_minutes = get_u64(value, "windowDurationMins");
    Ok(
        LimitReading {
            label: limit_label(window_duration_minutes),
            used_percent: used,
            window_duration_minutes,
            resets_at,
        },
    )
}

/// Sort key of a limit: its window length, unknown windows last.
pub open spec fn window_key(m: LimitModel) -> int {
    match m.window_duration_minutes {
        Some(minutes) => minutes as int,
        None => u64::MAX as int,
    }
}

/// Two limits describe the same window: equal length and equal reset instant.
pub open spec fn same_window(a: LimitModel, b: LimitModel) -> bool {
    a.window_duration_minutes == b.window_duration_minutes && a.resets_at == b.resets_at
}

/// The limits that were read, shortest window first (a stable sort), with a
/// limit dropped when it repeats the window of the one before it.
pub open spec fn ordered_limits(primary: Option<LimitModel>, secondary: Option<LimitModel>) -> Seq<
    LimitModel,
> {
    match (primary, secondary) {
        (None, None) => seq![],
        (Some(a), None) => seq![a],
        (None, Some(b)) => seq![b],
        (Some(a), Some(b)) => if same_window(a, b) {
            seq![a]
        } else if window_key(b) < window_key(a) {
            seq![b, a]
        } else {
            seq![a, b]
        },
    }
}

/// `a`'s window is no longer than `b`'s, a window of unknown length
/// counting as `u64::MAX` minutes.
pub open spec fn window_no_longer(a: Option<u64>, b: Option<u64>) -> bool {
    match (a, b) {
        (Some(x), Some(y)) => x <= y,
        (None, Some(y)) => y == u64::MAX,
        (_, None) => true,
    }
}

/// Every limit that was read is kept, and nothing else is added: the result
/// holds the primary limit, and the secondary one unless it repeats the
/// primary's window length and reset instant; the windows never get shorter
/// along it, and two limits with windows of the same length keep the order
/// in which they were read.
pub proof fn lemma_ordered_limits_keep_every_limit(
    primary: Option<LimitModel>,
    secondary: Option<LimitModel>,
)
    ensures
        ({
            let r = ordered_limits(primary, secondary);
            let repeated = primary is Some && secondary is Some
                && primary->0.window_duration_minutes == secondary->0.window_duration_minutes
                && primary->0.resets_at == secondary->0.resets_at;
            &&& forall|i: int|
                0 <= i < r.len() ==> Some(#[trigger] r[i]) == primary || Some(r[i]) == secondary
            &&& primary is Some ==> r.contains(primary->0)
            &&& secondary is Some && !repeated ==> r.contains(secondary->0)
            &&& r.len() == (if primary is Some {
                1int
            } else {
                0
            }) + (if secondary is Some && !repeated {
                1int
            } else {
                0
            })
            &&& forall|i: int, j: int|
                0 <= i < j < r.len() ==> window_no_longer(
                    (#[trigger] r[i]).window_duration_minutes,
                    (#[trigger] r[j]).window_duration_minutes,
                )
            &&& primary is Some && secondary is Some && !repeated
                && primary->0.window_duration_minutes == secondary->0.window_duration_minutes
                ==> r == seq![primary->0, secondary->0]
        }),
{
    let r = ordered_limits(primary, secondary);
    match (primary, secondary) {
        (None, None) => {},
        (Some(a), None) => {
            assert(r[0] == a);
        },
        (None, Some(b)) => {
            assert(r[0] == b);
        },
        (Some(a), Some(b)) => {
            if same_window(a, b) {
                assert(r[0] == a);
            } else if window_key(b) < window_key(a) {
                assert(r[0] == b && r[1] == a);
            } else {
                assert(r[0] == a && r[1] == b);
            }
        },
    }
}

fn same_text(a: &Option<String>, b: &Option<String>) -> (same: bool)
    ensures
        same == (opt_text(*a) == opt_text(*b)),
{
    match (a, b) {
        (Some(x), Some(y)) => crate::text::str_equals(x.as_str(), y.as_str()),
        (None, None) => true,
        _ => false,
    }
}

fn key_of(l: &LimitReading) -> (k: u64)
    ensures
        k == window_key(l@),
{
    match l.window_duration_minutes {
        Some(minutes) => minutes,
        None => u64::MAX,
    }
}

/// Orders the limits that were read: shortest window first, repeats dropped.
pub fn order_limits(primary: Option<LimitReading>, secondary: Option<LimitReading>) -> (limits: Vec<
    LimitReading,
>)
    ensures
        limits@.map_values(|l: LimitReading| l@) == ordered_limits(
            opt_model(primary),
            opt_model(secondary),
        ),
        forall|i: int, j: int|
            0 <= i < j < limits@.len() ==> window_key(limits@[i]@) <= window_key(limits@[j]@),
{
    let mut limits: Vec<LimitReading> = Vec::new();
    match (primary, secondary) {
        (None, None) => {},
        (Some(a), None) => {
            limits.push(a);
        },
        (None, Some(b)) => {
            limits.push(b);
        },
        (Some(a), Some(b)) => {
            let same = a.window_duration_minutes == b.window_duration_minutes && same_text(
                &a.resets_at,
                &b.resets_at,
            );
            if same {
                limits.push(a);
            } else if key_of(&b) < key_of(&a) {
                limits.push(b);
                limits.push(a);
            } else {
                limits.push(a);
                limits.push(b);
            }
        },
    }
    assert(limits@.map_values(|l: LimitReading| l@) =~= ordered_limits(
        opt_model(primary),
        opt_model(secondary),
    ));
    limits
}

// ---------------------------------------------------------------------------
// Account

/// The signed-in account: its plan's display name and its e-mail address.
#[derive(Debug)]
pub struct AccountInfo {
    pub plan: Option<String>,
    pub email: Option<String>,
}

/// The account object of an `account/read` reply, when present and not null.
pub open spec fn account_of(reply: Json) -> Option<Json> {
    if present(json_get(reply, "account"@)) {
        json_get(reply, "account"@)
    } else {
        None
    }
}

/// Reads the reply to `account/read`: `NotSignedIn` without an account,
/// `NotChatGpt` unless the account's type is `chatgpt`.
pub fn read_account(reply: &Json) -> (r: Result<AccountInfo, LiveError>)
    ensures
        match account_of(*reply) {
            None => r == Err::<AccountInfo, LiveError>(LiveError::NotSignedIn),
            Some(account) => if json_str(json_get(account, "type"@)) != Some("chatgpt"@) {
                r == Err::<AccountInfo, LiveError>(LiveError::NotChatGpt)
            } else {
                r matches Ok(info) && opt_text(info.plan) == (match json_str(
                    json_get(account, "planType"@),
                ) {
                    Some(raw) => Some(plan_name(raw)),
                    None => None,
                }) && opt_text(info.email) == json_str(json_get(account, "email"@))
            },
        },
{
    let account = match get_present(reply, "account") {
        Some(account) => account,
        None => return Err(LiveError::NotSignedIn),
    };
    let is_chatgpt = match get_str(account, "type") {
        Some(kind) => crate::text::str_equals(kind.as_str(), "chatgpt"),
        None => false,
    };
    if !is_chatgpt {
        return Err(LiveError::NotChatGpt);
    }
    let plan = match get_str(account, "planType") {
        Some(raw) => Some(plan_display_name(raw.as_str())),
        None => None,
    };
    let email = match get_str(account, "email") {
        Some(address) => Some(address.clone()),
        None => None,
    };
    Ok(AccountInfo { plan, email })
}


// ---------------------------------------------------------------------------
// Limits and usage

/// What the limit and usage replies report.
#[derive(Debug)]
pub struct UsageReport {
    pub primary_limit: LimitReading,
    pub weekly_limit: Option<LimitReading>,
    pub lifetime_tokens: Option<u64>,
    pub peak_daily_tokens: Option<u64>,
    pub longest_running_turn_seconds: Option<u64>,
    pub current_streak_days: Option<u64>,
    pub longest_streak_days: Option<u64>,
    pub daily_usage: Vec<DailyUsage>,
}

/// The object holding the rate limits: `rateLimits` when present and not
/// null, else the first bucket of `rateLimitsByLimitId`.
pub open spec fn rate_root(limits: Json) -> Option<Json> {
    if present(json_get(limits, "rateLimits"@)) {
        json_get(limits, "rateLimits"@)
    } else {
        match json_get(limits, "rateLimitsByLimitId"@) {
            Some(Json::Object(buckets)) => if buckets@.len() > 0 {
                Some(buckets@[0].1)
            } else {
                None
            },
            _ => None,
        }
    }
}

/// The reading of the limit under `key`, when present, not null and readable.
pub open spec fn limit_candidate(root: Json, key: Seq<char>) -> Option<LimitModel> {
    if present(json_get(root, key)) {
        limit_model(json_get(root, key)->0)
    } else {
        None
    }
}

/// A number of the usage summary.
pub open spec fn summary_field(usage: Json, key: Seq<char>) -> Option<u64> {
    match json_get(usage, "summary"@) {
        Some(summary) => json_u64(json_get(summary, key)),
        None => None,
    }
}

fn rate_root_of(limits: &Json) -> (root: Option<&Json>)
    ensures
        same_value(root, rate_root(*limits)),
{
    match get_present(limits, "rateLimits") {
        Some(root) => Some(root),
        None => match limits.get("rateLimitsByLimitId") {
            Some(Json::Object(buckets)) => {
                if buckets.len() > 0 {
                    Some(&buckets[0].1)
                } else {
                    None
                }
            },
            _ => None,
        },
    }
}

fn candidate(root: &Json, key: &str) -> (limit: Option<LimitReading>)
    ensures
        opt_model(limit) == limit_candidate(*root, key@),
{
    match get_present(root, key) {
        Some(value) => match parse_limit(Some(value)) {
            Ok(limit) => Some(limit),
            Err(_) => None,
        },
        None => None,
    }
}

fn summary_number(usage: &Json, key: &str) -> (n: Option<u64>)
    ensures
        n == summary_field(*usage, key@),
{
    match usage.get("summary") {
        Some(summary) => get_u64(summary, key),
        None => None,
    }
}

/// Reads the replies to `account/rateLimits/read` and `account/usage/read`:
/// `EmptyRateLimits` when no limit object is found, `MissingLimit` when it
/// holds no readable limit; otherwise the shortest-window limit, the next
/// one if any, the usage summary and the daily usage.
pub fn read_usage(limits: &Json, usage: &Json) -> (r: Result<UsageReport, LiveError>)
    ensures
        match rate_root(*limits) {
            None => r == Err::<UsageReport, LiveError>(LiveError::EmptyRateLimits),
            Some(root) => {
                let ordered = ordered_limits(
                    limit_candidate(root, "primary"@),
                    limit_candidate(root, "secondary"@),
                );
                if ordered.len() == 0 {
                    r == Err::<UsageReport, LiveError>(LiveError::MissingLimit)
                } else {
                    r matches Ok(report) && {
                        &&& report.primary_limit@ == ordered[0]
                        &&& opt_model(report.weekly_limit) == (if ordered.len() > 1 {
                            Some(ordered[1])
                        } else {
                            None
                        })
                        &&& report.lifetime_tokens == summary_field(*usage, "lifetimeTokens"@)
                        &&& report.peak_daily_tokens == summary_field(*usage, "peakDailyTokens"@)
                        &&& report.longest_running_turn_seconds == summary_field(
                            *usage,
                            "longestRunningTurnSec"@,
                        )
                        &&& report.current_streak_days == summary_field(
                            *usage,
                            "currentStreakDays"@,
                        )
                        &&& report.longest_streak_days == summary_field(
                            *usage,
                            "longestStreakDays"@,
                        )
                        &&& stably_sorted_by_date(
                            crate::usage::usage_view(report.daily_usage@),
                            daily_entries(*usage),
                        )
                    }
                }
            },
        },
{
    let root = match rate_root_of(limits) {
        Some(root) => root,
        None => return Err(LiveError::EmptyRateLimits),
    };
    let primary = candidate(root, "primary");
    let secondary = candidate(root, "secondary");
    let mut ordered = order_limits(primary, secondary);
    if ordered.len() == 0 {
        return Err(LiveError::MissingLimit);
    }
    let ghost models = ordered@.map_values(|l: LimitReading| l@);
    assert(models[0] == ordered@[0]@);
    let primary_limit = ordered.remove(0);
    let weekly_limit = if ordered.len() > 0 {
        assert(models[1] == ordered@[0]@);
        Some(ordered.remove(0))
    } else {
        None
    };
    Ok(
        UsageReport {
            primary_limit,
            weekly_limit,
            lifetime_tokens: summary_number(usage, "lifetimeTokens"),
            peak_daily_tokens: summary_number(usage, "peakDailyTokens"),
            longest_running_turn_seconds: summary_number(usage, "longestRunningTurnSec"),
            current_streak_days: summary_number(usage, "currentStreakDays"),
            longest_streak_days: summary_number(usage, "longestStreakDays"),
            daily_usage: read_daily_usage(usage),
        },
    )
}

} // verus!
