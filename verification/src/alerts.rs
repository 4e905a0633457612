//! Usage alerts: which notifications are due for a snapshot, and the record
//! of those already sent, so that each is sent at most once.
use std::path::PathBuf;
use vstd::prelude::*;

use crate::clock::{rfc3339_seconds_until, seconds_until};

verus! {

/// How much of the weekly limit is left, by the thresholds that trigger an
/// alert: at most 10 percent, at most 20 percent, or more.
#[derive(Clone, Copy, Debug, PartialEq, Eq, Structural)]
pub enum RemainingLevel {
    AtMostTenPercent,
    AtMostTwentyPercent,
    Above,
}

/// The weekly limit as the alerts read it.
#[derive(Debug)]
pub struct WeeklyLimitState {
    pub remaining: RemainingLevel,
    pub resets_at: Option<String>,
}

/// The parts of a Codex snapshot that the alerts read.
#[derive(Debug)]
pub struct AlertInput {
    pub connection_state: String,
    pub weekly_limit: Option<WeeklyLimitState>,
    pub primary_resets_at: Option<String>,
}

/// A notification to show: the key under which it is remembered, and its text.
#[derive(Debug)]
pub struct Alert {
    pub key: String,
    pub body: &'static str,
}

/// The abstract content of an alert.
pub struct AlertModel {
    pub key: Seq<char>,
    pub body: Seq<char>,
}

impl View for Alert {
    type V = AlertModel;

    open spec fn view(&self) -> AlertModel {
        AlertModel { key: self.key@, body: self.body@ }
    }
}

/// The alert about the weekly limit, if its level calls for one and its
/// reset instant (which names the cycle) is known.
pub open spec fn weekly_alert(input: AlertInput) -> Option<AlertModel> {
    match input.weekly_limit {
        Some(w) => match w.resets_at {
            Some(cycle) => match w.remaining {
                RemainingLevel::AtMostTenPercent => Some(
                    AlertModel {
                        key: "weekly-10:"@ + cycle@,
                        body: "Codex 주간 한도가 10% 이하로 남았습니다."@,
                    },
                ),
                RemainingLevel::AtMostTwentyPercent => Some(
                    AlertModel {
                        key: "weekly-20:"@ + cycle@,
                        body: "Codex 주간 한도가 20% 이하로 남았습니다."@,
                    },
                ),
                RemainingLevel::Above => None,
            },
            None => None,
        },
        None => None,
    }
}

/// The alert that a limit resetting at `reset_at` resets within the hour,
/// given the whole seconds `remaining` until then: due when more than zero
/// and at most 3600 remain, never when the time left is unknown.
pub open spec fn reset_hour_alert_model(reset_at: Seq<char>, remaining: Option<i64>) -> Option<
    AlertModel,
> {
    match remaining {
        Some(left) => if 0 < left && left <= 3_600 {
            Some(
                AlertModel {
                    key: "reset-hour:"@ + reset_at,
                    body: "Codex 사용 한도 초기화까지 1시간 이내입니다."@,
                },
            )
        } else {
            None
        },
        None => None,
    }
}

/// The reset-hour alert is due exactly when the limit resets within the
/// coming hour: for every number of whole seconds left above zero and at
/// most 3600 it is there, under the key `reset-hour:` and the reset instant;
/// for any other number of seconds, or when the time left is unknown, it is
/// not.
pub proof fn lemma_reset_hour_alert_due_within_the_hour(reset_at: Seq<char>, remaining: Option<
    i64,
>)
    ensures
        reset_hour_alert_model(reset_at, remaining) is Some <==> (remaining is Some && 0
            < remaining->0 <= 3_600),
        reset_hour_alert_model(reset_at, remaining) is Some ==> reset_hour_alert_model(
            reset_at,
            remaining,
        )->0.key == "reset-hour:"@ + reset_at,
{
}

/// The alert that the primary limit resets within the hour, by the seconds
/// left from the given instant until its reset instant.
pub open spec fn reset_alert(input: AlertInput, now_seconds: i64, now_nanos: u32) -> Option<
    AlertModel,
> {
    match input.primary_resets_at {
        Some(reset_at) => reset_hour_alert_model(
            reset_at@,
            rfc3339_seconds_until(reset_at@, now_seconds, now_nanos),
        ),
        None => None,
    }
}

/// `candidate` as a sequence, unless it is absent or its key was sent before.
pub open spec fn unsent(sent: Set<Seq<char>>, candidate: Option<AlertModel>) -> Seq<AlertModel> {
    match candidate {
        Some(a) => if sent.contains(a.key) {
            seq![]
        } else {
            seq![a]
        },
        None => seq![],
    }
}

/// The alerts due for `input` at the given instant, weekly first: none unless
/// connected, and none whose key was sent before.
pub open spec fn due_alerts(
    sent: Set<Seq<char>>,
    input: AlertInput,
    now_seconds: i64,
    now_nanos: u32,
) -> Seq<AlertModel> {
    if input.connection_state@ != "connected"@ {
        seq![]
    } else {
        unsent(sent, weekly_alert(input)) + unsent(
            sent,
            reset_alert(input, now_seconds, now_nanos),
        )
    }
}

/// The record of sent alerts and where it is kept on disk.
///
/// The keys are kept in a `Vec` whose type invariant forbids repeats, so the
/// record behaves as a set; a `Vec` is used because the record is written
/// back to disk key by key, and a set of strings that Verus can reason about
/// cannot hand its keys out.
pub struct AlertTracker {
    history_path: Option<PathBuf>,
    sent: Vec<String>,
}

pub open spec fn texts(s: Seq<String>) -> Seq<Seq<char>> {
    s.map_values(|t: String| t@)
}

impl AlertTracker {
    /// The keys of the alerts sent so far.
    pub closed spec fn sent_keys(&self) -> Set<Seq<char>> {
        texts(self.sent@).to_set()
    }

    /// Each key is recorded once.
    #[verifier::type_invariant]
    closed spec fn well_formed(&self) -> bool {
        texts(self.sent@).no_duplicates()
    }

    /// A tracker that remembers `sent` (a key given twice is kept once) and
    /// keeps its record at `history_path`.
    pub fn new(history_path: Option<PathBuf>, sent: Vec<String>) -> (tracker: Self)
        ensures
            tracker.sent_keys() == texts(sent@).to_set(),
            tracker.history_path() == history_path,
    {
        let mut tracker = AlertTracker { history_path, sent: Vec::new() };
        assert(texts(tracker.sent@) =~= seq![]);
        let mut i: usize = 0;
        while i < sent.len()
            invariant
                i <= sent@.len(),
                tracker.history_path == history_path,
                tracker.sent_keys() == texts(sent@.take(i as int)).to_set(),
            decreases sent@.len() - i,
        {
            assert(texts(sent@.take(i + 1)) =~= texts(sent@.take(i as int)).push(sent@[i as int]@));
            proof {
                texts(sent@.take(i as int)).lemma_push_to_set_commute(sent@[i as int]@);
            }
            tracker.record_sent(sent[i].clone());
            i = i + 1;
        }
        assert(sent@.take(sent@.len() as int) =~= sent@);
        tracker
    }

    pub closed spec fn history_path(&self) -> Option<PathBuf> {
        self.history_path
    }

    /// Where the record is kept.
    pub fn history_path_ref(&self) -> (path: &Option<PathBuf>)
        ensures
            *path == self.history_path(),
    {
        &self.history_path
    }

    /// The keys sent so far, each once, for saving the record.
    pub fn sent(&self) -> (keys: &Vec<String>)
        ensures
            texts(keys@).to_set() == self.sent_keys(),
            texts(keys@).no_duplicates(),
    {
        proof {
            use_type_invariant(self);
        }
        &self.sent
    }

    /// Whether the alert with this key was sent.
    pub fn has_sent(&self, key: &str) -> (sent: bool)
        ensures
            sent == self.sent_keys().contains(key@),
    {
        let mut i: usize = 0;
        while i < self.sent.len()
            invariant
                i <= self.sent@.len(),
                forall|k: int| 0 <= k < i ==> self.sent@[k]@ != key@,
            decreases self.sent@.len() - i,
        {
            if crate::text::str_equals(self.sent[i].as_str(), key) {
                assert(texts(self.sent@)[i as int] == key@);
                return true;
            }
            i = i + 1;
        }
        assert(!texts(self.sent@).contains(key@));
        false
    }

    /// Remembers that the alert with this key was sent.
    pub fn record_sent(&mut self, key: String)
        ensures
            final(self).sent_keys() == old(self).sent_keys().insert(key@),
            final(self).history_path() == old(self).history_path(),
    {
        if self.has_sent(key.as_str()) {
            assert(old(self).sent_keys().insert(key@) =~= old(self).sent_keys());
            return ;
        }
        proof {
            use_type_invariant(&*self);
        }
        let ghost before = texts(self.sent@);
        let mut sent: Vec<String> = Vec::new();
        std::mem::swap(&mut sent, &mut self.sent);
        sent.push(key);
        proof {
            assert(texts(sent@) =~= before.push(key@));
            assert(!before.contains(key@));
            assert(texts(sent@).no_duplicates()) by {
                assert forall|i: int, j: int|
                    0 <= i < texts(sent@).len() && 0 <= j < texts(sent@).len() && i
                        != j implies texts(sent@)[i] != texts(sent@)[j] by {
                    if j == before.len() {
                        assert(before[i] == texts(sent@)[i]);
                    } else if i == before.len() {
                        assert(before[j] == texts(sent@)[j]);
                    }
                }
            }
        }
        self.sent = sent;
        proof {
            before.lemma_push_to_set_commute(key@);
        }
    }

    /// The notifications due for `input` at the instant `now_seconds` +
    /// `now_nanos` after the Unix epoch, weekly alert first.
    pub fn evaluate(&self, input: &AlertInput, now_seconds: i64, now_nanos: u32) -> (alerts: Vec<Alert>)
        ensures
            alerts@.map_values(|a: Alert| a@) == due_alerts(
                self.sent_keys(),
                *input,
                now_seconds,
                now_nanos,
            ),
    {
        let mut alerts: Vec<Alert> = Vec::new();
        if !crate::text::str_equals(input.connection_state.as_str(), "connected") {
            assert(alerts@.map_values(|a: Alert| a@) =~= seq![]);
            return alerts;
        }
        let weekly = weekly_candidate(input);
        match weekly {
            Some(alert) => {
                if !self.has_sent(alert.key.as_str()) {
                    alerts.push(alert);
                }
            },
            None => {},
        }
        let ghost first = alerts@.map_values(|a: Alert| a@);
        assert(first =~= unsent(self.sent_keys(), weekly_alert(*input)));
        let reset = reset_candidate(input, now_seconds, now_nanos);
        match reset {
            Some(alert) => {
                if !self.has_sent(alert.key.as_str()) {
                    alerts.push(alert);
                }
            },
            None => {},
        }
        assert(alerts@.map_values(|a: Alert| a@) =~= first + unsent(
            self.sent_keys(),
            reset_alert(*input, now_seconds, now_nanos),
        ));
        alerts
    }
}

pub open spec fn opt_alert(a: Option<Alert>) -> Option<AlertModel> {
    match a {
        Some(x) => Some(x@),
        None => None,
    }
}

fn keyed(prefix: &str, suffix: &String) -> (key: String)
    ensures
        key@ == prefix@ + suffix@,
{
    let mut key = String::from_str(prefix);
    key.append(suffix.as_str());
    key
}

fn weekly_candidate(input: &AlertInput) -> (alert: Option<Alert>)
    ensures
        opt_alert(alert) == weekly_alert(*input),
{
    match &input.weekly_limit {
        Some(weekly) => match &weekly.resets_at {
            Some(cycle) => match weekly.remaining {
                RemainingLevel::AtMostTenPercent => Some(
                    Alert {
                        key: keyed("weekly-10:", cycle),
                        body: "Codex 주간 한도가 10% 이하로 남았습니다.",
                    },
                ),
                RemainingLevel::AtMostTwentyPercent => Some(
                    Alert {
                        key: keyed("weekly-20:", cycle),
                        body: "Codex 주간 한도가 20% 이하로 남았습니다.",
                    },
                ),
                RemainingLevel::Above => None,
            },
            None => None,
        },
        None => None,
    }
}

/// The reset-hour alert for a limit resetting at `reset_at`, given the whole
/// seconds `remaining` until then (nothing when unknown).
pub fn reset_hour_alert(reset_at: &String, remaining: Option<i64>) -> (alert: Option<Alert>)
    ensures
        opt_alert(alert) == reset_hour_alert_model(reset_at@, remaining),
{
    match remaining {
        Some(left) => {
            if 0 < left && left <= 3_600 {
                Some(
                    Alert {
                        key: keyed("reset-hour:", reset_at),
                        body: "Codex 사용 한도 초기화까지 1시간 이내입니다.",
                    },
                )
            } else {
                None
            }
        },
        None => None,
    }
}

fn reset_candidate(input: &AlertInput, now_seconds: i64, now_nanos: u32) -> (alert: Option<Alert>)
    ensures
        opt_alert(alert) == reset_alert(*input, now_seconds, now_nanos),
{
    match &input.primary_resets_at {
        Some(reset_at) => reset_hour_alert(
            reset_at,
            seconds_until(reset_at.as_str(), now_seconds, now_nanos),
        ),
        None => None,
    }
}

/// When connected, a primary limit that resets within the coming hour (more
/// than zero and at most 3600 whole seconds left) brings its reset-hour alert,
/// unless that alert was sent before; the alert is last among those due.
/// With any other time left, or none known, no reset-hour alert is due.
pub proof fn lemma_reset_within_the_hour_is_due(
    sent: Set<Seq<char>>,
    input: AlertInput,
    now_seconds: i64,
    now_nanos: u32,
)
    requires
        input.primary_resets_at is Some,
    ensures
        ({
            let reset_at = input.primary_resets_at->0@;
            let left = rfc3339_seconds_until(reset_at, now_seconds, now_nanos);
            let key = "reset-hour:"@ + reset_at;
            let due = due_alerts(sent, input, now_seconds, now_nanos);
            &&& (reset_alert(input, now_seconds, now_nanos) is Some <==> (left is Some && 0
                < left->0 <= 3_600))
            &&& input.connection_state@ == "connected"@ && left is Some && 0 < left->0 <= 3_600
                && !sent.contains(key) ==> due.len() > 0 && due.last().key == key
        }),
{
}

/// An alert whose key has been recorded as sent is never due again.
pub proof fn lemma_sent_alert_never_due_again(
    sent: Set<Seq<char>>,
    input: AlertInput,
    now_seconds: i64,
    now_nanos: u32,
    key: Seq<char>,
)
    requires
        sent.contains(key),
    ensures
        forall|i: int|
            0 <= i < due_alerts(sent, input, now_seconds, now_nanos).len() ==> (#[trigger] due_alerts(
                sent,
                input,
                now_seconds,
                now_nanos,
            )[i]).key != key,
{
    let w = unsent(sent, weekly_alert(input));
    let r = unsent(sent, reset_alert(input, now_seconds, now_nanos));
    assert forall|i: int|
        0 <= i < due_alerts(sent, input, now_seconds, now_nanos).len() implies (#[trigger] due_alerts(
        sent,
        input,
        now_seconds,
        now_nanos,
    )[i]).key != key by {
        if input.connection_state@ == "connected"@ {
            if i < w.len() {
                assert(due_alerts(sent, input, now_seconds, now_nanos)[i] == w[i]);
            } else {
                assert(due_alerts(sent, input, now_seconds, now_nanos)[i] == r[i - w.len()]);
            }
        }
    }
}

/// The weekly and the reset-hour alert never share a key, so showing one
/// never suppresses the other.
pub proof fn lemma_alert_keys_distinct(input: AlertInput, now_seconds: i64, now_nanos: u32)
    requires
        weekly_alert(input) is Some,
        reset_alert(input, now_seconds, now_nanos) is Some,
    ensures
        weekly_alert(input)->0.key != reset_alert(input, now_seconds, now_nanos)->0.key,
{
    reveal_strlit("weekly-10:");
    reveal_strlit("weekly-20:");
    reveal_strlit("reset-hour:");
    let w = weekly_alert(input)->0.key;
    let r = reset_alert(input, now_seconds, now_nanos)->0.key;
    assert(w[0] == 'w');
    assert(r[0] == 'r');
}

} // verus!
