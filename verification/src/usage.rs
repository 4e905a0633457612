//! Daily token usage: read from the `account/usage/read` reply and put in
//! date order.
use vstd::prelude::*;

use crate::json::{get_str, get_u64, json_get, json_str, json_u64, Json};

verus! {

broadcast use vstd::seq_lib::group_seq_properties;

/// Tokens used on one day; `date` is the day's start as the server sent it.
#[derive(Debug)]
pub struct DailyUsage {
    pub date: String,
    pub tokens: u64,
}

/// `a` comes no later than `b` in lexicographic order of characters, the
/// order of `String`'s `Ord` (byte order of UTF-8 is code-point order).
pub open spec fn chars_le(a: Seq<char>, b: Seq<char>) -> bool
    decreases a.len(),
{
    if a.len() == 0 {
        true
    } else if b.len() == 0 {
        false
    } else if a[0] != b[0] {
        a[0] < b[0]
    } else {
        chars_le(a.drop_first(), b.drop_first())
    }
}

pub proof fn lemma_chars_le_reflexive(a: Seq<char>)
    ensures
        chars_le(a, a),
    decreases a.len(),
{
    if a.len() > 0 {
        lemma_chars_le_reflexive(a.drop_first());
    }
}

pub proof fn lemma_chars_le_total(a: Seq<char>, b: Seq<char>)
    ensures
        chars_le(a, b) || chars_le(b, a),
    decreases a.len(),
{
    if a.len() > 0 && b.len() > 0 && a[0] == b[0] {
        lemma_chars_le_total(a.drop_first(), b.drop_first());
    }
}

pub proof fn lemma_chars_le_transitive(a: Seq<char>, b: Seq<char>, c: Seq<char>)
    requires
        chars_le(a, b),
        chars_le(b, c),
    ensures
        chars_le(a, c),
    decreases a.len(),
{
    if a.len() > 0 && b.len() > 0 && c.len() > 0 && a[0] == b[0] && b[0] == c[0] {
        lemma_chars_le_transitive(a.drop_first(), b.drop_first(), c.drop_first());
    }
}

/// The order of dates is that of their characters' code points (the order of
/// `<` on `char`), compared from the first position on: where two texts first
/// differ, the one with the smaller character there comes first; a text comes before every
/// longer text that starts with it, and after every shorter one that it
/// starts with.
pub proof fn lemma_chars_le_by_code_points(a: Seq<char>, b: Seq<char>, k: int)
    ensures
        0 <= k < a.len() && k < b.len() && a.take(k) == b.take(k) && a[k] != b[k] ==> (chars_le(a, b)
            <==> a[k] < b[k]),
        a.len() <= b.len() && a == b.take(a.len() as int) ==> chars_le(a, b),
        b.len() < a.len() && b == a.take(b.len() as int) ==> !chars_le(a, b),
    decreases a.len(),
{
    if a.len() > 0 && b.len() > 0 {
        let k1 = k - 1;
        if a[0] == b[0] {
            lemma_chars_le_by_code_points(a.drop_first(), b.drop_first(), k1);
            if 0 < k < a.len() && k < b.len() && a.take(k) == b.take(k) {
                assert(a.drop_first().take(k1) =~= a.take(k).drop_first());
                assert(b.drop_first().take(k1) =~= b.take(k).drop_first());
                assert(a.drop_first()[k1] == a[k]);
                assert(b.drop_first()[k1] == b[k]);
            }
            if a.len() <= b.len() && a == b.take(a.len() as int) {
                assert(a.drop_first() =~= b.drop_first().take(a.drop_first().len() as int));
            }
            if b.len() < a.len() && b == a.take(b.len() as int) {
                assert(b.drop_first() =~= a.drop_first().take(b.drop_first().len() as int));
            }
        } else {
            if a.len() <= b.len() && a == b.take(a.len() as int) {
                assert(a[0] == b.take(a.len() as int)[0]);
            }
            if b.len() < a.len() && b == a.take(b.len() as int) {
                assert(b[0] == a.take(b.len() as int)[0]);
            }
            if 0 < k < a.len() && k < b.len() && a.take(k) == b.take(k) {
                assert(a.take(k)[0] == b.take(k)[0]);
            }
        }
    }
}

/// Whether `a` comes no later than `b` in the order of strings.
pub fn date_le(a: &str, b: &str) -> (le: bool)
    ensures
        le == chars_le(a@, b@),
{
    let n = a.unicode_len();
    let m = b.unicode_len();
    let mut i: usize = 0;
    while i < n && i < m
        invariant
            n == a@.len(),
            m == b@.len(),
            i <= n,
            i <= m,
            chars_le(a@, b@) == chars_le(a@.skip(i as int), b@.skip(i as int)),
        decreases n - i,
    {
        let x = a.get_char(i);
        let y = b.get_char(i);
        assert(a@.skip(i as int)[0] == x && b@.skip(i as int)[0] == y);
        if x != y {
            return x < y;
        }
        assert(a@.skip(i as int).drop_first() =~= a@.skip(i + 1));
        assert(b@.skip(i as int).drop_first() =~= b@.skip(i + 1));
        i = i + 1;
    }
    n <= m
}

/// A usage entry as the pair (date, tokens).
pub open spec fn entry_view(d: DailyUsage) -> (Seq<char>, u64) {
    (d.date@, d.tokens)
}

pub open spec fn usage_view(s: Seq<DailyUsage>) -> Seq<(Seq<char>, u64)> {
    s.map_values(|d: DailyUsage| entry_view(d))
}

/// Whether an entry belongs to the day `date`.
pub open spec fn on_date(date: Seq<char>) -> spec_fn((Seq<char>, u64)) -> bool {
    |e: (Seq<char>, u64)| e.0 == date
}

/// The entries of `s` for the day `date`, in their order in `s`.
pub open spec fn with_date(s: Seq<(Seq<char>, u64)>, date: Seq<char>) -> Seq<(Seq<char>, u64)> {
    s.filter(on_date(date))
}

pub open spec fn sorted_by_date(s: Seq<(Seq<char>, u64)>) -> bool {
    forall|i: int, j: int| 0 <= i < j < s.len() ==> chars_le(#[trigger] s[i].0, #[trigger] s[j].0)
}

/// `sorted` is `entries` sorted by date by a stable sort: dates ascend, and
/// the entries of each day keep their relative order (so nothing is lost,
/// added or changed).
pub open spec fn stably_sorted_by_date(
    sorted: Seq<(Seq<char>, u64)>,
    entries: Seq<(Seq<char>, u64)>,
) -> bool {
    &&& sorted_by_date(sorted)
    &&& forall|date: Seq<char>| #[trigger] with_date(sorted, date) == with_date(entries, date)
}

/// The entry of one usage bucket, when it has a string `startDate` and an
/// unsigned integer `tokens`.
pub open spec fn bucket_entry(bucket: Json) -> Option<(Seq<char>, u64)> {
    match (json_str(json_get(bucket, "startDate"@)), json_u64(json_get(bucket, "tokens"@))) {
        (Some(date), Some(tokens)) => Some((date, tokens)),
        _ => None,
    }
}

/// The buckets of a usage reply: its `dailyUsageBuckets` array, if any.
pub open spec fn usage_buckets(usage: Json) -> Seq<Json> {
    match json_get(usage, "dailyUsageBuckets"@) {
        Some(Json::Array(buckets)) => buckets@,
        _ => seq![],
    }
}

/// The well-formed entries of a usage reply, in the reply's order.
pub open spec fn daily_entries(usage: Json) -> Seq<(Seq<char>, u64)> {
    usage_buckets(usage).filter_map(|b: Json| bucket_entry(b))
}

proof fn lemma_filter_single(x: (Seq<char>, u64), date: Seq<char>)
    ensures
        with_date(seq![x], date) == (if x.0 == date {
            seq![x]
        } else {
            seq![]
        }),
{
    let empty: Seq<(Seq<char>, u64)> = seq![];
    assert(empty.push(x) =~= seq![x]);
    empty.lemma_filter_push(x, on_date(date));
    assert(empty.filter(on_date(date)) =~= empty) by {
        reveal(Seq::filter);
    }
}

/// Inserting `x` where every entry before it is no later and every entry
/// after it is later keeps the order, and adds `x` at the end of its day.
proof fn lemma_insert_in_order(s: Seq<(Seq<char>, u64)>, x: (Seq<char>, u64), p: int)
    requires
        sorted_by_date(s),
        0 <= p <= s.len(),
        forall|i: int| 0 <= i < p ==> chars_le(#[trigger] s[i].0, x.0),
        forall|i: int| p <= i < s.len() ==> !chars_le(#[trigger] s[i].0, x.0),
    ensures
        sorted_by_date(s.insert(p, x)),
        forall|date: Seq<char>|
            #[trigger] with_date(s.insert(p, x), date) == (if x.0 == date {
                with_date(s, date).push(x)
            } else {
                with_date(s, date)
            }),
{
    let t = s.insert(p, x);
    assert forall|i: int, j: int| 0 <= i < j < t.len() implies chars_le(
        #[trigger] t[i].0,
        #[trigger] t[j].0,
    ) by {
        if j < p {
        } else if j == p {
        } else if i < p {
            lemma_chars_le_total(s[j - 1].0, x.0);
            lemma_chars_le_transitive(s[i].0, x.0, s[j - 1].0);
        } else if i == p {
            lemma_chars_le_total(s[j - 1].0, x.0);
        } else {
        }
    }
    let left = s.take(p);
    let right = s.skip(p);
    assert(s =~= left + right);
    assert(t =~= left + seq![x] + right);
    assert forall|date: Seq<char>| #[trigger]
        with_date(t, date) == (if x.0 == date {
            with_date(s, date).push(x)
        } else {
            with_date(s, date)
        }) by {
        let f = on_date(date);
        Seq::filter_distributes_over_add(left + seq![x], right, f);
        Seq::filter_distributes_over_add(left, seq![x], f);
        Seq::filter_distributes_over_add(left, right, f);
        lemma_filter_single(x, date);
        if x.0 == date {
            assert forall|i: int| 0 <= i < right.len() implies !f(#[trigger] right[i]) by {
                if right[i].0 == x.0 {
                    lemma_chars_le_reflexive(x.0);
                    assert(s[p + i].0 == right[i].0);
                }
            }
            
            right.lemma_all_neg_filter_empty(f);
            assert(right.filter(f) =~= seq![]);
            assert(with_date(t, date) =~= with_date(s, date).push(x));
        } else {
            assert(with_date(t, date) =~= with_date(s, date));
        }
    }
}

/// The daily usage of a `account/usage/read` reply: one entry per bucket that
/// has a string `startDate` and an unsigned integer `tokens`, stably sorted
/// by date.
pub fn read_daily_usage(usage: &Json) -> (days: Vec<DailyUsage>)
    ensures
        stably_sorted_by_date(usage_view(days@), daily_entries(*usage)),
{
    let mut days: Vec<DailyUsage> = Vec::new();
    let buckets = match usage.get("dailyUsageBuckets") {
        Some(Json::Array(buckets)) => buckets,
        _ => {
            assert(usage_view(days@) =~= seq![]);
            assert(daily_entries(*usage) =~= seq![]);
            return days;
        },
    };
    let ghost f = |b: Json| bucket_entry(b);
    let mut i: usize = 0;
    while i < buckets.len()
        invariant
            i <= buckets@.len(),
            usage_buckets(*usage) == buckets@,
            f == (|b: Json| bucket_entry(b)),
            stably_sorted_by_date(usage_view(days@), buckets@.take(i as int).filter_map(f)),
        decreases buckets@.len() - i,
    {
        let ghost before = usage_view(days@);
        let ghost seen = buckets@.take(i as int).filter_map(f);
        assert(buckets@.take(i + 1).drop_last() =~= buckets@.take(i as int));
        let bucket = &buckets[i];
        let date = get_str(bucket, "startDate");
        let tokens = get_u64(bucket, "tokens");
        match (date, tokens) {
            (Some(date), Some(tokens)) => {
                let entry = DailyUsage { date: date.clone(), tokens };
                let ghost x = entry_view(entry);
                assert(bucket_entry(buckets@[i as int]) == Some(x));
                assert(buckets@.take(i + 1).filter_map(f) =~= seen.push(x));
                let mut p: usize = days.len();
                while p > 0 && !date_le(days[p - 1].date.as_str(), entry.date.as_str())
                    invariant
                        p <= days@.len(),
                        before == usage_view(days@),
                        x == entry_view(entry),
                        sorted_by_date(before),
                        forall|k: int| p <= k < before.len() ==> !chars_le(#[trigger] before[k].0, x.0),
                    decreases p,
                {
                    p = p - 1;
                }
                proof {
                    assert forall|k: int| 0 <= k < p implies chars_le(#[trigger] before[k].0, x.0) by {
                        if k < p - 1 {
                            lemma_chars_le_transitive(before[k].0, before[p - 1].0, x.0);
                        }
                    }
                    lemma_insert_in_order(before, x, p as int);
                    let after = before.insert(p as int, x);
                    assert forall|date: Seq<char>| #[trigger]
                        with_date(after, date) == with_date(seen.push(x), date) by {
                        seen.lemma_filter_push(x, on_date(date));
                        assert(with_date(before, date) == with_date(seen, date));
                    }
                }
                days.insert(p, entry);
                assert(usage_view(days@) =~= before.insert(p as int, x));
            },
            _ => {
                assert(bucket_entry(buckets@[i as int]) is None);
                assert(buckets@.take(i + 1).filter_map(f) =~= seen);
            },
        }
        i = i + 1;
    }
    assert(buckets@.take(buckets@.len() as int) =~= buckets@);
    days
}

} // verus!
