//! The sample histories behind the CPU and memory graphs, and the average
//! CPU frequency.
use std::collections::VecDeque;
use vstd::prelude::*;

verus! {

/// How many samples a history keeps and a graph shows.
pub const HISTORY_LENGTH: usize = 40;

/// The last `HISTORY_LENGTH` samples of `samples` (all of them when fewer).
pub open spec fn recent<T>(samples: Seq<T>) -> Seq<T> {
    if samples.len() <= HISTORY_LENGTH {
        samples
    } else {
        samples.skip(samples.len() - HISTORY_LENGTH)
    }
}

/// The history after one more sample: the oldest one leaves when the history
/// is full.
pub open spec fn push_step<T>(history: Seq<T>, value: T) -> Seq<T> {
    (if history.len() == HISTORY_LENGTH {
        history.drop_first()
    } else {
        history
    }).push(value)
}

/// The history that `push_sample` builds from an empty one when handed
/// `samples` in order.
pub open spec fn pushed_from_empty<T>(samples: Seq<T>) -> Seq<T>
    decreases samples.len(),
{
    if samples.len() == 0 {
        Seq::empty()
    } else {
        push_step(pushed_from_empty(samples.drop_last()), samples.last())
    }
}

/// Appends a sample, dropping the oldest one when the history is full.
pub fn push_sample<T>(history: &mut VecDeque<T>, value: T)
    ensures
        final(history)@ == push_step(old(history)@, value),
{
    if history.len() == HISTORY_LENGTH {
        history.pop_front();
    }
    history.push_back(value);
}

/// A history that holds the most recent samples keeps doing so after
/// `push_sample`: it never grows past `HISTORY_LENGTH`, and it is always the
/// last samples taken, oldest first.
pub proof fn lemma_push_keeps_recent<T>(samples: Seq<T>, value: T)
    ensures
        (if recent(samples).len() == HISTORY_LENGTH {
            recent(samples).drop_first()
        } else {
            recent(samples)
        }).push(value) == recent(samples.push(value)),
        recent(samples.push(value)).len() <= HISTORY_LENGTH,
{
    let r = recent(samples);
    let next = (if r.len() == HISTORY_LENGTH {
        r.drop_first()
    } else {
        r
    }).push(value);
    assert(next =~= recent(samples.push(value)));
}

/// However many samples were pushed into an empty history, it holds the last
/// `HISTORY_LENGTH` of them (all of them when fewer), oldest first.
pub proof fn lemma_pushes_keep_recent<T>(samples: Seq<T>)
    ensures
        pushed_from_empty(samples) == recent(samples),
    decreases samples.len(),
{
    if samples.len() == 0 {
        assert(recent(samples) =~= Seq::<T>::empty());
    } else {
        let earlier = samples.drop_last();
        lemma_pushes_keep_recent(earlier);
        lemma_push_keeps_recent(earlier, samples.last());
        assert(earlier.push(samples.last()) =~= samples);
    }
}

/// The history as a graph of exactly `HISTORY_LENGTH` points when it holds
/// fewer samples: padded in front with copies of its oldest sample, or of
/// `empty` when it holds none.
pub open spec fn padded<T>(history: Seq<T>, empty: T) -> Seq<T> {
    let first = if history.len() > 0 {
        history[0]
    } else {
        empty
    };
    let missing = if history.len() < HISTORY_LENGTH {
        HISTORY_LENGTH - history.len()
    } else {
        0
    };
    Seq::new(missing as nat, |i: int| first) + history
}

pub fn padded_history<T: Copy>(history: &VecDeque<T>, empty: T) -> (values: Vec<T>)
    ensures
        values@ == padded(history@, empty),
{
    let first: T = if history.len() > 0 {
        history[0]
    } else {
        empty
    };
    let missing: usize = if history.len() < HISTORY_LENGTH {
        HISTORY_LENGTH - history.len()
    } else {
        0
    };
    let mut values: Vec<T> = Vec::new();
    let mut i: usize = 0;
    while i < missing
        invariant
            i <= missing,
            values@ == Seq::new(i as nat, |k: int| first),
        decreases missing - i,
    {
        values.push(first);
        i = i + 1;
        assert(values@ =~= Seq::new(i as nat, |k: int| first));
    }
    let ghost prefix = values@;
    let mut j: usize = 0;
    while j < history.len()
        invariant
            j <= history@.len(),
            values@ == prefix + history@.take(j as int),
        decreases history@.len() - j,
    {
        values.push(history[j]);
        j = j + 1;
        assert(values@ =~= prefix + history@.take(j as int));
    }
    assert(history@.take(history@.len() as int) =~= history@);
    values
}

/// A graph of a history that is not over-full has exactly `HISTORY_LENGTH`
/// points, and ends with the history itself.
pub proof fn lemma_padded_length<T>(history: Seq<T>, empty: T)
    requires
        history.len() <= HISTORY_LENGTH,
    ensures
        padded(history, empty).len() == HISTORY_LENGTH,
        padded(history, empty).skip(HISTORY_LENGTH - history.len()) == history,
{
    assert(padded(history, empty).skip(HISTORY_LENGTH - history.len()) =~= history);
}

/// After samples `c_1 .. c_n` (n at least one) were pushed into an empty
/// history, its graph is the last `HISTORY_LENGTH` of them, padded in front
/// with copies of the oldest one kept up to `HISTORY_LENGTH` points.
pub proof fn lemma_graph_after_pushes<T>(samples: Seq<T>, empty: T)
    requires
        samples.len() > 0,
    ensures
        padded(pushed_from_empty(samples), empty).len() == HISTORY_LENGTH,
        padded(pushed_from_empty(samples), empty) == Seq::new(
            (HISTORY_LENGTH - recent(samples).len()) as nat,
            |i: int| recent(samples)[0],
        ) + recent(samples),
        recent(samples)[0] == samples[if samples.len() <= HISTORY_LENGTH {
            0
        } else {
            samples.len() - HISTORY_LENGTH
        }],
{
    lemma_pushes_keep_recent(samples);
    lemma_padded_length(recent(samples), empty);
}

/// The sum of `values`.
pub open spec fn total(values: Seq<u64>) -> int
    decreases values.len(),
{
    if values.len() == 0 {
        0
    } else {
        total(values.drop_last()) + values.last()
    }
}

proof fn lemma_total_take_grows(values: Seq<u64>, i: int)
    requires
        0 <= i < values.len(),
    ensures
        total(values.take(i + 1)) == total(values.take(i)) + values[i],
        total(values.take(i)) <= total(values.take(i + 1)),
{
    assert(values.take(i + 1).drop_last() =~= values.take(i));
}

proof fn lemma_total_prefix_bounded(values: Seq<u64>, i: int)
    requires
        0 <= i <= values.len(),
    ensures
        0 <= total(values.take(i)) <= total(values),
    decreases values.len() - i,
{
    if i == values.len() {
        assert(values.take(i) =~= values);
        lemma_total_nonnegative(values);
    } else {
        lemma_total_take_grows(values, i);
        lemma_total_prefix_bounded(values, i + 1);
        lemma_total_nonnegative(values.take(i));
    }
}

proof fn lemma_total_nonnegative(values: Seq<u64>)
    ensures
        total(values) >= 0,
    decreases values.len(),
{
    if values.len() > 0 {
        lemma_total_nonnegative(values.drop_last());
    }
}

/// The average of the CPU core frequencies (rounded down), nothing without
/// cores.
pub fn average_frequency(frequencies: &Vec<u64>) -> (average: Option<u64>)
    requires
        total(frequencies@) <= u64::MAX,
    ensures
        frequencies@.len() == 0 ==> average is None,
        frequencies@.len() > 0 ==> average == Some(
            (total(frequencies@) / frequencies@.len() as int) as u64,
        ),
{
    if frequencies.len() == 0 {
        return None;
    }
    let mut sum: u64 = 0;
    let mut i: usize = 0;
    assert(frequencies@.take(0) =~= seq![]);
    while i < frequencies.len()
        invariant
            i <= frequencies@.len(),
            total(frequencies@) <= u64::MAX,
            sum == total(frequencies@.take(i as int)),
        decreases frequencies@.len() - i,
    {
        proof {
            lemma_total_take_grows(frequencies@, i as int);
            lemma_total_prefix_bounded(frequencies@, i + 1);
        }
        sum = sum + frequencies[i];
        i = i + 1;
    }
    assert(frequencies@.take(frequencies@.len() as int) =~= frequencies@);
    Some(sum / frequencies.len() as u64)
}

} // verus!
