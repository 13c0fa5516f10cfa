use vstd::prelude::*;

use crate::library::history::HistoryEntry;
use crate::player::queue_manager::{is_permutation_of_range, occurs_in};
use crate::text::{chars_of, string_of};

verus! {

/// Totals over a range of listening history.
pub struct ListeningStats {
    /// Seconds listened, negative records counting as zero.
    pub total_listened: u64,
    pub total_tracks: usize,
    pub unique_channels: usize,
    /// Each channel with its listening time, longest first.
    pub top_channels: Vec<(String, u64)>,
}

pub open spec fn listened(e: HistoryEntry) -> nat {
    if e.listened_secs > 0 {
        e.listened_secs as nat
    } else {
        0
    }
}

pub open spec fn total_listened(es: Seq<HistoryEntry>) -> nat
    decreases es.len(),
{
    if es.len() == 0 {
        0
    } else {
        total_listened(es.drop_last()) + listened(es.last())
    }
}

/// The time listened to channel `ch`.
pub open spec fn channel_time(es: Seq<HistoryEntry>, ch: Seq<char>) -> nat
    decreases es.len(),
{
    if es.len() == 0 {
        0
    } else {
        channel_time(es.drop_last(), ch) + match es.last().channel {
            Some(c) => if c@ == ch {
                listened(es.last())
            } else {
                0
            },
            None => 0,
        }
    }
}

/// The channels of the entries, each once, in order of first appearance.
pub open spec fn channel_order(es: Seq<HistoryEntry>) -> Seq<Seq<char>>
    decreases es.len(),
{
    if es.len() == 0 {
        seq![]
    } else {
        let prev = channel_order(es.drop_last());
        match es.last().channel {
            Some(c) => if prev.contains(c@) {
                prev
            } else {
                prev.push(c@)
            },
            None => prev,
        }
    }
}

/// Each channel with its listening time, in order of first appearance.
pub open spec fn channel_totals(es: Seq<HistoryEntry>) -> Seq<(Seq<char>, nat)> {
    let order = channel_order(es);
    Seq::new(order.len(), |k: int| (order[k], channel_time(es, order[k])))
}

/// A channel that no entry names has no listening time.
pub proof fn lemma_absent_channel_has_no_time(es: Seq<HistoryEntry>, ch: Seq<char>)
    requires
        !channel_order(es).contains(ch),
    ensures
        channel_time(es, ch) == 0,
    decreases es.len(),
{
    if es.len() > 0 {
        let prev = channel_order(es.drop_last());
        match es.last().channel {
            Some(c) => {
                if prev.contains(c@) {
                    assert(c@ != ch);
                } else {
                    assert(prev.push(c@).last() == c@);
                    assert(c@ != ch);
                    assert forall|k: int| 0 <= k < prev.len() implies prev[k] != ch by {
                        assert(prev.push(c@)[k] == prev[k]);
                    }
                }
                lemma_absent_channel_has_no_time(es.drop_last(), ch);
            },
            None => {
                lemma_absent_channel_has_no_time(es.drop_last(), ch);
            },
        }
    }
}

/// No channel has more listening time than the total.
pub proof fn lemma_channel_time_bounded(es: Seq<HistoryEntry>, ch: Seq<char>)
    ensures
        channel_time(es, ch) <= total_listened(es),
    decreases es.len(),
{
    if es.len() > 0 {
        lemma_channel_time_bounded(es.drop_last(), ch);
    }
}

/// The listening time of a prefix of the history is at most the total.
pub proof fn lemma_total_monotone(es: Seq<HistoryEntry>, i: int)
    requires
        0 <= i <= es.len(),
    ensures
        total_listened(es.take(i)) <= total_listened(es),
    decreases es.len() - i,
{
    if i < es.len() {
        lemma_total_monotone(es, i + 1);
        assert(es.take(i + 1).drop_last() == es.take(i));
    } else {
        assert(es.take(i) == es);
    }
}

/// Each channel appears once in the channel list.
pub proof fn lemma_channel_order_distinct(es: Seq<HistoryEntry>)
    ensures
        forall|a: int, b: int|
            0 <= a < b < channel_order(es).len() ==> channel_order(es)[a] != channel_order(es)[b],
    decreases es.len(),
{
    if es.len() > 0 {
        lemma_channel_order_distinct(es.drop_last());
        let prev = channel_order(es.drop_last());
        match es.last().channel {
            Some(c) => {
                if !prev.contains(c@) {
                    assert forall|a: int| 0 <= a < prev.len() implies prev[a] != c@ by {
                        if prev[a] == c@ {
                            assert(prev.contains(c@));
                        }
                    }
                }
            },
            None => {},
        }
    }
}

fn find_name(names: &Vec<String>, c: &String) -> (r: Option<usize>)
    ensures
        match r {
            Some(k) => k < names@.len() && names@[k as int]@ == c@,
            None => forall|j: int| 0 <= j < names@.len() ==> #[trigger] names@[j]@ != c@,
        },
{
    let mut k: usize = 0;
    while k < names.len()
        invariant
            k <= names@.len(),
            forall|j: int| 0 <= j < k ==> #[trigger] names@[j]@ != c@,
        decreases names@.len() - k,
    {
        if names[k] == *c {
            return Some(k);
        }
        k = k + 1;
    }
    None
}

fn string_copy(s: &String) -> (r: String)
    ensures
        r@ == s@,
{
    string_of(&chars_of(s.as_str()))
}

fn listened_of(e: &HistoryEntry) -> (r: u64)
    ensures
        r == listened(*e),
{
    if e.listened_secs > 0 {
        e.listened_secs as u64
    } else {
        0
    }
}

/// `names`/`times` hold the channel totals of `es` in order of first appearance.
pub open spec fn agg_matches(names: Seq<String>, times: Seq<u64>, es: Seq<HistoryEntry>) -> bool {
    &&& names.len() == times.len() == channel_order(es).len()
    &&& forall|k: int|
        0 <= k < names.len() ==> #[trigger] names[k]@ == channel_order(es)[k] && times[k]
            == channel_time(es, channel_order(es)[k])
}

proof fn lemma_agg_none(names: Seq<String>, times: Seq<u64>, pre: Seq<HistoryEntry>, post: Seq<HistoryEntry>)
    requires
        agg_matches(names, times, pre),
        post.len() > 0,
        post.drop_last() == pre,
        post.last().channel is None,
    ensures
        agg_matches(names, times, post),
{
    assert(channel_order(post) == channel_order(pre));
    assert forall|k: int| 0 <= k < names.len() implies #[trigger] names[k]@ == channel_order(post)[k]
        && times[k] == channel_time(post, channel_order(post)[k]) by {
        assert(names[k]@ == channel_order(pre)[k]);
    }
}

proof fn lemma_agg_found(
    names: Seq<String>,
    times: Seq<u64>,
    pre: Seq<HistoryEntry>,
    post: Seq<HistoryEntry>,
    c: String,
    k: int,
)
    requires
        agg_matches(names, times, pre),
        post.len() > 0,
        post.drop_last() == pre,
        post.last().channel == Some(c),
        0 <= k < names.len(),
        names[k]@ == c@,
        times[k] + listened(post.last()) <= u64::MAX,
    ensures
        agg_matches(names, times.update(k, (times[k] + listened(post.last())) as u64), post),
{
    lemma_channel_order_distinct(pre);
    assert(channel_order(pre).contains(c@)) by {
        assert(channel_order(pre)[k] == c@);
    }
    assert(channel_order(post) == channel_order(pre));
    let t2 = times.update(k, (times[k] + listened(post.last())) as u64);
    assert forall|j: int| 0 <= j < names.len() implies #[trigger] names[j]@ == channel_order(post)[j]
        && t2[j] == channel_time(post, channel_order(post)[j]) by {
        assert(names[j]@ == channel_order(pre)[j]);
        if j != k {
            assert(channel_order(pre)[j] != channel_order(pre)[k]);
        }
    }
}

proof fn lemma_agg_new(
    names: Seq<String>,
    times: Seq<u64>,
    pre: Seq<HistoryEntry>,
    post: Seq<HistoryEntry>,
    c: String,
    s: String,
)
    requires
        agg_matches(names, times, pre),
        post.len() > 0,
        post.drop_last() == pre,
        post.last().channel == Some(c),
        forall|j: int| 0 <= j < names.len() ==> #[trigger] names[j]@ != c@,
        s@ == c@,
        listened(post.last()) <= u64::MAX,
    ensures
        agg_matches(names.push(s), times.push(listened(post.last()) as u64), post),
{
    assert(!channel_order(pre).contains(c@)) by {
        if channel_order(pre).contains(c@) {
            let j = choose|j: int| 0 <= j < channel_order(pre).len() && channel_order(pre)[j] == c@;
            assert(names[j]@ == channel_order(pre)[j]);
        }
    }
    lemma_absent_channel_has_no_time(pre, c@);
    assert(channel_order(post) == channel_order(pre).push(c@));
    let n2 = names.push(s);
    let t2 = times.push(listened(post.last()) as u64);
    assert forall|j: int| 0 <= j < n2.len() implies #[trigger] n2[j]@ == channel_order(post)[j]
        && t2[j] == channel_time(post, channel_order(post)[j]) by {
        if j < names.len() {
            assert(names[j]@ == channel_order(pre)[j]);
            assert(channel_order(pre)[j] != c@);
        }
    }
}

/// The channel totals of `entries`, in order of first appearance.
fn aggregate_channels(entries: &Vec<HistoryEntry>) -> (r: (u64, Vec<String>, Vec<u64>))
    requires
        total_listened(entries@) <= u64::MAX,
    ensures
        r.0 == total_listened(entries@),
        agg_matches(r.1@, r.2@, entries@),
{
    let ghost es = entries@;
    let mut total: u64 = 0;
    let mut names: Vec<String> = Vec::new();
    let mut times: Vec<u64> = Vec::new();
    let mut i: usize = 0;
    while i < entries.len()
        invariant
            es == entries@,
            total_listened(es) <= u64::MAX,
            i <= es.len(),
            total == total_listened(es.take(i as int)),
            agg_matches(names@, times@, es.take(i as int)),
        decreases es.len() - i,
    {
        let ghost pre = es.take(i as int);
        let ghost post = es.take(i + 1);
        assert(post.drop_last() == pre);
        assert(post.last() == es[i as int]);
        let e = &entries[i];
        let l = listened_of(e);
        proof {
            lemma_total_monotone(es, i + 1);
        }
        total = total + l;
        match &e.channel {
            Some(c) => {
                match find_name(&names, c) {
                    Some(k) => {
                        proof {
                            lemma_channel_time_bounded(post, c@);
                            lemma_agg_found(names@, times@, pre, post, *c, k as int);
                        }
                        assert(names@[k as int]@ == channel_order(pre)[k as int]);
                        let t = times[k] + l;
                        times.set(k, t);
                    },
                    None => {
                        let copy = string_copy(c);
                        proof {
                            lemma_agg_new(names@, times@, pre, post, *c, copy);
                        }
                        names.push(copy);
                        times.push(l);
                    },
                }
            },
            None => {
                proof {
                    lemma_agg_none(names@, times@, pre, post);
                }
            },
        }
        i = i + 1;
        assert(es.take(i as int) == post);
    }
    assert(es.take(es.len() as int) == es);
    (total, names, times)
}

/// Indices `0..times.len()` ordered by decreasing time.
fn order_by_time_desc(times: &Vec<u64>) -> (order: Vec<usize>)
    ensures
        is_permutation_of_range(order@, times@.len() as nat),
        forall|a: int, b: int|
            0 <= a < b < order@.len() ==> times@[order@[a] as int] >= times@[order@[b] as int],
{
    let n = times.len();
    let mut order: Vec<usize> = Vec::new();
    let mut k: usize = 0;
    while k < n
        invariant
            k <= n == times@.len(),
            order@.len() == k,
            forall|i: int| 0 <= i < k ==> #[trigger] order@[i] == i,
        decreases n - k,
    {
        order.push(k);
        k = k + 1;
    }
    assert(is_permutation_of_range(order@, n as nat)) by {
        assert forall|v: usize| v < n implies #[trigger] occurs_in(order@, v) by {
            assert(order@[v as int] == v);
        }
    }
    let mut i: usize = 1;
    while i < n
        invariant
            n == times@.len(),
            1 <= i,
            is_permutation_of_range(order@, n as nat),
            forall|a: int, b: int|
                0 <= a < b < i && b < n ==> times@[order@[a] as int] >= times@[order@[b] as int],
        decreases n - i,
    {
        let mut j = i;
        while j > 0 && times[order[j - 1]] < times[order[j]]
            invariant
                n == times@.len(),
                0 <= j <= i < n,
                is_permutation_of_range(order@, n as nat),
                forall|a: int, b: int|
                    0 <= a < b <= i && a != j && b != j ==> times@[order@[a] as int]
                        >= times@[order@[b] as int],
                forall|b: int| j < b <= i ==> times@[order@[j as int] as int] >= times@[order@[b] as int],
            decreases j,
        {
            let ghost before = order@;
            let x = order[j - 1];
            let y = order[j];
            order.set(j - 1, y);
            order.set(j, x);
            assert(order@ == before.update(j - 1, y).update(j as int, x));
            assert forall|v: usize| v < n implies #[trigger] occurs_in(order@, v) by {
                assert(occurs_in(before, v));
                let p = choose|p: int| 0 <= p < before.len() && before[p] == v;
                if p == j - 1 {
                    assert(order@[j as int] == v);
                } else if p == j {
                    assert(order@[j - 1] == v);
                } else {
                    assert(order@[p] == v);
                }
            }
            j = j - 1;
        }
        i = i + 1;
    }
    order
}

/// Listening statistics over `entries`: total time, number of plays,
/// distinct channels, and the channels by listening time.
pub fn listening_stats(entries: &Vec<HistoryEntry>) -> (r: ListeningStats)
    requires
        total_listened(entries@) <= u64::MAX,
    ensures
        r.total_listened == total_listened(entries@),
        r.total_tracks == entries@.len(),
        r.unique_channels == channel_order(entries@).len(),
        r.top_channels@.len() == channel_totals(entries@).len(),
        forall|a: int, b: int|
            0 <= a < b < r.top_channels@.len() ==> r.top_channels@[a].1 >= r.top_channels@[b].1,
        exists|p: Seq<usize>|
            #[trigger] is_permutation_of_range(p, r.top_channels@.len() as nat) && forall|k: int|
                0 <= k < r.top_channels@.len() ==> r.top_channels@[k].0@ == channel_totals(
                    entries@,
                )[p[k] as int].0 && r.top_channels@[k].1 == channel_totals(entries@)[p[k] as int].1,
{
    let (total, names, times) = aggregate_channels(entries);
    let n = names.len();
    let order = order_by_time_desc(&times);
    let mut top: Vec<(String, u64)> = Vec::new();
    let mut x: usize = 0;
    while x < n
        invariant
            n == names@.len() == times@.len() == order@.len() == channel_order(entries@).len(),
            is_permutation_of_range(order@, n as nat),
            agg_matches(names@, times@, entries@),
            x <= n,
            top@.len() == x,
            forall|k: int|
                0 <= k < x ==> #[trigger] top@[k].0@ == names@[order@[k] as int]@ && top@[k].1
                    == times@[order@[k] as int],
        decreases n - x,
    {
        let idx = order[x];
        top.push((string_copy(&names[idx]), times[idx]));
        x = x + 1;
    }
    assert forall|k: int|
        0 <= k < top@.len() implies top@[k].0@ == channel_totals(entries@)[order@[k] as int].0
            && top@[k].1 == channel_totals(entries@)[order@[k] as int].1 by {
        assert(top@[k].0@ == names@[order@[k] as int]@);
    }
    assert(is_permutation_of_range(order@, top@.len() as nat));
    let r = ListeningStats {
        total_listened: total,
        total_tracks: entries.len(),
        unique_channels: n,
        top_channels: top,
    };
    assert(is_permutation_of_range(order@, r.top_channels@.len() as nat) && forall|k: int|
        0 <= k < r.top_channels@.len() ==> r.top_channels@[k].0@ == channel_totals(
            entries@,
        )[order@[k] as int].0 && r.top_channels@[k].1 == channel_totals(entries@)[order@[k] as int].1);
    r
}

} // verus!
