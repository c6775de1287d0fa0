use crate::models::todo::Todo;
use crate::notification::{
    fires, in_notice_window, is_due, is_stale, is_watched, notices, notified_after, seconds_left,
    threshold_seconds, DueNotice, SCAN_PERIOD_SECONDS, TOLERANCE_SECONDS,
};
use vstd::prelude::*;

verus! {

/// Whether no two entries of a list share an identifier.
pub open spec fn distinct_ids(todos: Seq<Todo>) -> bool {
    forall|i: int, j: int|
        #![trigger todos[i], todos[j]]
        0 <= i < j < todos.len() ==> todos[i].id@ != todos[j].id@
}

/// Whether a list of notices holds one for the entry at `index`.
pub open spec fn has_notice_for(due: Seq<DueNotice>, index: int) -> bool {
    exists|k: int| 0 <= k < due.len() && (#[trigger] due[k]).index == index
}

/// Whether a list of notices holds at most one for the entry at `index`.
pub open spec fn has_one_notice_at_most(due: Seq<DueNotice>, index: int) -> bool {
    forall|k: int, l: int|
        0 <= k < due.len() && 0 <= l < due.len() && (#[trigger] due[k]).index == index && (
        #[trigger] due[l]).index == index ==> k == l
}

/// A scan leaves the mark of an identifier alone that no entry of the list
/// has.
pub proof fn lemma_unlisted_mark_is_kept(
    todos: Seq<Todo>,
    now: int,
    threshold: int,
    notified: Set<Seq<char>>,
    id: Seq<char>,
)
    requires
        forall|i: int| 0 <= i < todos.len() ==> (#[trigger] todos[i]).id@ != id,
    ensures
        notified_after(todos, now, threshold, notified).contains(id) <==> notified.contains(id),
    decreases todos.len(),
{
    if todos.len() > 0 {
        let earlier = todos.drop_last();
        assert forall|i: int| 0 <= i < earlier.len() implies (#[trigger] earlier[i]).id@ != id by {
            assert(earlier[i] == todos[i]);
        }
        lemma_unlisted_mark_is_kept(earlier, now, threshold, notified, id);
        assert(todos.last() == todos[todos.len() - 1]);
    }
}

/// In a list without shared identifiers, an entry is marked after a scan if
/// and only if it is not stale, and was marked before or is due.
pub proof fn lemma_mark_after_scan(
    todos: Seq<Todo>,
    now: int,
    threshold: int,
    notified: Set<Seq<char>>,
    i: int,
)
    requires
        distinct_ids(todos),
        0 <= i < todos.len(),
    ensures
        notified_after(todos, now, threshold, notified).contains(todos[i].id@) <==> !is_stale(
            todos[i],
            now,
        ) && (notified.contains(todos[i].id@) || is_due(todos[i], now, threshold)),
    decreases todos.len(),
{
    let earlier = todos.drop_last();
    let last = todos.len() - 1;
    assert(todos.last() == todos[last]);
    assert forall|a: int, b: int| 0 <= a < b < earlier.len() implies (#[trigger] earlier[a]).id@
        != (#[trigger] earlier[b]).id@ by {
        assert(earlier[a] == todos[a] && earlier[b] == todos[b]);
    }
    if i == last {
        assert forall|a: int| 0 <= a < earlier.len() implies (#[trigger] earlier[a]).id@
            != todos[i].id@ by {
            assert(earlier[a] == todos[a]);
        }
        lemma_unlisted_mark_is_kept(earlier, now, threshold, notified, todos[i].id@);
    } else {
        assert(earlier[i] == todos[i]);
        lemma_mark_after_scan(earlier, now, threshold, notified, i);
        assert(todos[i].id@ != todos[last].id@);
    }
}

/// The notices of a scan name entries of the list in rising order, each of
/// them due, and each with the seconds that were left to its deadline.
pub proof fn lemma_notices_in_order(
    todos: Seq<Todo>,
    now: int,
    minutes_before: u32,
    notified: Set<Seq<char>>,
)
    requires
        todos.len() <= usize::MAX,
    ensures
        forall|k: int|
            0 <= k < notices(todos, now, threshold_seconds(minutes_before), notified).len() ==> {
                let notice = #[trigger] notices(
                    todos,
                    now,
                    threshold_seconds(minutes_before),
                    notified,
                )[k];
                &&& notice.index < todos.len()
                &&& is_due(todos[notice.index as int], now, threshold_seconds(minutes_before))
                &&& notice.time_until_deadline == seconds_left(todos[notice.index as int], now)
            },
        forall|k: int, l: int|
            0 <= k < l < notices(todos, now, threshold_seconds(minutes_before), notified).len()
                ==> (#[trigger] notices(
                todos,
                now,
                threshold_seconds(minutes_before),
                notified,
            )[k]).index < (#[trigger] notices(
                todos,
                now,
                threshold_seconds(minutes_before),
                notified,
            )[l]).index,
    decreases todos.len(),
{
    let threshold = threshold_seconds(minutes_before);
    if todos.len() > 0 {
        let earlier = todos.drop_last();
        lemma_notices_in_order(earlier, now, minutes_before, notified);
        let before = notices(earlier, now, threshold, notified);
        let all = notices(todos, now, threshold, notified);
        assert forall|k: int| 0 <= k < before.len() implies (#[trigger] before[k]).index
            < earlier.len() && todos[before[k].index as int] == earlier[before[k].index as int] by {}
        assert forall|k: int| 0 <= k < all.len() implies {
            let notice = #[trigger] all[k];
            &&& notice.index < todos.len()
            &&& is_due(todos[notice.index as int], now, threshold)
            &&& notice.time_until_deadline == seconds_left(todos[notice.index as int], now)
        } by {
            if k < before.len() {
                assert(all[k] == before[k]);
            } else {
                assert(todos.last() == todos[todos.len() - 1]);
            }
        }
        assert forall|k: int, l: int| 0 <= k < l < all.len() implies (#[trigger] all[k]).index < (
        #[trigger] all[l]).index by {
            assert(all[k] == before[k]);
            if l < before.len() {
                assert(all[l] == before[l]);
            }
        }
    }
}

/// In a list without shared identifiers, a scan gives notice of an entry if
/// and only if the entry is due and was not marked when the scan began.
pub proof fn lemma_notice_iff_fires(
    todos: Seq<Todo>,
    now: int,
    minutes_before: u32,
    notified: Set<Seq<char>>,
    i: int,
)
    requires
        distinct_ids(todos),
        todos.len() <= usize::MAX,
        0 <= i < todos.len(),
    ensures
        has_notice_for(notices(todos, now, threshold_seconds(minutes_before), notified), i)
            <==> fires(todos[i], now, threshold_seconds(minutes_before), notified),
    decreases todos.len(),
{
    let threshold = threshold_seconds(minutes_before);
    let earlier = todos.drop_last();
    let last = todos.len() - 1;
    let before = notices(earlier, now, threshold, notified);
    let all = notices(todos, now, threshold, notified);
    let marks = notified_after(earlier, now, threshold, notified);
    assert(todos.last() == todos[last]);
    lemma_notices_in_order(earlier, now, minutes_before, notified);
    assert forall|a: int, b: int| 0 <= a < b < earlier.len() implies (#[trigger] earlier[a]).id@
        != (#[trigger] earlier[b]).id@ by {
        assert(earlier[a] == todos[a] && earlier[b] == todos[b]);
    }
    if i == last {
        assert forall|a: int| 0 <= a < earlier.len() implies (#[trigger] earlier[a]).id@
            != todos[i].id@ by {
            assert(earlier[a] == todos[a]);
        }
        lemma_unlisted_mark_is_kept(earlier, now, threshold, notified, todos[i].id@);
        if fires(todos[i], now, threshold, notified) {
            assert(all[before.len() as int].index == i);
        } else {
            assert(all == before);
            assert forall|k: int| 0 <= k < all.len() implies (#[trigger] all[k]).index != i by {}
        }
    } else {
        assert(earlier[i] == todos[i]);
        lemma_notice_iff_fires(earlier, now, minutes_before, notified, i);
        if has_notice_for(before, i) {
            let k = choose|k: int| 0 <= k < before.len() && (#[trigger] before[k]).index == i;
            assert(all[k] == before[k]);
        }
        if has_notice_for(all, i) {
            let k = choose|k: int| 0 <= k < all.len() && (#[trigger] all[k]).index == i;
            if k < before.len() {
                assert(all[k] == before[k]);
            }
        }
    }
}

/// A scan of a list without shared identifiers gives no notice where every
/// due entry is marked already.
pub proof fn lemma_marked_entries_are_silent(
    todos: Seq<Todo>,
    now: int,
    threshold: int,
    notified: Set<Seq<char>>,
)
    requires
        distinct_ids(todos),
        forall|i: int|
            0 <= i < todos.len() && is_due(#[trigger] todos[i], now, threshold)
                ==> notified.contains(todos[i].id@),
    ensures
        notices(todos, now, threshold, notified).len() == 0,
    decreases todos.len(),
{
    if todos.len() > 0 {
        let earlier = todos.drop_last();
        let last = todos.len() - 1;
        assert(todos.last() == todos[last]);
        assert forall|a: int, b: int| 0 <= a < b < earlier.len() implies (#[trigger] earlier[a]).id@
            != (#[trigger] earlier[b]).id@ by {
            assert(earlier[a] == todos[a] && earlier[b] == todos[b]);
        }
        assert forall|a: int|
            0 <= a < earlier.len() && is_due(
                #[trigger] earlier[a],
                now,
                threshold,
            ) implies notified.contains(earlier[a].id@) by {
            assert(earlier[a] == todos[a]);
        }
        lemma_marked_entries_are_silent(earlier, now, threshold, notified);
        assert forall|a: int| 0 <= a < earlier.len() implies (#[trigger] earlier[a]).id@
            != todos[last].id@ by {
            assert(earlier[a] == todos[a]);
        }
        lemma_unlisted_mark_is_kept(earlier, now, threshold, notified, todos[last].id@);
    }
}

/// A second scan at the same instant gives no notice and leaves the marks as
/// the first scan left them, in a list without shared identifiers.
pub proof fn lemma_rescan_is_silent(
    todos: Seq<Todo>,
    now: int,
    threshold: int,
    notified: Set<Seq<char>>,
)
    requires
        distinct_ids(todos),
    ensures
        notices(todos, now, threshold, notified_after(todos, now, threshold, notified)).len() == 0,
        notified_after(todos, now, threshold, notified_after(todos, now, threshold, notified))
            == notified_after(todos, now, threshold, notified),
{
    let once = notified_after(todos, now, threshold, notified);
    let twice = notified_after(todos, now, threshold, once);
    assert forall|i: int|
        0 <= i < todos.len() && is_due(#[trigger] todos[i], now, threshold) implies once.contains(
        todos[i].id@,
    ) by {
        lemma_mark_after_scan(todos, now, threshold, notified, i);
    }
    lemma_marked_entries_are_silent(todos, now, threshold, once);
    assert forall|id: Seq<char>| twice.contains(id) <==> once.contains(id) by {
        if exists|i: int| 0 <= i < todos.len() && (#[trigger] todos[i]).id@ == id {
            let i = choose|i: int| 0 <= i < todos.len() && (#[trigger] todos[i]).id@ == id;
            lemma_mark_after_scan(todos, now, threshold, notified, i);
            lemma_mark_after_scan(todos, now, threshold, once, i);
        } else {
            lemma_unlisted_mark_is_kept(todos, now, threshold, notified, id);
            lemma_unlisted_mark_is_kept(todos, now, threshold, once, id);
        }
    }
    assert(twice =~= once);
}

/// An entry whose deadline is exactly the lead time away is given notice of
/// once, and is marked after the scan; a second scan at the same instant
/// gives no notice at all.
///
/// This needs a lead time of at least one minute (a deadline that is reached
/// is no longer ahead), an entry that is watched and not marked yet, and a
/// list without shared identifiers.
pub proof fn lemma_on_target_fires_once(
    todos: Seq<Todo>,
    now: int,
    minutes_before: u32,
    notified: Set<Seq<char>>,
    i: int,
)
    requires
        distinct_ids(todos),
        todos.len() <= usize::MAX,
        0 <= i < todos.len(),
        is_watched(todos[i]),
        seconds_left(todos[i], now) == threshold_seconds(minutes_before),
        minutes_before >= 1,
        !notified.contains(todos[i].id@),
    ensures
        has_notice_for(notices(todos, now, threshold_seconds(minutes_before), notified), i),
        has_one_notice_at_most(
            notices(todos, now, threshold_seconds(minutes_before), notified),
            i,
        ),
        notified_after(todos, now, threshold_seconds(minutes_before), notified).contains(
            todos[i].id@,
        ),
        notices(
            todos,
            now,
            threshold_seconds(minutes_before),
            notified_after(todos, now, threshold_seconds(minutes_before), notified),
        ).len() == 0,
{
    let threshold = threshold_seconds(minutes_before);
    lemma_notice_iff_fires(todos, now, minutes_before, notified, i);
    lemma_notices_in_order(todos, now, minutes_before, notified);
    lemma_mark_after_scan(todos, now, threshold, notified, i);
    lemma_rescan_is_silent(todos, now, threshold, notified);
    let due = notices(todos, now, threshold, notified);
    assert forall|k: int, l: int|
        0 <= k < due.len() && 0 <= l < due.len() && (#[trigger] due[k]).index == i && (
        #[trigger] due[l]).index == i implies k == l by {
        if k < l {
            assert(due[k].index < due[l].index);
        }
        if l < k {
            assert(due[l].index < due[k].index);
        }
    }
}

/// A watched entry whose deadline lies more than an hour back is not marked
/// after a scan, whether it was marked before or not, in a list without
/// shared identifiers.
pub proof fn lemma_stale_mark_is_dropped(
    todos: Seq<Todo>,
    now: int,
    threshold: int,
    notified: Set<Seq<char>>,
    i: int,
)
    requires
        distinct_ids(todos),
        0 <= i < todos.len(),
        is_stale(todos[i], now),
    ensures
        !notified_after(todos, now, threshold, notified).contains(todos[i].id@),
{
    lemma_mark_after_scan(todos, now, threshold, notified, i);
}

/// Scans that follow each other at the scan period do not step over the
/// notice window of a deadline: the tolerance covers half of the period. Of
/// the scans that begin with `first_remaining` seconds left, not later than
/// the end of the window, one finds the time left within the window.
///
/// This needs a lead time of at least one minute: with none, the part of
/// the window in which the deadline is still ahead is shorter than the
/// period.
pub proof fn lemma_periodic_scans_meet_the_window(first_remaining: int, minutes_before: u32)
    requires
        minutes_before >= 1,
        first_remaining >= threshold_seconds(minutes_before) - TOLERANCE_SECONDS,
    ensures
        2 * TOLERANCE_SECONDS >= SCAN_PERIOD_SECONDS,
        exists|k: nat|
            in_notice_window(
                #[trigger] remaining_at_scan(first_remaining, k),
                threshold_seconds(minutes_before),
            ),
{
    let threshold = threshold_seconds(minutes_before);
    let k = ((first_remaining - (threshold - TOLERANCE_SECONDS)) / (
    SCAN_PERIOD_SECONDS as int)) as nat;
    assert(in_notice_window(remaining_at_scan(first_remaining, k), threshold));
}

/// The seconds left at the scan that comes `k` periods after a scan with
/// `first_remaining` seconds left.
pub open spec fn remaining_at_scan(first_remaining: int, k: nat) -> int {
    first_remaining - k * SCAN_PERIOD_SECONDS
}

} // verus!
