pub mod laws;
pub mod message;

use crate::models::todo::Todo;
use vstd::hash_set::StringHashSet;
use vstd::prelude::*;

verus! {

/// Seconds by which the time left may miss the lead time on either side and
/// still count as the moment to notify. A scan runs once a minute.
pub const TOLERANCE_SECONDS: i64 = 30;

/// Seconds past its deadline after which an entry's mark is dropped.
pub const STALE_AFTER_SECONDS: i64 = 3600;

/// Seconds from one scan to the next.
pub const SCAN_PERIOD_SECONDS: i64 = 60;

/// One entry that a scan found due: where it stands in the scanned list, and
/// how many seconds were left to its deadline.
#[derive(Clone, Copy, Debug, PartialEq, Eq, Structural)]
pub struct DueNotice {
    pub index: usize,
    pub time_until_deadline: i64,
}

/// Scans the todo list for deadlines that come near, and remembers which
/// entries it has given notice of already.
pub struct NotificationManager {
    notified_tasks: StringHashSet,
}

/// The lead time of the settings, in seconds.
pub open spec fn threshold_seconds(minutes_before: u32) -> int {
    minutes_before as int * 60
}

/// Whether a scan looks at the entry at all: it is not completed and has a
/// deadline.
pub open spec fn is_watched(todo: Todo) -> bool {
    !todo.completed && todo.deadline is Some
}

/// Seconds from `now` to the deadline of an entry that has one.
pub open spec fn seconds_left(todo: Todo, now: int) -> int
    recommends
        todo.deadline is Some,
{
    todo.deadline.unwrap() as int - now
}

/// Whether an amount of time left is the moment to notify: the deadline is
/// still ahead, and the time left is within the tolerance of the lead time.
pub open spec fn in_notice_window(remaining: int, threshold: int) -> bool {
    &&& 0 < remaining
    &&& threshold - TOLERANCE_SECONDS <= remaining <= threshold + TOLERANCE_SECONDS
}

/// Whether an entry is due for notice at `now`.
pub open spec fn is_due(todo: Todo, now: int, threshold: int) -> bool {
    is_watched(todo) && in_notice_window(seconds_left(todo, now), threshold)
}

/// Whether the deadline of an entry lies more than an hour before `now`.
pub open spec fn is_stale(todo: Todo, now: int) -> bool {
    is_watched(todo) && seconds_left(todo, now) < -STALE_AFTER_SECONDS
}

/// Whether a scan gives notice of an entry: it is due and not marked yet.
pub open spec fn fires(todo: Todo, now: int, threshold: int, notified: Set<Seq<char>>) -> bool {
    is_due(todo, now, threshold) && !notified.contains(todo.id@)
}

/// The marks after a scan has looked at one entry: a due entry is marked, a
/// stale one loses its mark.
pub open spec fn notified_after_one(
    todo: Todo,
    now: int,
    threshold: int,
    notified: Set<Seq<char>>,
) -> Set<Seq<char>> {
    let marked = if is_due(todo, now, threshold) {
        notified.insert(todo.id@)
    } else {
        notified
    };
    if is_stale(todo, now) {
        marked.remove(todo.id@)
    } else {
        marked
    }
}

/// The marks after a scan has looked at every entry of `todos`, from the
/// first to the last.
pub open spec fn notified_after(
    todos: Seq<Todo>,
    now: int,
    threshold: int,
    notified: Set<Seq<char>>,
) -> Set<Seq<char>>
    decreases todos.len(),
{
    if todos.len() == 0 {
        notified
    } else {
        notified_after_one(
            todos.last(),
            now,
            threshold,
            notified_after(todos.drop_last(), now, threshold, notified),
        )
    }
}

/// The notices that a scan of `todos` gives, in the order of the list. An
/// entry is held against the marks as the entries before it have left them.
pub open spec fn notices(
    todos: Seq<Todo>,
    now: int,
    threshold: int,
    notified: Set<Seq<char>>,
) -> Seq<DueNotice>
    decreases todos.len(),
{
    if todos.len() == 0 {
        Seq::empty()
    } else {
        let earlier = notices(todos.drop_last(), now, threshold, notified);
        let marks = notified_after(todos.drop_last(), now, threshold, notified);
        if fires(todos.last(), now, threshold, marks) {
            earlier.push(
                DueNotice {
                    index: (todos.len() - 1) as usize,
                    time_until_deadline: seconds_left(todos.last(), now) as i64,
                },
            )
        } else {
            earlier
        }
    }
}

/// What one scan does: the notices it gives and the marks it leaves. With
/// notifications switched off it gives none and leaves the marks alone.
pub open spec fn scan_outcome(
    enabled: bool,
    minutes_before: u32,
    todos: Seq<Todo>,
    now: int,
    notified: Set<Seq<char>>,
) -> (Seq<DueNotice>, Set<Seq<char>>) {
    if enabled {
        (
            notices(todos, now, threshold_seconds(minutes_before), notified),
            notified_after(todos, now, threshold_seconds(minutes_before), notified),
        )
    } else {
        (Seq::empty(), notified)
    }
}

/// The current time in seconds since the Unix epoch, read from the system
/// clock by `chrono::Utc::now` and converted by `DateTime::timestamp`.
/// Nothing is claimed of the value. chrono does not go on where the clock
/// stands before the epoch.
#[verifier::external_body]
fn unix_time_now() -> (now: i64) {
    chrono::Utc::now().timestamp()
}

impl NotificationManager {
    /// The identifiers of the entries that notice was given of and whose
    /// marks have not been dropped since.
    pub closed spec fn notified(&self) -> Set<Seq<char>> {
        self.notified_tasks@
    }

    /// A manager that has given no notice yet.
    pub fn new() -> (manager: Self)
        ensures
            manager.notified() == Set::<Seq<char>>::empty(),
    {
        NotificationManager { notified_tasks: StringHashSet::new() }
    }

    /// Whether the entry with this identifier is marked as notified.
    pub fn is_notified(&self, id: &str) -> (marked: bool)
        ensures
            marked == self.notified().contains(id@),
    {
        self.notified_tasks.contains(id)
    }

    /// One scan of `todos` at the time `now`, under the two notification
    /// settings: whether notifications are enabled, and how many minutes
    /// before a deadline notice is given.
    ///
    /// Returns the entries of which notice is to be given now, in the order
    /// of the list, and updates the marks. See [`scan_outcome`].
    pub fn scan_at(
        &mut self,
        enabled: bool,
        minutes_before: u32,
        todos: &Vec<Todo>,
        now: i64,
    ) -> (due: Vec<DueNotice>)
        ensures
            (due@, final(self).notified()) == scan_outcome(
                enabled,
                minutes_before,
                todos@,
                now as int,
                old(self).notified(),
            ),
            !enabled ==> due@.len() == 0 && final(self).notified() == old(self).notified(),
    {
        let mut due: Vec<DueNotice> = Vec::new();
        if !enabled {
            return due;
        }
        let threshold: i64 = (minutes_before as i64) * 60;
        let ghost before = self.notified();
        let mut i: usize = 0;
        assert(todos@.take(0) =~= Seq::<Todo>::empty());
        while i < todos.len()
            invariant
                i <= todos.len(),
                threshold == threshold_seconds(minutes_before),
                due@ == notices(todos@.take(i as int), now as int, threshold as int, before),
                self.notified() == notified_after(
                    todos@.take(i as int),
                    now as int,
                    threshold as int,
                    before,
                ),
            decreases todos.len() - i,
        {
            let todo = &todos[i];
            proof {
                let prefix = todos@.take(i + 1);
                assert(prefix.drop_last() =~= todos@.take(i as int));
                assert(prefix.last() == todos@[i as int]);
            }
            let ghost marks = self.notified();
            if !todo.completed {
                if let Some(deadline) = todo.deadline {
                    let remaining: i128 = deadline as i128 - now as i128;
                    let should_notify = remaining > 0 && remaining <= threshold as i128
                        + TOLERANCE_SECONDS as i128 && remaining >= threshold as i128
                        - TOLERANCE_SECONDS as i128;
                    if should_notify && !self.notified_tasks.contains(todo.id.as_str()) {
                        due.push(DueNotice { index: i, time_until_deadline: remaining as i64 });
                        self.notified_tasks.insert(todo.id.clone());
                    }
                    if remaining < -(STALE_AFTER_SECONDS as i128) {
                        self.notified_tasks.remove(todo.id.as_str());
                    }
                }
            }
            assert(self.notified() =~= notified_after_one(
                todos@[i as int],
                now as int,
                threshold as int,
                marks,
            ));
            i += 1;
        }
        assert(todos@.take(todos@.len() as int) =~= todos@);
        due
    }

    /// One scan of `todos` at the current time, which is read from the system
    /// clock. Whatever the clock gives, the result and the marks are those of
    /// [`NotificationManager::scan_at`] at that time. With notifications
    /// switched off the clock is not read.
    pub fn check_and_notify(&mut self, enabled: bool, minutes_before: u32, todos: &Vec<Todo>) -> (due:
        Vec<DueNotice>)
        ensures
            exists|now: i64|
                (due@, final(self).notified()) == #[trigger] scan_outcome(
                    enabled,
                    minutes_before,
                    todos@,
                    now as int,
                    old(self).notified(),
                ),
            !enabled ==> due@.len() == 0 && final(self).notified() == old(self).notified(),
    {
        if !enabled {
            assert((Seq::<DueNotice>::empty(), self.notified()) == scan_outcome(
                enabled,
                minutes_before,
                todos@,
                0i64 as int,
                self.notified(),
            ));
            return Vec::new();
        }
        let now = unix_time_now();
        self.scan_at(enabled, minutes_before, todos, now)
    }
}

} // verus!
