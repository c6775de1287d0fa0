use std::time::{Duration, Instant};
use vstd::prelude::*;

verus! {

/// `std::time::Instant`: a reading of a clock that does not go back. It is
/// carried around and handed to the clock again, nothing else.
#[verifier::external_type_specification]
#[verifier::external_body]
pub struct ExInstant(std::time::Instant);

/// Reads the clock, by `Instant::now`. Nothing is claimed of the reading.
#[verifier::external_body]
fn instant_now() -> (now: Instant) {
    Instant::now()
}

/// The time that has passed since a reading of the clock, by
/// `Instant::elapsed`. It depends on the clock, so nothing is claimed of it.
#[verifier::external_body]
fn instant_elapsed(since: &Instant) -> (waited: Duration) {
    since.elapsed()
}

/// A span of time in whole nanoseconds, by `Duration::as_nanos`. Nothing is
/// claimed of the number.
#[verifier::external_body]
fn duration_nanos(span: &Duration) -> (nanos: u128) {
    span.as_nanos()
}

/// Holds back the position of a window that is being dragged until the
/// dragging has come to rest.
///
/// Each move replaces the position that is held back and the reading of the
/// clock that goes with it; the position is handed out, once, when no move
/// has come for long enough.
pub struct DragDebouncer {
    last_move_time: Option<Instant>,
    pending_position: Option<(i32, i32)>,
}

impl DragDebouncer {
    /// The position that is held back, if any.
    pub closed spec fn pending(&self) -> Option<(i32, i32)> {
        self.pending_position
    }

    /// The reading of the clock that was taken at the last move, if there
    /// was a move.
    pub closed spec fn last_move(&self) -> Option<Instant> {
        self.last_move_time
    }

    /// Whether a move was seen at all.
    pub open spec fn has_moved(&self) -> bool {
        self.last_move() is Some
    }

    /// What [`DragDebouncer::settle`] hands out: the position that is held
    /// back, where a move was seen and the wait was long enough.
    pub open spec fn released(&self, waited_long_enough: bool) -> Option<(i32, i32)> {
        if waited_long_enough && self.has_moved() {
            self.pending()
        } else {
            None
        }
    }

    /// A debouncer that has seen no move.
    pub fn new() -> (debouncer: Self)
        ensures
            debouncer.pending() is None,
            debouncer.last_move() is None,
    {
        DragDebouncer { last_move_time: None, pending_position: None }
    }

    /// The position that is held back, if any.
    pub fn pending_position(&self) -> (position: Option<(i32, i32)>)
        ensures
            position == self.pending(),
    {
        self.pending_position
    }

    /// The reading of the clock that was taken at the last move, if there
    /// was a move.
    pub fn last_move_time(&self) -> (reading: Option<Instant>)
        ensures
            reading == self.last_move(),
    {
        self.last_move_time
    }

    /// Takes note of a move to (x, y) that was seen at the reading `at` of
    /// the clock: the position replaces the one that is held back, and the
    /// reading replaces the one that was recorded, so that the wait begins
    /// anew.
    pub fn record_move(&mut self, x: i32, y: i32, at: Instant)
        ensures
            final(self).pending() == Some((x, y)),
            final(self).last_move() == Some(at),
    {
        self.last_move_time = Some(at);
        self.pending_position = Some((x, y));
    }

    /// Takes note of a move to (x, y) that is seen now: the clock is read,
    /// and the move is recorded at that reading by
    /// [`DragDebouncer::record_move`]. Whatever the clock gives, the position
    /// is held back and a reading is recorded.
    pub fn on_drag_move(&mut self, x: i32, y: i32)
        ensures
            final(self).pending() == Some((x, y)),
            final(self).last_move() is Some,
    {
        let now = instant_now();
        self.record_move(x, y, now);
    }

    /// Hands out the position that is held back, given whether the wait
    /// since the last move was long enough. A position that was handed out
    /// is held back no longer. The recorded reading of the clock stays.
    pub fn settle(&mut self, waited_long_enough: bool) -> (position: Option<(i32, i32)>)
        ensures
            position == old(self).released(waited_long_enough),
            final(self).pending() == (if position is Some {
                None
            } else {
                old(self).pending()
            }),
            final(self).last_move() == old(self).last_move(),
    {
        if !waited_long_enough || self.last_move_time.is_none() {
            return None;
        }
        let position = self.pending_position;
        self.pending_position = None;
        position
    }

    /// Hands out the position that is held back, where the last move lies at
    /// least `debounce_duration` back by the clock.
    ///
    /// Whatever the clock says: a position that comes out is the one that
    /// was held back, and is held back no longer; where none comes out,
    /// the position stays held back; none comes out where none was held
    /// back; and the recorded reading of the clock stays either way.
    pub fn should_process_drag_end(&mut self, debounce_duration: Duration) -> (position: Option<
        (i32, i32),
    >)
        ensures
            position == old(self).released(true) || position == old(self).released(false),
            final(self).pending() == (if position is Some {
                None
            } else {
                old(self).pending()
            }),
            final(self).last_move() == old(self).last_move(),
    {
        let enough = match &self.last_move_time {
            Some(since) => {
                if self.pending_position.is_some() {
                    let waited = instant_elapsed(since);
                    let waited_nanos: u128 = duration_nanos(&waited);
                    let wanted_nanos: u128 = duration_nanos(&debounce_duration);
                    waited_nanos >= wanted_nanos
                } else {
                    false
                }
            },
            None => false,
        };
        self.settle(enough)
    }
}

} // verus!
