use vstd::prelude::*;

verus! {

/// What the watcher asks for after one of its periodic looks at the window.
#[derive(Clone, Copy, Debug, PartialEq, Eq, Structural)]
pub enum PollAction {
    /// The window is gone: stop looking.
    Stop,
    /// Show the window again, without giving it the focus.
    Show,
    /// Nothing is to be done.
    Wait,
}

/// Remembers that the main window lost the focus and may have been swept
/// off the screen with the other windows, so that it can be shown again.
#[derive(Clone, Copy, Debug)]
pub struct FocusWatch {
    restore_pending: bool,
}

impl FocusWatch {
    /// Whether the window lost the focus and has not been looked after
    /// since.
    pub closed spec fn pending(&self) -> bool {
        self.restore_pending
    }

    /// A watcher with nothing pending.
    pub fn new() -> (watch: Self)
        ensures
            !watch.pending(),
    {
        FocusWatch { restore_pending: false }
    }

    /// Whether the window lost the focus and has not been looked after
    /// since.
    pub fn is_pending(&self) -> (pending: bool)
        ensures
            pending == self.pending(),
    {
        self.restore_pending
    }

    /// Takes note of a change of focus. Losing the focus sets the mark and
    /// asks for the short timer to be started; gaining it changes nothing.
    pub fn on_focus_changed(&mut self, focused: bool) -> (start_timer: bool)
        ensures
            start_timer == !focused,
            final(self).pending() == (old(self).pending() || !focused),
    {
        if !focused {
            self.restore_pending = true;
        }
        !focused
    }

    /// The short timer that was started when the focus was lost has run
    /// out. Where the mark is still set, the window is to be shown and the
    /// mark is cleared.
    pub fn on_timer(&mut self) -> (show: bool)
        ensures
            show == old(self).pending(),
            !final(self).pending(),
    {
        let show = self.restore_pending;
        self.restore_pending = false;
        show
    }

    /// One periodic look at the window. `visible` says whether the window
    /// is visible, or is `None` where the window could not be asked any
    /// more.
    ///
    /// Without an answer the looking stops and the mark stays. With the
    /// mark set, a hidden window is to be shown, and the mark is cleared
    /// either way. Without the mark nothing happens.
    pub fn on_poll(&mut self, visible: Option<bool>) -> (action: PollAction)
        ensures
            action == (match visible {
                None => PollAction::Stop,
                Some(shown) => if old(self).pending() && !shown {
                    PollAction::Show
                } else {
                    PollAction::Wait
                },
            }),
            final(self).pending() == (visible is None && old(self).pending()),
    {
        match visible {
            None => PollAction::Stop,
            Some(shown) => {
                let action = if self.restore_pending && !shown {
                    PollAction::Show
                } else {
                    PollAction::Wait
                };
                self.restore_pending = false;
                action
            },
        }
    }
}

} // verus!
