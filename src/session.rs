use vstd::prelude::*;

verus! {

/// Refresh ticks run before the first frame, so that the first frame does not
/// show zeroed usage figures.
pub const WARMUP_TICKS: u32 = 3;

/// Pause after each warm-up tick, in milliseconds.
pub const WARMUP_PAUSE_MS: u64 = 500;

/// Longest wait for an input event in one loop iteration, in milliseconds.
pub const POLL_TIMEOUT_MS: u64 = 16;

/// Pause at the end of each loop iteration, in milliseconds.
pub const TICK_PAUSE_MS: u64 = 200;

/// The two states of the redraw loop.
#[derive(Clone, Copy, Debug, PartialEq, Eq, Structural)]
pub enum Phase {
    Running,
    Terminating,
}

/// The key of a key-press event, as far as the loop tells keys apart.
#[derive(Clone, Copy, Debug, PartialEq, Eq, Structural)]
pub enum Key {
    Char(char),
    Esc,
    Other,
}

/// An input event read during the poll step.
#[derive(Clone, Copy, Debug, PartialEq, Eq, Structural)]
pub enum InputEvent {
    Key(Key),
    Resize,
    Mouse,
    Other,
}

/// What the loop does after the poll step.
#[derive(Clone, Copy, Debug, PartialEq, Eq, Structural)]
pub enum Action {
    /// Pause, then run the next iteration.
    Continue,
    /// Leave the alternate screen, disable raw mode, and end.
    RestoreTerminal,
    /// Nothing is left to do: the loop has already ended.
    Done,
}

/// Whether an event asks the monitor to quit: `q`, `Q` or Escape.
pub open spec fn is_quit(ev: Option<InputEvent>) -> bool {
    match ev {
        Some(InputEvent::Key(Key::Char(c))) => c == 'q' || c == 'Q',
        Some(InputEvent::Key(Key::Esc)) => true,
        _ => false,
    }
}

/// One poll step: the next phase and the action, from the phase and the event
/// that was read (`None` when none came, or reading failed).
pub open spec fn step(phase: Phase, ev: Option<InputEvent>) -> (Phase, Action) {
    match phase {
        Phase::Running => if is_quit(ev) {
            (Phase::Terminating, Action::RestoreTerminal)
        } else {
            (Phase::Running, Action::Continue)
        },
        Phase::Terminating => (Phase::Terminating, Action::Done),
    }
}

/// The phase after a run of poll steps over `events`.
pub open spec fn phase_after(phase: Phase, events: Seq<Option<InputEvent>>) -> Phase
    decreases events.len(),
{
    if events.len() == 0 {
        phase
    } else {
        phase_after(step(phase, events[0]).0, events.drop_first())
    }
}

/// How often a run of poll steps over `events` restores the terminal.
pub open spec fn restores(phase: Phase, events: Seq<Option<InputEvent>>) -> nat
    decreases events.len(),
{
    if events.len() == 0 {
        0
    } else {
        let (next, action) = step(phase, events[0]);
        (if action == Action::RestoreTerminal {
            1nat
        } else {
            0nat
        }) + restores(next, events.drop_first())
    }
}

/// The loop's own state: its phase and the number of refresh ticks so far.
#[derive(Clone, Copy, Debug, PartialEq, Eq, Structural)]
pub struct Monitor {
    pub phase: Phase,
    pub tick_count: u64,
}

impl Monitor {
    /// A monitor that is running and has not ticked yet.
    pub fn new() -> (r: Monitor)
        ensures
            r.phase == Phase::Running,
            r.tick_count == 0,
    {
        Monitor { phase: Phase::Running, tick_count: 0 }
    }

    /// Counts one refresh tick. The count only grows and never wraps.
    pub fn on_tick(&mut self)
        ensures
            final(self).phase == old(self).phase,
            final(self).tick_count == if old(self).tick_count < u64::MAX {
                (old(self).tick_count + 1) as u64
            } else {
                u64::MAX
            },
    {
        self.tick_count = self.tick_count.saturating_add(1);
    }

    /// The poll step: takes the event that was read, if any, and says what to
    /// do next.
    pub fn handle_event(&mut self, ev: Option<InputEvent>) -> (r: Action)
        ensures
            (final(self).phase, r) == step(old(self).phase, ev),
            final(self).tick_count == old(self).tick_count,
    {
        match self.phase {
            Phase::Running => {
                let quit = match ev {
                    Some(InputEvent::Key(Key::Char(c))) => c == 'q' || c == 'Q',
                    Some(InputEvent::Key(Key::Esc)) => true,
                    _ => false,
                };
                if quit {
                    self.phase = Phase::Terminating;
                    Action::RestoreTerminal
                } else {
                    Action::Continue
                }
            },
            Phase::Terminating => Action::Done,
        }
    }
}

/// Quitting: from a running loop, a quit key ends the loop on that very step,
/// and over any run of events the terminal is restored exactly once if a quit
/// key comes, and never otherwise.
pub proof fn lemma_quit_restores_once(events: Seq<Option<InputEvent>>)
    ensures
        forall|ev: Option<InputEvent>|
            is_quit(ev) ==> #[trigger] step(Phase::Running, ev) == (
            Phase::Terminating,
            Action::RestoreTerminal,
        ),
        restores(Phase::Running, events) == if exists|i: int|
            0 <= i < events.len() && #[trigger] is_quit(events[i]) {
            1nat
        } else {
            0nat
        },
        phase_after(Phase::Running, events) == if exists|i: int|
            0 <= i < events.len() && #[trigger] is_quit(events[i]) {
            Phase::Terminating
        } else {
            Phase::Running
        },
    decreases events.len(),
{
    lemma_terminated_stays(events);
    if events.len() > 0 {
        let rest = events.drop_first();
        lemma_quit_restores_once(rest);
        if is_quit(events[0]) {
            lemma_terminated_stays(rest);
        } else {
            assert((exists|i: int| 0 <= i < events.len() && #[trigger] is_quit(events[i])) == (
            exists|i: int| 0 <= i < rest.len() && #[trigger] is_quit(rest[i]))) by {
                if exists|i: int| 0 <= i < events.len() && #[trigger] is_quit(events[i]) {
                    let i = choose|i: int| 0 <= i < events.len() && #[trigger] is_quit(events[i]);
                    assert(rest[i - 1] == events[i]);
                }
                if exists|i: int| 0 <= i < rest.len() && #[trigger] is_quit(rest[i]) {
                    let i = choose|i: int| 0 <= i < rest.len() && #[trigger] is_quit(rest[i]);
                    assert(events[i + 1] == rest[i]);
                }
            }
        }
    }
}

/// Once the loop is terminating, no event restores the terminal again.
pub proof fn lemma_terminated_stays(events: Seq<Option<InputEvent>>)
    ensures
        restores(Phase::Terminating, events) == 0,
        phase_after(Phase::Terminating, events) == Phase::Terminating,
    decreases events.len(),
{
    if events.len() > 0 {
        lemma_terminated_stays(events.drop_first());
    }
}

/// Any event but a quit key leaves a running loop running, and asks only for
/// the next scheduled iteration.
pub proof fn lemma_other_events_keep_running(ev: Option<InputEvent>)
    requires
        !is_quit(ev),
    ensures
        step(Phase::Running, ev) == (Phase::Running, Action::Continue),
{
}

} // verus!
