//! The hover-delay state machine that decides when hover-driven floating
//! content (a tooltip) is visible.
//!
//! The machine has four states: `Idle`, `PendingShow` and `PendingHide` (each
//! remembering when the wait began) and `Shown`. It is advanced by discrete
//! events: pointer enter, pointer exit, a per-frame tick carrying the current
//! time, and disabling. Times are frame timestamps in milliseconds; the show
//! and hide delay is a single `duration`, also in milliseconds. There is no
//! real clock here: the caller injects timestamps, so transitions are only as
//! timely as the frame cadence.

use vstd::prelude::*;

verus! {

/// The visibility state of hover-driven floating content.
#[derive(Debug, Clone, Copy, PartialEq, Eq, Structural)]
pub enum HoverState {
    /// Not hovered, nothing visible.
    Idle,
    /// Hovered since the given time; becomes `Shown` once the delay elapses.
    PendingShow(u64),
    /// Visible.
    Shown,
    /// No longer hovered since the given time; becomes `Idle` once the delay
    /// elapses.
    PendingHide(u64),
}

/// A discrete event advancing the hover state machine. Each event carries
/// the frame time at which it happened, in milliseconds.
#[derive(Debug, Clone, Copy, PartialEq, Eq, Structural)]
pub enum HoverEvent {
    /// The pointer entered the anchor.
    Enter(u64),
    /// The pointer left the anchor.
    Exit(u64),
    /// A redraw tick at the given time.
    Tick(u64),
    /// The floating content was disabled; forces `Idle` regardless of the
    /// pointer.
    Disable,
}

impl Default for HoverState {
    fn default() -> (r: Self)
        ensures
            r == HoverState::Idle,
    {
        HoverState::Idle
    }
}

/// Whether the delay that began at `since` has elapsed by `now`. A time
/// before `since` never counts as elapsed.
pub open spec fn elapsed_spec(since: u64, now: u64, duration: u64) -> bool {
    since <= now && now - since >= duration
}

/// The successor state of `state` under `event`, with show/hide delay
/// `duration`:
/// - enter while `Idle` starts the show delay; enter while the hide delay
///   runs cancels it and shows again at once;
/// - exit while the show delay runs returns to `Idle`; exit while `Shown`
///   starts the hide delay;
/// - a tick completes whichever delay has elapsed;
/// - disabling forces `Idle`.
pub open spec fn step_spec(state: HoverState, event: HoverEvent, duration: u64) -> HoverState {
    match event {
        HoverEvent::Enter(now) => match state {
            HoverState::Idle => HoverState::PendingShow(now),
            HoverState::PendingShow(since) => HoverState::PendingShow(since),
            HoverState::Shown => HoverState::Shown,
            HoverState::PendingHide(_) => HoverState::Shown,
        },
        HoverEvent::Exit(now) => match state {
            HoverState::Idle => HoverState::Idle,
            HoverState::PendingShow(_) => HoverState::Idle,
            HoverState::Shown => HoverState::PendingHide(now),
            HoverState::PendingHide(since) => HoverState::PendingHide(since),
        },
        HoverEvent::Tick(now) => match state {
            HoverState::PendingShow(since) => if elapsed_spec(since, now, duration) {
                HoverState::Shown
            } else {
                HoverState::PendingShow(since)
            },
            HoverState::PendingHide(since) => if elapsed_spec(since, now, duration) {
                HoverState::Idle
            } else {
                HoverState::PendingHide(since)
            },
            HoverState::Idle => HoverState::Idle,
            HoverState::Shown => HoverState::Shown,
        },
        HoverEvent::Disable => HoverState::Idle,
    }
}

/// Whether `e` is a tick that happens before the show delay that began at
/// `t0` has elapsed.
pub open spec fn waiting_tick_spec(e: HoverEvent, t0: u64, duration: u64) -> bool {
    e matches HoverEvent::Tick(now) && !elapsed_spec(t0, now, duration)
}

/// The state after running `events` in order from `state`.
pub open spec fn run_spec(state: HoverState, events: Seq<HoverEvent>, duration: u64) -> HoverState
    decreases events.len(),
{
    if events.len() == 0 {
        state
    } else {
        run_spec(step_spec(state, events.first(), duration), events.drop_first(), duration)
    }
}

impl HoverState {
    /// Whether the floating content is visible in this state.
    pub open spec fn is_visible_spec(self) -> bool {
        self == HoverState::Shown || self is PendingHide
    }

    /// Advance the state machine by one event.
    pub fn step(self, event: HoverEvent, duration: u64) -> (r: HoverState)
        ensures
            r == step_spec(self, event, duration),
    {
        match event {
            HoverEvent::Enter(now) => match self {
                HoverState::Idle => HoverState::PendingShow(now),
                HoverState::PendingShow(since) => HoverState::PendingShow(since),
                HoverState::Shown => HoverState::Shown,
                HoverState::PendingHide(_) => HoverState::Shown,
            },
            HoverEvent::Exit(now) => match self {
                HoverState::Idle => HoverState::Idle,
                HoverState::PendingShow(_) => HoverState::Idle,
                HoverState::Shown => HoverState::PendingHide(now),
                HoverState::PendingHide(since) => HoverState::PendingHide(since),
            },
            HoverEvent::Tick(now) => match self {
                HoverState::PendingShow(since) => if since <= now && now - since >= duration {
                    HoverState::Shown
                } else {
                    HoverState::PendingShow(since)
                },
                HoverState::PendingHide(since) => if since <= now && now - since >= duration {
                    HoverState::Idle
                } else {
                    HoverState::PendingHide(since)
                },
                HoverState::Idle => HoverState::Idle,
                HoverState::Shown => HoverState::Shown,
            },
            HoverEvent::Disable => HoverState::Idle,
        }
    }

    /// Whether the floating content is visible: while shown, including the
    /// grace period before a pending hide completes.
    pub fn is_visible(self) -> (r: bool)
        ensures
            r == self.is_visible_spec(),
    {
        matches!(self, HoverState::Shown | HoverState::PendingHide(_))
    }
}

/// Law: a pointer enter in `Idle` at `t0` followed by a tick at least
/// `duration` later, with no exit in between, reaches `Shown`.
pub proof fn lemma_hover_shows_after_delay(t0: u64, t1: u64, duration: u64)
    requires
        t0 <= t1,
        t1 - t0 >= duration,
    ensures
        step_spec(
            step_spec(HoverState::Idle, HoverEvent::Enter(t0), duration),
            HoverEvent::Tick(t1),
            duration,
        ) == HoverState::Shown,
{
}

/// Law: while the show delay that began at `t0` has not elapsed, ticks leave
/// the machine waiting; it is never `Shown` along the way.
pub proof fn lemma_hover_pending_ticks_wait(t0: u64, ticks: Seq<HoverEvent>, duration: u64)
    requires
        forall|i: int| 0 <= i < ticks.len() ==> waiting_tick_spec(#[trigger] ticks[i], t0, duration),
    ensures
        run_spec(HoverState::PendingShow(t0), ticks, duration) == HoverState::PendingShow(t0),
    decreases ticks.len(),
{
    if ticks.len() > 0 {
        assert(waiting_tick_spec(ticks[0], t0, duration));
        lemma_hover_pending_ticks_wait(t0, ticks.drop_first(), duration);
    }
}

/// Law: a pointer enter at `t0` followed by any ticks that all happen before
/// the delay elapses and then a pointer exit returns the machine to `Idle`,
/// and it was never `Shown` at any point in between.
pub proof fn lemma_hover_early_exit_never_shows(
    t0: u64,
    ticks: Seq<HoverEvent>,
    t_exit: u64,
    duration: u64,
)
    requires
        forall|i: int| 0 <= i < ticks.len() ==> waiting_tick_spec(#[trigger] ticks[i], t0, duration),
    ensures
        run_spec(
            HoverState::Idle,
            seq![HoverEvent::Enter(t0)] + ticks + seq![HoverEvent::Exit(t_exit)],
            duration,
        ) == HoverState::Idle,
        forall|n: int|
            0 <= n <= ticks.len() + 2 ==> run_spec(
                HoverState::Idle,
                (seq![HoverEvent::Enter(t0)] + ticks + seq![HoverEvent::Exit(t_exit)]).take(n),
                duration,
            ) != HoverState::Shown,
{
    let events = seq![HoverEvent::Enter(t0)] + ticks + seq![HoverEvent::Exit(t_exit)];
    lemma_hover_pending_ticks_wait(t0, ticks, duration);
    assert forall|n: int| 0 <= n <= ticks.len() + 2 implies run_spec(
        HoverState::Idle,
        events.take(n),
        duration,
    ) != HoverState::Shown by {
        if n == 0 {
            assert(events.take(0) =~= Seq::<HoverEvent>::empty());
        } else if n <= ticks.len() + 1 {
            assert(events.take(n).first() == HoverEvent::Enter(t0));
            assert(events.take(n).drop_first() =~= ticks.take(n - 1));
            lemma_hover_pending_ticks_wait(t0, ticks.take(n - 1), duration);
        } else {
            assert(events.take(n) =~= events);
            assert(events.first() == HoverEvent::Enter(t0));
            assert(events.drop_first() =~= ticks + seq![HoverEvent::Exit(t_exit)]);
            lemma_run_append_exit(t0, ticks, t_exit, duration);
        }
    }
    assert(events.first() == HoverEvent::Enter(t0));
    assert(events.drop_first() =~= ticks + seq![HoverEvent::Exit(t_exit)]);
    lemma_run_append_exit(t0, ticks, t_exit, duration);
}

/// Helper: waiting ticks and then an exit bring `PendingShow` back to
/// `Idle`.
proof fn lemma_run_append_exit(t0: u64, ticks: Seq<HoverEvent>, t_exit: u64, duration: u64)
    requires
        forall|i: int| 0 <= i < ticks.len() ==> waiting_tick_spec(#[trigger] ticks[i], t0, duration),
    ensures
        run_spec(HoverState::PendingShow(t0), ticks + seq![HoverEvent::Exit(t_exit)], duration)
            == HoverState::Idle,
    decreases ticks.len(),
{
    let events = ticks + seq![HoverEvent::Exit(t_exit)];
    if ticks.len() == 0 {
        assert(events =~= seq![HoverEvent::Exit(t_exit)]);
        assert(events.first() == HoverEvent::Exit(t_exit));
        assert(events.drop_first() =~= Seq::<HoverEvent>::empty());
        assert(step_spec(HoverState::PendingShow(t0), HoverEvent::Exit(t_exit), duration)
            == HoverState::Idle);
        assert(run_spec(HoverState::Idle, events.drop_first(), duration) == HoverState::Idle);
        assert(run_spec(HoverState::PendingShow(t0), events, duration) == HoverState::Idle);
    } else {
        assert(events.first() == ticks[0]);
        assert(waiting_tick_spec(ticks[0], t0, duration));
        assert(events.drop_first() =~= ticks.drop_first() + seq![HoverEvent::Exit(t_exit)]);
        let rest = ticks.drop_first();
        assert forall|i: int| 0 <= i < rest.len() implies waiting_tick_spec(
            #[trigger] rest[i],
            t0,
            duration,
        ) by {
            assert(rest[i] == ticks[i + 1]);
            assert(waiting_tick_spec(ticks[i + 1], t0, duration));
        }
        lemma_run_append_exit(t0, rest, t_exit, duration);
        assert(step_spec(HoverState::PendingShow(t0), events.first(), duration)
            == HoverState::PendingShow(t0));
        assert(run_spec(HoverState::PendingShow(t0), events, duration) == run_spec(
            HoverState::PendingShow(t0),
            events.drop_first(),
            duration,
        ));
    }
}

} // verus!
