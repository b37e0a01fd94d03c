//! The notification blinker: one state machine per bargraph that blinks
//! fast when a notification arrives and slows down over time until the
//! operator acknowledges it.
//!
//! The machine itself only decides. Its owner performs what `enter` asks
//! for (a display command, a timer), waits for whichever comes first of a
//! request and the timer, and hands that event to `blink`.

use vstd::prelude::*;

verus! {

/// How the display is driven.
#[derive(Clone, Copy, Debug, PartialEq, Eq, Structural)]
pub enum DisplayMode {
    /// Lit LEDs are steadily on.
    On,
    /// Lit LEDs blink twice a second.
    TwoHz,
    /// Lit LEDs blink once a second.
    OneHz,
    /// Lit LEDs blink every two seconds.
    HalfHz,
}

/// The states of the blinker.
#[derive(Clone, Copy, Debug, PartialEq, Eq, Structural)]
pub enum BlinkState {
    /// Nothing has happened yet; the display is left as it is.
    Init,
    /// No notification is pending.
    Off,
    Fast,
    Med,
    Slow,
}

/// What a request handler tells the blinker.
#[derive(Clone, Copy, Debug, PartialEq, Eq, Structural)]
pub enum BlinkInfo {
    LedSet,
    LedClear,
}

/// What the blinker's owner observed while waiting.
#[derive(Clone, Copy, Debug, PartialEq, Eq, Structural)]
pub enum BlinkEvent {
    /// A handler sent a request before the timer ran out.
    Request(BlinkInfo),
    /// The timer of the current state ran out.
    TimerDone,
    /// Every sender of requests is gone.
    Closed,
}

/// What the owner does on entering a state.
#[derive(Clone, Copy, Debug, PartialEq, Eq)]
pub struct Entry {
    /// The display command to send, if any.
    pub display: Option<DisplayMode>,
    /// Seconds after which the timer fires, if one is started.
    pub timer_secs: Option<u64>,
}

/// What the owner does after an event.
#[derive(Clone, Copy, Debug, PartialEq, Eq)]
pub struct Step {
    /// The state to enter next, or `None` where the task ends.
    pub next: Option<BlinkState>,
    /// Whether the running timer is to be cancelled and its channel drained.
    pub cancel_timer: bool,
}

impl BlinkState {
    /// Seconds this state lasts when nothing happens; `None` for a state
    /// that lasts until a request arrives.
    pub open spec fn timer_secs(self) -> Option<u64> {
        match self {
            BlinkState::Init | BlinkState::Off => None,
            BlinkState::Fast => Some(60u64),
            BlinkState::Med => Some(300u64),
            BlinkState::Slow => Some(900u64),
        }
    }

    /// The display command sent on entering this state.
    pub open spec fn display(self) -> Option<DisplayMode> {
        match self {
            BlinkState::Init => None,
            BlinkState::Off => Some(DisplayMode::On),
            BlinkState::Fast => Some(DisplayMode::TwoHz),
            BlinkState::Med => Some(DisplayMode::OneHz),
            BlinkState::Slow => Some(DisplayMode::HalfHz),
        }
    }

    /// The state after the timer ran out. `Init` and `Off` start no timer;
    /// were one to fire all the same, they move on as listed here.
    pub open spec fn after_timer(self) -> BlinkState {
        match self {
            BlinkState::Init | BlinkState::Slow => BlinkState::Off,
            BlinkState::Off => BlinkState::Fast,
            BlinkState::Fast => BlinkState::Med,
            BlinkState::Med => BlinkState::Slow,
        }
    }

    /// The state after a request: whatever the state was, a set LED starts
    /// the fast blink anew and a cleared LED ends blinking.
    pub open spec fn after_request(self, info: BlinkInfo) -> BlinkState {
        match info {
            BlinkInfo::LedSet => BlinkState::Fast,
            BlinkInfo::LedClear => BlinkState::Off,
        }
    }

    /// Timed states still ahead when nothing happens.
    pub open spec fn rank(self) -> nat {
        match self {
            BlinkState::Init | BlinkState::Off => 0,
            BlinkState::Slow => 1,
            BlinkState::Med => 2,
            BlinkState::Fast => 3,
        }
    }

    /// What entering this state asks of the owner.
    pub open spec fn entry(self) -> Entry {
        Entry { display: self.display(), timer_secs: self.timer_secs() }
    }

    /// The outcome of an event in this state.
    pub open spec fn step(self, event: BlinkEvent) -> Step {
        match event {
            BlinkEvent::TimerDone => Step { next: Some(self.after_timer()), cancel_timer: false },
            BlinkEvent::Request(info) => Step {
                next: Some(self.after_request(info)),
                cancel_timer: true,
            },
            BlinkEvent::Closed => Step { next: None, cancel_timer: true },
        }
    }
}

/// The display commands sent, each with the second at which it is sent,
/// when `state` is entered at second `now` and no request ever arrives.
pub open spec fn unattended(state: BlinkState, now: nat) -> Seq<(nat, DisplayMode)>
    decreases state.rank(),
{
    let here = match state.display() {
        Some(mode) => seq![(now, mode)],
        None => Seq::empty(),
    };
    match state.timer_secs() {
        Some(secs) => here + unattended(state.after_timer(), now + secs as nat),
        None => here,
    }
}

/// The entries performed when the machine starts in `state` and then sees
/// `events` in order: the entry of `state` first, then that of each state
/// entered. The run ends early where the task ends.
pub open spec fn entries(state: BlinkState, events: Seq<BlinkEvent>) -> Seq<Entry>
    decreases events.len(),
{
    if events.len() == 0 {
        seq![state.entry()]
    } else {
        match state.step(events[0]).next {
            Some(next) => seq![state.entry()] + entries(next, events.skip(1)),
            None => seq![state.entry()],
        }
    }
}

/// What the owner does on entering `state`.
pub fn enter(state: BlinkState) -> (e: Entry)
    ensures
        e == state.entry(),
{
    match state {
        BlinkState::Init => Entry { display: None, timer_secs: None },
        BlinkState::Off => Entry { display: Some(DisplayMode::On), timer_secs: None },
        BlinkState::Fast => Entry { display: Some(DisplayMode::TwoHz), timer_secs: Some(60) },
        BlinkState::Med => Entry { display: Some(DisplayMode::OneHz), timer_secs: Some(300) },
        BlinkState::Slow => Entry { display: Some(DisplayMode::HalfHz), timer_secs: Some(900) },
    }
}

/// One turn of the blinker: the state that follows `event`, and whether the
/// running timer has to be cancelled first.
pub fn blink(state: BlinkState, event: BlinkEvent) -> (s: Step)
    ensures
        s == state.step(event),
{
    match event {
        BlinkEvent::TimerDone => {
            let next = match state {
                BlinkState::Init | BlinkState::Slow => BlinkState::Off,
                BlinkState::Off => BlinkState::Fast,
                BlinkState::Fast => BlinkState::Med,
                BlinkState::Med => BlinkState::Slow,
            };
            Step { next: Some(next), cancel_timer: false }
        },
        BlinkEvent::Request(BlinkInfo::LedSet) => Step {
            next: Some(BlinkState::Fast),
            cancel_timer: true,
        },
        BlinkEvent::Request(BlinkInfo::LedClear) => Step {
            next: Some(BlinkState::Off),
            cancel_timer: true,
        },
        BlinkEvent::Closed => Step { next: None, cancel_timer: true },
    }
}

/// Runs the machine from `state` over a script of events and returns the
/// entries it performed.
pub fn blink_loop(state: BlinkState, events: &[BlinkEvent]) -> (out: Vec<Entry>)
    ensures
        out@ == entries(state, events@),
{
    let mut out: Vec<Entry> = Vec::new();
    let mut cur = state;
    let mut i: usize = 0;
    out.push(enter(cur));
    assert(events@.skip(0) =~= events@);
    assert(out@.drop_last() + entries(cur, events@) =~= entries(state, events@));
    while i < events.len()
        invariant
            i <= events@.len(),
            out@.len() >= 1,
            out@.drop_last() + entries(cur, events@.skip(i as int)) == entries(state, events@),
            out@.last() == cur.entry(),
        decreases events@.len() - i,
    {
        let ghost rest = events@.skip(i as int);
        let step = blink(cur, events[i]);
        assert(rest[0] == events@[i as int]);
        match step.next {
            Some(next) => {
                assert(rest.skip(1) =~= events@.skip(i + 1));
                let ghost before = out@;
                out.push(enter(next));
                assert(out@.drop_last() =~= before);
                assert(before =~= before.drop_last() + seq![cur.entry()]);
                assert(out@.drop_last() + entries(next, events@.skip(i + 1)) =~= before.drop_last()
                    + entries(cur, rest));
                cur = next;
            },
            None => {
                assert(entries(cur, rest) =~= seq![cur.entry()]);
                assert(out@ =~= out@.drop_last() + seq![cur.entry()]);
                return out;
            },
        }
        i += 1;
    }
    assert(entries(cur, events@.skip(i as int)) =~= seq![cur.entry()]);
    assert(out@ =~= out@.drop_last() + seq![cur.entry()]);
    out
}

/// The commands of a timeline with their seconds as plain numbers.
pub open spec fn stamps(out: Seq<(u64, DisplayMode)>) -> Seq<(nat, DisplayMode)> {
    out.map_values(|e: (u64, DisplayMode)| (e.0 as nat, e.1))
}

/// The display commands that follow when `state` is entered at second `now`
/// and no request arrives any more.
pub fn timeline(state: BlinkState, now: u64) -> (out: Vec<(u64, DisplayMode)>)
    requires
        now <= u64::MAX - 1260,
    ensures
        stamps(out@) == unattended(state, now as nat),
{
    let mut out: Vec<(u64, DisplayMode)> = Vec::new();
    let mut cur = state;
    let mut t: u64 = now;
    assert(stamps(out@) =~= Seq::empty());
    loop
        invariant
            now <= u64::MAX - 1260,
            t <= now + 1260 - left_secs(cur),
            stamps(out@) + unattended(cur, t as nat) == unattended(state, now as nat),
        decreases cur.rank() + 1,
    {
        let e = enter(cur);
        let ghost before = stamps(out@);
        match e.display {
            Some(mode) => {
                out.push((t, mode));
                assert(stamps(out@) =~= before.push((t as nat, mode)));
            },
            None => {},
        }
        match e.timer_secs {
            Some(secs) => {
                proof {
                    assert(stamps(out@) + unattended(cur.after_timer(), (t + secs) as nat)
                        =~= before + unattended(cur, t as nat));
                }
                t = t + secs;
                cur = blink(cur, BlinkEvent::TimerDone).next.unwrap();
            },
            None => {
                proof {
                    assert(stamps(out@) =~= before + unattended(cur, t as nat));
                }
                return out;
            },
        }
    }
}

/// Seconds until the display is steady again when nothing happens.
pub open spec fn left_secs(state: BlinkState) -> nat {
    match state {
        BlinkState::Init | BlinkState::Off => 0,
        BlinkState::Slow => 900,
        BlinkState::Med => 1200,
        BlinkState::Fast => 1260,
    }
}

/// After a set LED, whatever the state was, the display blinks at 2 Hz at
/// once, at 1 Hz after 60 s, at 0.5 Hz after 360 s and is steady after
/// 1260 s, as long as no other request arrives.
pub proof fn lemma_set_restarts_fast(state: BlinkState, now: nat)
    ensures
        state.step(BlinkEvent::Request(BlinkInfo::LedSet)).next == Some(BlinkState::Fast),
        BlinkState::Fast.entry().timer_secs == Some(60u64),
        unattended(state.after_request(BlinkInfo::LedSet), now) == seq![
            (now, DisplayMode::TwoHz),
            ((now + 60) as nat, DisplayMode::OneHz),
            ((now + 360) as nat, DisplayMode::HalfHz),
            ((now + 1260) as nat, DisplayMode::On),
        ],
{
    reveal_with_fuel(unattended, 5);
    assert(unattended(BlinkState::Fast, now) =~= seq![
        (now, DisplayMode::TwoHz),
        ((now + 60) as nat, DisplayMode::OneHz),
        ((now + 360) as nat, DisplayMode::HalfHz),
        ((now + 1260) as nat, DisplayMode::On),
    ]);
}

/// After a cleared LED, whatever the state was, the display is steady and
/// no timer runs.
pub proof fn lemma_clear_stops(state: BlinkState, now: nat)
    ensures
        state.step(BlinkEvent::Request(BlinkInfo::LedClear)).next == Some(BlinkState::Off),
        BlinkState::Off.entry().timer_secs.is_none(),
        unattended(state.after_request(BlinkInfo::LedClear), now) == seq![(now, DisplayMode::On)],
{
    reveal_with_fuel(unattended, 2);
    assert(unattended(BlinkState::Off, now) =~= seq![(now, DisplayMode::On)]);
}

} // verus!
