//! The HPD controller: owns the connection state and the commanded
//! level of the hot-plug-detect line, and executes the timed
//! assert/deassert/pulse/reconnect operations.
//!
//! A timed operation returns the sequence of [`LineHold`] steps it
//! drives the line through before settling at the level reported by
//! [`HpdController::line_is_high`]. The caller replays each hold on
//! the physical pin (set the level, suspend for the given time) and
//! then writes the settled level; the controller itself never blocks.

use vstd::prelude::*;
use crate::timing::{HPD_PULSE_RECOMMENDED_MS, HPD_PULSE_LONG_MS};

verus! {

/// Connection state of the emulated HPD signal.
#[derive(Clone, Copy, Debug, PartialEq, Eq, Structural)]
pub enum HpdState {
    /// HPD asserted - sink appears connected to the source.
    Connected,
    /// HPD de-asserted - sink appears disconnected.
    Disconnected,
    /// Transient state while a pulse holds the line low.
    Pulsing,
}

/// Commands that can be sent to the HPD controller.
#[derive(Clone, Copy, Debug, PartialEq, Eq, Structural)]
pub enum HpdCommand {
    /// Assert HPD (connect).
    Assert,
    /// De-assert HPD (disconnect).
    Deassert,
    /// Toggle the current state.
    Toggle,
    /// Pulse HPD for an EDID re-read.
    Pulse,
    /// Full reconnect cycle.
    Reconnect,
}

/// One step of a timed operation: the line is held at level `high`
/// for `hold_ms` milliseconds before the next step (or the settled
/// level) takes over.
#[derive(Clone, Copy, Debug, PartialEq, Eq, Structural)]
pub struct LineHold {
    /// Level the line is held at.
    pub high: bool,
    /// How long the line stays at that level, in milliseconds.
    pub hold_ms: u64,
}

/// The line level that belongs to a connection state: high exactly
/// when the sink appears connected.
pub open spec fn line_for(s: HpdState) -> bool {
    s == HpdState::Connected
}

/// HPD controller: the authoritative connection state together with
/// the commanded level of the detect line.
#[derive(Clone, Copy, Debug, PartialEq, Eq, Structural)]
pub struct HpdController {
    /// Current connection state.
    pub state: HpdState,
    /// Commanded level of the output line (true = high = asserted).
    pub line_high: bool,
}

impl HpdController {
    /// The line level always matches the connection state.
    pub open spec fn wf(self) -> bool {
        self.line_high == line_for(self.state)
    }

    /// A controller is settled when no pulse is in flight: the only
    /// kind of value an external reader can observe between
    /// completed operations.
    pub open spec fn settled(self) -> bool {
        self.state != HpdState::Pulsing && self.wf()
    }
}

/// State after `assert`: connected, line high.
pub open spec fn spec_assert(c: HpdController) -> HpdController {
    HpdController { state: HpdState::Connected, line_high: true }
}

/// State after `deassert`: disconnected, line low.
pub open spec fn spec_deassert(c: HpdController) -> HpdController {
    HpdController { state: HpdState::Disconnected, line_high: false }
}

/// State after `toggle`: the connected states swap; a toggle that
/// arrives while a pulse is in flight changes nothing.
pub open spec fn spec_toggle(c: HpdController) -> HpdController {
    match c.state {
        HpdState::Connected => spec_deassert(c),
        HpdState::Disconnected => spec_assert(c),
        HpdState::Pulsing => c,
    }
}

/// State after a completed pulse: the starting state is restored -
/// connected stays connected, anything else settles disconnected.
pub open spec fn spec_pulse(c: HpdController) -> HpdController {
    if c.state == HpdState::Connected {
        HpdController { state: HpdState::Connected, line_high: true }
    } else {
        HpdController { state: HpdState::Disconnected, line_high: false }
    }
}

/// The line holds a pulse of the given width drives: low for the
/// whole interval.
pub open spec fn spec_pulse_holds(duration_ms: u64) -> Seq<LineHold> {
    seq![LineHold { high: false, hold_ms: duration_ms }]
}

/// State after a completed reconnect cycle: always connected.
pub open spec fn spec_reconnect(c: HpdController) -> HpdController {
    HpdController { state: HpdState::Connected, line_high: true }
}

/// The line holds a reconnect cycle drives: low for exactly the long
/// pulse width, then the settled high level.
pub open spec fn spec_reconnect_holds() -> Seq<LineHold> {
    seq![LineHold { high: false, hold_ms: HPD_PULSE_LONG_MS }]
}

impl HpdController {
    /// Create a new HPD controller, initially de-asserted (line low).
    pub fn new() -> (c: HpdController)
        ensures
            c.state == HpdState::Disconnected,
            !c.line_high,
            c.wf(),
    {
        HpdController { state: HpdState::Disconnected, line_high: false }
    }

    /// Current HPD state.
    pub fn state(&self) -> (s: HpdState)
        ensures
            s == self.state,
    {
        self.state
    }

    /// Commanded level of the output line.
    pub fn line_is_high(&self) -> (b: bool)
        ensures
            b == self.line_high,
    {
        self.line_high
    }

    /// Assert HPD (signal that the sink is connected). Idempotent.
    pub fn assert_hpd(&mut self)
        ensures
            *final(self) == spec_assert(*old(self)),
            final(self).state == HpdState::Connected,
            final(self).line_high,
            final(self).wf(),
    {
        self.line_high = true;
        self.state = HpdState::Connected;
    }

    /// De-assert HPD (signal that the sink is disconnected). Idempotent.
    pub fn deassert(&mut self)
        ensures
            *final(self) == spec_deassert(*old(self)),
            final(self).state == HpdState::Disconnected,
            !final(self).line_high,
            final(self).wf(),
    {
        self.line_high = false;
        self.state = HpdState::Disconnected;
    }

    /// Toggle the HPD state. A toggle during an in-flight pulse is a
    /// no-op, so it cannot corrupt that pulse's restoration target.
    pub fn toggle(&mut self)
        ensures
            *final(self) == spec_toggle(*old(self)),
    {
        match self.state {
            HpdState::Connected => self.deassert(),
            HpdState::Disconnected => self.assert_hpd(),
            HpdState::Pulsing => {}
        }
    }

    /// Pulse HPD low for `duration_ms` milliseconds to trigger an
    /// EDID re-read, then restore the starting state: the pulse is
    /// state-preserving, never a forced connect. The returned holds
    /// keep the line low for the full interval.
    pub fn pulse_duration(&mut self, duration_ms: u64) -> (w: Vec<LineHold>)
        ensures
            *final(self) == spec_pulse(*old(self)),
            final(self).state == (if old(self).state == HpdState::Connected {
                HpdState::Connected
            } else {
                HpdState::Disconnected
            }),
            final(self).wf(),
            w@ == spec_pulse_holds(duration_ms),
    {
        let was_connected = self.state == HpdState::Connected;

        self.state = HpdState::Pulsing;
        self.line_high = false;

        let mut w: Vec<LineHold> = Vec::new();
        w.push(LineHold { high: false, hold_ms: duration_ms });

        if was_connected {
            self.line_high = true;
            self.state = HpdState::Connected;
        } else {
            self.state = HpdState::Disconnected;
        }

        proof {
            assert(w@ =~= spec_pulse_holds(duration_ms));
        }
        w
    }

    /// Pulse HPD low for the recommended width (200 ms).
    pub fn pulse(&mut self) -> (w: Vec<LineHold>)
        ensures
            *final(self) == spec_pulse(*old(self)),
            final(self).wf(),
            w@ == spec_pulse_holds(HPD_PULSE_RECOMMENDED_MS),
    {
        self.pulse_duration(HPD_PULSE_RECOMMENDED_MS)
    }

    /// Perform a full disconnect/reconnect cycle: de-assert, hold the
    /// line low for the long pulse width, then assert. Unlike a
    /// pulse this always terminates connected, whatever the starting
    /// state - it is a forced full link renegotiation.
    pub fn reconnect_cycle(&mut self) -> (w: Vec<LineHold>)
        ensures
            *final(self) == spec_reconnect(*old(self)),
            final(self).state == HpdState::Connected,
            final(self).line_high,
            final(self).wf(),
            w@ == spec_reconnect_holds(),
    {
        self.deassert();

        let mut w: Vec<LineHold> = Vec::new();
        w.push(LineHold { high: false, hold_ms: HPD_PULSE_LONG_MS });

        self.assert_hpd();

        proof {
            assert(w@ =~= spec_reconnect_holds());
        }
        w
    }
}

/// Law: `toggle` maps the two settled states onto each other and is a
/// no-op during a pulse.
pub proof fn lemma_toggle(c: HpdController)
    ensures
        c.state == HpdState::Connected ==> spec_toggle(c).state == HpdState::Disconnected,
        c.state == HpdState::Disconnected ==> spec_toggle(c).state == HpdState::Connected,
        c.state == HpdState::Pulsing ==> spec_toggle(c) == c,
{
}

/// Law: toggling twice from a well-formed settled state returns to it.
pub proof fn lemma_toggle_involution(c: HpdController)
    requires
        c.wf(),
        c.state != HpdState::Pulsing,
    ensures
        spec_toggle(spec_toggle(c)) == c,
{
}

/// Law: a pulse of any width, from either settled state, leaves the
/// system in the state it started in, and holds the line low for the
/// full interval during the call.
pub proof fn lemma_pulse_preserves_state(c: HpdController, duration_ms: u64)
    requires
        c.wf(),
        c.state != HpdState::Pulsing,
    ensures
        spec_pulse(c) == c,
        spec_pulse_holds(duration_ms) == seq![LineHold { high: false, hold_ms: duration_ms }],
{
}

/// Law: a reconnect cycle always terminates connected with the line
/// high, after holding the line low for exactly the long pulse width,
/// whatever the starting state.
pub proof fn lemma_reconnect_always_connects(c: HpdController)
    ensures
        spec_reconnect(c).state == HpdState::Connected,
        spec_reconnect(c).line_high,
        spec_reconnect_holds() == seq![LineHold { high: false, hold_ms: HPD_PULSE_LONG_MS }],
{
}

} // verus!
