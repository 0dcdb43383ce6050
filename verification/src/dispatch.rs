//! The dispatch loop's logic: map each command to the controller
//! operation it names, and execute queued commands strictly in
//! arrival order, one at a time.
//!
//! The queue is the serialization point: because the consumer
//! finishes each operation (including replaying its timed line
//! holds) before pulling the next command, at most one controller
//! operation is ever in flight, however many producers send.

use vstd::prelude::*;
use crate::hpd::{
    HpdCommand, HpdController, LineHold, spec_assert, spec_deassert, spec_toggle, spec_pulse,
    spec_pulse_holds, spec_reconnect, spec_reconnect_holds,
};
use crate::channel::{CommandChannel, queued};
use crate::timing::HPD_PULSE_RECOMMENDED_MS;

verus! {

/// The controller state a single command leaves behind.
pub open spec fn spec_dispatch(c: HpdController, cmd: HpdCommand) -> HpdController {
    match cmd {
        HpdCommand::Assert => spec_assert(c),
        HpdCommand::Deassert => spec_deassert(c),
        HpdCommand::Toggle => spec_toggle(c),
        HpdCommand::Pulse => spec_pulse(c),
        HpdCommand::Reconnect => spec_reconnect(c),
    }
}

/// The timed line holds a single command drives: a pulse holds the
/// line low for the recommended width, a reconnect for the long
/// width; the immediate operations drive no timed hold.
pub open spec fn spec_command_holds(cmd: HpdCommand) -> Seq<LineHold> {
    match cmd {
        HpdCommand::Pulse => spec_pulse_holds(HPD_PULSE_RECOMMENDED_MS),
        HpdCommand::Reconnect => spec_reconnect_holds(),
        _ => Seq::<LineHold>::empty(),
    }
}

/// The controller state after executing the commands of `cmds` in
/// order, each one completing before the next begins.
pub open spec fn spec_run(c: HpdController, cmds: Seq<HpdCommand>) -> HpdController
    decreases cmds.len(),
{
    if cmds.len() == 0 {
        c
    } else {
        spec_run(spec_dispatch(c, cmds[0]), cmds.drop_first())
    }
}

/// The timed line holds the commands of `cmds` drive, concatenated
/// in execution order.
pub open spec fn spec_run_holds(cmds: Seq<HpdCommand>) -> Seq<LineHold>
    decreases cmds.len(),
{
    if cmds.len() == 0 {
        Seq::<LineHold>::empty()
    } else {
        spec_command_holds(cmds[0]) + spec_run_holds(cmds.drop_first())
    }
}

/// Execute one command on the controller and return the timed line
/// holds the caller must replay before touching the controller again.
pub fn dispatch(ctrl: &mut HpdController, cmd: HpdCommand) -> (w: Vec<LineHold>)
    ensures
        *final(ctrl) == spec_dispatch(*old(ctrl), cmd),
        w@ == spec_command_holds(cmd),
{
    match cmd {
        HpdCommand::Assert => {
            ctrl.assert_hpd();
            Vec::new()
        },
        HpdCommand::Deassert => {
            ctrl.deassert();
            Vec::new()
        },
        HpdCommand::Toggle => {
            ctrl.toggle();
            Vec::new()
        },
        HpdCommand::Pulse => ctrl.pulse(),
        HpdCommand::Reconnect => ctrl.reconnect_cycle(),
    }
}

/// Pull every queued command and execute each fully, in arrival
/// order, before pulling the next. Returns the concatenation of the
/// timed line holds the commands drove, in execution order.
pub fn drain(ctrl: &mut HpdController, ch: &mut CommandChannel) -> (w: Vec<LineHold>)
    ensures
        *final(ctrl) == spec_run(*old(ctrl), queued(*old(ch))),
        queued(*final(ch)).len() == 0,
        w@ == spec_run_holds(queued(*old(ch))),
{
    let mut w: Vec<LineHold> = Vec::new();
    loop
        invariant
            spec_run(*old(ctrl), queued(*old(ch))) == spec_run(*ctrl, queued(*ch)),
            spec_run_holds(queued(*old(ch))) == w@ + spec_run_holds(queued(*ch)),
        ensures
            queued(*ch).len() == 0,
            spec_run(*old(ctrl), queued(*old(ch))) == spec_run(*ctrl, queued(*ch)),
            spec_run_holds(queued(*old(ch))) == w@ + spec_run_holds(queued(*ch)),
        decreases queued(*ch).len(),
    {
        let next = ch.try_receive();
        match next {
            Some(cmd) => {
                let mut holds = dispatch(ctrl, cmd);
                let ghost w_before = w@;
                w.append(&mut holds);
                proof {
                    assert((w_before + spec_command_holds(cmd)) + spec_run_holds(queued(*ch))
                        =~= w_before + (spec_command_holds(cmd) + spec_run_holds(queued(*ch))));
                }
            },
            None => {
                break;
            },
        }
    }
    proof {
        assert(spec_run(*ctrl, queued(*ch)) == *ctrl);
        assert(w@ + spec_run_holds(queued(*ch)) =~= w@);
    }
    w
}

/// Law (observable-state invariant): a completed command leaves a
/// settled, well-formed controller settled and well-formed - the
/// transient pulsing state is never the value left behind by a
/// completed operation.
pub proof fn lemma_dispatch_keeps_settled(c: HpdController, cmd: HpdCommand)
    requires
        c.settled(),
    ensures
        spec_dispatch(c, cmd).settled(),
{
}

/// Law: running any command sequence from a settled controller ends
/// settled - no sequence of commands can strand the system in the
/// transient pulsing state.
pub proof fn lemma_run_keeps_settled(c: HpdController, cmds: Seq<HpdCommand>)
    requires
        c.settled(),
    ensures
        spec_run(c, cmds).settled(),
    decreases cmds.len(),
{
    if cmds.len() > 0 {
        lemma_dispatch_keeps_settled(c, cmds[0]);
        lemma_run_keeps_settled(spec_dispatch(c, cmds[0]), cmds.drop_first());
    }
}

/// Law (general serialization): executing the concatenation of two
/// command sequences is executing the first to completion and then
/// the second on the state it left behind, and the line holds they
/// drive concatenate in the same order.
pub proof fn lemma_run_append(c: HpdController, s1: Seq<HpdCommand>, s2: Seq<HpdCommand>)
    ensures
        spec_run(c, s1 + s2) == spec_run(spec_run(c, s1), s2),
        spec_run_holds(s1 + s2) == spec_run_holds(s1) + spec_run_holds(s2),
    decreases s1.len(),
{
    if s1.len() == 0 {
        assert(s1 + s2 =~= s2);
        assert(spec_run_holds(s1) + spec_run_holds(s2) =~= spec_run_holds(s2));
    } else {
        assert((s1 + s2)[0] == s1[0]);
        assert((s1 + s2).drop_first() =~= s1.drop_first() + s2);
        lemma_run_append(spec_dispatch(c, s1[0]), s1.drop_first(), s2);
        assert(spec_command_holds(s1[0]) + (spec_run_holds(s1.drop_first()) + spec_run_holds(s2))
            =~= (spec_command_holds(s1[0]) + spec_run_holds(s1.drop_first())) + spec_run_holds(
            s2,
        ));
    }
}

/// Law (serialization): executing the commands sent in order `[a, b]`
/// is exactly executing `a` to completion and then `b` on the state
/// `a` left behind, and the line holds they drive are `a`'s holds
/// followed by `b`'s - `b`'s operation never begins before `a`'s
/// completes.
pub proof fn lemma_commands_serialize(c: HpdController, a: HpdCommand, b: HpdCommand)
    ensures
        spec_run(c, seq![a, b]) == spec_dispatch(spec_dispatch(c, a), b),
        spec_run_holds(seq![a, b]) == spec_command_holds(a) + spec_command_holds(b),
{
    let s = seq![a, b];
    assert(s[0] == a);
    assert(s.drop_first() =~= seq![b]);
    assert(seq![b][0] == b);
    assert(seq![b].drop_first() =~= Seq::<HpdCommand>::empty());
    assert(spec_run(c, s) == spec_run(spec_dispatch(c, a), seq![b]));
    assert(spec_run(spec_dispatch(c, a), seq![b]) == spec_run(
        spec_dispatch(spec_dispatch(c, a), b),
        Seq::<HpdCommand>::empty(),
    ));
    assert(spec_run_holds(s) == spec_command_holds(a) + spec_run_holds(seq![b]));
    assert(spec_run_holds(seq![b]) == spec_command_holds(b) + spec_run_holds(
        Seq::<HpdCommand>::empty(),
    ));
    assert(spec_command_holds(a) + (spec_command_holds(b) + Seq::<LineHold>::empty())
        =~= spec_command_holds(a) + spec_command_holds(b));
}

} // verus!
