//! The actuator worker queue.
//!
//! Physical actions on one coil must never interleave, however many callers
//! enqueue work at once: callers enqueue `Rotate` instructions and one
//! dedicated worker drains them strictly in order, one rotation at a time,
//! settling between rotations. `stop` appends the exit sentinel, drains
//! everything already queued, and then de-energizes the coil exactly once —
//! a second `stop` performs nothing. The embedding program owns the real
//! channel, worker thread and motor driver; it performs the [`CoilAction`]s
//! this model hands out, in order.

use vstd::prelude::*;

verus! {

/// Which stepper of the motor hat drives the coil.
#[derive(Debug, Clone, Copy, PartialEq, Eq, Structural)]
pub enum StepperMotor {
    Stepper1,
    Stepper2,
}

/// Discrete actuation pulses of one full rotation, performed in one
/// direction with one stepping style.
pub const STEPS_PER_ROTATION: u64 = 400;

/// One instruction on a coil worker's channel.
#[derive(Debug, Clone, Copy, PartialEq, Eq, Structural)]
pub enum VendCoilChannelMessage {
    /// Perform one full rotation, then settle.
    Rotate,
    /// Finish everything already queued, then exit.
    ExitLoop,
}

/// One physical action of the worker, in the order to perform them.
#[derive(Debug, Clone, Copy, PartialEq, Eq, Structural)]
pub enum CoilAction {
    /// One full rotation of [`STEPS_PER_ROTATION`] pulses, followed by the
    /// configured settle pause.
    Rotate,
    /// Cut drive current to the coil.
    DeEnergize,
}

/// The actions a worker performs draining `msgs` in order: one rotation per
/// `Rotate` until the first exit sentinel (or a closed channel), then — the
/// worker having exited — exactly one de-energization.
pub open spec fn spec_drain(msgs: Seq<VendCoilChannelMessage>) -> Seq<CoilAction>
    decreases msgs.len(),
{
    if msgs.len() == 0 {
        seq![CoilAction::DeEnergize]
    } else {
        match msgs[0] {
            VendCoilChannelMessage::Rotate => seq![CoilAction::Rotate] + spec_drain(
                msgs.drop_first(),
            ),
            VendCoilChannelMessage::ExitLoop => seq![CoilAction::DeEnergize],
        }
    }
}

/// Draining a queue of rotations then the exit sentinel performs exactly
/// one rotation per queued instruction, in order, then exactly one
/// de-energization.
pub proof fn lemma_drain_rotations(msgs: Seq<VendCoilChannelMessage>)
    requires
        forall|i: int| 0 <= i < msgs.len() ==> msgs[i] == VendCoilChannelMessage::Rotate,
    ensures
        spec_drain(msgs.push(VendCoilChannelMessage::ExitLoop)).len() == msgs.len() + 1,
        forall|i: int|
            0 <= i < msgs.len() ==> spec_drain(msgs.push(VendCoilChannelMessage::ExitLoop))[i]
                == CoilAction::Rotate,
        spec_drain(msgs.push(VendCoilChannelMessage::ExitLoop))[msgs.len() as int]
            == CoilAction::DeEnergize,
    decreases msgs.len(),
{
    let whole = msgs.push(VendCoilChannelMessage::ExitLoop);
    if msgs.len() == 0 {
        assert(whole[0] == VendCoilChannelMessage::ExitLoop);
    } else {
        assert(whole[0] == msgs[0]);
        lemma_drain_rotations(msgs.drop_first());
        assert(whole.drop_first() =~= msgs.drop_first().push(VendCoilChannelMessage::ExitLoop));
    }
}

/// One vend coil behind its worker queue: the selected stepper, the settle
/// pause between rotations, the instructions enqueued and not yet drained,
/// and whether the coil has been stopped and de-energized.
#[derive(Debug)]
pub struct VendCoil {
    pub motor: StepperMotor,
    pub time_between_rotations_ms: u64,
    pub pending: Vec<VendCoilChannelMessage>,
    pub stopped: bool,
}

impl VendCoil {
    /// Only rotations are ever queued — the exit sentinel is consumed by
    /// `stop` — and a stopped coil's queue is drained.
    pub open spec fn wf(self) -> bool {
        &&& forall|i: int|
            0 <= i < self.pending@.len() ==> self.pending@[i] == VendCoilChannelMessage::Rotate
        &&& self.stopped ==> self.pending@.len() == 0
    }

    /// A fresh coil: nothing queued, energized, worker running.
    pub fn new(motor: StepperMotor, time_between_rotations_ms: u64) -> (coil: VendCoil)
        ensures
            coil.motor == motor,
            coil.time_between_rotations_ms == time_between_rotations_ms,
            coil.pending@.len() == 0,
            !coil.stopped,
            coil.wf(),
    {
        VendCoil { motor, time_between_rotations_ms, pending: Vec::new(), stopped: false }
    }

    /// Queues one rotation. The worker performs queued rotations strictly
    /// in order.
    pub fn rotate(&mut self)
        requires
            old(self).wf(),
            !old(self).stopped,
        ensures
            final(self).wf(),
            final(self).pending@ == old(self).pending@.push(VendCoilChannelMessage::Rotate),
            final(self).motor == old(self).motor,
            final(self).time_between_rotations_ms == old(self).time_between_rotations_ms,
            final(self).stopped == old(self).stopped,
    {
        self.pending.push(VendCoilChannelMessage::Rotate);
    }

    /// Stops the coil: every rotation already queued is performed in queue
    /// order, the worker exits, and the coil is de-energized exactly once.
    /// Stopping an already-stopped coil performs nothing.
    pub fn stop(&mut self) -> (actions: Vec<CoilAction>)
        requires
            old(self).wf(),
        ensures
            final(self).wf(),
            final(self).stopped,
            final(self).pending@.len() == 0,
            final(self).motor == old(self).motor,
            final(self).time_between_rotations_ms == old(self).time_between_rotations_ms,
            old(self).stopped ==> actions@ == Seq::<CoilAction>::empty(),
            !old(self).stopped ==> actions@ == spec_drain(
                old(self).pending@.push(VendCoilChannelMessage::ExitLoop),
            ),
            !old(self).stopped ==> actions@.len() == old(self).pending@.len() + 1,
            !old(self).stopped ==> forall|i: int|
                0 <= i < old(self).pending@.len() ==> actions@[i] == CoilAction::Rotate,
            !old(self).stopped ==> actions@[actions@.len() - 1] == CoilAction::DeEnergize,
    {
        let mut actions: Vec<CoilAction> = Vec::new();
        if self.stopped {
            return actions;
        }
        let n = self.pending.len();
        let mut i: usize = 0;
        while i < n
            invariant
                i <= n,
                actions@.len() == i,
                forall|j: int| 0 <= j < i ==> actions@[j] == CoilAction::Rotate,
            decreases n - i,
        {
            actions.push(CoilAction::Rotate);
            i = i + 1;
        }
        actions.push(CoilAction::DeEnergize);
        proof {
            lemma_drain_rotations(self.pending@);
            assert(actions@ =~= spec_drain(self.pending@.push(VendCoilChannelMessage::ExitLoop)));
        }
        self.pending.clear();
        self.stopped = true;
        actions
    }

    /// How many rotations are queued and not yet drained.
    pub fn queued_rotations(&self) -> (n: usize)
        ensures
            n == self.pending@.len(),
    {
        self.pending.len()
    }
}

} // verus!
