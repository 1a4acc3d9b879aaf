use vstd::prelude::*;

verus! {

/// What an admission counter holds, as numbers: handlers running and the most that may run.
pub ghost struct GateModel {
    pub active: nat,
    pub limit: nat,
}

impl GateModel {
    /// The invariant: never more running handlers than the limit.
    pub open spec fn wf(self) -> bool {
        self.active <= self.limit
    }

    /// Whether one more handler may start now.
    pub open spec fn has_room(self) -> bool {
        self.active < self.limit
    }

    /// The admission counter after one more handler started.
    pub open spec fn enter(self) -> GateModel {
        GateModel { active: self.active + 1, limit: self.limit }
    }

    /// The admission counter after one handler finished.
    pub open spec fn leave(self) -> GateModel {
        GateModel { active: (self.active - 1) as nat, limit: self.limit }
    }
}

/// One change a listener or handler may make to the admission counter.
pub ghost enum GateStep {
    /// A listener asks to start a handler; refused while the admission counter is full.
    TryAdmit,
    /// A handler finished; only taken while some handler is running.
    Leave,
}

/// The admission counter after one step.
pub open spec fn gate_step(m: GateModel, s: GateStep) -> GateModel {
    match s {
        GateStep::TryAdmit => if m.has_room() { m.enter() } else { m },
        GateStep::Leave => if m.active > 0 { m.leave() } else { m },
    }
}

/// The admission counter after a sequence of steps, taken from the first.
pub open spec fn gate_run(m: GateModel, steps: Seq<GateStep>) -> GateModel
    decreases steps.len(),
{
    if steps.len() == 0 {
        m
    } else {
        gate_step(gate_run(m, steps.drop_last()), steps.last())
    }
}

/// Admission control shared by every listener: how many connection handlers
/// are running, and how many may run at once.
pub struct Gate {
    count: u32,
    limit: u32,
}

impl View for Gate {
    type V = GateModel;

    closed spec fn view(&self) -> GateModel {
        GateModel { active: self.count as nat, limit: self.limit as nat }
    }
}

impl Gate {
    /// An admission counter with no running handler that admits at most `limit` at a time.
    pub fn new(limit: u32) -> (g: Gate)
        ensures
            g@.wf(),
            g@.active == 0,
            g@.limit == limit,
    {
        Gate { count: 0, limit }
    }

    /// The most handlers that may run at once.
    pub fn limit(&self) -> (r: u32)
        ensures
            r == self@.limit,
    {
        self.limit
    }

    /// How many handlers are running.
    pub fn active(&self) -> (r: u32)
        ensures
            r == self@.active,
    {
        self.count
    }

    /// Whether one more handler may start now.
    pub fn has_room(&self) -> (r: bool)
        ensures
            r == self@.has_room(),
    {
        self.count < self.limit
    }

    /// Admits one more handler when the admission counter has room; reports whether it did.
    /// A caller that is refused waits for a release and asks again.
    pub fn try_acquire(&mut self) -> (admitted: bool)
        requires
            old(self)@.wf(),
        ensures
            admitted == old(self)@.has_room(),
            final(self)@ == gate_step(old(self)@, GateStep::TryAdmit),
            final(self)@.wf(),
    {
        if self.count < self.limit {
            self.count = self.count + 1;
            true
        } else {
            false
        }
    }

    /// Records that one running handler finished.
    pub fn release(&mut self)
        requires
            old(self)@.wf(),
            old(self)@.active > 0,
        ensures
            final(self)@ == old(self)@.leave(),
            final(self)@ == gate_step(old(self)@, GateStep::Leave),
            final(self)@.wf(),
    {
        self.count = self.count - 1;
    }
}

/// Whatever steps are taken, the number of running handlers stays between
/// zero and the limit at every instant.
pub proof fn lemma_gate_bounded(m: GateModel, steps: Seq<GateStep>)
    requires
        m.wf(),
    ensures
        forall|k: int| 0 <= k <= steps.len() ==> (#[trigger] gate_run(m, steps.take(k))).wf(),
    decreases steps.len(),
{
    if steps.len() > 0 {
        let init = steps.drop_last();
        lemma_gate_bounded(m, init);
        assert forall|k: int| 0 <= k <= steps.len() implies (#[trigger] gate_run(m, steps.take(k))).wf() by {
            if k < steps.len() {
                assert(steps.take(k) =~= init.take(k));
            } else {
                assert(steps.take(k) =~= steps);
                assert(init.take(init.len() as int) =~= init);
                assert(gate_run(m, init.take(init.len() as int)).wf());
                assert(gate_run(m, init).wf());
            }
        }
    }
}

/// A handler that was admitted and then finished leaves the count where it
/// was before its admission.
pub proof fn lemma_release_undoes_acquire(m: GateModel)
    requires
        m.wf(),
        m.has_room(),
    ensures
        gate_step(gate_step(m, GateStep::TryAdmit), GateStep::Leave) == m,
{
}

/// With a limit of one, a second handler is refused while the first runs,
/// and is admitted once the first has finished.
pub proof fn lemma_limit_one_serialises(m: GateModel)
    requires
        m.limit == 1,
        m.active == 0,
    ensures
        gate_step(m, GateStep::TryAdmit).active == 1,
        gate_step(gate_step(m, GateStep::TryAdmit), GateStep::TryAdmit) == gate_step(m, GateStep::TryAdmit),
        !gate_step(m, GateStep::TryAdmit).has_room(),
        gate_step(gate_step(gate_step(m, GateStep::TryAdmit), GateStep::Leave), GateStep::TryAdmit).active == 1,
{
}

} // verus!
