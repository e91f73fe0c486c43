//! The per-tick schedule: systems grouped into three phases that always run
//! Control, then Physics, then Resolve.
use vstd::prelude::*;

verus! {

/// Number of phases in a tick.
pub const PHASE_COUNT: usize = 3;

#[derive(Clone, Copy, Debug, PartialEq, Eq, Structural, Hash)]
pub enum SystemPhase {
    /// Intent and velocity setup.
    Control,
    /// Engine-owned integration and other shared physics helpers.
    Physics,
    /// Post-integration consequences (collisions, scoring, timers).
    Resolve,
}

impl SystemPhase {
    pub open spec fn spec_index(self) -> int {
        match self {
            SystemPhase::Control => 0,
            SystemPhase::Physics => 1,
            SystemPhase::Resolve => 2,
        }
    }

    /// The position of this phase within a tick.
    pub fn index(self) -> (r: usize)
        ensures
            r == self.spec_index(),
    {
        match self {
            SystemPhase::Control => 0,
            SystemPhase::Physics => 1,
            SystemPhase::Resolve => 2,
        }
    }

    /// All phases, in the order in which they run.
    pub fn ordered() -> (r: [SystemPhase; 3])
        ensures
            r@ == seq![SystemPhase::Control, SystemPhase::Physics, SystemPhase::Resolve],
    {
        let r = [SystemPhase::Control, SystemPhase::Physics, SystemPhase::Resolve];
        assert(r@ =~= seq![SystemPhase::Control, SystemPhase::Physics, SystemPhase::Resolve]);
        r
    }
}

/// An ordered list of systems per phase. `S` is what a system is to the
/// caller (a function pointer, a label): the schedule only keeps the order.
pub struct Schedule<S> {
    control: Vec<S>,
    physics: Vec<S>,
    resolve: Vec<S>,
}

impl<S: Copy> Schedule<S> {
    /// The systems registered in `phase`, in registration order.
    pub closed spec fn phase_systems(&self, phase: SystemPhase) -> Seq<S> {
        match phase {
            SystemPhase::Control => self.control@,
            SystemPhase::Physics => self.physics@,
            SystemPhase::Resolve => self.resolve@,
        }
    }

    /// The order in which one run of the schedule calls its systems.
    pub open spec fn run_order(&self) -> Seq<S> {
        self.phase_systems(SystemPhase::Control) + self.phase_systems(SystemPhase::Physics)
            + self.phase_systems(SystemPhase::Resolve)
    }

    pub fn new() -> (r: Schedule<S>)
        ensures
            forall|p: SystemPhase| r.phase_systems(p).len() == 0,
    {
        Schedule { control: Vec::new(), physics: Vec::new(), resolve: Vec::new() }
    }

    /// Appends `system` to the Control phase.
    pub fn with_system(self, system: S) -> (r: Schedule<S>)
        ensures
            r.phase_systems(SystemPhase::Control) == self.phase_systems(SystemPhase::Control).push(system),
            r.phase_systems(SystemPhase::Physics) == self.phase_systems(SystemPhase::Physics),
            r.phase_systems(SystemPhase::Resolve) == self.phase_systems(SystemPhase::Resolve),
    {
        self.with_system_in_phase(SystemPhase::Control, system)
    }

    /// Appends `system` to `phase`, leaving the other phases as they were.
    pub fn with_system_in_phase(self, phase: SystemPhase, system: S) -> (r: Schedule<S>)
        ensures
            forall|p: SystemPhase|
                #[trigger] r.phase_systems(p) == if p == phase {
                    self.phase_systems(p).push(system)
                } else {
                    self.phase_systems(p)
                },
    {
        let mut s = self;
        match phase {
            SystemPhase::Control => s.control.push(system),
            SystemPhase::Physics => s.physics.push(system),
            SystemPhase::Resolve => s.resolve.push(system),
        }
        s
    }

    /// The systems of `phase`, in registration order.
    pub fn systems_in_phase(&self, phase: SystemPhase) -> (r: &Vec<S>)
        ensures
            r@ == self.phase_systems(phase),
    {
        match phase {
            SystemPhase::Control => &self.control,
            SystemPhase::Physics => &self.physics,
            SystemPhase::Resolve => &self.resolve,
        }
    }

    /// Every system in the order one tick calls them: phase by phase in the
    /// fixed phase order, and within a phase in registration order.
    pub fn run_sequence(&self) -> (r: Vec<S>)
        ensures
            r@ == self.run_order(),
    {
        let mut r: Vec<S> = Vec::new();
        let phases = SystemPhase::ordered();
        let mut p: usize = 0;
        while p < PHASE_COUNT
            invariant
                p <= PHASE_COUNT,
                phases@ == seq![SystemPhase::Control, SystemPhase::Physics, SystemPhase::Resolve],
                r@ == if p == 0 {
                    Seq::<S>::empty()
                } else if p == 1 {
                    self.phase_systems(SystemPhase::Control)
                } else if p == 2 {
                    self.phase_systems(SystemPhase::Control) + self.phase_systems(SystemPhase::Physics)
                } else {
                    self.run_order()
                },
            decreases PHASE_COUNT - p,
        {
            let systems = self.systems_in_phase(phases[p]);
            let start: Ghost<Seq<S>> = Ghost(r@);
            let mut i: usize = 0;
            while i < systems.len()
                invariant
                    i <= systems@.len(),
                    r@ == start@ + systems@.subrange(0, i as int),
                decreases systems@.len() - i,
            {
                r.push(systems[i]);
                assert(systems@.subrange(0, i + 1) =~= systems@.subrange(0, i as int).push(systems@[i as int]));
                i = i + 1;
            }
            assert(systems@.subrange(0, systems@.len() as int) =~= systems@);
            assert(r@ =~= start@ + systems@);
            p = p + 1;
        }
        r
    }
}

} // verus!
