use vstd::prelude::*;

verus! {

/// A compiled compute pipeline with the workgroup size its shader declares.
pub struct Stage<P> {
    pub pipeline: P,
    pub workgroup_size: [u32; 3],
}

/// What the start of a frame did about a signalled runtime fault.
#[derive(Debug, Clone, Copy, PartialEq, Eq, Structural)]
pub enum RollbackOutcome {
    /// No fault was signalled since the last frame.
    NoFault,
    /// The previous good pipeline set was restored.
    RolledBack,
    /// The faulting set was the first one installed: it is dropped and the
    /// frame runs an empty set, since no shader is known to be safe.
    NoSafeShader,
    /// The rollback set was already used and no shader was installed since:
    /// the current set stays, and the fault only clears the flag.
    NoRollback,
}

/// The model of the pipeline sets: the set run each frame, the set it
/// replaced (kept for a rollback until used), and whether a fault is pending.
pub struct PipelineState<P> {
    pub current: Seq<Stage<P>>,
    pub rollback: Option<Seq<Stage<P>>>,
    pub pending: bool,
}

/// The state after a successful compile installs `stages`: the set that ran
/// so far (empty before the first install) becomes the rollback set.
pub open spec fn after_install<P>(s: PipelineState<P>, stages: Seq<Stage<P>>) -> PipelineState<P> {
    PipelineState { current: stages, rollback: Some(s.current), pending: s.pending }
}

/// The state after the backend signals a runtime fault.
pub open spec fn after_fault<P>(s: PipelineState<P>) -> PipelineState<P> {
    PipelineState { pending: true, ..s }
}

/// The state after the start of a frame takes a pending fault, if any.
pub open spec fn after_frame_start<P>(s: PipelineState<P>) -> PipelineState<P> {
    if !s.pending {
        s
    } else {
        match s.rollback {
            Some(r) => PipelineState { current: r, rollback: None, pending: false },
            None => PipelineState { pending: false, ..s },
        }
    }
}

pub open spec fn frame_start_outcome<P>(s: PipelineState<P>) -> RollbackOutcome {
    if !s.pending {
        RollbackOutcome::NoFault
    } else {
        match s.rollback {
            Some(r) => if r.len() > 0 {
                RollbackOutcome::RolledBack
            } else {
                RollbackOutcome::NoSafeShader
            },
            None => RollbackOutcome::NoRollback,
        }
    }
}

/// The current and the rollback pipeline sets, and the pending-fault flag.
pub struct PipelineSets<P> {
    current: Vec<Stage<P>>,
    rollback: Option<Vec<Stage<P>>>,
    pending: bool,
}

impl<P> PipelineSets<P> {
    pub closed spec fn state(&self) -> PipelineState<P> {
        PipelineState {
            current: self.current@,
            rollback: match self.rollback {
                Some(r) => Some(r@),
                None => None,
            },
            pending: self.pending,
        }
    }

    /// No shader installed yet: nothing runs.
    pub fn new() -> (r: Self)
        ensures
            r.state() == (PipelineState::<P> {
                current: Seq::empty(),
                rollback: None,
                pending: false,
            }),
    {
        let r = PipelineSets { current: Vec::new(), rollback: None, pending: false };
        assert(r.state().current =~= Seq::<Stage<P>>::empty());
        r
    }

    /// Makes `stages` the set that the next frame runs, keeping the set that
    /// ran so far for a rollback.
    pub fn install(&mut self, stages: Vec<Stage<P>>)
        ensures
            final(self).state() == after_install(old(self).state(), stages@),
    {
        let mut previous = stages;
        std::mem::swap(&mut self.current, &mut previous);
        self.rollback = Some(previous);
    }

    /// Records that a dispatch of the current set faulted.
    pub fn signal_fault(&mut self)
        ensures
            final(self).state() == after_fault(old(self).state()),
    {
        self.pending = true;
    }

    /// Takes a pending fault at the start of a frame: the rollback set, if
    /// one is kept, replaces the current set, once.
    pub fn start_frame(&mut self) -> (r: RollbackOutcome)
        ensures
            final(self).state() == after_frame_start(old(self).state()),
            r == frame_start_outcome(old(self).state()),
    {
        if !self.pending {
            return RollbackOutcome::NoFault;
        }
        self.pending = false;
        match self.rollback.take() {
            Some(r) => {
                let outcome = if r.len() > 0 {
                    RollbackOutcome::RolledBack
                } else {
                    RollbackOutcome::NoSafeShader
                };
                self.current = r;
                outcome
            },
            None => RollbackOutcome::NoRollback,
        }
    }

    /// The set that the next frame runs.
    pub fn current(&self) -> (r: &Vec<Stage<P>>)
        ensures
            r@ == self.state().current,
    {
        &self.current
    }

    pub fn fault_pending(&self) -> (r: bool)
        ensures
            r == self.state().pending,
    {
        self.pending
    }

    pub fn has_rollback(&self) -> (r: bool)
        ensures
            r == self.state().rollback is Some,
    {
        self.rollback.is_some()
    }
}

/// One fault, one rollback: after a fault and a frame start, a second fault
/// and frame start leave the current set as the first rollback made it, with
/// no fault pending.
pub proof fn lemma_rollback_once<P>(s: PipelineState<P>)
    ensures
        after_frame_start(after_fault(after_frame_start(after_fault(s)))).current
            == after_frame_start(after_fault(s)).current,
        !after_frame_start(after_fault(after_frame_start(after_fault(s)))).pending,
        after_frame_start(after_fault(s)).rollback is None,
        s.rollback matches Some(r) ==> after_frame_start(after_fault(s)).current == r,
{
}

/// A fault of the first shader ever installed drops it: the next frame runs
/// an empty set and says that no shader is known to be safe.
pub proof fn lemma_first_shader_fault<P>(a: Seq<Stage<P>>)
    requires
        a.len() > 0,
    ensures
        ({
            let s = after_fault(
                after_install(PipelineState { current: Seq::empty(), rollback: None, pending: false }, a),
            );
            after_frame_start(s).current.len() == 0 && frame_start_outcome(s)
                == RollbackOutcome::NoSafeShader
        }),
{
}

/// After installing `a` then `b`, a frame start runs `b`; where a fault
/// comes first, it runs `a` again.
pub proof fn lemma_fault_restores_previous<P>(s: PipelineState<P>, a: Seq<Stage<P>>, b: Seq<Stage<P>>)
    requires
        !s.pending,
    ensures
        after_frame_start(after_fault(after_install(after_install(s, a), b))).current == a,
        after_frame_start(after_install(after_install(s, a), b)).current == b,
{
}

} // verus!
