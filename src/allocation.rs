use vstd::prelude::*;

verus! {

/// The steps of allocating a pseudoterminal, in the order they run.
#[derive(Clone, Copy, Debug, PartialEq, Eq, Structural)]
pub enum AllocStep {
    /// Open a new master for reading and writing, not as controlling terminal.
    OpenMaster,
    /// Grant access to the slave device.
    Grant,
    /// Unlock the slave so that another process can open it.
    Unlock,
    /// Resolve the slave's device path.
    ResolvePath,
}

/// Allocation failed at the named step; the later steps did not run.
#[derive(Clone, Copy, Debug, PartialEq, Eq, Structural)]
pub struct AllocationError {
    pub step: AllocStep,
}

/// Where the allocation stands after a step.
#[derive(Clone, Copy, Debug, PartialEq, Eq, Structural)]
pub enum AllocProgress {
    /// Run this step next.
    Next(AllocStep),
    /// Every step succeeded: the pair is ready.
    Done,
}

/// Position of a step in the sequence.
pub open spec fn step_index(s: AllocStep) -> nat {
    match s {
        AllocStep::OpenMaster => 0,
        AllocStep::Grant => 1,
        AllocStep::Unlock => 2,
        AllocStep::ResolvePath => 3,
    }
}

/// The step that follows `s`, or `Done` after the last one.
pub open spec fn successor(s: AllocStep) -> AllocProgress {
    match s {
        AllocStep::OpenMaster => AllocProgress::Next(AllocStep::Grant),
        AllocStep::Grant => AllocProgress::Next(AllocStep::Unlock),
        AllocStep::Unlock => AllocProgress::Next(AllocStep::ResolvePath),
        AllocStep::ResolvePath => AllocProgress::Done,
    }
}

/// The first step of an allocation.
pub fn first_alloc_step() -> (r: AllocStep)
    ensures
        step_index(r) == 0,
{
    AllocStep::OpenMaster
}

/// Decides what follows a step of the allocation: the next step when it
/// succeeded, an error naming it when it failed.
pub fn after_alloc_step(step: AllocStep, succeeded: bool) -> (r: Result<AllocProgress, AllocationError>)
    ensures
        !succeeded ==> r == Err::<AllocProgress, AllocationError>(AllocationError { step }),
        succeeded ==> r == Ok::<AllocProgress, AllocationError>(successor(step)),
{
    if !succeeded {
        return Err(AllocationError { step });
    }
    let next = match step {
        AllocStep::OpenMaster => AllocProgress::Next(AllocStep::Grant),
        AllocStep::Grant => AllocProgress::Next(AllocStep::Unlock),
        AllocStep::Unlock => AllocProgress::Next(AllocStep::ResolvePath),
        AllocStep::ResolvePath => AllocProgress::Done,
    };
    Ok(next)
}

/// The steps run in a fixed order, each at most once: every successor comes
/// later than its step, and the slave path is resolved only after the grant
/// and the unlock.
pub proof fn lemma_steps_ordered(s: AllocStep)
    ensures
        successor(s) is Next ==> step_index(successor(s)->Next_0) == step_index(s) + 1,
        successor(s) is Done <==> s == AllocStep::ResolvePath,
        step_index(AllocStep::Grant) < step_index(AllocStep::ResolvePath),
        step_index(AllocStep::Unlock) < step_index(AllocStep::ResolvePath),
{
}

} // verus!
