//! The order in which the bot goes down.

use vstd::prelude::*;

verus! {

/// What woke the shutdown handler.
#[derive(Debug, Clone, Copy, PartialEq, Eq, Structural)]
pub enum ShutdownCause {
    /// The shutdown command was given.
    Command,
    /// The process got a signal to hang up, to interrupt or to terminate.
    Signal,
    /// The sender of the shutdown command is gone, so the bot was never
    /// set up.
    SenderDropped,
}

/// One step of going down.
#[derive(Debug, Clone, Copy, PartialEq, Eq, Structural)]
pub enum ShutdownStep {
    /// Stop every delivery task.
    StopTasks,
    /// Close the connections to the chat service.
    ShutdownShards,
    /// Write the state to the store.
    StoreState,
}

/// The steps of an orderly shutdown, in their order.
pub open spec fn orderly_steps() -> Seq<ShutdownStep> {
    seq![ShutdownStep::StopTasks, ShutdownStep::ShutdownShards, ShutdownStep::StoreState]
}

/// The steps to take after `cause`: none where the bot was never set up,
/// else the tasks are stopped first, then the connections are closed, then
/// the state is stored. A step that fails does not hold up those after it.
pub fn shutdown_steps(cause: ShutdownCause) -> (steps: Vec<ShutdownStep>)
    ensures
        cause == ShutdownCause::SenderDropped ==> steps@ == Seq::<ShutdownStep>::empty(),
        cause != ShutdownCause::SenderDropped ==> steps@ == orderly_steps(),
{
    let mut steps: Vec<ShutdownStep> = Vec::new();
    match cause {
        ShutdownCause::SenderDropped => {},
        _ => {
            steps.push(ShutdownStep::StopTasks);
            steps.push(ShutdownStep::ShutdownShards);
            steps.push(ShutdownStep::StoreState);
            assert(steps@ =~= orderly_steps());
        },
    }
    steps
}

} // verus!
