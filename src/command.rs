use vstd::prelude::*;

verus! {

/// A remote command.
#[derive(Clone, Copy, Debug, PartialEq, Eq, Structural)]
pub enum Command {
    Shoot { count: u32 },
    Reset,
    Preview,
    Solve,
    Exposure,
}

/// An operation that runs with the settings switched to the known
/// operational values and restored afterwards.
#[derive(Clone, Copy, Debug, PartialEq, Eq, Structural)]
pub enum Operation {
    /// One capture, downloaded.
    Exposure,
    /// One capture, downloaded and plate-solved.
    Solve,
}

/// Where a command goes.
#[derive(Clone, Copy, Debug, PartialEq, Eq, Structural)]
pub enum Route {
    /// Nothing to do; the reply is empty.
    Nothing,
    /// Capture this many frames, then add them to the counter; the reply is empty.
    Frames(u32),
    /// Set the counter to zero; the reply is empty.
    ResetTotal,
    /// A live preview frame; the reply is its bytes.
    Preview,
    /// An operation under settings save/restore; the reply is its bytes.
    Restored(Operation),
}

pub open spec fn route_of(cmd: Command) -> Route {
    match cmd {
        Command::Shoot { count } => if count == 0 {
            Route::Nothing
        } else {
            Route::Frames(count)
        },
        Command::Reset => Route::ResetTotal,
        Command::Preview => Route::Preview,
        Command::Solve => Route::Restored(Operation::Solve),
        Command::Exposure => Route::Restored(Operation::Exposure),
    }
}

/// The route of a command. Shooting zero frames is a no-op, not an error.
pub fn route(cmd: &Command) -> (r: Route)
    ensures
        r == route_of(*cmd),
{
    match cmd {
        Command::Shoot { count } => if *count == 0 {
            Route::Nothing
        } else {
            Route::Frames(*count)
        },
        Command::Reset => Route::ResetTotal,
        Command::Preview => Route::Preview,
        Command::Solve => Route::Restored(Operation::Solve),
        Command::Exposure => Route::Restored(Operation::Exposure),
    }
}

} // verus!
