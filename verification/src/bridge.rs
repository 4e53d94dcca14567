//! When a synchronous caller may block on a remote call.
//!
//! The backend contract is synchronous, the remote is not: a caller has to
//! block its thread until the reply is there. On a worker of the shared
//! runtime that is safe only where the runtime can move its other tasks to
//! another thread meanwhile, and never on the task of the driving loop,
//! which the reply may be waiting for.

use vstd::prelude::*;

verus! {

/// How the runtime that a thread belongs to schedules its tasks.
#[derive(Clone, Copy, Debug, PartialEq, Eq, Structural)]
pub enum RuntimeFlavor {
    /// All tasks share the calling thread.
    CurrentThread,
    /// Tasks are spread over a pool of worker threads.
    MultiThread,
}

/// Where a blocking call is made from.
#[derive(Clone, Copy, Debug, PartialEq, Eq, Structural)]
pub struct CallSite {
    /// The flavor of the runtime that the calling thread runs on, if it runs
    /// on one.
    pub runtime: Option<RuntimeFlavor>,
    /// Whether the caller is the task of the network driving loop.
    pub inside_driving_loop: bool,
}

/// What the blocking bridge does with a call.
#[derive(Clone, Copy, Debug, PartialEq, Eq, Structural)]
pub enum BridgePlan {
    /// Tell the runtime that the thread is about to block, then wait for the
    /// reply on the runtime's own handle.
    BlockInPlace,
    /// Do not block: the caller is on no runtime to wait on.
    RefuseOutsideRuntime,
    /// Do not block: the driving loop would wait for itself.
    RefuseInsideDrivingLoop,
    /// Do not block: the only thread of the runtime would wait for itself.
    RefuseSingleThreaded,
}

/// What the bridge does with a call from `site`.
pub open spec fn planned_for(site: CallSite) -> BridgePlan {
    match site.runtime {
        None => BridgePlan::RefuseOutsideRuntime,
        Some(flavor) => if site.inside_driving_loop {
            BridgePlan::RefuseInsideDrivingLoop
        } else {
            match flavor {
                RuntimeFlavor::CurrentThread => BridgePlan::RefuseSingleThreaded,
                RuntimeFlavor::MultiThread => BridgePlan::BlockInPlace,
            }
        },
    }
}

/// Decides whether the calling thread may block.
///
/// Blocking is allowed on a worker of a multi-threaded runtime that is not
/// running the driving loop, and nowhere else.
pub fn bridge_plan(site: CallSite) -> (plan: BridgePlan)
    ensures
        plan == planned_for(site),
        plan is BlockInPlace <==> site.runtime == Some(RuntimeFlavor::MultiThread)
            && !site.inside_driving_loop,
{
    match site.runtime {
        None => BridgePlan::RefuseOutsideRuntime,
        Some(flavor) => {
            if site.inside_driving_loop {
                BridgePlan::RefuseInsideDrivingLoop
            } else {
                match flavor {
                    RuntimeFlavor::CurrentThread => BridgePlan::RefuseSingleThreaded,
                    RuntimeFlavor::MultiThread => BridgePlan::BlockInPlace,
                }
            }
        },
    }
}

} // verus!
