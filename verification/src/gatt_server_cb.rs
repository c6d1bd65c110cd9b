use core::fmt::Debug;

use vstd::prelude::*;


verus! {

#[derive(Debug, Clone)]
pub enum AdvStopReason {
    /// Most BLE stacks automatically disable advertising when an incoming connection is made.  Stacks
    /// that support concurrent connections allow you to start advertising again and look for a
    /// [AdvStopReason::MaxConnectionsReached] result.
    AcceptedConnection,
    /// Developer requested that advertising be stopped.
    Requested,
}

#[derive(Debug, Clone)]
pub enum AdvStartFailedReason<'a, E: Debug> {
    /// Advertisement contained a feature not supported by the current implementation.  Check
    /// the implementation documentation and/or consult the contained error message to learn more.  This
    /// should be considered programmer error.
    UnsupportedFeature(&'a str),
    /// Advertisement specified that connections were allowed but the implementation cannot support
    /// more at this time.  Try again to advertise that we are not connectable or wait for
    /// a disconnected event and try again.
    MaxConnectionsReached,
    /// Uncategorized system error from the implementation.
    SystemError(E),
}

#[derive(Debug, Copy, Clone, PartialEq, Eq, Structural)]
pub enum ExecWriteAction {
    /// Commit the prepared writes.
    Commit,
    /// Cancel and cleanup memory associated with the prepared writes.
    Cancel,
}

#[derive(Debug, Copy, Clone, PartialEq, Eq, Structural)]
pub enum WriteAction {
    /// A write that should be buffered by the client and committed when ExecuteWrite occurs.
    Prepare,
    /// Normal write.
    Normal,
}

} // verus!
