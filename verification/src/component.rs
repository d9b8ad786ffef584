//! What a component of a virtual machine does to be migrated.

use vstd::prelude::*;

use crate::error::{
    MigrationLifecycleError, MigrationReceiveError, MigrationSendError, PausableError,
    SnapshotError,
};
use crate::protocol::MemoryRangeTable;
use crate::snapshot::Snapshot;

verus! {

/// A component that can be paused and resumed.
pub trait Pausable {
    /// Pause the component.
    fn pause(&mut self) -> (r: Result<(), PausableError>)
        default_ensures
            r is Ok,
            &*final(self) == &*old(self),
    {
        Ok(())
    }

    /// Resume the component.
    fn resume(&mut self) -> (r: Result<(), PausableError>)
        default_ensures
            r is Ok,
            &*final(self) == &*old(self),
    {
        Ok(())
    }
}

/// A component that can be snapshotted.
pub trait Snapshottable: Pausable {
    /// The identifier of the component.
    fn id(&self) -> (r: String)
        default_ensures
            r@ == Seq::<char>::empty(),
    {
        String::new()
    }

    /// Take a snapshot of the component.
    fn snapshot(&mut self) -> (r: Result<Snapshot, SnapshotError>)
        default_ensures
            r matches Ok(snapshot) && snapshot.snapshot_data is None && snapshot.snapshots@
                == Map::<Seq<char>, Snapshot>::empty(),
            &*final(self) == &*old(self),
    {
        Ok(Snapshot::default())
    }
}

/// A component with its own way to be sent to and received from a URL.
pub trait Transportable: Pausable + Snapshottable {
    /// Send a snapshot of the component to `destination_url`, which could be an HTTP
    /// endpoint, a TCP address or a local file.
    fn send(&self, _snapshot: &Snapshot, _destination_url: &str) -> (r: Result<
        (),
        MigrationSendError,
    >)
        default_ensures
            r is Ok,
    {
        Ok(())
    }

    /// Receive a snapshot of the component from `source_url`, which could be an HTTP
    /// endpoint, a TCP address or a local file.
    fn recv(&self, _source_url: &str) -> (r: Result<Snapshot, MigrationReceiveError>)
        default_ensures
            r matches Ok(snapshot) && snapshot.snapshot_data is None && snapshot.snapshots@
                == Map::<Seq<char>, Snapshot>::empty(),
    {
        Ok(Snapshot::default())
    }
}

/// A component that can be migrated, such as a device, a CPU or memory.
///
/// It is paused before it is snapshotted and eventually resumed, and it can be transported to
/// a remote or local destination.
pub trait Migratable: Send + Pausable + Snapshottable + Transportable {
    /// Start to log which memory the component dirties.
    fn start_dirty_log(&mut self) -> (r: Result<(), MigrationLifecycleError>)
        default_ensures
            r is Ok,
            &*final(self) == &*old(self),
    {
        Ok(())
    }

    /// Stop to log which memory the component dirties.
    fn stop_dirty_log(&mut self) -> (r: Result<(), MigrationLifecycleError>)
        default_ensures
            r is Ok,
            &*final(self) == &*old(self),
    {
        Ok(())
    }

    /// The memory that the component has dirtied.
    fn dirty_log(&mut self) -> (r: Result<MemoryRangeTable, MigrationLifecycleError>)
        default_ensures
            r matches Ok(table) && table.ranges@.len() == 0,
            &*final(self) == &*old(self),
    {
        Ok(MemoryRangeTable::default())
    }

    /// Start the component's migration.
    fn start_migration(&mut self) -> (r: Result<(), MigrationLifecycleError>)
        default_ensures
            r is Ok,
            &*final(self) == &*old(self),
    {
        Ok(())
    }

    /// Complete the component's migration.
    fn complete_migration(&mut self) -> (r: Result<(), MigrationLifecycleError>)
        default_ensures
            r is Ok,
            &*final(self) == &*old(self),
    {
        Ok(())
    }
}

} // verus!
