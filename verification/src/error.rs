//! Errors of pausing, snapshotting, restoring and migrating a component.

use vstd::prelude::*;

verus! {

/// Failures of restoring memory on demand through userfaultfd.
#[derive(Debug)]
pub enum UffdError {
    /// The snapshot ranges are not page-aligned.
    UnalignedRanges,
    /// The userfaultfd could not be created.
    Create(std::io::Error),
    /// A guest physical address has no host address.
    GpaTranslation { gpa: u64 },
    /// A region could not be registered.
    Register { addr: u64, len: u64, source: std::io::Error },
    /// A region lacks COPY or WAKE support.
    MissingIoctlSupport { addr: u64, len: u64 },
    /// The handler thread could not be spawned.
    SpawnThread(std::io::Error),
    /// The handler ended before its startup was complete.
    HandlerStartup,
    /// The handler failed after its startup.
    HandlerFailed(std::io::Error),
}

/// Failures of pausing or resuming a component.
#[derive(Debug)]
pub enum PausableError {
    /// The component could not be paused.
    Pause(String),
    /// The component could not be resumed.
    Resume(String),
    /// The component is disconnected and the operation was skipped.
    DeviceDisconnected(String),
}

/// Failures of taking a snapshot.
#[derive(Debug)]
pub enum SnapshotError {
    /// The state could not be serialized.
    Serialize(serde_json::Error),
    /// The component could not be snapshotted.
    Snapshot(String),
}

/// Failures of restoring a component.
#[derive(Debug)]
pub enum RestoreError {
    /// The state could not be deserialized.
    Deserialize(serde_json::Error),
    /// The snapshot has no data.
    MissingSnapshotData,
    /// Memory could not be restored on demand.
    OnDemandRestore(UffdError),
    /// The component could not be restored.
    Restore(String),
}

/// Failures of the migration protocol.
#[derive(Debug)]
pub enum MigrationProtocolError {
    /// The socket failed.
    Socket(std::io::Error),
}

/// Failures of the steps of a migration.
#[derive(Debug)]
pub enum MigrationLifecycleError {
    /// Dirty logging could not be started.
    StartDirtyLog(String),
    /// Dirty logging could not be stopped.
    StopDirtyLog(String),
    /// The dirty ranges could not be retrieved.
    DirtyLog(String),
    /// The migration could not be started.
    StartMigration(String),
    /// The migration could not be completed.
    CompleteMigration(String),
    /// There is no guest memory.
    MissingGuestMemory,
    /// There is no guest memory region at an address.
    MissingGuestMemoryRegion { gpa: u64 },
}

/// Failures of the sending side of a migration.
#[derive(Debug)]
pub enum MigrationSendError {
    Pausable(PausableError),
    Snapshot(SnapshotError),
    Restore(RestoreError),
    Lifecycle(MigrationLifecycleError),
    Protocol(MigrationProtocolError),
    /// The snapshot could not be sent.
    Send(String),
    /// A disk lock could not be released.
    Unlock(String),
    /// The receiver rejected the configuration.
    ConfigRejected,
    /// The receiver rejected the state.
    StateRejected,
    /// The receiver rejected the memory.
    MemoryRejected,
    /// The receiver rejected the start.
    StartRejected,
    /// The receiver rejected the completion.
    CompletionRejected,
}

/// Failures of the receiving side of a migration.
#[derive(Debug)]
pub enum MigrationReceiveError {
    Pausable(PausableError),
    Snapshot(SnapshotError),
    Restore(RestoreError),
    Lifecycle(MigrationLifecycleError),
    Protocol(MigrationProtocolError),
    /// The snapshot could not be received.
    Receive(String),
}

impl SnapshotError {
    /// A failure to snapshot, described by what `source` displays.
    pub fn snapshot(source: impl std::fmt::Display) -> (r: Self)
        ensures
            r matches SnapshotError::Snapshot(s) && vstd::string::to_string_from_display_ensures(&source, s),
    {
        Self::Snapshot(source.to_string())
    }
}

impl RestoreError {
    /// A failure to restore, described by what `source` displays.
    pub fn restore(source: impl std::fmt::Display) -> (r: Self)
        ensures
            r matches RestoreError::Restore(s) && vstd::string::to_string_from_display_ensures(&source, s),
    {
        Self::Restore(source.to_string())
    }
}

impl PausableError {
    /// A failure to pause, described by what `source` displays.
    pub fn pause(source: impl std::fmt::Display) -> (r: Self)
        ensures
            r matches PausableError::Pause(s) && vstd::string::to_string_from_display_ensures(&source, s),
    {
        Self::Pause(source.to_string())
    }

    /// A failure to resume, described by what `source` displays.
    pub fn resume(source: impl std::fmt::Display) -> (r: Self)
        ensures
            r matches PausableError::Resume(s) && vstd::string::to_string_from_display_ensures(&source, s),
    {
        Self::Resume(source.to_string())
    }
}

impl MigrationLifecycleError {
    /// A failure to start dirty logging, described by what `source` displays.
    pub fn start_dirty_log(source: impl std::fmt::Display) -> (r: Self)
        ensures
            r matches MigrationLifecycleError::StartDirtyLog(s) && vstd::string::to_string_from_display_ensures(&source, s),
    {
        Self::StartDirtyLog(source.to_string())
    }

    /// A failure to stop dirty logging, described by what `source` displays.
    pub fn stop_dirty_log(source: impl std::fmt::Display) -> (r: Self)
        ensures
            r matches MigrationLifecycleError::StopDirtyLog(s) && vstd::string::to_string_from_display_ensures(&source, s),
    {
        Self::StopDirtyLog(source.to_string())
    }

    /// A failure to retrieve dirty ranges, described by what `source` displays.
    pub fn dirty_log(source: impl std::fmt::Display) -> (r: Self)
        ensures
            r matches MigrationLifecycleError::DirtyLog(s) && vstd::string::to_string_from_display_ensures(&source, s),
    {
        Self::DirtyLog(source.to_string())
    }

    /// A failure to start the migration, described by what `source` displays.
    pub fn start_migration(source: impl std::fmt::Display) -> (r: Self)
        ensures
            r matches MigrationLifecycleError::StartMigration(s) && vstd::string::to_string_from_display_ensures(&source, s),
    {
        Self::StartMigration(source.to_string())
    }

    /// A failure to complete the migration, described by what `source` displays.
    pub fn complete_migration(source: impl std::fmt::Display) -> (r: Self)
        ensures
            r matches MigrationLifecycleError::CompleteMigration(s) && vstd::string::to_string_from_display_ensures(&source, s),
    {
        Self::CompleteMigration(source.to_string())
    }
}

impl MigrationSendError {
    /// A failure to send the snapshot, described by what `source` displays.
    pub fn send(source: impl std::fmt::Display) -> (r: Self)
        ensures
            r matches MigrationSendError::Send(s) && vstd::string::to_string_from_display_ensures(&source, s),
    {
        Self::Send(source.to_string())
    }

    /// A failure to release a disk lock, described by what `source` displays.
    pub fn unlock(source: impl std::fmt::Display) -> (r: Self)
        ensures
            r matches MigrationSendError::Unlock(s) && vstd::string::to_string_from_display_ensures(&source, s),
    {
        Self::Unlock(source.to_string())
    }
}

impl MigrationReceiveError {
    /// A failure to receive the snapshot, described by what `source` displays.
    pub fn receive(source: impl std::fmt::Display) -> (r: Self)
        ensures
            r matches MigrationReceiveError::Receive(s) && vstd::string::to_string_from_display_ensures(&source, s),
    {
        Self::Receive(source.to_string())
    }
}

impl From<PausableError> for MigrationSendError {
    fn from(e: PausableError) -> (r: Self) {
        MigrationSendError::Pausable(e)
    }
}

impl vstd::std_specs::convert::FromSpecImpl<PausableError> for MigrationSendError {
    open spec fn obeys_from_spec() -> bool {
        true
    }

    open spec fn from_spec(e: PausableError) -> Self {
        MigrationSendError::Pausable(e)
    }
}

impl From<SnapshotError> for MigrationSendError {
    fn from(e: SnapshotError) -> (r: Self) {
        MigrationSendError::Snapshot(e)
    }
}

impl vstd::std_specs::convert::FromSpecImpl<SnapshotError> for MigrationSendError {
    open spec fn obeys_from_spec() -> bool {
        true
    }

    open spec fn from_spec(e: SnapshotError) -> Self {
        MigrationSendError::Snapshot(e)
    }
}

impl From<RestoreError> for MigrationSendError {
    fn from(e: RestoreError) -> (r: Self) {
        MigrationSendError::Restore(e)
    }
}

impl vstd::std_specs::convert::FromSpecImpl<RestoreError> for MigrationSendError {
    open spec fn obeys_from_spec() -> bool {
        true
    }

    open spec fn from_spec(e: RestoreError) -> Self {
        MigrationSendError::Restore(e)
    }
}

impl From<MigrationLifecycleError> for MigrationSendError {
    fn from(e: MigrationLifecycleError) -> (r: Self) {
        MigrationSendError::Lifecycle(e)
    }
}

impl vstd::std_specs::convert::FromSpecImpl<MigrationLifecycleError> for MigrationSendError {
    open spec fn obeys_from_spec() -> bool {
        true
    }

    open spec fn from_spec(e: MigrationLifecycleError) -> Self {
        MigrationSendError::Lifecycle(e)
    }
}

impl From<MigrationProtocolError> for MigrationSendError {
    fn from(e: MigrationProtocolError) -> (r: Self) {
        MigrationSendError::Protocol(e)
    }
}

impl vstd::std_specs::convert::FromSpecImpl<MigrationProtocolError> for MigrationSendError {
    open spec fn obeys_from_spec() -> bool {
        true
    }

    open spec fn from_spec(e: MigrationProtocolError) -> Self {
        MigrationSendError::Protocol(e)
    }
}

impl From<PausableError> for MigrationReceiveError {
    fn from(e: PausableError) -> (r: Self) {
        MigrationReceiveError::Pausable(e)
    }
}

impl vstd::std_specs::convert::FromSpecImpl<PausableError> for MigrationReceiveError {
    open spec fn obeys_from_spec() -> bool {
        true
    }

    open spec fn from_spec(e: PausableError) -> Self {
        MigrationReceiveError::Pausable(e)
    }
}

impl From<SnapshotError> for MigrationReceiveError {
    fn from(e: SnapshotError) -> (r: Self) {
        MigrationReceiveError::Snapshot(e)
    }
}

impl vstd::std_specs::convert::FromSpecImpl<SnapshotError> for MigrationReceiveError {
    open spec fn obeys_from_spec() -> bool {
        true
    }

    open spec fn from_spec(e: SnapshotError) -> Self {
        MigrationReceiveError::Snapshot(e)
    }
}

impl From<RestoreError> for MigrationReceiveError {
    fn from(e: RestoreError) -> (r: Self) {
        MigrationReceiveError::Restore(e)
    }
}

impl vstd::std_specs::convert::FromSpecImpl<RestoreError> for MigrationReceiveError {
    open spec fn obeys_from_spec() -> bool {
        true
    }

    open spec fn from_spec(e: RestoreError) -> Self {
        MigrationReceiveError::Restore(e)
    }
}

impl From<MigrationLifecycleError> for MigrationReceiveError {
    fn from(e: MigrationLifecycleError) -> (r: Self) {
        MigrationReceiveError::Lifecycle(e)
    }
}

impl vstd::std_specs::convert::FromSpecImpl<MigrationLifecycleError> for MigrationReceiveError {
    open spec fn obeys_from_spec() -> bool {
        true
    }

    open spec fn from_spec(e: MigrationLifecycleError) -> Self {
        MigrationReceiveError::Lifecycle(e)
    }
}

impl From<MigrationProtocolError> for MigrationReceiveError {
    fn from(e: MigrationProtocolError) -> (r: Self) {
        MigrationReceiveError::Protocol(e)
    }
}

impl vstd::std_specs::convert::FromSpecImpl<MigrationProtocolError> for MigrationReceiveError {
    open spec fn obeys_from_spec() -> bool {
        true
    }

    open spec fn from_spec(e: MigrationProtocolError) -> Self {
        MigrationReceiveError::Protocol(e)
    }
}

/// An error converts to the sending and to the receiving side's error that carries it, and to
/// no other.
pub proof fn law_errors_convert(
    pausable: PausableError,
    snapshot: SnapshotError,
    restore: RestoreError,
    lifecycle: MigrationLifecycleError,
    protocol: MigrationProtocolError,
)
    ensures
        <MigrationSendError as vstd::std_specs::convert::FromSpec<PausableError>>::from_spec(pausable)
            == MigrationSendError::Pausable(pausable),
        <MigrationSendError as vstd::std_specs::convert::FromSpec<SnapshotError>>::from_spec(snapshot)
            == MigrationSendError::Snapshot(snapshot),
        <MigrationSendError as vstd::std_specs::convert::FromSpec<RestoreError>>::from_spec(restore)
            == MigrationSendError::Restore(restore),
        <MigrationSendError as vstd::std_specs::convert::FromSpec<MigrationLifecycleError>>::from_spec(lifecycle)
            == MigrationSendError::Lifecycle(lifecycle),
        <MigrationSendError as vstd::std_specs::convert::FromSpec<MigrationProtocolError>>::from_spec(protocol)
            == MigrationSendError::Protocol(protocol),
        <MigrationReceiveError as vstd::std_specs::convert::FromSpec<PausableError>>::from_spec(pausable)
            == MigrationReceiveError::Pausable(pausable),
        <MigrationReceiveError as vstd::std_specs::convert::FromSpec<SnapshotError>>::from_spec(snapshot)
            == MigrationReceiveError::Snapshot(snapshot),
        <MigrationReceiveError as vstd::std_specs::convert::FromSpec<RestoreError>>::from_spec(restore)
            == MigrationReceiveError::Restore(restore),
        <MigrationReceiveError as vstd::std_specs::convert::FromSpec<MigrationLifecycleError>>::from_spec(lifecycle)
            == MigrationReceiveError::Lifecycle(lifecycle),
        <MigrationReceiveError as vstd::std_specs::convert::FromSpec<MigrationProtocolError>>::from_spec(protocol)
            == MigrationReceiveError::Protocol(protocol),
{
}

/// A constructor of an error makes the variant that it is named after, whatever it is given, and
/// the variant holds what the source displays.
pub proof fn law_constructors<D: std::fmt::Display>(
    source: D,
    pausable: PausableError,
    snapshot: SnapshotError,
    restore: RestoreError,
    lifecycle: MigrationLifecycleError,
    send: MigrationSendError,
    receive: MigrationReceiveError,
)
    ensures
        call_ensures(PausableError::pause, (source,), pausable) ==> (pausable matches PausableError::Pause(s)
            && vstd::string::to_string_from_display_ensures(&source, s)),
        call_ensures(PausableError::resume, (source,), pausable) ==> (pausable matches PausableError::Resume(s)
            && vstd::string::to_string_from_display_ensures(&source, s)),
        call_ensures(SnapshotError::snapshot, (source,), snapshot) ==> (snapshot matches SnapshotError::Snapshot(s)
            && vstd::string::to_string_from_display_ensures(&source, s)),
        call_ensures(RestoreError::restore, (source,), restore) ==> (restore matches RestoreError::Restore(s)
            && vstd::string::to_string_from_display_ensures(&source, s)),
        call_ensures(MigrationLifecycleError::start_dirty_log, (source,), lifecycle) ==> (lifecycle matches MigrationLifecycleError::StartDirtyLog(s)
            && vstd::string::to_string_from_display_ensures(&source, s)),
        call_ensures(MigrationLifecycleError::stop_dirty_log, (source,), lifecycle) ==> (lifecycle matches MigrationLifecycleError::StopDirtyLog(s)
            && vstd::string::to_string_from_display_ensures(&source, s)),
        call_ensures(MigrationLifecycleError::dirty_log, (source,), lifecycle) ==> (lifecycle matches MigrationLifecycleError::DirtyLog(s)
            && vstd::string::to_string_from_display_ensures(&source, s)),
        call_ensures(MigrationLifecycleError::start_migration, (source,), lifecycle) ==> (lifecycle matches MigrationLifecycleError::StartMigration(s)
            && vstd::string::to_string_from_display_ensures(&source, s)),
        call_ensures(MigrationLifecycleError::complete_migration, (source,), lifecycle) ==> (lifecycle matches MigrationLifecycleError::CompleteMigration(s)
            && vstd::string::to_string_from_display_ensures(&source, s)),
        call_ensures(MigrationSendError::send, (source,), send) ==> (send matches MigrationSendError::Send(s)
            && vstd::string::to_string_from_display_ensures(&source, s)),
        call_ensures(MigrationSendError::unlock, (source,), send) ==> (send matches MigrationSendError::Unlock(s)
            && vstd::string::to_string_from_display_ensures(&source, s)),
        call_ensures(MigrationReceiveError::receive, (source,), receive) ==> (receive matches MigrationReceiveError::Receive(s)
            && vstd::string::to_string_from_display_ensures(&source, s)),
{
}

} // verus!
