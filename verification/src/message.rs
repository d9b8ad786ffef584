//! The messages of the errors.

use vstd::prelude::*;
use vstd::string::StringExecFns;

use crate::error::{
    MigrationLifecycleError, MigrationProtocolError, MigrationReceiveError, MigrationSendError,
    PausableError, RestoreError, SnapshotError, UffdError,
};
use crate::net::NetError;

verus! {

/// The hexadecimal digit `d`.
pub open spec fn hex_digit(d: nat) -> char {
    if d < 10 {
        ('0' as nat + d) as char
    } else {
        ('a' as nat + d - 10) as char
    }
}

/// `n` in hexadecimal notation, without the prefix.
pub open spec fn hex_digits(n: nat) -> Seq<char>
    decreases n,
{
    if n < 16 {
        seq![hex_digit(n)]
    } else {
        hex_digits(n / 16).push(hex_digit(n % 16))
    }
}

/// `n` in hexadecimal notation, with the prefix.
pub open spec fn hex(n: nat) -> Seq<char> {
    "0x"@ + hex_digits(n)
}

fn append_hex_digit(s: &mut String, d: u64)
    requires
        d < 16,
    ensures
        final(s)@ == old(s)@.push(hex_digit(d as nat)),
{
    let text: &str = match d {
        0 => "0",
        1 => "1",
        2 => "2",
        3 => "3",
        4 => "4",
        5 => "5",
        6 => "6",
        7 => "7",
        8 => "8",
        9 => "9",
        10 => "a",
        11 => "b",
        12 => "c",
        13 => "d",
        14 => "e",
        _ => "f",
    };
    proof {
        reveal_strlit("0");
        reveal_strlit("1");
        reveal_strlit("2");
        reveal_strlit("3");
        reveal_strlit("4");
        reveal_strlit("5");
        reveal_strlit("6");
        reveal_strlit("7");
        reveal_strlit("8");
        reveal_strlit("9");
        reveal_strlit("a");
        reveal_strlit("b");
        reveal_strlit("c");
        reveal_strlit("d");
        reveal_strlit("e");
        reveal_strlit("f");
    }
    s.append(text);
    assert(s@ =~= old(s)@.push(hex_digit(d as nat)));
}

fn append_hex_digits(s: &mut String, n: u64)
    ensures
        final(s)@ == old(s)@ + hex_digits(n as nat),
    decreases n,
{
    if n >= 16 {
        append_hex_digits(s, n / 16);
    }
    append_hex_digit(s, n % 16);
    assert(s@ =~= old(s)@ + hex_digits(n as nat));
}

fn append_hex(s: &mut String, n: u64)
    ensures
        final(s)@ == old(s)@ + hex(n as nat),
{
    s.append("0x");
    append_hex_digits(s, n);
    assert(s@ =~= old(s)@ + hex(n as nat));
}

fn joined(prefix: &str, text: &str) -> (r: String)
    ensures
        r@ == prefix@ + text@,
{
    let mut r: String = prefix.to_owned();
    r.append(text);
    r
}

impl UffdError {
    /// What the error displays.
    pub open spec fn displayed(self) -> Seq<char> {
        match self {
            UffdError::UnalignedRanges => "Snapshot ranges are not page-aligned"@,
            UffdError::Create(_) => "Failed to create userfaultfd"@,
            UffdError::GpaTranslation { gpa } => {
                "Cannot translate GPA "@ + hex(gpa as nat) + " to host address"@
            },
            UffdError::Register { addr, len, .. } => {
                "Failed to register region at "@ + hex(addr as nat) + "+"@ + hex(len as nat)
            },
            UffdError::MissingIoctlSupport { addr, len } => {
                "Region at "@ + hex(addr as nat) + "+"@ + hex(len as nat) + " missing COPY/WAKE support"@
            },
            UffdError::SpawnThread(_) => "Failed to spawn handler thread"@,
            UffdError::HandlerStartup => "Handler terminated before startup completed"@,
            UffdError::HandlerFailed(_) => "Handler failed after startup"@,
        }
    }

    /// What the error displays.
    pub fn message(&self) -> (r: String)
        ensures
            r@ == self.displayed(),
    {
        match self {
            UffdError::UnalignedRanges => "Snapshot ranges are not page-aligned".to_owned(),
            UffdError::Create(_) => "Failed to create userfaultfd".to_owned(),
            UffdError::GpaTranslation { gpa } => {
                let mut r: String = "Cannot translate GPA ".to_owned();
                append_hex(&mut r, *gpa);
                r.append(" to host address");
                r
            },
            UffdError::Register { addr, len, .. } => {
                let mut r: String = "Failed to register region at ".to_owned();
                append_hex(&mut r, *addr);
                r.append("+");
                append_hex(&mut r, *len);
                r
            },
            UffdError::MissingIoctlSupport { addr, len } => {
                let mut r: String = "Region at ".to_owned();
                append_hex(&mut r, *addr);
                r.append("+");
                append_hex(&mut r, *len);
                r.append(" missing COPY/WAKE support");
                r
            },
            UffdError::SpawnThread(_) => "Failed to spawn handler thread".to_owned(),
            UffdError::HandlerStartup => "Handler terminated before startup completed".to_owned(),
            UffdError::HandlerFailed(_) => "Handler failed after startup".to_owned(),
        }
    }
}

impl PausableError {
    /// What the error displays.
    pub open spec fn displayed(self) -> Seq<char> {
        match self {
            PausableError::Pause(s) => "Failed to pause migratable component: "@ + s@,
            PausableError::Resume(s) => "Failed to resume migratable component: "@ + s@,
            PausableError::DeviceDisconnected(s) => {
                "Lifecycle operation skipped for disconnected component "@ + s@
            },
        }
    }

    /// What the error displays.
    pub fn message(&self) -> (r: String)
        ensures
            r@ == self.displayed(),
    {
        match self {
            PausableError::Pause(s) => joined("Failed to pause migratable component: ", s.as_str()),
            PausableError::Resume(s) => {
                joined("Failed to resume migratable component: ", s.as_str())
            },
            PausableError::DeviceDisconnected(s) => {
                joined("Lifecycle operation skipped for disconnected component ", s.as_str())
            },
        }
    }
}

impl SnapshotError {
    /// What the error displays.
    pub open spec fn displayed(self) -> Seq<char> {
        match self {
            SnapshotError::Serialize(_) => "Failed to serialize snapshot state"@,
            SnapshotError::Snapshot(s) => "Failed to snapshot migratable component: "@ + s@,
        }
    }

    /// What the error displays.
    pub fn message(&self) -> (r: String)
        ensures
            r@ == self.displayed(),
    {
        match self {
            SnapshotError::Serialize(_) => "Failed to serialize snapshot state".to_owned(),
            SnapshotError::Snapshot(s) => {
                joined("Failed to snapshot migratable component: ", s.as_str())
            },
        }
    }
}

impl RestoreError {
    /// What the error displays.
    pub open spec fn displayed(self) -> Seq<char> {
        match self {
            RestoreError::Deserialize(_) => "Failed to deserialize snapshot state"@,
            RestoreError::MissingSnapshotData => "Missing snapshot data"@,
            RestoreError::OnDemandRestore(_) => "On-demand restore failed"@,
            RestoreError::Restore(s) => "Failed to restore migratable component: "@ + s@,
        }
    }

    /// What the error displays.
    pub fn message(&self) -> (r: String)
        ensures
            r@ == self.displayed(),
    {
        match self {
            RestoreError::Deserialize(_) => "Failed to deserialize snapshot state".to_owned(),
            RestoreError::MissingSnapshotData => "Missing snapshot data".to_owned(),
            RestoreError::OnDemandRestore(_) => "On-demand restore failed".to_owned(),
            RestoreError::Restore(s) => {
                joined("Failed to restore migratable component: ", s.as_str())
            },
        }
    }
}

impl MigrationProtocolError {
    /// What the error displays.
    pub open spec fn displayed(self) -> Seq<char> {
        match self {
            MigrationProtocolError::Socket(_) => "Socket error"@,
        }
    }

    /// What the error displays.
    pub fn message(&self) -> (r: String)
        ensures
            r@ == self.displayed(),
    {
        match self {
            MigrationProtocolError::Socket(_) => "Socket error".to_owned(),
        }
    }
}

impl MigrationLifecycleError {
    /// What the error displays.
    pub open spec fn displayed(self) -> Seq<char> {
        match self {
            MigrationLifecycleError::StartDirtyLog(s) => {
                "Failed to start dirty logging for migratable component: "@ + s@
            },
            MigrationLifecycleError::StopDirtyLog(s) => {
                "Failed to stop dirty logging for migratable component: "@ + s@
            },
            MigrationLifecycleError::DirtyLog(s) => {
                "Failed to retrieve dirty ranges for migratable component: "@ + s@
            },
            MigrationLifecycleError::StartMigration(s) => {
                "Failed to start migration for migratable component: "@ + s@
            },
            MigrationLifecycleError::CompleteMigration(s) => {
                "Failed to complete migration for migratable component: "@ + s@
            },
            MigrationLifecycleError::MissingGuestMemory => "Missing guest memory"@,
            MigrationLifecycleError::MissingGuestMemoryRegion { gpa } => {
                "Missing guest memory region at "@ + hex(gpa as nat)
            },
        }
    }

    /// What the error displays.
    pub fn message(&self) -> (r: String)
        ensures
            r@ == self.displayed(),
    {
        match self {
            MigrationLifecycleError::StartDirtyLog(s) => {
                joined("Failed to start dirty logging for migratable component: ", s.as_str())
            },
            MigrationLifecycleError::StopDirtyLog(s) => {
                joined("Failed to stop dirty logging for migratable component: ", s.as_str())
            },
            MigrationLifecycleError::DirtyLog(s) => {
                joined("Failed to retrieve dirty ranges for migratable component: ", s.as_str())
            },
            MigrationLifecycleError::StartMigration(s) => {
                joined("Failed to start migration for migratable component: ", s.as_str())
            },
            MigrationLifecycleError::CompleteMigration(s) => {
                joined("Failed to complete migration for migratable component: ", s.as_str())
            },
            MigrationLifecycleError::MissingGuestMemory => "Missing guest memory".to_owned(),
            MigrationLifecycleError::MissingGuestMemoryRegion { gpa } => {
                let mut r: String = "Missing guest memory region at ".to_owned();
                append_hex(&mut r, *gpa);
                r
            },
        }
    }
}

impl MigrationSendError {
    /// What the error displays.
    pub open spec fn displayed(self) -> Seq<char> {
        match self {
            MigrationSendError::Pausable(e) => e.displayed(),
            MigrationSendError::Snapshot(e) => e.displayed(),
            MigrationSendError::Restore(e) => e.displayed(),
            MigrationSendError::Lifecycle(e) => e.displayed(),
            MigrationSendError::Protocol(e) => e.displayed(),
            MigrationSendError::Send(s) => "Failed to send migratable component snapshot: "@ + s@,
            MigrationSendError::Unlock(s) => "Failed to release a disk lock: "@ + s@,
            MigrationSendError::ConfigRejected => "Receiver rejected VM migration config"@,
            MigrationSendError::StateRejected => "Receiver rejected VM migration state"@,
            MigrationSendError::MemoryRejected => "Receiver rejected migration memory"@,
            MigrationSendError::StartRejected => "Receiver rejected migration start"@,
            MigrationSendError::CompletionRejected => "Receiver rejected migration completion"@,
        }
    }

    /// What the error displays.
    pub fn message(&self) -> (r: String)
        ensures
            r@ == self.displayed(),
    {
        match self {
            MigrationSendError::Pausable(e) => e.message(),
            MigrationSendError::Snapshot(e) => e.message(),
            MigrationSendError::Restore(e) => e.message(),
            MigrationSendError::Lifecycle(e) => e.message(),
            MigrationSendError::Protocol(e) => e.message(),
            MigrationSendError::Send(s) => {
                joined("Failed to send migratable component snapshot: ", s.as_str())
            },
            MigrationSendError::Unlock(s) => joined("Failed to release a disk lock: ", s.as_str()),
            MigrationSendError::ConfigRejected => {
                "Receiver rejected VM migration config".to_owned()
            },
            MigrationSendError::StateRejected => "Receiver rejected VM migration state".to_owned(),
            MigrationSendError::MemoryRejected => "Receiver rejected migration memory".to_owned(),
            MigrationSendError::StartRejected => "Receiver rejected migration start".to_owned(),
            MigrationSendError::CompletionRejected => {
                "Receiver rejected migration completion".to_owned()
            },
        }
    }
}

impl MigrationReceiveError {
    /// What the error displays.
    pub open spec fn displayed(self) -> Seq<char> {
        match self {
            MigrationReceiveError::Pausable(e) => e.displayed(),
            MigrationReceiveError::Snapshot(e) => e.displayed(),
            MigrationReceiveError::Restore(e) => e.displayed(),
            MigrationReceiveError::Lifecycle(e) => e.displayed(),
            MigrationReceiveError::Protocol(e) => e.displayed(),
            MigrationReceiveError::Receive(s) => {
                "Failed to receive migratable component snapshot: "@ + s@
            },
        }
    }

    /// What the error displays.
    pub fn message(&self) -> (r: String)
        ensures
            r@ == self.displayed(),
    {
        match self {
            MigrationReceiveError::Pausable(e) => e.message(),
            MigrationReceiveError::Snapshot(e) => e.message(),
            MigrationReceiveError::Restore(e) => e.message(),
            MigrationReceiveError::Lifecycle(e) => e.message(),
            MigrationReceiveError::Protocol(e) => e.message(),
            MigrationReceiveError::Receive(s) => {
                joined("Failed to receive migratable component snapshot: ", s.as_str())
            },
        }
    }
}

impl<E> NetError<E> {
    /// What the error displays.
    pub open spec fn displayed(self) -> Seq<char> {
        match self {
            NetError::OpenTap(_) => "Failed to open taps"@,
            NetError::TapError(_) => "Using existing tap"@,
            NetError::DuplicateTapFd(_) => "Error calling dup() on tap fd"@,
        }
    }

    /// What the error displays.
    pub fn message(&self) -> (r: String)
        ensures
            r@ == self.displayed(),
    {
        match self {
            NetError::OpenTap(_) => "Failed to open taps".to_owned(),
            NetError::TapError(_) => "Using existing tap".to_owned(),
            NetError::DuplicateTapFd(_) => "Error calling dup() on tap fd".to_owned(),
        }
    }
}

/// The number that hexadecimal digits denote.
pub open spec fn hex_value(digits: Seq<char>) -> nat
    decreases digits.len(),
{
    if digits.len() == 0 {
        0
    } else {
        let c = digits.last();
        (16 * hex_value(digits.drop_last()) + if c <= '9' {
            c as nat - '0' as nat
        } else {
            c as nat - 'a' as nat + 10
        }) as nat
    }
}

/// The hexadecimal notation of a number denotes it, is made of the digits `0` to `9` and `a` to
/// `f`, has no leading zero, and is told by its prefix.
pub proof fn law_hex_denotes(n: nat)
    ensures
        hex(n) == "0x"@ + hex_digits(n),
        hex_value(hex_digits(n)) == n,
        hex_digits(n).len() > 0,
        forall|i: int|
            0 <= i < hex_digits(n).len() ==> '0' <= #[trigger] hex_digits(n)[i] <= '9' || 'a'
                <= hex_digits(n)[i] <= 'f',
        hex_digits(n).len() > 1 ==> hex_digits(n)[0] != '0',
    decreases n,
{
    reveal_with_fuel(hex_value, 2);
    if n >= 16 {
        law_hex_denotes(n / 16);
        assert(hex_digits(n).drop_last() =~= hex_digits(n / 16));
    }
}

/// An error that holds a text displays what failed and then that text, whatever it is.
pub proof fn law_held_text_displayed(s: String)
    ensures
        PausableError::Pause(s).displayed() == "Failed to pause migratable component: "@
            + s@,
        PausableError::Resume(s).displayed() == "Failed to resume migratable component: "@
            + s@,
        PausableError::DeviceDisconnected(s).displayed() == "Lifecycle operation skipped for disconnected component "@
            + s@,
        SnapshotError::Snapshot(s).displayed() == "Failed to snapshot migratable component: "@
            + s@,
        RestoreError::Restore(s).displayed() == "Failed to restore migratable component: "@
            + s@,
        MigrationLifecycleError::StartDirtyLog(s).displayed() == "Failed to start dirty logging for migratable component: "@
            + s@,
        MigrationLifecycleError::StopDirtyLog(s).displayed() == "Failed to stop dirty logging for migratable component: "@
            + s@,
        MigrationLifecycleError::DirtyLog(s).displayed() == "Failed to retrieve dirty ranges for migratable component: "@
            + s@,
        MigrationLifecycleError::StartMigration(s).displayed() == "Failed to start migration for migratable component: "@
            + s@,
        MigrationLifecycleError::CompleteMigration(s).displayed() == "Failed to complete migration for migratable component: "@
            + s@,
        MigrationSendError::Send(s).displayed() == "Failed to send migratable component snapshot: "@
            + s@,
        MigrationSendError::Unlock(s).displayed() == "Failed to release a disk lock: "@
            + s@,
        MigrationReceiveError::Receive(s).displayed() == "Failed to receive migratable component snapshot: "@
            + s@,
{
}

/// An error of another kind that one side of a migration carries is displayed as it is itself.
pub proof fn law_carried_error_displayed(
    pausable: PausableError,
    snapshot: SnapshotError,
    restore: RestoreError,
    lifecycle: MigrationLifecycleError,
    protocol: MigrationProtocolError,
)
    ensures
        MigrationSendError::Pausable(pausable).displayed() == pausable.displayed(),
        MigrationSendError::Snapshot(snapshot).displayed() == snapshot.displayed(),
        MigrationSendError::Restore(restore).displayed() == restore.displayed(),
        MigrationSendError::Lifecycle(lifecycle).displayed() == lifecycle.displayed(),
        MigrationSendError::Protocol(protocol).displayed() == protocol.displayed(),
        MigrationReceiveError::Pausable(pausable).displayed() == pausable.displayed(),
        MigrationReceiveError::Snapshot(snapshot).displayed() == snapshot.displayed(),
        MigrationReceiveError::Restore(restore).displayed() == restore.displayed(),
        MigrationReceiveError::Lifecycle(lifecycle).displayed() == lifecycle.displayed(),
        MigrationReceiveError::Protocol(protocol).displayed() == protocol.displayed(),
{
}

/// Addresses and lengths are displayed in hexadecimal notation.
pub proof fn law_addresses_displayed(gpa: u64, addr: u64, len: u64, source: std::io::Error)
    ensures
        (UffdError::GpaTranslation { gpa }).displayed() == "Cannot translate GPA "@ + "0x"@
            + hex_digits(gpa as nat) + " to host address"@,
        (UffdError::Register { addr, len, source }).displayed() == "Failed to register region at "@
            + "0x"@ + hex_digits(addr as nat) + "+"@ + "0x"@ + hex_digits(len as nat),
        (UffdError::MissingIoctlSupport { addr, len }).displayed() == "Region at "@ + "0x"@
            + hex_digits(addr as nat) + "+"@ + "0x"@ + hex_digits(len as nat)
            + " missing COPY/WAKE support"@,
        (MigrationLifecycleError::MissingGuestMemoryRegion { gpa }).displayed()
            == "Missing guest memory region at "@ + "0x"@ + hex_digits(gpa as nat),
{
    assert((UffdError::GpaTranslation { gpa }).displayed() =~= "Cannot translate GPA "@ + "0x"@
        + hex_digits(gpa as nat) + " to host address"@);
    assert((UffdError::Register { addr, len, source }).displayed()
        =~= "Failed to register region at "@ + "0x"@ + hex_digits(addr as nat) + "+"@ + "0x"@
        + hex_digits(len as nat));
    assert((UffdError::MissingIoctlSupport { addr, len }).displayed() =~= "Region at "@ + "0x"@
        + hex_digits(addr as nat) + "+"@ + "0x"@ + hex_digits(len as nat)
        + " missing COPY/WAKE support"@);
    assert((MigrationLifecycleError::MissingGuestMemoryRegion { gpa }).displayed()
        =~= "Missing guest memory region at "@ + "0x"@ + hex_digits(gpa as nat));
}

/// An error that wraps a failure of the host or of the serializer displays what failed, whatever
/// the wrapped failure is.
pub proof fn law_wrapped_failure_not_displayed<E>(
    io: std::io::Error,
    json: serde_json::Error,
    uffd: UffdError,
    e: E,
)
    ensures
        UffdError::Create(io).displayed() == "Failed to create userfaultfd"@,
        UffdError::SpawnThread(io).displayed() == "Failed to spawn handler thread"@,
        UffdError::HandlerFailed(io).displayed() == "Handler failed after startup"@,
        SnapshotError::Serialize(json).displayed() == "Failed to serialize snapshot state"@,
        RestoreError::Deserialize(json).displayed() == "Failed to deserialize snapshot state"@,
        RestoreError::OnDemandRestore(uffd).displayed() == "On-demand restore failed"@,
        MigrationProtocolError::Socket(io).displayed() == "Socket error"@,
        NetError::OpenTap(e).displayed() == "Failed to open taps"@,
        NetError::TapError(e).displayed() == "Using existing tap"@,
        NetError::DuplicateTapFd(e).displayed() == "Error calling dup() on tap fd"@,
{
}

/// The message of an error is what it displays.
pub proof fn law_message_is_displayed<E>(
    uffd: UffdError,
    pausable: PausableError,
    snapshot: SnapshotError,
    restore: RestoreError,
    migration_protocol: MigrationProtocolError,
    migration_lifecycle: MigrationLifecycleError,
    migration_send: MigrationSendError,
    migration_receive: MigrationReceiveError,
    net: NetError<E>,
    r: String,
)
    ensures
        call_ensures(UffdError::message, (&uffd,), r) ==> r@ == uffd.displayed(),
        call_ensures(PausableError::message, (&pausable,), r) ==> r@ == pausable.displayed(),
        call_ensures(SnapshotError::message, (&snapshot,), r) ==> r@ == snapshot.displayed(),
        call_ensures(RestoreError::message, (&restore,), r) ==> r@ == restore.displayed(),
        call_ensures(MigrationProtocolError::message, (&migration_protocol,), r) ==> r@ == migration_protocol.displayed(),
        call_ensures(MigrationLifecycleError::message, (&migration_lifecycle,), r) ==> r@ == migration_lifecycle.displayed(),
        call_ensures(MigrationSendError::message, (&migration_send,), r) ==> r@ == migration_send.displayed(),
        call_ensures(MigrationReceiveError::message, (&migration_receive,), r) ==> r@ == migration_receive.displayed(),
        call_ensures(NetError::<E>::message, (&net,), r) ==> r@ == net.displayed(),
{
}

} // verus!
