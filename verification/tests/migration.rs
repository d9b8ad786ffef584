use virtio_net_migration::component::{Migratable, Pausable, Snapshottable, Transportable};
use virtio_net_migration::error::{
    MigrationLifecycleError, MigrationProtocolError, MigrationReceiveError, MigrationSendError,
    PausableError, RestoreError, SnapshotError, UffdError,
};
use virtio_net_migration::net::NetError;
use virtio_net_migration::protocol::MemoryRangeTable;
use virtio_net_migration::snapshot::{snapshot_from_id, state_from_id, Snapshot, SnapshotData};
use virtio_net_migration::snapshot_map::{id_before, SnapshotMap};

fn leaf(n: u64) -> Snapshot {
    Snapshot::new_from_state(&n, |n| serde_json::to_string(n)).unwrap()
}

fn number(snapshot: &Snapshot) -> u64 {
    snapshot.to_state(|s| serde_json::from_str(s)).unwrap()
}

#[test]
fn state_round_trip() {
    let state = (vec![1u32, 2, 3], "text \"quoted\"".to_string(), Some(-7i64));
    let data = SnapshotData::new_from_state(&state, |s| serde_json::to_string(s)).unwrap();
    let back: (Vec<u32>, String, Option<i64>) =
        data.to_state(|s| serde_json::from_str(s)).unwrap();
    assert_eq!(back, state);
    let snapshot = Snapshot::from_data(data.clone());
    let back: (Vec<u32>, String, Option<i64>) =
        snapshot.to_state(|s| serde_json::from_str(s)).unwrap();
    assert_eq!(back, state);
    assert!(snapshot.snapshots.ids().is_empty());
}

#[test]
fn parser_sees_the_serialized_text() {
    let data = SnapshotData::new_from_state(&5u8, |_| Ok("five".to_string())).unwrap();
    let text = data.to_state(|s| Ok(s.to_string())).unwrap();
    assert_eq!(text, "five");
}

#[test]
fn serializer_failure() {
    let fail = |_: &u8| serde_json::from_str::<String>("not json");
    assert!(matches!(SnapshotData::new_from_state(&1, fail), Err(SnapshotError::Serialize(_))));
    assert!(matches!(Snapshot::new_from_state(&1, fail), Err(SnapshotError::Serialize(_))));
}

#[test]
fn parser_failure() {
    let snapshot = leaf(3);
    let r: Result<String, RestoreError> = snapshot.to_state(|s| serde_json::from_str(s));
    assert!(matches!(r, Err(RestoreError::Deserialize(_))));
}

#[test]
fn missing_data() {
    let r: Result<u64, RestoreError> = Snapshot::default().to_state(|s| serde_json::from_str(s));
    assert!(matches!(r, Err(RestoreError::MissingSnapshotData)));
    let empty: Result<u64, RestoreError> =
        SnapshotData::default().to_state(|s| serde_json::from_str(s));
    assert!(matches!(empty, Err(RestoreError::Deserialize(_))));
}

#[test]
fn added_snapshots_are_found() {
    let mut node = Snapshot::default();
    node.add_snapshot("net1".to_string(), leaf(1));
    node.add_snapshot("disk0".to_string(), leaf(2));
    node.add_snapshot("net0".to_string(), leaf(3));
    assert_eq!(number(snapshot_from_id(Some(&node), "net1").unwrap()), 1);
    assert_eq!(number(snapshot_from_id(Some(&node), "disk0").unwrap()), 2);
    assert_eq!(number(snapshot_from_id(Some(&node), "net0").unwrap()), 3);
    assert!(snapshot_from_id(Some(&node), "net").is_none());
    assert!(snapshot_from_id(None, "net1").is_none());
    assert_eq!(node.snapshots.ids(), vec!["disk0", "net0", "net1"]);

    // A second snapshot of the same component takes the first one's place.
    node.add_snapshot("net1".to_string(), leaf(9));
    assert_eq!(number(snapshot_from_id(Some(&node), "net1").unwrap()), 9);
    assert_eq!(number(snapshot_from_id(Some(&node), "net0").unwrap()), 3);
    assert_eq!(node.snapshots.ids(), vec!["disk0", "net0", "net1"]);
}

#[test]
fn state_of_a_sub_component() {
    let mut node = Snapshot::default();
    node.add_snapshot("a".to_string(), leaf(7));
    node.add_snapshot("empty".to_string(), Snapshot::default());
    let r: Result<Option<u64>, _> = state_from_id(Some(&node), "a", |s| serde_json::from_str(s));
    assert!(matches!(r, Ok(Some(7))));
    let r: Result<Option<u64>, _> = state_from_id(Some(&node), "b", |s| serde_json::from_str(s));
    assert!(matches!(r, Ok(None)));
    let r: Result<Option<u64>, _> = state_from_id(None, "a", |s| serde_json::from_str(s));
    assert!(matches!(r, Ok(None)));
    let r: Result<Option<u64>, _> =
        state_from_id(Some(&node), "empty", |s| serde_json::from_str(s));
    assert!(matches!(r, Err(RestoreError::MissingSnapshotData)));
    let r: Result<Option<bool>, _> = state_from_id(Some(&node), "a", |s| serde_json::from_str(s));
    assert!(matches!(r, Err(RestoreError::Deserialize(_))));
}

#[test]
fn cloned_tree_is_the_same() {
    let mut inner = leaf(1);
    inner.add_snapshot("x".to_string(), leaf(2));
    let mut root = Snapshot::default();
    root.add_snapshot("inner".to_string(), inner);
    let copy = root.clone();
    root.add_snapshot("inner".to_string(), leaf(5));
    let inner = snapshot_from_id(Some(&copy), "inner");
    assert_eq!(number(inner.unwrap()), 1);
    assert_eq!(number(snapshot_from_id(inner, "x").unwrap()), 2);
    assert!(copy.snapshot_data.is_none());
    assert_eq!(copy.snapshots.ids(), vec!["inner"]);
}

#[test]
fn identifiers_in_byte_order() {
    assert!(id_before("", "a"));
    assert!(id_before("a", "ab"));
    assert!(id_before("aZ", "aa"));
    assert!(id_before("z", "\u{e9}"));
    assert!(!id_before("ab", "a"));
    assert!(!id_before("ab", "ab"));
    assert!(!id_before("b", "ab"));
}

#[test]
fn map_returns_what_it_replaces() {
    let mut map = SnapshotMap::new();
    assert!(map.get("a").is_none());
    assert!(map.insert("a".to_string(), leaf(1)).is_none());
    let replaced = map.insert("a".to_string(), leaf(2));
    assert_eq!(number(&replaced.unwrap()), 1);
    assert_eq!(number(map.get("a").unwrap()), 2);
}

#[test]
fn errors_hold_what_is_displayed() {
    assert!(matches!(PausableError::pause(12), PausableError::Pause(s) if s == "12"));
    assert!(matches!(PausableError::resume("r"), PausableError::Resume(s) if s == "r"));
    assert!(matches!(SnapshotError::snapshot('c'), SnapshotError::Snapshot(s) if s == "c"));
    assert!(matches!(RestoreError::restore("x"), RestoreError::Restore(s) if s == "x"));
    assert!(matches!(
        MigrationLifecycleError::start_dirty_log("a"),
        MigrationLifecycleError::StartDirtyLog(s) if s == "a"
    ));
    assert!(matches!(
        MigrationLifecycleError::stop_dirty_log("b"),
        MigrationLifecycleError::StopDirtyLog(s) if s == "b"
    ));
    assert!(matches!(
        MigrationLifecycleError::dirty_log("c"),
        MigrationLifecycleError::DirtyLog(s) if s == "c"
    ));
    assert!(matches!(
        MigrationLifecycleError::start_migration("d"),
        MigrationLifecycleError::StartMigration(s) if s == "d"
    ));
    assert!(matches!(
        MigrationLifecycleError::complete_migration("e"),
        MigrationLifecycleError::CompleteMigration(s) if s == "e"
    ));
    assert!(matches!(MigrationSendError::send("f"), MigrationSendError::Send(s) if s == "f"));
    assert!(matches!(MigrationSendError::unlock("g"), MigrationSendError::Unlock(s) if s == "g"));
    assert!(matches!(
        MigrationReceiveError::receive("h"),
        MigrationReceiveError::Receive(s) if s == "h"
    ));
}

#[test]
fn errors_convert_to_their_side() {
    let io = || std::io::Error::other("socket");
    let e: MigrationSendError = PausableError::pause("p").into();
    assert!(matches!(e, MigrationSendError::Pausable(PausableError::Pause(_))));
    let e: MigrationSendError = SnapshotError::snapshot("s").into();
    assert!(matches!(e, MigrationSendError::Snapshot(SnapshotError::Snapshot(_))));
    let e: MigrationSendError = RestoreError::OnDemandRestore(UffdError::HandlerStartup).into();
    assert!(matches!(e, MigrationSendError::Restore(RestoreError::OnDemandRestore(_))));
    let e: MigrationSendError = MigrationLifecycleError::MissingGuestMemory.into();
    assert!(matches!(e, MigrationSendError::Lifecycle(_)));
    let e: MigrationSendError = MigrationProtocolError::Socket(io()).into();
    assert!(matches!(e, MigrationSendError::Protocol(_)));
    let e: MigrationReceiveError = PausableError::DeviceDisconnected("p".to_string()).into();
    assert!(matches!(e, MigrationReceiveError::Pausable(_)));
    let e: MigrationReceiveError = SnapshotError::snapshot("s").into();
    assert!(matches!(e, MigrationReceiveError::Snapshot(_)));
    let e: MigrationReceiveError = RestoreError::MissingSnapshotData.into();
    assert!(matches!(e, MigrationReceiveError::Restore(_)));
    let e: MigrationReceiveError =
        MigrationLifecycleError::MissingGuestMemoryRegion { gpa: 0x1000 }.into();
    assert!(matches!(
        e,
        MigrationReceiveError::Lifecycle(MigrationLifecycleError::MissingGuestMemoryRegion {
            gpa: 0x1000
        })
    ));
    let e: MigrationReceiveError = MigrationProtocolError::Socket(io()).into();
    assert!(matches!(e, MigrationReceiveError::Protocol(_)));
}

struct Plain {
    touched: bool,
}

impl Pausable for Plain {}
impl Snapshottable for Plain {}
impl Transportable for Plain {}
impl Migratable for Plain {}

#[test]
fn components_do_nothing_by_default() {
    let mut plain = Plain { touched: false };
    assert!(plain.pause().is_ok());
    assert!(plain.resume().is_ok());
    assert_eq!(plain.id(), "");
    let snapshot = plain.snapshot().unwrap();
    assert!(snapshot.snapshot_data.is_none());
    assert!(snapshot.snapshots.ids().is_empty());
    assert!(plain.send(&snapshot, "tcp:host:1").is_ok());
    let received = plain.recv("file:/tmp/x").unwrap();
    assert!(received.snapshot_data.is_none());
    assert!(plain.start_dirty_log().is_ok());
    assert!(plain.stop_dirty_log().is_ok());
    assert!(plain.dirty_log().unwrap().ranges.is_empty());
    assert!(plain.start_migration().is_ok());
    assert!(plain.complete_migration().is_ok());
    assert!(!plain.touched);
    assert!(MemoryRangeTable::default().ranges.is_empty());
}

#[test]
fn cloned_leaf_keeps_its_data() {
    let mut root = Snapshot::default();
    root.add_snapshot("leaf".to_string(), leaf(42));
    root.add_snapshot("empty".to_string(), Snapshot::default());
    let copy = root.clone();
    assert_eq!(copy.snapshots.ids(), root.snapshots.ids());
    assert_eq!(number(copy.snapshots.get("leaf").unwrap()), 42);
    assert!(copy.snapshots.get("empty").unwrap().snapshot_data.is_none());
}

#[test]
fn messages_of_components() {
    assert_eq!(
        PausableError::pause("p").message(),
        "Failed to pause migratable component: p"
    );
    assert_eq!(
        PausableError::resume("").message(),
        "Failed to resume migratable component: "
    );
    assert_eq!(
        PausableError::DeviceDisconnected("net0".to_string()).message(),
        "Lifecycle operation skipped for disconnected component net0"
    );
    let json = || serde_json::from_str::<u8>("x").unwrap_err();
    assert_eq!(
        SnapshotError::Serialize(json()).message(),
        "Failed to serialize snapshot state"
    );
    assert_eq!(
        SnapshotError::snapshot("s").message(),
        "Failed to snapshot migratable component: s"
    );
    assert_eq!(
        RestoreError::Deserialize(json()).message(),
        "Failed to deserialize snapshot state"
    );
    assert_eq!(RestoreError::MissingSnapshotData.message(), "Missing snapshot data");
    assert_eq!(
        RestoreError::OnDemandRestore(UffdError::HandlerStartup).message(),
        "On-demand restore failed"
    );
    assert_eq!(
        RestoreError::restore("r").message(),
        "Failed to restore migratable component: r"
    );
}

#[test]
fn messages_of_userfaultfd() {
    let io = || std::io::Error::other("denied");
    assert_eq!(
        UffdError::UnalignedRanges.message(),
        "Snapshot ranges are not page-aligned"
    );
    assert_eq!(UffdError::Create(io()).message(), "Failed to create userfaultfd");
    assert_eq!(
        UffdError::GpaTranslation { gpa: 0xdead_beef }.message(),
        format!("Cannot translate GPA {:#x} to host address", 0xdead_beef_u64)
    );
    assert_eq!(
        UffdError::Register { addr: 0x1000, len: u64::MAX, source: io() }.message(),
        "Failed to register region at 0x1000+0xffffffffffffffff"
    );
    assert_eq!(
        UffdError::MissingIoctlSupport { addr: 0, len: 16 }.message(),
        "Region at 0x0+0x10 missing COPY/WAKE support"
    );
    assert_eq!(UffdError::SpawnThread(io()).message(), "Failed to spawn handler thread");
    assert_eq!(
        UffdError::HandlerStartup.message(),
        "Handler terminated before startup completed"
    );
    assert_eq!(UffdError::HandlerFailed(io()).message(), "Handler failed after startup");
}

#[test]
fn messages_of_a_migration() {
    assert_eq!(
        MigrationLifecycleError::start_dirty_log("a").message(),
        "Failed to start dirty logging for migratable component: a"
    );
    assert_eq!(
        MigrationLifecycleError::stop_dirty_log("boom").message(),
        "Failed to stop dirty logging for migratable component: boom"
    );
    assert_eq!(
        MigrationLifecycleError::dirty_log("c").message(),
        "Failed to retrieve dirty ranges for migratable component: c"
    );
    assert_eq!(
        MigrationLifecycleError::start_migration("d").message(),
        "Failed to start migration for migratable component: d"
    );
    assert_eq!(
        MigrationLifecycleError::complete_migration("e").message(),
        "Failed to complete migration for migratable component: e"
    );
    assert_eq!(
        MigrationLifecycleError::MissingGuestMemory.message(),
        "Missing guest memory"
    );
    assert_eq!(
        MigrationLifecycleError::MissingGuestMemoryRegion { gpa: 0x1a2b }.message(),
        "Missing guest memory region at 0x1a2b"
    );
    assert_eq!(
        MigrationProtocolError::Socket(std::io::Error::other("reset")).message(),
        "Socket error"
    );
}

#[test]
fn messages_of_both_sides() {
    // An error of another kind shows through.
    let send: MigrationSendError = PausableError::pause("p").into();
    assert_eq!(send.message(), "Failed to pause migratable component: p");
    let send: MigrationSendError = MigrationLifecycleError::MissingGuestMemory.into();
    assert_eq!(send.message(), "Missing guest memory");
    let receive: MigrationReceiveError = RestoreError::MissingSnapshotData.into();
    assert_eq!(receive.message(), "Missing snapshot data");
    assert_eq!(
        MigrationSendError::send("f").message(),
        "Failed to send migratable component snapshot: f"
    );
    assert_eq!(
        MigrationSendError::unlock("g").message(),
        "Failed to release a disk lock: g"
    );
    assert_eq!(
        MigrationSendError::ConfigRejected.message(),
        "Receiver rejected VM migration config"
    );
    assert_eq!(
        MigrationSendError::StateRejected.message(),
        "Receiver rejected VM migration state"
    );
    assert_eq!(
        MigrationSendError::MemoryRejected.message(),
        "Receiver rejected migration memory"
    );
    assert_eq!(
        MigrationSendError::StartRejected.message(),
        "Receiver rejected migration start"
    );
    assert_eq!(
        MigrationSendError::CompletionRejected.message(),
        "Receiver rejected migration completion"
    );
    assert_eq!(
        MigrationReceiveError::receive("h").message(),
        "Failed to receive migratable component snapshot: h"
    );
}

#[test]
fn messages_of_creating_a_device() {
    assert_eq!(NetError::OpenTap("e").message(), "Failed to open taps");
    assert_eq!(NetError::TapError("e").message(), "Using existing tap");
    assert_eq!(
        NetError::DuplicateTapFd("e").message(),
        "Error calling dup() on tap fd"
    );
}
