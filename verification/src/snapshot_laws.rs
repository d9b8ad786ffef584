//! What holds of snapshots, from the operations' arguments to their results.
//!
//! In these laws `call_ensures(f, args, r)` says that `r` is a result of `f` for `args`.

use vstd::prelude::*;

use crate::error::{RestoreError, SnapshotError};
use crate::net::{Net, NetState};
use crate::protocol::MemoryRangeTable;
use crate::snapshot::{snapshot_from_id, state_from_id, Snapshot, SnapshotData};
use crate::snapshot_map::{id_before, SnapshotMap};

verus! {

/// Whether an identifier comes before another one is decided by the first byte in which they
/// differ, or by the end of one.
pub proof fn law_id_order(a: &str, b: &str, k: int, r: bool)
    requires
        call_ensures(id_before, (a, b), r),
        0 <= k <= vstd::utf8::encode_utf8(a@).len(),
        k <= vstd::utf8::encode_utf8(b@).len(),
        vstd::utf8::encode_utf8(a@).take(k) == vstd::utf8::encode_utf8(b@).take(k),
        ({
            let (x, y) = (vstd::utf8::encode_utf8(a@), vstd::utf8::encode_utf8(b@));
            k < x.len() && k < y.len() ==> x[k] != y[k]
        }),
    ensures
        ({
            let (x, y) = (vstd::utf8::encode_utf8(a@), vstd::utf8::encode_utf8(b@));
            r <==> k < y.len() && (k == x.len() || x[k] < y[k])
        }),
{
    crate::snapshot_map::law_first_difference_decides(
        vstd::utf8::encode_utf8(a@),
        vstd::utf8::encode_utf8(b@),
        k,
    );
}

/// After an insertion the map gives the inserted snapshot under its identifier and gave back the
/// one that was there; under every other identifier it gives what it gave before.
pub proof fn law_map_insert_get(
    map: &mut SnapshotMap,
    id: String,
    v: Snapshot,
    replaced: Option<Snapshot>,
    other: &str,
    before: Option<&Snapshot>,
    after: Option<&Snapshot>,
)
    requires
        call_ensures(SnapshotMap::insert, (map, id, v), replaced),
        call_ensures(SnapshotMap::get, (&*old(map), other), before),
        call_ensures(SnapshotMap::get, (&*final(map), other), after),
    ensures
        other@ == id@ ==> after == Some(&v),
        other@ == id@ ==> match before {
            Some(old_v) => replaced == Some(*old_v),
            None => replaced is None,
        },
        other@ != id@ ==> after == before,
{
}

/// A new map gives nothing.
pub proof fn law_new_map_empty(map: SnapshotMap, id: &str, r: Option<&Snapshot>)
    requires
        call_ensures(SnapshotMap::new, (), map),
        call_ensures(SnapshotMap::get, (&map, id), r),
    ensures
        r is None,
{
}

/// An added snapshot is found under its identifier. The other ones are found as before, and the
/// component's own data stays.
pub proof fn law_add_then_find(
    snapshot: &mut Snapshot,
    id: String,
    added: Snapshot,
    other: &str,
    before: Option<&Snapshot>,
    after: Option<&Snapshot>,
)
    requires
        call_ensures(Snapshot::add_snapshot, (snapshot, id, added), ()),
        call_ensures(snapshot_from_id, (Some(&*old(snapshot)), other), before),
        call_ensures(snapshot_from_id, (Some(&*final(snapshot)), other), after),
    ensures
        other@ == id@ ==> after == Some(&added),
        other@ != id@ ==> after == before,
        final(snapshot).snapshot_data == old(snapshot).snapshot_data,
{
}

/// Nothing is found in no snapshot, nor in one that was just made of data, which holds that data.
pub proof fn law_leaf(
    data: SnapshotData,
    leaf: Snapshot,
    id: &str,
    in_none: Option<&Snapshot>,
    in_leaf: Option<&Snapshot>,
)
    requires
        call_ensures(Snapshot::from_data, (data,), leaf),
        call_ensures(snapshot_from_id, (None::<&Snapshot>, id), in_none),
        call_ensures(snapshot_from_id, (Some(&leaf), id), in_leaf),
    ensures
        in_none is None,
        in_leaf is None,
        leaf.snapshot_data == Some(data),
{
}

/// Restoring gives what the parser makes of the snapshot's text, and its failure where it fails;
/// without data there is nothing to restore.
pub proof fn law_restore<'a, T, F: FnOnce(&'a str) -> Result<T, serde_json::Error>>(
    snapshot: &'a Snapshot,
    parse: F,
    r: Result<T, RestoreError>,
)
    requires
        call_ensures(Snapshot::to_state::<'a, T, F>, (snapshot, parse), r),
    ensures
        snapshot.snapshot_data is None ==> r matches Err(RestoreError::MissingSnapshotData),
        snapshot.snapshot_data matches Some(data) ==> {
            exists|s: &'a str, parsed: Result<T, serde_json::Error>|
                {
                    &&& s@ == data@
                    &&& #[trigger] call_ensures(parse, (s,), parsed)
                    &&& parsed matches Ok(state) ==> r == Ok::<T, RestoreError>(state)
                    &&& parsed matches Err(e) ==> r == Err::<T, RestoreError>(
                        RestoreError::Deserialize(e),
                    )
                }
        },
{
}

/// The state of a sub-component is what restoring its snapshot gives, and nothing where there is
/// no such snapshot.
pub proof fn law_state_from_id<'a, T, F: FnOnce(&'a str) -> Result<T, serde_json::Error>>(
    snapshot: Option<&'a Snapshot>,
    id: &str,
    found: Option<&'a Snapshot>,
    parse: F,
    r: Result<Option<T>, RestoreError>,
)
    requires
        call_ensures(snapshot_from_id, (snapshot, id), found),
        call_ensures(state_from_id::<'a, T, F>, (snapshot, id, parse), r),
    ensures
        found is None ==> r == Ok::<Option<T>, RestoreError>(None),
        found is Some ==> !(r matches Ok(None)),
        found matches Some(sub) ==> sub.snapshot_data is None
            ==> r matches Err(RestoreError::MissingSnapshotData),
        found matches Some(sub) ==> sub.snapshot_data matches Some(data) ==> {
            exists|s: &'a str, parsed: Result<T, serde_json::Error>|
                {
                    &&& s@ == data@
                    &&& #[trigger] call_ensures(parse, (s,), parsed)
                    &&& parsed matches Ok(state) ==> r == Ok::<Option<T>, RestoreError>(Some(state))
                    &&& parsed matches Err(e) ==> r == Err::<Option<T>, RestoreError>(
                        RestoreError::Deserialize(e),
                    )
                }
        },
{
}

/// A snapshot of a state holds the text that the serializer makes of it and no sub-components,
/// and there is none exactly where the serializer fails.
pub proof fn law_save<T, F: FnOnce(&T) -> Result<String, serde_json::Error>>(
    state: &T,
    serialize: F,
    r: Result<Snapshot, SnapshotError>,
)
    requires
        call_ensures(Snapshot::new_from_state::<T, F>, (state, serialize), r),
    ensures
        r matches Ok(snapshot) ==> {
            &&& snapshot.snapshots@.dom().is_empty()
            &&& snapshot.snapshot_data is Some
            &&& exists|s: String|
                s@ == snapshot.snapshot_data->0@ && #[trigger] call_ensures(
                    serialize,
                    (state,),
                    Ok::<String, serde_json::Error>(s),
                )
        },
        r matches Err(error) ==> error matches SnapshotError::Serialize(e) && call_ensures(
            serialize,
            (state,),
            Err::<String, serde_json::Error>(e),
        ),
{
}

/// A device's snapshot holds the text that the serializer makes of a state with exactly the
/// device's features, configuration, announcement and queue sizes, and no sub-components.
pub proof fn law_device_snapshot<F: FnOnce(&NetState) -> Result<String, serde_json::Error>>(
    net: Net,
    serialize: F,
    r: Result<Snapshot, SnapshotError>,
)
    requires
        call_ensures(Net::snapshot::<F>, (&net, serialize), r),
    ensures
        r matches Ok(snapshot) ==> {
            &&& snapshot.snapshots@.dom().is_empty()
            &&& snapshot.snapshot_data is Some
            &&& exists|state: NetState, s: String|
                {
                    &&& #[trigger] call_ensures(
                        serialize,
                        (&state,),
                        Ok::<String, serde_json::Error>(s),
                    )
                    &&& s@ == snapshot.snapshot_data->0@
                    &&& state.avail_features == net.common.avail_features
                    &&& state.acked_features == net.common.acked_features
                    &&& state.config == net.config
                    &&& state.announce_pending == net.announce_pending
                    &&& state.queue_size@ == net.common.queue_sizes@
                }
        },
        r matches Err(error) ==> error matches SnapshotError::Serialize(e) && exists|
            state: NetState,
        |
            net.saved_as(state) && #[trigger] call_ensures(
                serialize,
                (&state,),
                Err::<String, serde_json::Error>(e),
            ),
{
}

/// A clone has the same data, and under each identifier a sub-component with the same data, at
/// every depth.
pub proof fn law_clone(
    snapshot: Snapshot,
    copy: Snapshot,
    id: &str,
    found: Option<&Snapshot>,
    copied: Option<&Snapshot>,
)
    requires
        call_ensures(<Snapshot as Clone>::clone, (&snapshot,), copy),
        call_ensures(snapshot_from_id, (Some(&snapshot), id), found),
        call_ensures(snapshot_from_id, (Some(&copy), id), copied),
    ensures
        snapshot.snapshot_data is Some <==> copy.snapshot_data is Some,
        snapshot.snapshot_data is Some ==> snapshot.snapshot_data->0@ == copy.snapshot_data->0@,
        found is Some <==> copied is Some,
        found is Some ==> {
            let (a, b) = (found->0.snapshot_data, copied->0.snapshot_data);
            &&& a is Some <==> b is Some
            &&& a is Some ==> a->0@ == b->0@
            &&& crate::snapshot_map::same_snapshot(*found->0, *copied->0)
        },
{
    if found is Some {
        crate::snapshot_map::law_same_snapshot(*found->0, *copied->0);
    }
}

/// The identifiers of a map are those under which it gives a snapshot, each of them once, and one
/// that comes before another one stands before it.
pub proof fn law_ids(
    map: SnapshotMap,
    ids: Vec<&str>,
    id: &str,
    found: Option<&Snapshot>,
    i: int,
    j: int,
    before: bool,
)
    requires
        call_ensures(SnapshotMap::ids, (&map,), ids),
        call_ensures(SnapshotMap::get, (&map, id), found),
        0 <= i < j < ids@.len(),
        call_ensures(id_before, (ids@[i], ids@[j]), before),
    ensures
        before,
        ids@[i]@ != ids@[j]@,
        found is Some <==> exists|k: int| 0 <= k < ids@.len() && (#[trigger] ids@[k])@ == id@,
{
    crate::snapshot_map::law_ids_totally_ordered(ids@[i]@, ids@[j]@, ids@[j]@);
    crate::snapshot_map::law_ids_totally_ordered(ids@[j]@, ids@[j]@, ids@[j]@);
    if found is Some {
        let k = choose|k: int| 0 <= k < ids@.len() && ids@[k]@ == id@;
        assert(ids@[k]@ == id@);
    }
}

/// Restoring a section gives what the parser makes of its text, and its failure where it fails.
pub proof fn law_section_restored<'a, T, F: FnOnce(&'a str) -> Result<T, serde_json::Error>>(
    data: &'a SnapshotData,
    parse: F,
    r: Result<T, RestoreError>,
)
    requires
        call_ensures(SnapshotData::to_state::<'a, T, F>, (data, parse), r),
    ensures
        exists|s: &'a str, parsed: Result<T, serde_json::Error>|
            {
                &&& s@ == data@
                &&& #[trigger] call_ensures(parse, (s,), parsed)
                &&& parsed matches Ok(state) ==> r == Ok::<T, RestoreError>(state)
                &&& parsed matches Err(e) ==> r == Err::<T, RestoreError>(
                    RestoreError::Deserialize(e),
                )
            },
{
}

/// A section of a state holds the text that the serializer makes of it, and there is none exactly
/// where the serializer fails.
pub proof fn law_section_saved<T, F: FnOnce(&T) -> Result<String, serde_json::Error>>(
    state: &T,
    serialize: F,
    r: Result<SnapshotData, SnapshotError>,
)
    requires
        call_ensures(SnapshotData::new_from_state::<T, F>, (state, serialize), r),
    ensures
        r matches Ok(data) ==> exists|s: String|
            s@ == data@ && #[trigger] call_ensures(
                serialize,
                (state,),
                Ok::<String, serde_json::Error>(s),
            ),
        r matches Err(error) ==> error matches SnapshotError::Serialize(e) && call_ensures(
            serialize,
            (state,),
            Err::<String, serde_json::Error>(e),
        ),
{
}

/// What is made by default is empty, and a section's clone has its text.
pub proof fn law_empty_defaults(
    snapshot: Snapshot,
    data: SnapshotData,
    table: MemoryRangeTable,
    section: SnapshotData,
    copy: SnapshotData,
)
    requires
        call_ensures(<Snapshot as Default>::default, (), snapshot),
        call_ensures(<SnapshotData as Default>::default, (), data),
        call_ensures(<MemoryRangeTable as Default>::default, (), table),
        call_ensures(<SnapshotData as Clone>::clone, (&section,), copy),
    ensures
        snapshot.snapshot_data is None,
        snapshot.snapshots@.dom().is_empty(),
        data@.len() == 0,
        table.ranges@.len() == 0,
        copy@ == section@,
{
}

} // verus!
