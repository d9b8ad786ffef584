//! The snapshots of a component's sub-components, kept in the order of their identifiers.

use vstd::prelude::*;

use crate::snapshot::Snapshot;

verus! {

/// Whether `a` comes before `b` in the lexicographic order of bytes.
pub open spec fn bytes_less(a: Seq<u8>, b: Seq<u8>) -> bool
    decreases a.len(),
{
    if b.len() == 0 {
        false
    } else if a.len() == 0 {
        true
    } else if a[0] != b[0] {
        a[0] < b[0]
    } else {
        bytes_less(a.drop_first(), b.drop_first())
    }
}

/// Whether the identifier `a` comes before `b`: identifiers are ordered by their bytes.
pub open spec fn id_less(a: Seq<char>, b: Seq<char>) -> bool {
    bytes_less(vstd::utf8::encode_utf8(a), vstd::utf8::encode_utf8(b))
}

proof fn lemma_bytes_irreflexive(a: Seq<u8>)
    ensures
        !bytes_less(a, a),
    decreases a.len(),
{
    if a.len() > 0 {
        lemma_bytes_irreflexive(a.drop_first());
    }
}

proof fn lemma_bytes_transitive(a: Seq<u8>, b: Seq<u8>, c: Seq<u8>)
    requires
        bytes_less(a, b),
        bytes_less(b, c),
    ensures
        bytes_less(a, c),
    decreases a.len(),
{
    if a.len() > 0 && a[0] == b[0] && b[0] == c[0] {
        lemma_bytes_transitive(a.drop_first(), b.drop_first(), c.drop_first());
    }
}

proof fn lemma_bytes_total(a: Seq<u8>, b: Seq<u8>)
    ensures
        bytes_less(a, b) || a == b || bytes_less(b, a),
    decreases a.len(),
{
    if a.len() > 0 && b.len() > 0 && a[0] == b[0] {
        lemma_bytes_total(a.drop_first(), b.drop_first());
        if a.drop_first() == b.drop_first() {
            assert(a =~= seq![a[0]] + a.drop_first());
            assert(b =~= seq![b[0]] + b.drop_first());
        }
    } else if a.len() == 0 && b.len() == 0 {
        assert(a =~= b);
    }
}

/// The order of identifiers is a strict total order.
pub proof fn law_ids_totally_ordered(a: Seq<char>, b: Seq<char>, c: Seq<char>)
    ensures
        !id_less(a, a),
        id_less(a, b) && id_less(b, c) ==> id_less(a, c),
        id_less(a, b) || a == b || id_less(b, a),
{
    let (x, y, z) = (
        vstd::utf8::encode_utf8(a),
        vstd::utf8::encode_utf8(b),
        vstd::utf8::encode_utf8(c),
    );
    lemma_bytes_irreflexive(x);
    if id_less(a, b) && id_less(b, c) {
        lemma_bytes_transitive(x, y, z);
    }
    lemma_bytes_total(x, y);
    vstd::utf8::encode_utf8_decode_utf8(a);
    vstd::utf8::encode_utf8_decode_utf8(b);
}

/// Whether the identifier `a` comes before `b`.
pub fn id_before(a: &str, b: &str) -> (r: bool)
    ensures
        r == id_less(a@, b@),
{
    let x: &[u8] = a.as_bytes();
    let y: &[u8] = b.as_bytes();
    let mut i: usize = 0;
    assert(x@.skip(0) =~= x@ && y@.skip(0) =~= y@);
    while i < x.len() && i < y.len() && x[i] == y[i]
        invariant
            i <= x@.len(),
            i <= y@.len(),
            bytes_less(x@, y@) == bytes_less(x@.skip(i as int), y@.skip(i as int)),
        decreases x@.len() - i,
    {
        assert(x@.skip(i as int).drop_first() =~= x@.skip(i + 1));
        assert(y@.skip(i as int).drop_first() =~= y@.skip(i + 1));
        i += 1;
    }
    if i >= y.len() {
        false
    } else if i >= x.len() {
        true
    } else {
        x[i] < y[i]
    }
}

/// Snapshots of sub-components by their identifiers.
#[derive(Debug)]
pub struct SnapshotMap {
    entries: Vec<(String, Snapshot)>,
}

/// Whether the identifiers of the entries increase strictly.
spec fn ordered(entries: Seq<(String, Snapshot)>) -> bool {
    forall|i: int, j: int|
        0 <= i < j < entries.len() ==> #[trigger] id_less(entries[i].0@, entries[j].0@)
}

/// The place of the entry with the identifier `id`.
spec fn holds(entries: Seq<(String, Snapshot)>, id: Seq<char>, i: int) -> bool {
    0 <= i < entries.len() && entries[i].0@ == id
}

/// The map that the entries make.
spec fn entry_map(entries: Seq<(String, Snapshot)>) -> Map<Seq<char>, Snapshot> {
    Map::new(
        |id: Seq<char>| exists|i: int| holds(entries, id, i),
        |id: Seq<char>| entries[choose|i: int| holds(entries, id, i)].1,
    )
}

/// In ordered entries an identifier has one place.
proof fn lemma_one_place(entries: Seq<(String, Snapshot)>, id: Seq<char>, i: int, j: int)
    requires
        ordered(entries),
        holds(entries, id, i),
        holds(entries, id, j),
    ensures
        i == j,
{
    law_ids_totally_ordered(id, id, id);
    if i < j {
        assert(id_less(entries[i].0@, entries[j].0@));
    } else if j < i {
        assert(id_less(entries[j].0@, entries[i].0@));
    }
}

/// What the map of ordered entries holds of an identifier in place `i`.
proof fn lemma_entry(entries: Seq<(String, Snapshot)>, id: Seq<char>, i: int)
    requires
        ordered(entries),
        holds(entries, id, i),
    ensures
        entry_map(entries).dom().contains(id),
        entry_map(entries)[id] == entries[i].1,
{
    let chosen = choose|j: int| holds(entries, id, j);
    lemma_one_place(entries, id, i, chosen);
}

impl View for SnapshotMap {
    type V = Map<Seq<char>, Snapshot>;

    closed spec fn view(&self) -> Map<Seq<char>, Snapshot> {
        entry_map(self.entries@)
    }
}

impl SnapshotMap {
    #[verifier::type_invariant]
    spec fn inv(self) -> bool {
        ordered(self.entries@)
    }

    /// No snapshots.
    pub fn new() -> (r: Self)
        ensures
            r@ == Map::<Seq<char>, Snapshot>::empty(),
    {
        let r = SnapshotMap { entries: Vec::new() };
        assert(r@ =~= Map::<Seq<char>, Snapshot>::empty());
        r
    }

    /// The first place whose identifier does not come before `id`.
    fn place(&self, id: &str) -> (r: usize)
        ensures
            r <= self.entries@.len(),
            forall|i: int| 0 <= i < r ==> #[trigger] id_less(self.entries@[i].0@, id@),
            r < self.entries@.len() ==> !id_less(self.entries@[r as int].0@, id@),
    {
        let mut i: usize = 0;
        while i < self.entries.len() && id_before(self.entries[i].0.as_str(), id)
            invariant
                i <= self.entries@.len(),
                forall|j: int| 0 <= j < i ==> #[trigger] id_less(self.entries@[j].0@, id@),
            decreases self.entries@.len() - i,
        {
            i += 1;
        }
        i
    }

    /// The snapshot of the sub-component `id`.
    pub fn get(&self, id: &str) -> (r: Option<&Snapshot>)
        ensures
            match r {
                Some(v) => self@.dom().contains(id@) && self@[id@] == v,
                None => !self@.dom().contains(id@),
            },
    {
        proof {
            use_type_invariant(self);
        }
        let i: usize = self.place(id);
        if i < self.entries.len() && !id_before(id, self.entries[i].0.as_str()) {
            proof {
                law_ids_totally_ordered(self.entries@[i as int].0@, id@, id@);
                lemma_entry(self.entries@, id@, i as int);
            }
            Some(&self.entries[i].1)
        } else {
            proof {
                if self@.dom().contains(id@) {
                    let j = choose|j: int| holds(self.entries@, id@, j);
                    law_ids_totally_ordered(id@, id@, id@);
                    if j < i {
                        assert(id_less(self.entries@[j].0@, id@));
                    } else if j > i {
                        assert(id_less(self.entries@[i as int].0@, self.entries@[j].0@));
                    }
                }
            }
            None
        }
    }

    /// Makes `v` the snapshot of the sub-component `id` and returns the one it had before.
    pub fn insert(&mut self, id: String, v: Snapshot) -> (r: Option<Snapshot>)
        ensures
            final(self)@ == old(self)@.insert(id@, v),
            r == (if old(self)@.dom().contains(id@) {
                Some(old(self)@[id@])
            } else {
                None
            }),
    {
        proof {
            use_type_invariant(&*self);
        }
        let i: usize = self.place(id.as_str());
        let mut entries: Vec<(String, Snapshot)> = Vec::new();
        core::mem::swap(&mut entries, &mut self.entries);
        let ghost before = entries@;
        let ghost key = id@;
        let mut replaced: Option<Snapshot> = None;
        if i < entries.len() && !id_before(id.as_str(), entries[i].0.as_str()) {
            proof {
                law_ids_totally_ordered(before[i as int].0@, key, key);
                lemma_entry(before, key, i as int);
            }
            let (_, value) = entries.remove(i);
            replaced = Some(value);
        } else {
            proof {
                if entry_map(before).dom().contains(key) {
                    let j = choose|j: int| holds(before, key, j);
                    law_ids_totally_ordered(key, key, key);
                    if j < i {
                        assert(id_less(before[j].0@, key));
                    } else if j > i {
                        assert(id_less(before[i as int].0@, before[j].0@));
                    }
                }
            }
        }
        let ghost without = entries@;
        entries.insert(i, (id, v));
        let ghost after = entries@;
        proof {
            assert forall|a: int| 0 <= a < without.len() implies {
                &&& a < i ==> id_less(#[trigger] without[a].0@, key)
                &&& a >= i ==> id_less(key, without[a].0@)
            } by {
                if a >= i {
                    let b = if replaced is Some {
                        a + 1
                    } else {
                        a
                    };
                    assert(without[a] == before[b]);
                    if b > i {
                        assert(id_less(before[i as int].0@, before[b].0@));
                    }
                    law_ids_totally_ordered(before[i as int].0@, key, before[b].0@);
                    law_ids_totally_ordered(key, before[i as int].0@, before[b].0@);
                } else {
                    assert(without[a] == before[a]);
                    assert(id_less(before[a].0@, key));
                }
            }
            assert forall|a: int, b: int| 0 <= a < b < after.len() implies #[trigger] id_less(
                after[a].0@,
                after[b].0@,
            ) by {
                if a == i {
                    assert(after[b] == without[b - 1]);
                } else if b == i {
                    assert(after[a] == without[a]);
                } else {
                    let x = if a < i {
                        a
                    } else {
                        a - 1
                    };
                    let y = if b < i {
                        b
                    } else {
                        b - 1
                    };
                    assert(after[a] == without[x] && after[b] == without[y]);
                    let shift = |c: int| if replaced is Some && c >= i {
                        c + 1
                    } else {
                        c
                    };
                    assert(without[x] == before[shift(x)] && without[y] == before[shift(y)]);
                    assert(id_less(before[shift(x)].0@, before[shift(y)].0@));
                }
            }
            assert(ordered(after));
            assert(holds(after, key, i as int));
            lemma_entry(after, key, i as int);
            assert forall|k: Seq<char>| k != key implies #[trigger] entry_map(
                after,
            ).dom().contains(k) == entry_map(before).dom().contains(k) && (entry_map(
                before,
            ).dom().contains(k) ==> entry_map(after)[k] == entry_map(before)[k]) by {
                if entry_map(after).dom().contains(k) {
                    let a = choose|a: int| holds(after, k, a);
                    let b = if a < i {
                        a
                    } else if replaced is Some {
                        a
                    } else {
                        a - 1
                    };
                    assert(after[a] == before[b]);
                    assert(holds(before, k, b));
                }
                if entry_map(before).dom().contains(k) {
                    let b = choose|b: int| holds(before, k, b);
                    let a = if b < i {
                        b
                    } else if replaced is Some {
                        b
                    } else {
                        b + 1
                    };
                    assert(after[a] == before[b]);
                    assert(holds(after, k, a));
                    lemma_entry(after, k, a);
                    lemma_entry(before, k, b);
                }
            }
            let inserted = entry_map(before).insert(key, v);
            assert(entry_map(after).dom() =~= inserted.dom());
            assert(entry_map(after) =~= inserted);
        }
        self.entries = entries;
        replaced
    }

    /// The identifiers, in their order.
    pub fn ids(&self) -> (r: Vec<&str>)
        ensures
            forall|i: int, j: int| 0 <= i < j < r@.len() ==> #[trigger] id_less(r@[i]@, r@[j]@),
            forall|i: int| 0 <= i < r@.len() ==> self@.dom().contains(#[trigger] r@[i]@),
            forall|id: Seq<char>| #[trigger]
                self@.dom().contains(id) ==> exists|i: int| 0 <= i < r@.len() && r@[i]@ == id,
    {
        proof {
            use_type_invariant(self);
        }
        let mut r: Vec<&str> = Vec::new();
        let mut i: usize = 0;
        while i < self.entries.len()
            invariant
                i <= self.entries@.len(),
                r@.len() == i,
                forall|j: int| 0 <= j < i ==> #[trigger] r@[j]@ == self.entries@[j].0@,
            decreases self.entries@.len() - i,
        {
            r.push(self.entries[i].0.as_str());
            i += 1;
        }
        proof {
            assert forall|a: int, b: int| 0 <= a < b < r@.len() implies #[trigger] id_less(
                r@[a]@,
                r@[b]@,
            ) by {
                assert(id_less(self.entries@[a].0@, self.entries@[b].0@));
            }
            assert forall|a: int| 0 <= a < r@.len() implies self@.dom().contains(
                #[trigger] r@[a]@,
            ) by {
                assert(holds(self.entries@, r@[a]@, a));
            }
            assert forall|id: Seq<char>| #[trigger] self@.dom().contains(id) implies exists|a: int|
                0 <= a < r@.len() && r@[a]@ == id by {
                let a = choose|a: int| holds(self.entries@, id, a);
                assert(r@[a]@ == id);
            }
        }
        r
    }
}

/// Whether `a` and `b` are snapshots of the same component in the same state: their data is
/// the same text, and so for each sub-component.
pub closed spec fn same_snapshot(a: Snapshot, b: Snapshot) -> bool
    decreases a,
{
    &&& match (a.snapshot_data, b.snapshot_data) {
        (Some(x), Some(y)) => x@ == y@,
        (None, None) => true,
        _ => false,
    }
    &&& ordered(a.snapshots.entries@)
    &&& ordered(b.snapshots.entries@)
    &&& a.snapshots.entries@.len() == b.snapshots.entries@.len()
    &&& forall|i: int|
        0 <= i < a.snapshots.entries@.len() ==> (#[trigger] a.snapshots.entries@[i]).0@
            == b.snapshots.entries@[i].0@ && same_snapshot(
            a.snapshots.entries@[i].1,
            b.snapshots.entries@[i].1,
        )
}

impl SnapshotMap {
    fn copy(&self) -> (r: Self)
        ensures
            r.entries@.len() == self.entries@.len(),
            forall|i: int|
                0 <= i < self.entries@.len() ==> (#[trigger] self.entries@[i]).0@
                    == r.entries@[i].0@ && same_snapshot(
                    self.entries@[i].1,
                    r.entries@[i].1,
                ),
        decreases self,
    {
        proof {
            use_type_invariant(self);
        }
        let mut entries: Vec<(String, Snapshot)> = Vec::new();
        let mut i: usize = 0;
        while i < self.entries.len()
            invariant
                i <= self.entries@.len(),
                entries@.len() == i,
                forall|j: int|
                    0 <= j < i ==> (#[trigger] self.entries@[j]).0@ == entries@[j].0@
                        && same_snapshot(self.entries@[j].1, entries@[j].1),
            decreases self.entries@.len() - i,
        {
            let id: String = self.entries[i].0.clone();
            let snapshot: Snapshot = copy_snapshot(&self.entries[i].1);
            entries.push((id, snapshot));
            i += 1;
        }
        proof {
            assert forall|a: int, b: int| 0 <= a < b < entries@.len() implies #[trigger] id_less(
                entries@[a].0@,
                entries@[b].0@,
            ) by {
                assert(id_less(self.entries@[a].0@, self.entries@[b].0@));
            }
        }
        SnapshotMap { entries }
    }
}

fn copy_snapshot(snapshot: &Snapshot) -> (r: Snapshot)
    ensures
        same_snapshot(*snapshot, r),
    decreases snapshot,
{
    let snapshots: SnapshotMap = snapshot.snapshots.copy();
    proof {
        use_type_invariant(&snapshot.snapshots);
        use_type_invariant(&snapshots);
    }
    Snapshot {
        snapshots,
        snapshot_data: match &snapshot.snapshot_data {
            Some(data) => Some(data.clone()),
            None => None,
        },
    }
}

/// What it means that two snapshots are the same: both have data or neither has, the data is
/// the same text, they have the same sub-components, and so for the snapshots of each.
pub proof fn law_same_snapshot(a: Snapshot, b: Snapshot)
    requires
        same_snapshot(a, b),
    ensures
        a.snapshot_data is Some <==> b.snapshot_data is Some,
        a.snapshot_data is Some ==> a.snapshot_data->0@ == b.snapshot_data->0@,
        a.snapshots@.dom() == b.snapshots@.dom(),
        forall|id: Seq<char>| #[trigger]
            a.snapshots@.dom().contains(id) ==> same_snapshot(a.snapshots@[id], b.snapshots@[id]),
{
    let (x, y) = (a.snapshots.entries@, b.snapshots.entries@);
    assert forall|id: Seq<char>| entry_map(x).dom().contains(id) == #[trigger] entry_map(
        y,
    ).dom().contains(id) by {
        if entry_map(x).dom().contains(id) {
            let i = choose|i: int| holds(x, id, i);
            assert(x[i].0@ == id && holds(y, id, i));
        }
        if entry_map(y).dom().contains(id) {
            let i = choose|i: int| holds(y, id, i);
            assert(x[i].0@ == id && holds(x, id, i));
        }
    }
    assert(entry_map(x).dom() =~= entry_map(y).dom());
    assert forall|id: Seq<char>| #[trigger] entry_map(x).dom().contains(id) implies same_snapshot(
        entry_map(x)[id],
        entry_map(y)[id],
    ) by {
        let i = choose|i: int| holds(x, id, i);
        assert(x[i].0@ == id && holds(y, id, i));
        lemma_entry(x, id, i);
        lemma_entry(y, id, i);
    }
}

impl Clone for Snapshot {
    /// A snapshot of the same component in the same state.
    fn clone(&self) -> (r: Self)
        ensures
            same_snapshot(*self, r),
            r.snapshot_data is Some <==> self.snapshot_data is Some,
            r.snapshot_data is Some ==> r.snapshot_data->0@ == self.snapshot_data->0@,
            r.snapshots@.dom() == self.snapshots@.dom(),
            forall|id: Seq<char>| #[trigger]
                self.snapshots@.dom().contains(id) ==> same_snapshot(
                    self.snapshots@[id],
                    r.snapshots@[id],
                ),
    {
        let r: Snapshot = copy_snapshot(self);
        proof {
            law_same_snapshot(*self, r);
        }
        r
    }
}

/// Where two texts differ first decides their order: the one whose byte is smaller there, or that
/// ends there, comes before.
pub proof fn law_first_difference_decides(a: Seq<u8>, b: Seq<u8>, k: int)
    requires
        0 <= k <= a.len(),
        k <= b.len(),
        a.take(k) == b.take(k),
        k < a.len() && k < b.len() ==> a[k] != b[k],
    ensures
        k < a.len() && k < b.len() ==> (bytes_less(a, b) <==> a[k] < b[k]),
        k == a.len() ==> (bytes_less(a, b) <==> k < b.len()),
        k == b.len() ==> !bytes_less(a, b),
    decreases k,
{
    if k > 0 {
        assert(a[0] == a.take(k)[0] && b[0] == b.take(k)[0]);
        assert(a.drop_first().take(k - 1) =~= a.take(k).drop_first());
        assert(b.drop_first().take(k - 1) =~= b.take(k).drop_first());
        law_first_difference_decides(a.drop_first(), b.drop_first(), k - 1);
    }
}

/// Identifiers are ordered by the bytes of their UTF-8 encoding.
pub proof fn law_ids_ordered_by_bytes(a: Seq<char>, b: Seq<char>)
    ensures
        id_less(a, b) <==> bytes_less(vstd::utf8::encode_utf8(a), vstd::utf8::encode_utf8(b)),
{
}

} // verus!
