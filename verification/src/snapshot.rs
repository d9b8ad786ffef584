//! Snapshots of components.

use vstd::prelude::*;

use crate::error::{RestoreError, SnapshotError};
use crate::snapshot_map::SnapshotMap;

verus! {

/// A section of a component's snapshot: its state, serialized as text.
#[derive(Debug)]
pub struct SnapshotData {
    state: String,
}

impl View for SnapshotData {
    type V = Seq<char>;

    closed spec fn view(&self) -> Seq<char> {
        self.state@
    }
}

/// The result of restoring a state of which `parsed` is the outcome of parsing.
pub open spec fn restore_result<T>(parsed: Result<T, serde_json::Error>) -> Result<
    T,
    RestoreError,
> {
    match parsed {
        Ok(state) => Ok(state),
        Err(e) => Err(RestoreError::Deserialize(e)),
    }
}

/// Whether `parse` can be called on the text `text`.
pub open spec fn can_parse<'a, T, F: FnOnce(&'a str) -> Result<T, serde_json::Error>>(
    parse: F,
    text: Seq<char>,
) -> bool {
    forall|s: &'a str| s@ == text ==> #[trigger] call_requires(parse, (s,))
}

/// Whether `r` is a result of restoring the text `text` with the parser `parse`.
pub open spec fn restored_from<'a, T, F: FnOnce(&'a str) -> Result<T, serde_json::Error>>(
    parse: F,
    text: Seq<char>,
    r: Result<T, RestoreError>,
) -> bool {
    exists|s: &'a str, parsed: Result<T, serde_json::Error>|
        s@ == text && #[trigger] call_ensures(parse, (s,), parsed) && r == restore_result(parsed)
}

/// Whether `serialize` made the text `text` of `state`.
pub open spec fn serialized_to<T, F: FnOnce(&T) -> Result<String, serde_json::Error>>(
    serialize: F,
    state: &T,
    text: Seq<char>,
) -> bool {
    exists|s: String|
        s@ == text && #[trigger] call_ensures(
            serialize,
            (state,),
            Ok::<String, serde_json::Error>(s),
        )
}

impl SnapshotData {
    /// Parses the state back out of the section.
    pub fn to_state<'a, T, F: FnOnce(&'a str) -> Result<T, serde_json::Error>>(
        &'a self,
        parse: F,
    ) -> (r: Result<T, RestoreError>)
        requires
            can_parse(parse, self@),
        ensures
            restored_from(parse, self@, r),
    {
        let text: &'a str = self.state.as_str();
        match parse(text) {
            Ok(state) => {
                assert(call_ensures(parse, (text,), Ok::<T, serde_json::Error>(state)));
                Ok(state)
            },
            Err(e) => {
                assert(call_ensures(parse, (text,), Err::<T, serde_json::Error>(e)));
                Err(RestoreError::Deserialize(e))
            },
        }
    }

    /// A section that holds `state`, serialized by `serialize`.
    pub fn new_from_state<T, F: FnOnce(&T) -> Result<String, serde_json::Error>>(
        state: &T,
        serialize: F,
    ) -> (r: Result<Self, SnapshotError>)
        requires
            call_requires(serialize, (state,)),
        ensures
            match r {
                Ok(data) => serialized_to(serialize, state, data@),
                Err(error) => error matches SnapshotError::Serialize(e) && call_ensures(
                    serialize,
                    (state,),
                    Err::<String, serde_json::Error>(e),
                ),
            },
    {
        match serialize(state) {
            Ok(state) => Ok(SnapshotData { state }),
            Err(e) => Err(SnapshotError::Serialize(e)),
        }
    }
}

impl Clone for SnapshotData {
    /// A section with the same text.
    fn clone(&self) -> (r: Self)
        ensures
            r@ == self@,
    {
        SnapshotData { state: self.state.clone() }
    }
}

impl Default for SnapshotData {
    /// A section with an empty text.
    fn default() -> (r: Self)
        ensures
            r@ == Seq::<char>::empty(),
    {
        SnapshotData { state: String::new() }
    }
}

/// The snapshot of a component.
///
/// Snapshots make a tree. Its leaves carry the components' data, and usually no snapshots of
/// their own. Its nodes keep track of their sub-components' snapshots, and usually carry no
/// data.
#[derive(Debug)]
pub struct Snapshot {
    /// The snapshots of the sub-components.
    pub snapshots: SnapshotMap,
    /// The component's own data.
    pub snapshot_data: Option<SnapshotData>,
}

impl Default for Snapshot {
    /// A snapshot without data and without sub-components.
    fn default() -> (r: Self)
        ensures
            r.snapshots@ == Map::<Seq<char>, Snapshot>::empty(),
            r.snapshot_data == None::<SnapshotData>,
    {
        Snapshot { snapshots: SnapshotMap::new(), snapshot_data: None }
    }
}

impl Snapshot {
    /// A snapshot with the data `data` and without sub-components.
    pub fn from_data(data: SnapshotData) -> (r: Self)
        ensures
            r.snapshots@ == Map::<Seq<char>, Snapshot>::empty(),
            r.snapshot_data == Some(data),
    {
        Snapshot { snapshots: SnapshotMap::new(), snapshot_data: Some(data) }
    }

    /// A snapshot whose data is `state`, serialized by `serialize`.
    pub fn new_from_state<T, F: FnOnce(&T) -> Result<String, serde_json::Error>>(
        state: &T,
        serialize: F,
    ) -> (r: Result<Self, SnapshotError>)
        requires
            call_requires(serialize, (state,)),
        ensures
            match r {
                Ok(snapshot) => {
                    &&& snapshot.snapshots@ == Map::<Seq<char>, Snapshot>::empty()
                    &&& snapshot.snapshot_data matches Some(data) && serialized_to(
                        serialize,
                        state,
                        data@,
                    )
                },
                Err(error) => error matches SnapshotError::Serialize(e) && call_ensures(
                    serialize,
                    (state,),
                    Err::<String, serde_json::Error>(e),
                ),
            },
    {
        match SnapshotData::new_from_state(state, serialize) {
            Ok(data) => Ok(Snapshot::from_data(data)),
            Err(e) => Err(e),
        }
    }

    /// Adds the snapshot of the sub-component `id`. It takes the place of one that was there.
    pub fn add_snapshot(&mut self, id: String, snapshot: Snapshot)
        ensures
            final(self).snapshots@ == old(self).snapshots@.insert(id@, snapshot),
            final(self).snapshot_data == old(self).snapshot_data,
    {
        let _ = self.snapshots.insert(id, snapshot);
    }

    /// Parses the state back out of the snapshot's data.
    pub fn to_state<'a, T, F: FnOnce(&'a str) -> Result<T, serde_json::Error>>(
        &'a self,
        parse: F,
    ) -> (r: Result<T, RestoreError>)
        requires
            self.snapshot_data matches Some(data) ==> can_parse(parse, data@),
        ensures
            match self.snapshot_data {
                Some(data) => restored_from(parse, data@, r),
                None => r == Err::<T, RestoreError>(RestoreError::MissingSnapshotData),
            },
    {
        match &self.snapshot_data {
            Some(data) => data.to_state(parse),
            None => Err(RestoreError::MissingSnapshotData),
        }
    }
}

/// The snapshot of the sub-component `id` of `snapshot`.
pub open spec fn sub_snapshot(snapshot: Option<&Snapshot>, id: Seq<char>) -> Option<Snapshot> {
    match snapshot {
        Some(s) => if s.snapshots@.dom().contains(id) {
            Some(s.snapshots@[id])
        } else {
            None
        },
        None => None,
    }
}

/// The snapshot of the sub-component `id`, if there is one.
pub fn snapshot_from_id<'a>(snapshot: Option<&'a Snapshot>, id: &str) -> (r: Option<&'a Snapshot>)
    ensures
        match r {
            Some(s) => sub_snapshot(snapshot, id@) == Some(*s),
            None => sub_snapshot(snapshot, id@) is None,
        },
{
    match snapshot {
        Some(s) => s.snapshots.get(id),
        None => None,
    }
}

/// The state of the sub-component `id`, parsed out of its snapshot, or nothing if there is no
/// such snapshot.
pub fn state_from_id<'a, T, F: FnOnce(&'a str) -> Result<T, serde_json::Error>>(
    s: Option<&'a Snapshot>,
    id: &str,
    parse: F,
) -> (r: Result<Option<T>, RestoreError>)
    requires
        sub_snapshot(s, id@) matches Some(sub) ==> (sub.snapshot_data matches Some(data)
            ==> can_parse(parse, data@)),
    ensures
        match sub_snapshot(s, id@) {
            None => r == Ok::<Option<T>, RestoreError>(None),
            Some(sub) => match sub.snapshot_data {
                None => r == Err::<Option<T>, RestoreError>(RestoreError::MissingSnapshotData),
                Some(data) => match r {
                    Ok(state) => state matches Some(state) && restored_from(
                        parse,
                        data@,
                        Ok::<T, RestoreError>(state),
                    ),
                    Err(e) => restored_from(parse, data@, Err::<T, RestoreError>(e)),
                },
            },
        },
{
    match snapshot_from_id(s, id) {
        None => Ok(None),
        Some(sub) => match sub.to_state(parse) {
            Ok(state) => Ok(Some(state)),
            Err(e) => Err(e),
        },
    }
}

/// A sub-component's snapshot is found under its identifier after it was added, and adding
/// it leaves the other sub-components' snapshots as they were.
pub proof fn law_added_snapshot_found(
    before: Snapshot,
    after: Snapshot,
    id: Seq<char>,
    added: Snapshot,
    other: Seq<char>,
)
    requires
        after.snapshots@ == before.snapshots@.insert(id, added),
    ensures
        sub_snapshot(Some(&after), id) == Some(added),
        other != id ==> sub_snapshot(Some(&after), other) == sub_snapshot(Some(&before), other),
{
}

/// What a parser makes of a snapshot's text is what it makes of the text that the serializer
/// made of the state: where parsing undoes serializing, a restored state is the one that was
/// saved.
pub proof fn law_saved_state_restored<
    'a,
    T,
    S: FnOnce(&T) -> Result<String, serde_json::Error>,
    F: FnOnce(&'a str) -> Result<T, serde_json::Error>,
>(serialize: S, parse: F, state: T, text: Seq<char>, r: Result<T, RestoreError>)
    requires
        serialized_to(serialize, &state, text),
        restored_from(parse, text, r),
        forall|made: String, s: &'a str, parsed: Result<T, serde_json::Error>|
            #![trigger call_ensures(serialize, (&state,), Ok::<String, serde_json::Error>(made)), call_ensures(parse, (s,), parsed)]
            call_ensures(serialize, (&state,), Ok::<String, serde_json::Error>(made)) && s@ == made@
                && call_ensures(parse, (s,), parsed) ==> parsed == Ok::<T, serde_json::Error>(
                state,
            ),
    ensures
        r == Ok::<T, RestoreError>(state),
{
}

/// A restored state is what the parser made of the snapshot's text, and a failure to restore is
/// the parser's own.
pub proof fn law_restored_is_parsed<'a, T, F: FnOnce(&'a str) -> Result<T, serde_json::Error>>(
    parse: F,
    text: Seq<char>,
    r: Result<T, RestoreError>,
)
    requires
        restored_from(parse, text, r),
    ensures
        exists|s: &'a str, parsed: Result<T, serde_json::Error>|
            {
                &&& s@ == text
                &&& #[trigger] call_ensures(parse, (s,), parsed)
                &&& parsed matches Ok(state) ==> r == Ok::<T, RestoreError>(state)
                &&& parsed matches Err(e) ==> r == Err::<T, RestoreError>(
                    RestoreError::Deserialize(e),
                )
            },
{
}

/// The text of a snapshot's data is what the serializer made of the state.
pub proof fn law_text_is_serialized<T, F: FnOnce(&T) -> Result<String, serde_json::Error>>(
    serialize: F,
    state: &T,
    text: Seq<char>,
)
    requires
        serialized_to(serialize, state, text),
    ensures
        exists|s: String|
            s@ == text && #[trigger] call_ensures(
                serialize,
                (state,),
                Ok::<String, serde_json::Error>(s),
            ),
{
}

/// A sub-component's snapshot is the one that the component's snapshot holds under exactly its
/// identifier; a component without a snapshot has none.
pub proof fn law_sub_snapshot(snapshot: Option<&Snapshot>, id: Seq<char>)
    ensures
        snapshot is None ==> sub_snapshot(snapshot, id) is None,
        snapshot matches Some(s) ==> {
            &&& sub_snapshot(snapshot, id) is Some <==> s.snapshots@.dom().contains(id)
            &&& sub_snapshot(snapshot, id) matches Some(sub) ==> sub == s.snapshots@[id]
        },
{
}

} // verus!
