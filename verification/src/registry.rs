//! The registry store: a primary map from identifier to record and a
//! secondary index from owner to the identifiers it registered, kept
//! mutually consistent, plus the single registration entry point.

use vstd::prelude::*;
use vstd::slice::slice_to_vec;
use crate::errors::RegistrationError;
use crate::music::{
    opt_id_view, opt_props_view, MusicData, MusicDataView, SongBuilder, TestData, TestDataView,
};
use crate::validate::{
    identifier_error, identifier_ok, props_error, props_ok, validate_song_id, validate_song_props,
    validate_src_id,
};

verus! {

/// Some record of the sequence carries this primary identifier.
pub open spec fn contains_id(rs: Seq<MusicDataView>, id: Seq<u8>) -> bool {
    exists|i: int| 0 <= i < rs.len() && (#[trigger] rs[i]).src_id == id
}

/// The record carrying this primary identifier. Meaningful only when
/// `contains_id` holds; with unique identifiers it is the one such record.
pub open spec fn record_for(rs: Seq<MusicDataView>, id: Seq<u8>) -> MusicDataView {
    rs[choose|i: int| 0 <= i < rs.len() && (#[trigger] rs[i]).src_id == id]
}

/// No two records of the sequence share a primary identifier.
pub open spec fn ids_unique(rs: Seq<MusicDataView>) -> bool {
    forall|i: int, j: int|
        0 <= i < j < rs.len() ==> (#[trigger] rs[i]).src_id != (#[trigger] rs[j]).src_id
}

/// A record as the registry stores it: its identifiers pass the shape
/// checks and its metadata passes the bound checks.
pub open spec fn record_ok(r: MusicDataView) -> bool {
    &&& identifier_ok(r.src_id)
    &&& (r.song_id matches Some(s) ==> identifier_ok(s))
    &&& props_ok(r.props)
}

/// Every record of the sequence satisfies `record_ok`.
pub open spec fn records_ok(rs: Seq<MusicDataView>) -> bool {
    forall|i: int| 0 <= i < rs.len() ==> record_ok(#[trigger] rs[i])
}

/// The identifiers of the records owned by `owner`, in insertion order.
pub open spec fn owned_ids(rs: Seq<MusicDataView>, owner: u64) -> Seq<Seq<u8>>
    decreases rs.len(),
{
    if rs.len() == 0 {
        Seq::empty()
    } else if rs.last().owner == owner {
        owned_ids(rs.drop_last(), owner).push(rs.last().src_id)
    } else {
        owned_ids(rs.drop_last(), owner)
    }
}

/// The byte sequences a list of identifiers stands for.
pub open spec fn ids_view(ids: Seq<Vec<u8>>) -> Seq<Seq<u8>> {
    ids.map_values(|v: Vec<u8>| v@)
}

/// Appending a record extends its owner's identifier list by the record's
/// identifier and leaves every other owner's list unchanged.
pub proof fn lemma_owned_ids_push(rs: Seq<MusicDataView>, r: MusicDataView, owner: u64)
    ensures
        owned_ids(rs.push(r), owner) == (if r.owner == owner {
            owned_ids(rs, owner).push(r.src_id)
        } else {
            owned_ids(rs, owner)
        }),
{
    assert(rs.push(r).drop_last() =~= rs);
    assert(rs.push(r).last() == r);
}

/// An owner with no record has an empty identifier list.
pub proof fn lemma_owned_ids_absent(rs: Seq<MusicDataView>, owner: u64)
    requires
        forall|i: int| 0 <= i < rs.len() ==> (#[trigger] rs[i]).owner != owner,
    ensures
        owned_ids(rs, owner) == Seq::<Seq<u8>>::empty(),
    decreases rs.len(),
{
    if rs.len() > 0 {
        assert(forall|i: int|
            0 <= i < rs.drop_last().len() ==> (#[trigger] rs.drop_last()[i]).owner != owner);
        lemma_owned_ids_absent(rs.drop_last(), owner);
        assert(rs.last() == rs[rs.len() - 1]);
    } else {
        assert(owned_ids(rs, owner) =~= Seq::<Seq<u8>>::empty());
    }
}

/// What `register_music` decides for a submission against a given store
/// state: acceptance, or the error it is rejected with. The checks run in
/// a fixed order — primary identifier shape, secondary identifier shape,
/// metadata bounds, then uniqueness — and the first failing check decides.
pub open spec fn register_decision(
    rs: Seq<MusicDataView>,
    src_id: Seq<u8>,
    song_id: Option<Seq<u8>>,
    props: Option<Seq<TestDataView>>,
) -> Result<(), RegistrationError> {
    if !identifier_ok(src_id) {
        Err(identifier_error(src_id))
    } else if song_id is Some && !identifier_ok(song_id->0) {
        Err(identifier_error(song_id->0))
    } else if !props_ok(props) {
        Err(props_error(props))
    } else if contains_id(rs, src_id) {
        Err(RegistrationError::IdentifierExists)
    } else {
        Ok(())
    }
}

/// The record a successful submission is stored as.
pub open spec fn registered_record(
    src_id: Seq<u8>,
    owner: u64,
    song_id: Option<Seq<u8>>,
    props: Option<Seq<TestDataView>>,
    now: u64,
) -> MusicDataView {
    MusicDataView { src_id, owner, song_id, registered: now, props }
}

/// The notification a successful registration emits: the authenticated
/// submitter, the new record's primary identifier, its optional secondary
/// identifier, and its owner.
#[derive(Debug)]
pub enum Event {
    SrcCreated(u64, Vec<u8>, Option<Vec<u8>>, u64),
}

/// The mathematical value of an emitted notification.
pub ghost struct EventView {
    pub submitter: u64,
    pub src_id: Seq<u8>,
    pub song_id: Option<Seq<u8>>,
    pub owner: u64,
}

impl View for Event {
    type V = EventView;

    closed spec fn view(&self) -> EventView {
        match self {
            Event::SrcCreated(submitter, src_id, song_id, owner) => EventView {
                submitter: *submitter,
                src_id: src_id@,
                song_id: opt_id_view(*song_id),
                owner: *owner,
            },
        }
    }
}

/// One owner's entry of the secondary index: the identifiers the owner
/// registered, in insertion order.
struct OwnerEntry {
    owner: u64,
    ids: Vec<Vec<u8>>,
}

/// The byte sequences an index entry's identifier list stands for.
spec fn entry_ids(e: OwnerEntry) -> Seq<Seq<u8>> {
    ids_view(e.ids@)
}

/// The append-only registry: records keyed by their unique primary
/// identifier, with a secondary index from owner to identifiers. Its view
/// is the sequence of stored records in insertion order.
pub struct Registry {
    records: Vec<MusicData>,
    owner_index: Vec<OwnerEntry>,
}

impl View for Registry {
    type V = Seq<MusicDataView>;

    closed spec fn view(&self) -> Seq<MusicDataView> {
        self.records@.map_values(|m: MusicData| m@)
    }
}

impl Registry {
    /// The secondary index lists each owner at most once, each entry's
    /// identifiers are exactly the owner's records' identifiers in
    /// insertion order, and every stored record's owner has an entry.
    pub closed spec fn index_consistent(self) -> bool {
        &&& forall|k1: int, k2: int|
            0 <= k1 < k2 < self.owner_index@.len() ==> (#[trigger] self.owner_index@[k1]).owner
                != (#[trigger] self.owner_index@[k2]).owner
        &&& forall|k: int|
            0 <= k < self.owner_index@.len() ==> entry_ids(#[trigger] self.owner_index@[k])
                == owned_ids(self@, self.owner_index@[k].owner)
        &&& forall|i: int|
            0 <= i < self@.len() ==> exists|k: int|
                0 <= k < self.owner_index@.len() && (#[trigger] self.owner_index@[k]).owner == (
                #[trigger] self@[i]).owner
    }

    /// The registry's invariant: stored identifiers are unique, every
    /// stored record passed validation, and the owner index is consistent
    /// with the records.
    pub open spec fn wf(self) -> bool {
        &&& ids_unique(self@)
        &&& records_ok(self@)
        &&& self.index_consistent()
    }

    /// An empty registry.
    pub fn new() -> (r: Registry)
        ensures
            r.wf(),
            r@ == Seq::<MusicDataView>::empty(),
    {
        let r = Registry { records: Vec::new(), owner_index: Vec::new() };
        proof {
            assert(r@ =~= Seq::<MusicDataView>::empty());
        }
        r
    }

    /// Whether a record with this primary identifier is stored.
    pub fn contains(&self, src_id: &[u8]) -> (r: bool)
        ensures
            r == contains_id(self@, src_id@),
    {
        let mut i: usize = 0;
        while i < self.records.len()
            invariant
                0 <= i <= self.records@.len(),
                self@.len() == self.records@.len(),
                forall|j: int| 0 <= j < i ==> (#[trigger] self@[j]).src_id != src_id@,
            decreases self.records@.len() - i,
        {
            if ids_equal(self.records[i].src_id(), src_id) {
                assert(self@[i as int].src_id == src_id@);
                return true;
            }
            i = i + 1;
        }
        false
    }

    /// Rejects a primary identifier that is already registered, with
    /// `IdentifierExists`; accepts any other.
    pub fn validate_new_src_id(&self, src_id: &[u8]) -> (r: Result<(), RegistrationError>)
        ensures
            r is Ok <==> !contains_id(self@, src_id@),
            r matches Err(e) ==> e == RegistrationError::IdentifierExists,
    {
        if self.contains(src_id) {
            Err(RegistrationError::IdentifierExists)
        } else {
            Ok(())
        }
    }

    /// Point lookup by primary identifier: the stored record carrying it,
    /// or nothing when the identifier is unknown.
    pub fn get(&self, src_id: &[u8]) -> (r: Option<&MusicData>)
        requires
            self.wf(),
        ensures
            r is Some <==> contains_id(self@, src_id@),
            r matches Some(m) ==> m@ == record_for(self@, src_id@),
    {
        let mut i: usize = 0;
        while i < self.records.len()
            invariant
                self.wf(),
                0 <= i <= self.records@.len(),
                self@.len() == self.records@.len(),
                forall|j: int| 0 <= j < i ==> (#[trigger] self@[j]).src_id != src_id@,
            decreases self.records@.len() - i,
        {
            if ids_equal(self.records[i].src_id(), src_id) {
                proof {
                    assert(self@[i as int].src_id == src_id@);
                    let w = choose|n: int|
                        0 <= n < self@.len() && (#[trigger] self@[n]).src_id == src_id@;
                    if w != i as int {
                        assert(self@[w].src_id == self@[i as int].src_id);
                        assert(false);
                    }
                }
                return Some(&self.records[i]);
            }
            i = i + 1;
        }
        None
    }

    /// The owner of the record carrying this primary identifier, or
    /// nothing when the identifier is unknown.
    pub fn owner_of(&self, src_id: &[u8]) -> (r: Option<u64>)
        requires
            self.wf(),
        ensures
            r is Some <==> contains_id(self@, src_id@),
            r matches Some(o) ==> o == record_for(self@, src_id@).owner,
    {
        match self.get(src_id) {
            Some(m) => Some(m.owner()),
            None => None,
        }
    }

    /// The identifiers this owner registered, in insertion order; empty
    /// when the owner registered nothing.
    pub fn owned_by(&self, owner: u64) -> (r: Vec<Vec<u8>>)
        requires
            self.wf(),
        ensures
            ids_view(r@) == owned_ids(self@, owner),
    {
        match find_owner(&self.owner_index, owner) {
            Some(k) => {
                let r = clone_ids(&self.owner_index[k].ids);
                proof {
                    assert(ids_view(r@) == entry_ids(self.owner_index@[k as int]));
                }
                r
            },
            None => {
                proof {
                    assert forall|i: int| 0 <= i < self@.len() implies (#[trigger] self@[i]).owner
                        != owner by {
                        if self@[i].owner == owner {
                            let k = choose|k: int|
                                0 <= k < self.owner_index@.len() && (
                                #[trigger] self.owner_index@[k]).owner == self@[i].owner;
                            assert(self.owner_index@[k].owner != owner);
                        }
                    }
                    lemma_owned_ids_absent(self@, owner);
                }
                let r: Vec<Vec<u8>> = Vec::new();
                proof {
                    assert(ids_view(r@) =~= Seq::<Seq<u8>>::empty());
                }
                r
            },
        }
    }

    /// Stores a validated record whose identifier is not yet present,
    /// appending it to the primary map and to its owner's index entry as
    /// one logical step: no intermediate state is observable.
    pub fn insert(&mut self, record: MusicData)
        requires
            old(self).wf(),
            record_ok(record@),
            !contains_id(old(self)@, record@.src_id),
        ensures
            final(self).wf(),
            final(self)@ == old(self)@.push(record@),
    {
        let ghost rv = record@;
        let ghost rs0 = self@;
        let owner = record.owner();
        let id_copy = slice_to_vec(record.src_id());
        self.records.push(record);
        proof {
            assert(self@ =~= rs0.push(rv));
            assert forall|o: u64| #[trigger] owned_ids(rs0.push(rv), o) == (if rv.owner == o {
                owned_ids(rs0, o).push(rv.src_id)
            } else {
                owned_ids(rs0, o)
            }) by {
                lemma_owned_ids_push(rs0, rv, o);
            }
            assert forall|i: int, j: int| 0 <= i < j < self@.len() implies (
            #[trigger] self@[i]).src_id != (#[trigger] self@[j]).src_id by {
                if j == self@.len() - 1 {
                    if self@[i].src_id == rv.src_id {
                        assert(rs0[i].src_id == rv.src_id);
                        assert(contains_id(rs0, rv.src_id));
                    }
                }
            }
        }
        let ghost ix0 = self.owner_index@;
        match find_owner(&self.owner_index, owner) {
            Some(k) => {
                self.owner_index[k].ids.push(id_copy);
                proof {
                    let ix1 = self.owner_index@;
                    assert(ix1.len() == ix0.len());
                    assert(forall|j: int|
                        0 <= j < ix0.len() && j != k ==> #[trigger] ix1[j] == ix0[j]);
                    assert(ix1[k as int].owner == owner);
                    assert(entry_ids(ix1[k as int]) =~= entry_ids(ix0[k as int]).push(rv.src_id));
                    assert forall|j: int| 0 <= j < ix1.len() implies entry_ids(#[trigger] ix1[j])
                        == owned_ids(self@, ix1[j].owner) by {
                        if j == k {
                            assert(entry_ids(ix0[k as int]) == owned_ids(rs0, owner));
                        } else {
                            assert(ix0[j].owner != owner);
                        }
                    }
                    assert forall|i: int| 0 <= i < self@.len() implies exists|n: int|
                        0 <= n < ix1.len() && (#[trigger] ix1[n]).owner == (
                        #[trigger] self@[i]).owner by {
                        if i == self@.len() - 1 {
                            assert(ix1[k as int].owner == self@[i].owner);
                        } else {
                            let n = choose|n: int|
                                0 <= n < ix0.len() && (#[trigger] ix0[n]).owner == rs0[i].owner;
                            assert(ix1[n].owner == self@[i].owner);
                        }
                    }
                }
            },
            None => {
                let mut ids: Vec<Vec<u8>> = Vec::new();
                ids.push(id_copy);
                self.owner_index.push(OwnerEntry { owner, ids });
                proof {
                    let ix1 = self.owner_index@;
                    assert forall|i: int| 0 <= i < rs0.len() implies (#[trigger] rs0[i]).owner
                        != owner by {
                        if rs0[i].owner == owner {
                            let n = choose|n: int|
                                0 <= n < ix0.len() && (#[trigger] ix0[n]).owner == rs0[i].owner;
                            assert(ix0[n].owner != owner);
                        }
                    }
                    lemma_owned_ids_absent(rs0, owner);
                    assert(ix1.len() == ix0.len() + 1);
                    assert(forall|j: int| 0 <= j < ix0.len() ==> #[trigger] ix1[j] == ix0[j]);
                    assert(ix1.last().owner == owner);
                    assert(entry_ids(ix1.last()) =~= owned_ids(rs0, owner).push(rv.src_id));
                    assert forall|j: int| 0 <= j < ix1.len() implies entry_ids(#[trigger] ix1[j])
                        == owned_ids(self@, ix1[j].owner) by {
                        if j == ix1.len() - 1 {
                            assert(entry_ids(ix1[j]) == owned_ids(self@, owner));
                        } else {
                            assert(ix0[j].owner != owner);
                        }
                    }
                    assert forall|i: int| 0 <= i < self@.len() implies exists|n: int|
                        0 <= n < ix1.len() && (#[trigger] ix1[n]).owner == (
                        #[trigger] self@[i]).owner by {
                        if i == self@.len() - 1 {
                            assert(ix1[ix1.len() - 1].owner == self@[i].owner);
                        } else {
                            let n = choose|n: int|
                                0 <= n < ix0.len() && (#[trigger] ix0[n]).owner == rs0[i].owner;
                            assert(ix1[n].owner == self@[i].owner);
                        }
                    }
                }
            },
        }
        proof {
            assert(records_ok(self@)) by {
                assert(forall|i: int| 0 <= i < self@.len() - 1 ==> #[trigger] self@[i] == rs0[i]);
            }
        }
    }

    /// The sole entry point of the registration pipeline: validates the
    /// submission, and on acceptance stores the record — with the
    /// submitted fields verbatim and the collaborator clock's value as its
    /// timestamp — updates the owner index, and emits the notification. A
    /// rejected submission leaves the registry unchanged, so resubmitting
    /// invalid input any number of times never changes observable state.
    ///
    /// `submitter` is the authenticated identity resolved by the host;
    /// `now` is the collaborator clock's current value.
    pub fn register_music(
        &mut self,
        submitter: u64,
        src_id: Vec<u8>,
        song_id: Option<Vec<u8>>,
        owner: u64,
        props: Option<Vec<TestData>>,
        now: u64,
    ) -> (r: Result<Event, RegistrationError>)
        requires
            old(self).wf(),
        ensures
            final(self).wf(),
            ({
                let d = register_decision(
                    old(self)@,
                    src_id@,
                    opt_id_view(song_id),
                    opt_props_view(props),
                );
                match r {
                    Ok(ev) => {
                        &&& d is Ok
                        &&& final(self)@ == old(self)@.push(
                            registered_record(
                                src_id@,
                                owner,
                                opt_id_view(song_id),
                                opt_props_view(props),
                                now,
                            ),
                        )
                        &&& ev@ == (EventView {
                            submitter,
                            src_id: src_id@,
                            song_id: opt_id_view(song_id),
                            owner,
                        })
                    },
                    Err(e) => {
                        &&& d == Err::<(), RegistrationError>(e)
                        &&& final(self)@ == old(self)@
                    },
                }
            }),
    {
        match validate_src_id(src_id.as_slice()) {
            Err(e) => {
                return Err(e);
            },
            Ok(_) => {},
        }
        match &song_id {
            Some(s) => {
                match validate_song_id(s.as_slice()) {
                    Err(e) => {
                        return Err(e);
                    },
                    Ok(_) => {},
                }
            },
            None => {},
        }
        match validate_song_props(&props) {
            Err(e) => {
                return Err(e);
            },
            Ok(_) => {},
        }
        match self.validate_new_src_id(src_id.as_slice()) {
            Err(e) => {
                return Err(e);
            },
            Ok(_) => {},
        }
        let src_id_copy = slice_to_vec(src_id.as_slice());
        let song_id_copy = clone_opt_id(&song_id);
        let song = SongBuilder::default().verified_by(src_id).identified_by(song_id).owned_by(
            owner,
        ).registered_on(now).with_props(props).build();
        self.insert(song);
        Ok(Event::SrcCreated(submitter, src_id_copy, song_id_copy, owner))
    }
}

/// The position of an owner's entry in the index, when one exists.
fn find_owner(ix: &Vec<OwnerEntry>, owner: u64) -> (r: Option<usize>)
    ensures
        r matches Some(k) ==> 0 <= k < ix@.len() && ix@[k as int].owner == owner,
        r is None ==> forall|j: int| 0 <= j < ix@.len() ==> (#[trigger] ix@[j]).owner != owner,
{
    let mut k: usize = 0;
    while k < ix.len()
        invariant
            0 <= k <= ix@.len(),
            forall|j: int| 0 <= j < k ==> (#[trigger] ix@[j]).owner != owner,
        decreases ix@.len() - k,
    {
        if ix[k].owner == owner {
            return Some(k);
        }
        k = k + 1;
    }
    None
}

/// A verbatim copy of a list of identifiers.
fn clone_ids(ids: &Vec<Vec<u8>>) -> (r: Vec<Vec<u8>>)
    ensures
        ids_view(r@) == ids_view(ids@),
{
    let mut r: Vec<Vec<u8>> = Vec::new();
    let mut t: usize = 0;
    while t < ids.len()
        invariant
            0 <= t <= ids@.len(),
            r@.len() == t,
            forall|j: int| 0 <= j < t ==> (#[trigger] r@[j])@ == ids@[j]@,
        decreases ids@.len() - t,
    {
        r.push(slice_to_vec(ids[t].as_slice()));
        t = t + 1;
    }
    proof {
        assert(ids_view(r@) =~= ids_view(ids@));
    }
    r
}

/// A verbatim copy of an optional identifier.
fn clone_opt_id(o: &Option<Vec<u8>>) -> (r: Option<Vec<u8>>)
    ensures
        opt_id_view(r) == opt_id_view(*o),
{
    match o {
        None => None,
        Some(v) => Some(slice_to_vec(v.as_slice())),
    }
}

/// Byte-for-byte equality of two identifiers.
fn ids_equal(a: &[u8], b: &[u8]) -> (r: bool)
    ensures
        r == (a@ == b@),
{
    if a.len() != b.len() {
        return false;
    }
    let mut i: usize = 0;
    while i < a.len()
        invariant
            0 <= i <= a@.len(),
            a@.len() == b@.len(),
            forall|j: int| 0 <= j < i ==> a@[j] == b@[j],
        decreases a@.len() - i,
    {
        if a[i] != b[i] {
            return false;
        }
        i = i + 1;
    }
    proof {
        assert(a@ =~= b@);
    }
    true
}

} // verus!
