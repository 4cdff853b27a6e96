//! Registry-wide laws: what holds of every submission and of every store
//! state, proved once here against the contracts of the validation and
//! registry operations.

use vstd::prelude::*;
use crate::errors::RegistrationError;
use crate::music::{MusicDataView, TestDataView};
use crate::registry::{contains_id, ids_unique, owned_ids, record_for, register_decision};
use crate::validate::{
    entry_error, entry_ok, identifier_ok, lemma_first_entry_error, props_ok, SONG_MAX_PROPS,
    SRC_ID_MAX_LENGTH,
};

verus! {

/// An empty primary identifier is rejected with `IdentifierMissing`,
/// whatever the rest of the submission and whatever the store holds.
pub proof fn lemma_empty_identifier_rejected(
    rs: Seq<MusicDataView>,
    src_id: Seq<u8>,
    song_id: Option<Seq<u8>>,
    props: Option<Seq<TestDataView>>,
)
    requires
        src_id.len() == 0,
    ensures
        register_decision(rs, src_id, song_id, props) == Err::<(), RegistrationError>(
            RegistrationError::IdentifierMissing,
        ),
{
}

/// A primary identifier over the length bound is rejected with
/// `IdentifierTooLong`, whatever the rest of the submission and whatever
/// the store holds.
pub proof fn lemma_overlong_identifier_rejected(
    rs: Seq<MusicDataView>,
    src_id: Seq<u8>,
    song_id: Option<Seq<u8>>,
    props: Option<Seq<TestDataView>>,
)
    requires
        src_id.len() > SRC_ID_MAX_LENGTH,
    ensures
        register_decision(rs, src_id, song_id, props) == Err::<(), RegistrationError>(
            RegistrationError::IdentifierTooLong,
        ),
{
}

/// A submission whose primary identifier is already stored is rejected
/// with `IdentifierExists` whenever its own shape checks pass; by the
/// contract of `register_music`, the rejection leaves the store's
/// observable state exactly as it was.
pub proof fn lemma_duplicate_identifier_rejected(
    rs: Seq<MusicDataView>,
    src_id: Seq<u8>,
    song_id: Option<Seq<u8>>,
    props: Option<Seq<TestDataView>>,
)
    requires
        contains_id(rs, src_id),
        identifier_ok(src_id),
        song_id matches Some(s) ==> identifier_ok(s),
        props_ok(props),
    ensures
        register_decision(rs, src_id, song_id, props) == Err::<(), RegistrationError>(
            RegistrationError::IdentifierExists,
        ),
{
}

/// A metadata sequence with more entries than the cap is rejected with
/// `TooManyProperties`, whether or not its individual entries are within
/// bounds, whenever the identifiers pass their shape checks.
pub proof fn lemma_too_many_properties_rejected(
    rs: Seq<MusicDataView>,
    src_id: Seq<u8>,
    song_id: Option<Seq<u8>>,
    props: Option<Seq<TestDataView>>,
)
    requires
        identifier_ok(src_id),
        song_id matches Some(s) ==> identifier_ok(s),
        props is Some,
        props->0.len() > SONG_MAX_PROPS,
    ensures
        register_decision(rs, src_id, song_id, props) == Err::<(), RegistrationError>(
            RegistrationError::TooManyProperties,
        ),
{
}

/// When a metadata sequence within the entry cap has an out-of-bounds
/// entry, the first such entry — and, by the definition of `entry_error`,
/// its first out-of-bounds field in the order name, artist, composer,
/// lyricist, year — determines the reported error, whenever the
/// identifiers pass their shape checks.
pub proof fn lemma_first_violation_decides(
    rs: Seq<MusicDataView>,
    src_id: Seq<u8>,
    song_id: Option<Seq<u8>>,
    props: Option<Seq<TestDataView>>,
    k: int,
)
    requires
        identifier_ok(src_id),
        song_id matches Some(s) ==> identifier_ok(s),
        props is Some,
        props->0.len() <= SONG_MAX_PROPS,
        0 <= k < props->0.len(),
        !entry_ok(props->0[k]),
        forall|j: int| 0 <= j < k ==> entry_ok(#[trigger] props->0[j]),
    ensures
        register_decision(rs, src_id, song_id, props) == Err::<(), RegistrationError>(
            entry_error(props->0[k]),
        ),
{
    lemma_first_entry_error(props->0, k);
}

/// The records whose owner is `owner`, in insertion order.
pub open spec fn records_of_owner(rs: Seq<MusicDataView>, owner: u64) -> Seq<MusicDataView> {
    rs.filter(|r: MusicDataView| r.owner == owner)
}

/// The primary identifiers of a sequence of records, in order.
pub open spec fn src_ids_of(rs: Seq<MusicDataView>) -> Seq<Seq<u8>> {
    rs.map_values(|r: MusicDataView| r.src_id)
}

/// An owner's identifier list is the identifiers of its records, kept in
/// insertion order.
proof fn lemma_owned_ids_filter(rs: Seq<MusicDataView>, owner: u64)
    ensures
        owned_ids(rs, owner) == src_ids_of(records_of_owner(rs, owner)),
    decreases rs.len(),
{
    reveal(Seq::filter);
    if rs.len() == 0 {
        assert(owned_ids(rs, owner) =~= src_ids_of(records_of_owner(rs, owner)));
    } else {
        let prefix = rs.drop_last();
        lemma_owned_ids_filter(prefix, owner);
        if rs.last().owner == owner {
            assert(records_of_owner(rs, owner) == records_of_owner(prefix, owner).push(rs.last()));
            assert(src_ids_of(records_of_owner(rs, owner)) =~= src_ids_of(
                records_of_owner(prefix, owner),
            ).push(rs.last().src_id));
        } else {
            assert(records_of_owner(rs, owner) == records_of_owner(prefix, owner));
        }
    }
}

/// Every identifier in an owner's list belongs to a record with that
/// owner, and every record with that owner contributes its identifier.
proof fn lemma_owned_ids_membership(rs: Seq<MusicDataView>, owner: u64)
    ensures
        forall|k: int|
            0 <= k < owned_ids(rs, owner).len() ==> exists|i: int|
                0 <= i < rs.len() && (#[trigger] rs[i]).owner == owner && rs[i].src_id == (
                #[trigger] owned_ids(rs, owner)[k]),
        forall|i: int|
            0 <= i < rs.len() && (#[trigger] rs[i]).owner == owner ==> owned_ids(
                rs,
                owner,
            ).contains(rs[i].src_id),
    decreases rs.len(),
{
    if rs.len() > 0 {
        let prefix = rs.drop_last();
        let ids = owned_ids(rs, owner);
        let prefix_ids = owned_ids(prefix, owner);
        lemma_owned_ids_membership(prefix, owner);
        assert(forall|i: int| 0 <= i < prefix.len() ==> #[trigger] prefix[i] == rs[i]);
        assert forall|k: int| 0 <= k < ids.len() implies exists|i: int|
            0 <= i < rs.len() && (#[trigger] rs[i]).owner == owner && rs[i].src_id == (
            #[trigger] ids[k]) by {
            if rs.last().owner == owner && k == ids.len() - 1 {
                assert(rs[rs.len() - 1].owner == owner && rs[rs.len() - 1].src_id == ids[k]);
            } else {
                assert(ids[k] == prefix_ids[k]);
                let i = choose|i: int|
                    0 <= i < prefix.len() && (#[trigger] prefix[i]).owner == owner
                        && prefix[i].src_id == prefix_ids[k];
                assert(rs[i].owner == owner && rs[i].src_id == ids[k]);
            }
        }
        assert forall|i: int|
            0 <= i < rs.len() && (#[trigger] rs[i]).owner == owner implies ids.contains(
            rs[i].src_id,
        ) by {
            if i == rs.len() - 1 {
                assert(ids[ids.len() - 1] == rs[i].src_id);
            } else {
                assert(prefix[i].owner == owner);
                assert(prefix_ids.contains(prefix[i].src_id));
                let k = choose|k: int| 0 <= k < prefix_ids.len() && prefix_ids[k] == rs[i].src_id;
                assert(ids[k] == rs[i].src_id);
            }
        }
    }
}

/// Owner-index consistency: in any store with unique identifiers — which
/// the registry invariant guarantees after any sequence of successful
/// registrations — an owner's identifier list is exactly the identifiers
/// of the records whose owner it is, in insertion order: the list equals
/// those records' identifiers position by position, each listed identifier
/// is stored with that owner, and every record of that owner is listed.
pub proof fn lemma_owner_index_consistency(rs: Seq<MusicDataView>, owner: u64)
    requires
        ids_unique(rs),
    ensures
        owned_ids(rs, owner) == src_ids_of(records_of_owner(rs, owner)),
        forall|k: int|
            0 <= k < owned_ids(rs, owner).len() ==> contains_id(
                rs,
                #[trigger] owned_ids(rs, owner)[k],
            ) && record_for(rs, owned_ids(rs, owner)[k]).owner == owner,
        forall|i: int|
            0 <= i < rs.len() && (#[trigger] rs[i]).owner == owner ==> owned_ids(
                rs,
                owner,
            ).contains(rs[i].src_id),
{
    lemma_owned_ids_filter(rs, owner);
    lemma_owned_ids_membership(rs, owner);
    assert forall|k: int| 0 <= k < owned_ids(rs, owner).len() implies contains_id(
        rs,
        #[trigger] owned_ids(rs, owner)[k],
    ) && record_for(rs, owned_ids(rs, owner)[k]).owner == owner by {
        let id = owned_ids(rs, owner)[k];
        let i = choose|i: int|
            0 <= i < rs.len() && (#[trigger] rs[i]).owner == owner && rs[i].src_id == id;
        assert(contains_id(rs, id));
        let j = choose|j: int| 0 <= j < rs.len() && (#[trigger] rs[j]).src_id == id;
        if i != j {
            assert(rs[i].src_id == rs[j].src_id);
            assert(false);
        }
    }
}

} // verus!
