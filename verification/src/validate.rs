//! Validation of submissions — identifier shape checks and metadata bound
//! checks — applied before any record is built or stored, so that a failed
//! submission has no observable side effect.

use vstd::prelude::*;
use crate::errors::RegistrationError;
use crate::music::{entries_view, opt_props_view, TestData, TestDataView};

verus! {

/// Longest accepted primary identifier, in bytes.
pub const SRC_ID_MAX_LENGTH: usize = 36;
/// Longest accepted secondary identifier, in bytes.
pub const SONG_ID_MAX_LENGTH: usize = 36;
/// Longest accepted song name in a metadata entry, in bytes.
pub const SONG_NAME_MAX_LENGTH: usize = 20;
/// Longest accepted artist name in a metadata entry, in bytes.
pub const ARTIST_NAME_MAX_LENGTH: usize = 20;
/// Longest accepted composer name in a metadata entry, in bytes.
pub const COMPOSER_MAX_LENGTH: usize = 20;
/// Longest accepted lyricist name in a metadata entry, in bytes.
pub const LYRICIST_MAX_LENGTH: usize = 20;
/// Longest accepted year field in a metadata entry, in bytes.
pub const YOR_MAX_LENGTH: usize = 4;
/// Most metadata entries a single record may carry.
pub const SONG_MAX_PROPS: usize = 6;

/// An identifier passes the shape check when it is neither empty nor
/// longer than the identifier bound.
pub open spec fn identifier_ok(id: Seq<u8>) -> bool {
    1 <= id.len() <= SRC_ID_MAX_LENGTH
}

/// The error an identifier that fails the shape check is rejected with:
/// emptiness is reported before excessive length.
pub open spec fn identifier_error(id: Seq<u8>) -> RegistrationError {
    if id.len() == 0 {
        RegistrationError::IdentifierMissing
    } else {
        RegistrationError::IdentifierTooLong
    }
}

/// Checks the shape of a primary identifier: rejects an empty one with
/// `IdentifierMissing` and one over the length bound with `IdentifierTooLong`.
pub fn validate_src_id(src_id: &[u8]) -> (r: Result<(), RegistrationError>)
    ensures
        r is Ok <==> identifier_ok(src_id@),
        r matches Err(e) ==> e == identifier_error(src_id@),
{
    if src_id.len() == 0 {
        Err(RegistrationError::IdentifierMissing)
    } else if src_id.len() > SRC_ID_MAX_LENGTH {
        Err(RegistrationError::IdentifierTooLong)
    } else {
        Ok(())
    }
}

/// Checks the shape of a secondary identifier, under the same bounds and
/// with the same errors as the primary one.
pub fn validate_song_id(song_id: &[u8]) -> (r: Result<(), RegistrationError>)
    ensures
        r is Ok <==> identifier_ok(song_id@),
        r matches Err(e) ==> e == identifier_error(song_id@),
{
    if song_id.len() == 0 {
        Err(RegistrationError::IdentifierMissing)
    } else if song_id.len() > SONG_ID_MAX_LENGTH {
        Err(RegistrationError::IdentifierTooLong)
    } else {
        Ok(())
    }
}

/// A metadata entry is within bounds when each of its five fields is.
pub open spec fn entry_ok(e: TestDataView) -> bool {
    &&& e.name.len() <= SONG_NAME_MAX_LENGTH
    &&& e.artist.len() <= ARTIST_NAME_MAX_LENGTH
    &&& e.composer.len() <= COMPOSER_MAX_LENGTH
    &&& e.lyricist.len() <= LYRICIST_MAX_LENGTH
    &&& e.year.len() <= YOR_MAX_LENGTH
}

/// The error an out-of-bounds entry is rejected with: the first field, in
/// the order name, artist, composer, lyricist, year, that exceeds its bound
/// decides.
pub open spec fn entry_error(e: TestDataView) -> RegistrationError {
    if e.name.len() > SONG_NAME_MAX_LENGTH {
        RegistrationError::InvalidName
    } else if e.artist.len() > ARTIST_NAME_MAX_LENGTH {
        RegistrationError::InvalidArtist
    } else if e.composer.len() > COMPOSER_MAX_LENGTH {
        RegistrationError::InvalidComposer
    } else if e.lyricist.len() > LYRICIST_MAX_LENGTH {
        RegistrationError::InvalidLyricist
    } else {
        RegistrationError::InvalidYear
    }
}

/// Every entry of the sequence is within bounds.
pub open spec fn entries_ok(es: Seq<TestDataView>) -> bool {
    forall|i: int| 0 <= i < es.len() ==> entry_ok(#[trigger] es[i])
}

/// The error of the first out-of-bounds entry, walking the sequence in
/// order. Meaningful only when some entry is out of bounds.
pub open spec fn first_entry_error(es: Seq<TestDataView>) -> RegistrationError
    decreases es.len(),
{
    if es.len() == 0 {
        arbitrary()
    } else if !entry_ok(es[0]) {
        entry_error(es[0])
    } else {
        first_entry_error(es.drop_first())
    }
}

/// An optional metadata sequence passes validation when it is absent, or
/// when it has at most `SONG_MAX_PROPS` entries, each within bounds.
pub open spec fn props_ok(ps: Option<Seq<TestDataView>>) -> bool {
    match ps {
        None => true,
        Some(es) => es.len() <= SONG_MAX_PROPS && entries_ok(es),
    }
}

/// The error a failing metadata sequence is rejected with: too many
/// entries is reported before any per-field violation; otherwise the first
/// out-of-bounds entry decides. Meaningful only when `props_ok` fails.
pub open spec fn props_error(ps: Option<Seq<TestDataView>>) -> RegistrationError {
    match ps {
        None => arbitrary(),
        Some(es) => if es.len() > SONG_MAX_PROPS {
            RegistrationError::TooManyProperties
        } else {
            first_entry_error(es)
        },
    }
}

/// The first out-of-bounds entry determines the reported error: if entry
/// `k` is out of bounds and every entry before it is within bounds, the
/// sequence's error is entry `k`'s error (whose own definition settles the
/// field order: name, artist, composer, lyricist, year).
pub proof fn lemma_first_entry_error(es: Seq<TestDataView>, k: int)
    requires
        0 <= k < es.len(),
        !entry_ok(es[k]),
        forall|j: int| 0 <= j < k ==> entry_ok(#[trigger] es[j]),
    ensures
        !entries_ok(es),
        first_entry_error(es) == entry_error(es[k]),
    decreases k,
{
    if k == 0 {
    } else {
        assert(entry_ok(es[0]));
        assert(es.drop_first()[k - 1] == es[k]);
        assert(forall|j: int| 0 <= j < k - 1 ==> #[trigger] es.drop_first()[j] == es[j + 1]);
        lemma_first_entry_error(es.drop_first(), k - 1);
    }
}

/// Checks an optional metadata sequence: absence passes trivially; a
/// present sequence fails with `TooManyProperties` over the entry-count
/// bound, and otherwise with the field error of the first out-of-bounds
/// field of the first out-of-bounds entry, checking fields in the order
/// name, artist, composer, lyricist, year.
pub fn validate_song_props(props: &Option<Vec<TestData>>) -> (r: Result<(), RegistrationError>)
    ensures
        r is Ok <==> props_ok(opt_props_view(*props)),
        r matches Err(e) ==> e == props_error(opt_props_view(*props)),
{
    match props {
        None => Ok(()),
        Some(list) => {
            let ghost es = entries_view(list@);
            if list.len() > SONG_MAX_PROPS {
                return Err(RegistrationError::TooManyProperties);
            }
            let mut i: usize = 0;
            while i < list.len()
                invariant
                    0 <= i <= list.len(),
                    opt_props_view(*props) == Some(es),
                    es == entries_view(list@),
                    es.len() == list.len(),
                    es.len() <= SONG_MAX_PROPS,
                    forall|j: int| 0 <= j < i ==> entry_ok(#[trigger] es[j]),
                decreases list.len() - i,
            {
                let prop = &list[i];
                assert(es[i as int] == prop@);
                if prop.name().len() > SONG_NAME_MAX_LENGTH || prop.artist().len()
                    > ARTIST_NAME_MAX_LENGTH || prop.composer().len() > COMPOSER_MAX_LENGTH
                    || prop.lyricist().len() > LYRICIST_MAX_LENGTH || prop.year().len()
                    > YOR_MAX_LENGTH {
                    proof {
                        lemma_first_entry_error(es, i as int);
                    }
                    return Err(entry_error_exec(prop));
                }
                i = i + 1;
            }
            Ok(())
        },
    }
}

/// Reports the first out-of-bounds field of one entry, in the fixed field
/// order.
fn entry_error_exec(e: &TestData) -> (r: RegistrationError)
    requires
        !entry_ok(e@),
    ensures
        r == entry_error(e@),
{
    if e.name().len() > SONG_NAME_MAX_LENGTH {
        RegistrationError::InvalidName
    } else if e.artist().len() > ARTIST_NAME_MAX_LENGTH {
        RegistrationError::InvalidArtist
    } else if e.composer().len() > COMPOSER_MAX_LENGTH {
        RegistrationError::InvalidComposer
    } else if e.lyricist().len() > LYRICIST_MAX_LENGTH {
        RegistrationError::InvalidLyricist
    } else {
        RegistrationError::InvalidYear
    }
}

} // verus!
