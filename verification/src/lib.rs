//! A registration engine for music-rights records.
//!
//! A submission carries a primary identifier, an owner, an optional
//! secondary identifier and an optional sequence of metadata entries.
//! The library validates the submission against size and cardinality
//! bounds, guarantees global uniqueness of the primary identifier,
//! stores the record alongside an owner index, and reports the change
//! as a returned event value.

pub mod errors;
pub mod laws;
pub mod music;
pub mod registry;
pub mod validate;

pub use errors::RegistrationError;
pub use music::{MusicData, SongBuilder, TestData};
pub use registry::{Event, Registry};
pub use validate::{
    validate_song_id, validate_song_props, validate_src_id, SRC_ID_MAX_LENGTH,
    SONG_ID_MAX_LENGTH, SONG_NAME_MAX_LENGTH, ARTIST_NAME_MAX_LENGTH, COMPOSER_MAX_LENGTH,
    LYRICIST_MAX_LENGTH, YOR_MAX_LENGTH, SONG_MAX_PROPS,
};
