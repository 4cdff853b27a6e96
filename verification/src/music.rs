//! The persisted record, its metadata entries, and the builder that
//! assembles a record from validated inputs.

use vstd::prelude::*;
use vstd::slice::slice_to_vec;

verus! {

/// The mathematical value of one metadata entry: five byte sequences.
pub ghost struct TestDataView {
    pub name: Seq<u8>,
    pub artist: Seq<u8>,
    pub composer: Seq<u8>,
    pub lyricist: Seq<u8>,
    pub year: Seq<u8>,
}

/// One metadata entry of a record: a fixed tuple of opaque byte-sequence
/// fields describing the registered work. The fields carry no semantics
/// here beyond their length, which validation bounds.
pub struct TestData {
    name: Vec<u8>,
    artist: Vec<u8>,
    composer: Vec<u8>,
    lyricist: Vec<u8>,
    year: Vec<u8>,
}

impl View for TestData {
    type V = TestDataView;

    closed spec fn view(&self) -> TestDataView {
        TestDataView {
            name: self.name@,
            artist: self.artist@,
            composer: self.composer@,
            lyricist: self.lyricist@,
            year: self.year@,
        }
    }
}

impl TestData {
    /// Builds an entry from borrowed field values, copying each verbatim.
    pub fn new(name: &[u8], artist: &[u8], composer: &[u8], lyricist: &[u8], year: &[u8]) -> (r:
        Self)
        ensures
            r@ == (TestDataView {
                name: name@,
                artist: artist@,
                composer: composer@,
                lyricist: lyricist@,
                year: year@,
            }),
    {
        Self {
            name: slice_to_vec(name),
            artist: slice_to_vec(artist),
            composer: slice_to_vec(composer),
            lyricist: slice_to_vec(lyricist),
            year: slice_to_vec(year),
        }
    }

    /// The entry's name field.
    pub fn name(&self) -> (r: &[u8])
        ensures
            r@ == self@.name,
    {
        self.name.as_slice()
    }

    /// The entry's artist field.
    pub fn artist(&self) -> (r: &[u8])
        ensures
            r@ == self@.artist,
    {
        self.artist.as_slice()
    }

    /// The entry's composer field.
    pub fn composer(&self) -> (r: &[u8])
        ensures
            r@ == self@.composer,
    {
        self.composer.as_slice()
    }

    /// The entry's lyricist field.
    pub fn lyricist(&self) -> (r: &[u8])
        ensures
            r@ == self@.lyricist,
    {
        self.lyricist.as_slice()
    }

    /// The entry's year field.
    pub fn year(&self) -> (r: &[u8])
        ensures
            r@ == self@.year,
    {
        self.year.as_slice()
    }
}

/// The sequence of entry values a sequence of entries stands for.
pub open spec fn entries_view(s: Seq<TestData>) -> Seq<TestDataView> {
    s.map_values(|t: TestData| t@)
}

/// The value an optional metadata list stands for.
pub open spec fn opt_props_view(p: Option<Vec<TestData>>) -> Option<Seq<TestDataView>> {
    match p {
        Some(v) => Some(entries_view(v@)),
        None => None,
    }
}

/// The value an optional identifier stands for.
pub open spec fn opt_id_view(o: Option<Vec<u8>>) -> Option<Seq<u8>> {
    match o {
        Some(v) => Some(v@),
        None => None,
    }
}

/// The mathematical value of a record (and of a builder's state).
pub ghost struct MusicDataView {
    pub src_id: Seq<u8>,
    pub owner: u64,
    pub song_id: Option<Seq<u8>>,
    pub registered: u64,
    pub props: Option<Seq<TestDataView>>,
}

/// The persisted unit: a registered work. Immutable once stored; the
/// registry never updates or deletes a record.
pub struct MusicData {
    /// The primary identifier, unique across the registry.
    src_id: Vec<u8>,
    /// The account that owns the registered work.
    owner: u64,
    /// An optional secondary identifier (a standardized song code);
    /// carried verbatim, not required to be unique.
    song_id: Option<Vec<u8>>,
    /// The collaborator clock's value at the moment of acceptance.
    registered: u64,
    /// Optional descriptive entries, in caller order.
    props: Option<Vec<TestData>>,
}

impl View for MusicData {
    type V = MusicDataView;

    closed spec fn view(&self) -> MusicDataView {
        MusicDataView {
            src_id: self.src_id@,
            owner: self.owner,
            song_id: opt_id_view(self.song_id),
            registered: self.registered,
            props: opt_props_view(self.props),
        }
    }
}

impl MusicData {
    /// The record's primary identifier.
    pub fn src_id(&self) -> (r: &[u8])
        ensures
            r@ == self@.src_id,
    {
        self.src_id.as_slice()
    }

    /// The record's owner.
    pub fn owner(&self) -> (r: u64)
        ensures
            r == self@.owner,
    {
        self.owner
    }

    /// The record's optional secondary identifier.
    pub fn song_id(&self) -> (r: &Option<Vec<u8>>)
        ensures
            opt_id_view(*r) == self@.song_id,
    {
        &self.song_id
    }

    /// The timestamp captured when the record was accepted.
    pub fn registered(&self) -> (r: u64)
        ensures
            r == self@.registered,
    {
        self.registered
    }

    /// The record's optional metadata entries.
    pub fn props(&self) -> (r: &Option<Vec<TestData>>)
        ensures
            opt_props_view(*r) == self@.props,
    {
        &self.props
    }
}

/// Assembles a record incrementally from validated inputs plus
/// collaborator-supplied context. The builder performs no validation of
/// its own and never fails: a field left unset keeps its default value.
pub struct SongBuilder {
    src_id: Vec<u8>,
    song_id: Option<Vec<u8>>,
    owner: u64,
    props: Option<Vec<TestData>>,
    registered: u64,
}

impl View for SongBuilder {
    type V = MusicDataView;

    closed spec fn view(&self) -> MusicDataView {
        MusicDataView {
            src_id: self.src_id@,
            owner: self.owner,
            song_id: opt_id_view(self.song_id),
            registered: self.registered,
            props: opt_props_view(self.props),
        }
    }
}

impl Default for SongBuilder {
    /// A builder with every field at its default: empty identifier, owner
    /// zero, no secondary identifier, timestamp zero, no metadata.
    fn default() -> (r: Self)
        ensures
            r@ == (MusicDataView {
                src_id: Seq::<u8>::empty(),
                owner: 0,
                song_id: None,
                registered: 0,
                props: None,
            }),
    {
        SongBuilder {
            src_id: Vec::new(),
            song_id: None,
            owner: 0,
            props: None,
            registered: 0,
        }
    }
}

impl SongBuilder {
    /// Sets the primary identifier.
    pub fn verified_by(self, src_id: Vec<u8>) -> (r: Self)
        ensures
            r@ == (MusicDataView { src_id: src_id@, ..self@ }),
    {
        Self { src_id, ..self }
    }

    /// Sets the optional secondary identifier.
    pub fn identified_by(self, song_id: Option<Vec<u8>>) -> (r: Self)
        ensures
            r@ == (MusicDataView { song_id: opt_id_view(song_id), ..self@ }),
    {
        Self { song_id, ..self }
    }

    /// Sets the owner.
    pub fn owned_by(self, owner: u64) -> (r: Self)
        ensures
            r@ == (MusicDataView { owner, ..self@ }),
    {
        Self { owner, ..self }
    }

    /// Sets the optional metadata entries.
    pub fn with_props(self, props: Option<Vec<TestData>>) -> (r: Self)
        ensures
            r@ == (MusicDataView { props: opt_props_view(props), ..self@ }),
    {
        Self { props, ..self }
    }

    /// Sets the registration timestamp.
    pub fn registered_on(self, registered: u64) -> (r: Self)
        ensures
            r@ == (MusicDataView { registered, ..self@ }),
    {
        Self { registered, ..self }
    }

    /// Finalizes the record, carrying every accumulated field over verbatim.
    pub fn build(self) -> (r: MusicData)
        ensures
            r@ == self@,
    {
        MusicData {
            song_id: self.song_id,
            src_id: self.src_id,
            owner: self.owner,
            props: self.props,
            registered: self.registered,
        }
    }
}

} // verus!
