use rights_registry::music::{SongBuilder, TestData};

#[test]
fn builder_assembles_record_verbatim() {
    let song = SongBuilder::default()
        .verified_by(b"SRC-9".to_vec())
        .identified_by(Some(b"ISRC-9".to_vec()))
        .owned_by(7)
        .registered_on(123)
        .with_props(Some(vec![TestData::new(b"N", b"A", b"C", b"L", b"2020")]))
        .build();
    assert_eq!(song.src_id(), &b"SRC-9"[..]);
    assert_eq!(song.song_id().as_deref(), Some(&b"ISRC-9"[..]));
    assert_eq!(song.owner(), 7);
    assert_eq!(song.registered(), 123);
    let props = song.props().as_ref().unwrap();
    assert_eq!(props.len(), 1);
    assert_eq!(props[0].composer(), &b"C"[..]);
}

#[test]
fn builder_fields_default_when_unset() {
    let song = SongBuilder::default().build();
    assert_eq!(song.src_id(), &b""[..]);
    assert!(song.song_id().is_none());
    assert_eq!(song.owner(), 0);
    assert_eq!(song.registered(), 0);
    assert!(song.props().is_none());
}

#[test]
fn builder_accepts_fields_in_any_order() {
    let song = SongBuilder::default()
        .with_props(None)
        .registered_on(5)
        .owned_by(2)
        .identified_by(None)
        .verified_by(b"LAST".to_vec())
        .build();
    assert_eq!(song.src_id(), &b"LAST"[..]);
    assert_eq!(song.owner(), 2);
    assert_eq!(song.registered(), 5);
}

#[test]
fn later_setter_wins() {
    let song = SongBuilder::default()
        .verified_by(b"FIRST".to_vec())
        .verified_by(b"SECOND".to_vec())
        .build();
    assert_eq!(song.src_id(), &b"SECOND"[..]);
}
