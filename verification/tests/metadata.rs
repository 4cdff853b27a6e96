use rights_registry::errors::RegistrationError;
use rights_registry::music::TestData;
use rights_registry::registry::Registry;
use rights_registry::validate::{validate_song_props, validate_song_id, validate_src_id};

fn entry() -> TestData {
    TestData::new(b"Name", b"Artist", b"Composer", b"Lyricist", b"1999")
}

fn register_with_props(props: Vec<TestData>) -> Result<(), RegistrationError> {
    let mut reg = Registry::new();
    reg.register_music(1, b"WORK1".to_vec(), None, 1, Some(props), 0)
        .map(|_| ())
}

#[test]
fn entry_fields_are_kept_verbatim() {
    let e = entry();
    assert_eq!(e.name(), &b"Name"[..]);
    assert_eq!(e.artist(), &b"Artist"[..]);
    assert_eq!(e.composer(), &b"Composer"[..]);
    assert_eq!(e.lyricist(), &b"Lyricist"[..]);
    assert_eq!(e.year(), &b"1999"[..]);
}

#[test]
fn metadata_is_stored_in_order() {
    let mut reg = Registry::new();
    let props = vec![
        TestData::new(b"One", b"A", b"C", b"L", b"2001"),
        TestData::new(b"Two", b"B", b"D", b"M", b"2002"),
    ];
    assert!(reg.register_music(1, b"M1".to_vec(), None, 1, Some(props), 0).is_ok());
    let stored = reg.get(b"M1").unwrap().props().as_ref().unwrap();
    assert_eq!(stored.len(), 2);
    assert_eq!(stored[0].name(), &b"One"[..]);
    assert_eq!(stored[0].year(), &b"2001"[..]);
    assert_eq!(stored[1].name(), &b"Two"[..]);
    assert_eq!(stored[1].artist(), &b"B"[..]);
}

#[test]
fn entry_count_boundary() {
    let six: Vec<TestData> = (0..6).map(|_| entry()).collect();
    assert!(register_with_props(six).is_ok());

    let seven: Vec<TestData> = (0..7).map(|_| entry()).collect();
    assert_eq!(
        register_with_props(seven).unwrap_err(),
        RegistrationError::TooManyProperties
    );
}

#[test]
fn too_many_entries_reported_before_field_errors() {
    let mut props: Vec<TestData> = (0..7).map(|_| entry()).collect();
    props.push(TestData::new(&[b'n'; 21], b"A", b"C", b"L", b"2001"));
    assert_eq!(
        register_with_props(props).unwrap_err(),
        RegistrationError::TooManyProperties
    );
}

#[test]
fn overlong_artist_rejected() {
    let bad = TestData::new(b"Name", &[b'a'; 25], b"C", b"L", b"2001");
    let mut reg = Registry::new();
    let r = reg.register_music(1, b"WORK2".to_vec(), None, 1, Some(vec![bad]), 0);
    assert_eq!(r.unwrap_err(), RegistrationError::InvalidArtist);
    assert!(!reg.contains(b"WORK2"));
    assert_eq!(reg.owned_by(1), Vec::<Vec<u8>>::new());
}

#[test]
fn each_field_bound_is_enforced() {
    let cases: Vec<(TestData, RegistrationError)> = vec![
        (
            TestData::new(&[b'n'; 21], b"A", b"C", b"L", b"2001"),
            RegistrationError::InvalidName,
        ),
        (
            TestData::new(b"N", &[b'a'; 21], b"C", b"L", b"2001"),
            RegistrationError::InvalidArtist,
        ),
        (
            TestData::new(b"N", b"A", &[b'c'; 21], b"L", b"2001"),
            RegistrationError::InvalidComposer,
        ),
        (
            TestData::new(b"N", b"A", b"C", &[b'l'; 21], b"2001"),
            RegistrationError::InvalidLyricist,
        ),
        (
            TestData::new(b"N", b"A", b"C", b"L", b"20011"),
            RegistrationError::InvalidYear,
        ),
    ];
    for (bad, expected) in cases {
        assert_eq!(register_with_props(vec![bad]).unwrap_err(), expected);
    }
}

#[test]
fn field_bounds_are_inclusive() {
    let longest = TestData::new(
        &[b'n'; 20],
        &[b'a'; 20],
        &[b'c'; 20],
        &[b'l'; 20],
        &[b'y'; 4],
    );
    assert!(register_with_props(vec![longest]).is_ok());
}

#[test]
fn empty_fields_are_permitted() {
    let empty = TestData::new(b"", b"", b"", b"", b"");
    assert!(register_with_props(vec![empty]).is_ok());
}

#[test]
fn first_violation_in_entry_order_decides() {
    let good = entry();
    let bad_year = TestData::new(b"N", b"A", b"C", b"L", b"20011");
    let bad_name = TestData::new(&[b'n'; 21], b"A", b"C", b"L", b"2001");
    assert_eq!(
        register_with_props(vec![good, bad_year, bad_name]).unwrap_err(),
        RegistrationError::InvalidYear
    );
}

#[test]
fn first_violation_in_field_order_decides() {
    let bad_both = TestData::new(&[b'n'; 21], b"A", b"C", b"L", b"20011");
    assert_eq!(
        register_with_props(vec![bad_both]).unwrap_err(),
        RegistrationError::InvalidName
    );
    let bad_artist_and_year = TestData::new(b"N", &[b'a'; 21], b"C", b"L", b"20011");
    assert_eq!(
        register_with_props(vec![bad_artist_and_year]).unwrap_err(),
        RegistrationError::InvalidArtist
    );
}

#[test]
fn validators_agree_with_pipeline() {
    assert!(validate_src_id(b"ok").is_ok());
    assert_eq!(
        validate_src_id(b"").unwrap_err(),
        RegistrationError::IdentifierMissing
    );
    assert_eq!(
        validate_src_id(&[b'x'; 37]).unwrap_err(),
        RegistrationError::IdentifierTooLong
    );
    assert!(validate_song_id(&[b'x'; 36]).is_ok());
    assert_eq!(
        validate_song_id(b"").unwrap_err(),
        RegistrationError::IdentifierMissing
    );
    assert!(validate_song_props(&None).is_ok());
    assert!(validate_song_props(&Some(vec![entry()])).is_ok());
    assert_eq!(
        validate_song_props(&Some(vec![TestData::new(b"N", b"A", b"C", b"L", b"20011")]))
            .unwrap_err(),
        RegistrationError::InvalidYear
    );
}
