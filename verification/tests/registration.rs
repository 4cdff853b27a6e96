use rights_registry::errors::RegistrationError;
use rights_registry::registry::{Event, Registry};

fn id(bytes: &[u8]) -> Vec<u8> {
    bytes.to_vec()
}

#[test]
fn register_accepts_and_stores() {
    let alice: u64 = 1;
    let mut reg = Registry::new();
    let r = reg.register_music(alice, id(b"ABC123"), None, alice, None, 42);
    assert!(r.is_ok());
    let rec = reg.get(b"ABC123").expect("record should be stored");
    assert_eq!(rec.owner(), alice);
    assert!(rec.props().is_none());
    assert_eq!(rec.src_id(), &b"ABC123"[..]);
    assert!(rec.song_id().is_none());
    assert_eq!(rec.registered(), 42);
}

#[test]
fn register_emits_event() {
    let submitter: u64 = 9;
    let owner: u64 = 3;
    let mut reg = Registry::new();
    let ev = reg
        .register_music(submitter, id(b"EV1"), Some(id(b"ISRC-1")), owner, None, 7)
        .unwrap();
    match ev {
        Event::SrcCreated(who, src_id, song_id, o) => {
            assert_eq!(who, submitter);
            assert_eq!(src_id, id(b"EV1"));
            assert_eq!(song_id, Some(id(b"ISRC-1")));
            assert_eq!(o, owner);
        }
    }
}

#[test]
fn empty_identifier_rejected() {
    let alice: u64 = 1;
    let mut reg = Registry::new();
    let r = reg.register_music(alice, id(b""), None, alice, None, 42);
    assert_eq!(r.unwrap_err(), RegistrationError::IdentifierMissing);
    assert!(!reg.contains(b""));
    assert!(reg.get(b"").is_none());
}

#[test]
fn identifier_length_boundary() {
    let alice: u64 = 1;
    let mut reg = Registry::new();
    let longest = vec![b'a'; 36];
    assert!(reg
        .register_music(alice, longest.clone(), None, alice, None, 0)
        .is_ok());
    assert!(reg.contains(&longest));

    let too_long = vec![b'a'; 37];
    let r = reg.register_music(alice, too_long.clone(), None, alice, None, 0);
    assert_eq!(r.unwrap_err(), RegistrationError::IdentifierTooLong);
    assert!(!reg.contains(&too_long));
}

#[test]
fn duplicate_identifier_rejected() {
    let alice: u64 = 1;
    let bob: u64 = 2;
    let mut reg = Registry::new();
    assert!(reg
        .register_music(alice, id(b"SONG1"), None, alice, None, 1)
        .is_ok());
    let second = reg.register_music(bob, id(b"SONG1"), None, bob, None, 2);
    assert_eq!(second.unwrap_err(), RegistrationError::IdentifierExists);
    let rec = reg.get(b"SONG1").expect("first record should remain");
    assert_eq!(rec.owner(), alice);
    assert_eq!(rec.registered(), 1);
}

#[test]
fn secondary_identifier_validated() {
    let alice: u64 = 1;
    let mut reg = Registry::new();

    let r = reg.register_music(alice, id(b"A1"), Some(id(b"")), alice, None, 0);
    assert_eq!(r.unwrap_err(), RegistrationError::IdentifierMissing);
    assert!(!reg.contains(b"A1"));

    let r = reg.register_music(alice, id(b"A1"), Some(vec![b'x'; 37]), alice, None, 0);
    assert_eq!(r.unwrap_err(), RegistrationError::IdentifierTooLong);
    assert!(!reg.contains(b"A1"));

    let r = reg.register_music(alice, id(b"A1"), Some(id(b"ISWC-7")), alice, None, 0);
    assert!(r.is_ok());
    let rec = reg.get(b"A1").unwrap();
    assert_eq!(rec.song_id().as_deref(), Some(&b"ISWC-7"[..]));
}

#[test]
fn failed_registration_changes_nothing_however_often() {
    let alice: u64 = 1;
    let mut reg = Registry::new();
    assert!(reg
        .register_music(alice, id(b"KEEP"), None, alice, None, 5)
        .is_ok());
    for _ in 0..5 {
        let r = reg.register_music(alice, id(b""), None, alice, None, 6);
        assert_eq!(r.unwrap_err(), RegistrationError::IdentifierMissing);
        let r = reg.register_music(alice, id(b"KEEP"), None, alice, None, 6);
        assert_eq!(r.unwrap_err(), RegistrationError::IdentifierExists);
    }
    assert_eq!(reg.owned_by(alice), vec![id(b"KEEP")]);
    assert_eq!(reg.get(b"KEEP").unwrap().registered(), 5);
}

#[test]
fn owner_index_follows_registrations() {
    let alice: u64 = 1;
    let bob: u64 = 2;
    let carol: u64 = 3;
    let mut reg = Registry::new();
    assert!(reg.register_music(alice, id(b"R1"), None, alice, None, 0).is_ok());
    assert!(reg.register_music(bob, id(b"R2"), None, bob, None, 0).is_ok());
    assert!(reg.register_music(alice, id(b"R3"), None, alice, None, 0).is_ok());
    assert!(reg.register_music(alice, id(b"R4"), None, alice, None, 0).is_ok());

    assert_eq!(reg.owned_by(alice), vec![id(b"R1"), id(b"R3"), id(b"R4")]);
    assert_eq!(reg.owned_by(bob), vec![id(b"R2")]);
    assert_eq!(reg.owned_by(carol), Vec::<Vec<u8>>::new());

    for sid in [&b"R1"[..], &b"R3"[..], &b"R4"[..]] {
        assert_eq!(reg.get(sid).unwrap().owner(), alice);
        assert_eq!(reg.owner_of(sid), Some(alice));
    }
    assert_eq!(reg.owner_of(b"R2"), Some(bob));
    assert_eq!(reg.owner_of(b"R9"), None);
}

#[test]
fn validate_new_src_id_tracks_store() {
    let alice: u64 = 1;
    let mut reg = Registry::new();
    assert!(reg.validate_new_src_id(b"N1").is_ok());
    assert!(reg.register_music(alice, id(b"N1"), None, alice, None, 0).is_ok());
    assert_eq!(
        reg.validate_new_src_id(b"N1").unwrap_err(),
        RegistrationError::IdentifierExists
    );
    assert!(reg.validate_new_src_id(b"N2").is_ok());
}
