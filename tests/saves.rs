use game_core::game::character::{FatalError, SaveFile, StartGameEvent};
use game_core::storage::saves::{Attributes, SaveData, SaveDataBuilder, SaveError};

fn bob() -> SaveData {
    SaveDataBuilder::new().name("Bob".to_string()).attributes(Attributes::default()).build()
}

#[test]
fn default_attributes_are_all_one() {
    let a = Attributes::default();
    for v in [a.vitality, a.endurance, a.strength, a.dexterity, a.agility, a.intelligence, a.wisdom, a.mind] {
        assert_eq!(v, 1);
    }
}

#[test]
fn builder_sets_latest_version_and_fields() {
    let d = bob();
    assert_eq!(d.version, SaveData::LATEST);
    assert_eq!(d.version, 1);
    assert_eq!(d.name, "Bob");
    assert_eq!(d.attributes, Attributes::default());
    let empty = SaveDataBuilder::new().build();
    assert_eq!(empty.name, "");
}

#[test]
fn save_round_trip_reproduces_record() {
    let d = bob();
    let bytes = d.to_bytes().unwrap();
    let back = SaveData::from_bytes(&bytes).unwrap();
    assert_eq!(back, d);
}

#[test]
fn save_bytes_layout() {
    let bytes = bob().to_bytes().unwrap();
    let mut expected = vec![1u8, 0, 3, 0, 0, 0, 0, 0, 0, 0, b'B', b'o', b'b'];
    for _ in 0..8 {
        expected.extend_from_slice(&[1, 0, 0, 0]);
    }
    assert_eq!(bytes, expected);
}

#[test]
fn round_trip_keeps_distinct_stats() {
    let a = Attributes {
        vitality: 10,
        endurance: 20,
        strength: 30,
        dexterity: 40,
        agility: 50,
        intelligence: 60,
        wisdom: 70,
        mind: 0xdead_beef,
    };
    let d = SaveDataBuilder::new().name("Zoë".to_string()).attributes(a).build();
    let back = SaveData::from_bytes(&d.to_bytes().unwrap()).unwrap();
    assert_eq!(back.attributes, a);
    assert_eq!(back.name, "Zoë");
}

#[test]
fn other_version_is_rejected() {
    let mut d = bob();
    d.version = 2;
    let bytes = d.to_bytes().unwrap();
    assert_eq!(SaveData::from_bytes(&bytes), Err(SaveError::VersionMismatch { found: 2 }));
    d.version = 0;
    let bytes = d.to_bytes().unwrap();
    assert_eq!(SaveData::from_bytes(&bytes), Err(SaveError::VersionMismatch { found: 0 }));
}

#[test]
fn check_version_accepts_only_latest() {
    assert_eq!(bob().check_version(), Ok(bob()));
    let mut d = bob();
    d.version = 7;
    assert_eq!(d.check_version(), Err(SaveError::VersionMismatch { found: 7 }));
}

#[test]
fn truncated_bytes_are_corrupt() {
    let bytes = bob().to_bytes().unwrap();
    assert_eq!(SaveData::from_bytes(&bytes[..bytes.len() - 1]), Err(SaveError::Corrupt));
    assert_eq!(SaveData::from_bytes(&[]), Err(SaveError::Corrupt));
}

#[test]
fn start_without_character_is_fatal() {
    let r = StartGameEvent::handle(None, SaveFile::Absent);
    assert_eq!(r, Err(FatalError::NoCharacter));
}

#[test]
fn start_new_character_gets_defaults() {
    let ev = StartGameEvent { name: "Alice".to_string() };
    let loaded = StartGameEvent::handle(Some(&ev), SaveFile::Absent).unwrap();
    assert_eq!(loaded.data().name, "Alice");
    assert_eq!(loaded.data().version, 1);
    assert_eq!(loaded.data().attributes, Attributes::default());
}

#[test]
fn start_with_unreadable_file_is_fatal() {
    let ev = StartGameEvent { name: "Bob".to_string() };
    assert_eq!(StartGameEvent::handle(Some(&ev), SaveFile::Unreadable), Err(FatalError::Unreadable));
}

#[test]
fn start_with_saved_character_loads_it() {
    let ev = StartGameEvent { name: "Bob".to_string() };
    let mut d = bob();
    d.attributes.agility = 9;
    let file = SaveFile::Contents(d.to_bytes().unwrap());
    let loaded = StartGameEvent::handle(Some(&ev), file).unwrap();
    assert_eq!(loaded.data(), &d);
}

#[test]
fn start_with_bad_save_is_fatal() {
    let ev = StartGameEvent { name: "Bob".to_string() };
    let mut d = bob();
    d.version = 2;
    let file = SaveFile::Contents(d.to_bytes().unwrap());
    assert_eq!(
        StartGameEvent::handle(Some(&ev), file),
        Err(FatalError::Corrupt(SaveError::VersionMismatch { found: 2 }))
    );
    let file = SaveFile::Contents(vec![1, 0, 200]);
    assert_eq!(StartGameEvent::handle(Some(&ev), file), Err(FatalError::Corrupt(SaveError::Corrupt)));
}

#[test]
fn fatal_messages() {
    assert_eq!(FatalError::NoCharacter.message(), "began game with no character");
    assert_eq!(FatalError::Unreadable.message(), "could not read save data file");
    assert_eq!(FatalError::Corrupt(SaveError::Corrupt).message(), "player save data is corrupt");
}

#[test]
fn start_with_bob_save_loads_bob() {
    let ev = StartGameEvent { name: "Bob".to_string() };
    let file = SaveFile::Contents(bob().to_bytes().unwrap());
    let loaded = StartGameEvent::handle(Some(&ev), file).unwrap();
    let d = loaded.data();
    assert_eq!(d.version, 1);
    assert_eq!(d.name, "Bob");
    let a = d.attributes;
    for v in [a.vitality, a.endurance, a.strength, a.dexterity, a.agility, a.intelligence, a.wisdom, a.mind] {
        assert_eq!(v, 1);
    }
}
