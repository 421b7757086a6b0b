//! Starting a game: finding the character's save data and what gameplay begins with.

use vstd::prelude::*;
use crate::game::{Vec3, PLAYER_SIZE};
use crate::game::camera::{CameraViewpoint, EulerAngles, Front};
use crate::game::flow::GameState;
use crate::storage::saves::{
    Attributes as SavedAttributes, SaveData, SaveDataBuilder, SaveError, SaveRecord, load_outcome,
};

verus! {

/// The live stats of the player character.
#[derive(Clone, Copy, Debug, PartialEq, Eq, Structural)]
pub struct Attributes {
    /// health
    pub vitality: u32,
    /// resistances
    pub endurance: u32,
    /// attack magnitude
    pub strength: u32,
    /// attack speed
    pub dexterity: u32,
    /// movement
    pub agility: u32,
    /// magic damage
    pub intelligence: u32,
    /// magic efficiency
    pub wisdom: u32,
    /// spell memorization
    pub mind: u32,
}

impl Attributes {
    /// World units per millisecond that the character moves: its agility.
    pub fn move_speed(&self) -> (r: u32)
        ensures
            r == self.agility,
    {
        self.agility
    }

    /// The live stats that a save file's stats become.
    pub open spec fn of_saved(s: SavedAttributes) -> Attributes {
        Attributes {
            vitality: s.vitality,
            endurance: s.endurance,
            strength: s.strength,
            dexterity: s.dexterity,
            agility: s.agility,
            intelligence: s.intelligence,
            wisdom: s.wisdom,
            mind: s.mind,
        }
    }
}

impl From<SavedAttributes> for Attributes {
    fn from(save: SavedAttributes) -> (r: Self)
        ensures
            r == Attributes::of_saved(save),
    {
        Attributes {
            vitality: save.vitality,
            endurance: save.endurance,
            strength: save.strength,
            dexterity: save.dexterity,
            agility: save.agility,
            intelligence: save.intelligence,
            wisdom: save.wisdom,
            mind: save.mind,
        }
    }
}

impl vstd::std_specs::convert::FromSpecImpl<SavedAttributes> for Attributes {
    open spec fn obeys_from_spec() -> bool {
        true
    }

    open spec fn from_spec(v: SavedAttributes) -> Attributes {
        Attributes::of_saved(v)
    }
}

/// What was found where the character's save file belongs.
#[derive(Clone, Debug, PartialEq, Eq)]
pub enum SaveFile {
    /// No file of that name: a new character.
    Absent,
    /// A file exists but could not be read.
    Unreadable,
    /// The file's bytes.
    Contents(Vec<u8>),
}

/// A condition that ends the game after telling the player, so that no character
/// data is silently lost.
#[derive(Clone, Copy, Debug, PartialEq, Eq, Structural)]
pub enum FatalError {
    /// A game was started without a character.
    NoCharacter,
    /// The save file exists but could not be read.
    Unreadable,
    /// The save file does not hold a save record of the latest version.
    Corrupt(SaveError),
}

impl FatalError {
    /// The message shown to the player.
    pub fn message(&self) -> (r: String)
        ensures
            r@ == match *self {
                FatalError::NoCharacter => "began game with no character"@,
                FatalError::Unreadable => "could not read save data file"@,
                FatalError::Corrupt(_) => "player save data is corrupt"@,
            },
    {
        match self {
            FatalError::NoCharacter => "began game with no character".to_owned(),
            FatalError::Unreadable => "could not read save data file".to_owned(),
            FatalError::Corrupt(_) => "player save data is corrupt".to_owned(),
        }
    }
}

/// A request to start playing as the named character.
#[derive(Clone, Debug, PartialEq, Eq)]
pub struct StartGameEvent {
    pub name: String,
}

/// The save data of the character about to be played.
#[derive(Clone, Debug, PartialEq, Eq)]
pub struct SaveDataLoadedEvent(pub SaveData);

/// The save record a new character named `name` starts with.
pub open spec fn fresh_record(name: Seq<char>) -> SaveRecord {
    SaveRecord {
        version: SaveData::LATEST,
        name,
        attributes: SavedAttributes {
            vitality: 1,
            endurance: 1,
            strength: 1,
            dexterity: 1,
            agility: 1,
            intelligence: 1,
            wisdom: 1,
            mind: 1,
        },
    }
}

impl StartGameEvent {
    /// Decides how a game starts. Without a request it is fatal. Without a save
    /// file the character is new, with default stats. A save file that cannot be
    /// read, or that does not hold a record of the latest version, is fatal;
    /// otherwise its record is the character.
    pub fn handle(event: Option<&StartGameEvent>, file: SaveFile) -> (r: Result<
        SaveDataLoadedEvent,
        FatalError,
    >)
        ensures
            event is None ==> r == Err::<SaveDataLoadedEvent, FatalError>(FatalError::NoCharacter),
            event matches Some(e) ==> match file {
                SaveFile::Absent => r matches Ok(l) && l.0@ == fresh_record(e.name@),
                SaveFile::Unreadable => r == Err::<SaveDataLoadedEvent, FatalError>(
                    FatalError::Unreadable,
                ),
                SaveFile::Contents(b) => match load_outcome(b@) {
                    Ok(rec) => r matches Ok(l) && l.0@ == rec,
                    Err(err) => r == Err::<SaveDataLoadedEvent, FatalError>(
                        FatalError::Corrupt(err),
                    ),
                },
            },
    {
        let e = match event {
            Some(e) => e,
            None => {
                return Err(FatalError::NoCharacter);
            },
        };
        match file {
            SaveFile::Absent => {
                let data = SaveDataBuilder::new().name(e.name.clone()).attributes(
                    SavedAttributes::default(),
                ).build();
                proof {
                    assert(data.attributes.stats()[0] == 1);
                    assert(data.attributes.stats()[1] == 1);
                    assert(data.attributes.stats()[2] == 1);
                    assert(data.attributes.stats()[3] == 1);
                    assert(data.attributes.stats()[4] == 1);
                    assert(data.attributes.stats()[5] == 1);
                    assert(data.attributes.stats()[6] == 1);
                    assert(data.attributes.stats()[7] == 1);
                }
                Ok(SaveDataLoadedEvent(data))
            },
            SaveFile::Unreadable => Err(FatalError::Unreadable),
            SaveFile::Contents(b) => match SaveData::from_bytes(b.as_slice()) {
                Ok(data) => Ok(SaveDataLoadedEvent(data)),
                Err(err) => Err(FatalError::Corrupt(err)),
            },
        }
    }
}

/// What gameplay begins with: the entities to spawn and the state to enter.
#[derive(Clone, Debug, PartialEq, Eq)]
pub struct GameplaySetup {
    pub name: String,
    pub attributes: Attributes,
    pub viewpoint: CameraViewpoint,
    pub player_position: Vec3,
    pub camera_position: Vec3,
    pub angles: EulerAngles,
    pub front: Front,
    pub next_state: GameState,
}

impl SaveDataLoadedEvent {
    /// The save data carried.
    pub fn data(&self) -> (r: &SaveData)
        ensures
            *r == self.0,
    {
        &self.0
    }

    /// The start of gameplay for this character: the player in first person,
    /// standing on the ground at the origin; the camera five player sizes above the
    /// origin, facing along +y (yaw 90 degrees, pitch 0); then on to gameplay.
    pub fn handle(&self) -> (r: GameplaySetup)
        ensures
            r.name@ == self.0.name@,
            r.attributes == Attributes::of_saved(self.0.attributes),
            r.viewpoint == CameraViewpoint::FirstPerson,
            r.player_position.x == 0 && r.player_position.y == 0,
            r.player_position.z == PLAYER_SIZE / 2,
            r.camera_position.x == 0 && r.camera_position.y == 0,
            r.camera_position.z == PLAYER_SIZE * 5,
            r.angles == (EulerAngles { yaw: 90000, pitch: 0, roll: 0 }),
            r.angles.wf(),
            r.front == Front::default_spec(),
            r.next_state == GameState::Gameplay,
    {
        let data = self.data();
        GameplaySetup {
            name: data.name.clone(),
            attributes: Attributes::from(data.attributes),
            viewpoint: CameraViewpoint::FirstPerson,
            player_position: Vec3 { x: 0, y: 0, z: PLAYER_SIZE / 2 },
            camera_position: Vec3 { x: 0, y: 0, z: PLAYER_SIZE * 5 },
            angles: EulerAngles { yaw: 90000, pitch: 0, roll: 0 },
            front: Front::default(),
            next_state: GameState::Gameplay,
        }
    }
}

} // verus!
