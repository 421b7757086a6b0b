//! Character save files: a versioned record of a character's name and stats.

use vstd::prelude::*;

verus! {

#[verifier::external_type_specification]
#[verifier::external_body]
pub struct ExBincodeErrorKind(bincode::ErrorKind);

/// The per-character stats stored in a save file.
#[derive(Clone, Copy, Debug, PartialEq, Eq, Structural)]
pub struct Attributes {
    pub vitality: u32,
    pub endurance: u32,
    pub strength: u32,
    pub dexterity: u32,
    pub agility: u32,
    pub intelligence: u32,
    pub wisdom: u32,
    pub mind: u32,
}

impl Attributes {
    /// The stats in the order in which a save file stores them.
    pub open spec fn stats(self) -> Seq<u32> {
        seq![
            self.vitality,
            self.endurance,
            self.strength,
            self.dexterity,
            self.agility,
            self.intelligence,
            self.wisdom,
            self.mind,
        ]
    }

    /// Every stat equals `v`.
    pub open spec fn all_equal(self, v: u32) -> bool {
        forall|i: int| 0 <= i < 8 ==> #[trigger] self.stats()[i] == v
    }
}

impl Default for Attributes {
    /// A new character starts with every stat at 1.
    fn default() -> (r: Self)
        ensures
            r.all_equal(1),
    {
        Attributes {
            vitality: 1,
            endurance: 1,
            strength: 1,
            dexterity: 1,
            agility: 1,
            intelligence: 1,
            wisdom: 1,
            mind: 1,
        }
    }
}

/// A character's save file.
#[derive(Clone, Debug, PartialEq, Eq)]
pub struct SaveData {
    pub version: u16,
    pub name: String,
    pub attributes: Attributes,
}

/// What a save file holds, as mathematical values.
pub struct SaveRecord {
    pub version: u16,
    pub name: Seq<char>,
    pub attributes: Attributes,
}

impl View for SaveData {
    type V = SaveRecord;

    open spec fn view(&self) -> SaveRecord {
        SaveRecord { version: self.version, name: self.name@, attributes: self.attributes }
    }
}

/// Why a save file could not be written or read back.
#[derive(Clone, Copy, Debug, PartialEq, Eq, Structural)]
pub enum SaveError {
    /// The record could not be encoded.
    Encode,
    /// The bytes do not hold a save record.
    Corrupt,
    /// The bytes hold a record of another schema version.
    VersionMismatch { found: u16 },
}

/// The bytes that the save encoding gives to a record with these fields.
pub uninterp spec fn save_encoding(version: u16, name: Seq<char>, stats: Seq<u32>) -> Seq<u8>;

/// The fields that the save encoding reads from these bytes, if they hold a record.
pub uninterp spec fn save_decoding(bytes: Seq<u8>) -> Option<(u16, Seq<char>, Seq<u32>)>;

/// The outcome of loading these bytes: a record of the latest version, or why not.
pub open spec fn load_outcome(bytes: Seq<u8>) -> Result<SaveRecord, SaveError> {
    match save_decoding(bytes) {
        None => Err(SaveError::Corrupt),
        Some((version, name, stats)) => {
            if stats.len() != 8 {
                Err(SaveError::Corrupt)
            } else if version != SaveData::LATEST {
                Err(SaveError::VersionMismatch { found: version })
            } else {
                Ok(
                    SaveRecord {
                        version,
                        name,
                        attributes: Attributes {
                            vitality: stats[0],
                            endurance: stats[1],
                            strength: stats[2],
                            dexterity: stats[3],
                            agility: stats[4],
                            intelligence: stats[5],
                            wisdom: stats[6],
                            mind: stats[7],
                        },
                    },
                )
            }
        },
    }
}

/// Relies on `bincode::serialize` (version 1): the fields are written as a tuple of
/// a little-endian `u16`, a length-prefixed string and eight little-endian `u32`,
/// which is also how the record struct itself serializes; the bytes depend on the
/// fields alone, and `bincode::deserialize` reads them back as the same fields.
/// With the default options the size limit is unbounded and every part has a known
/// length, so serializing this tuple into a `Vec` does not fail.
#[verifier::external_body]
fn encode_fields(d: &SaveData) -> (r: Result<Vec<u8>, bincode::Error>)
    ensures
        r is Ok,
        r matches Ok(b) ==> b@ == save_encoding(d.version, d.name@, d.attributes.stats())
            && save_decoding(b@) == Some((d.version, d.name@, d.attributes.stats())),
{
    let a = &d.attributes;
    let stats = [
        a.vitality,
        a.endurance,
        a.strength,
        a.dexterity,
        a.agility,
        a.intelligence,
        a.wisdom,
        a.mind,
    ];
    bincode::serialize(&(d.version, &d.name, stats))
}

/// Relies on `bincode::deserialize` (version 1) of the same tuple: it fails on bytes
/// that do not hold one, and otherwise yields its fields.
#[verifier::external_body]
fn decode_fields(b: &[u8]) -> (r: Result<SaveData, bincode::Error>)
    ensures
        match save_decoding(b@) {
            None => r is Err,
            Some((version, name, stats)) => r matches Ok(d) && d.version == version
                && d.name@ == name && d.attributes.stats() == stats,
        },
{
    let (version, name, s) = bincode::deserialize::<(u16, String, [u32; 8])>(b)?;
    Ok(SaveData {
        version,
        name,
        attributes: Attributes {
            vitality: s[0],
            endurance: s[1],
            strength: s[2],
            dexterity: s[3],
            agility: s[4],
            intelligence: s[5],
            wisdom: s[6],
            mind: s[7],
        },
    })
}

impl SaveData {
    /// The only schema version this library reads and writes.
    pub const LATEST: u16 = 1;

    /// Accepts a record of the latest schema version; any other version is an
    /// error, never an upgrade.
    pub fn check_version(self) -> (r: Result<SaveData, SaveError>)
        ensures
            self.version == SaveData::LATEST ==> r == Ok::<SaveData, SaveError>(self),
            self.version != SaveData::LATEST ==> r == Err::<SaveData, SaveError>(
                SaveError::VersionMismatch { found: self.version },
            ),
    {
        if self.version == SaveData::LATEST {
            Ok(self)
        } else {
            Err(SaveError::VersionMismatch { found: self.version })
        }
    }

    /// The save-file bytes of this record. Loading them gives the record back.
    pub fn to_bytes(&self) -> (r: Result<Vec<u8>, SaveError>)
        ensures
            r is Ok,
            r matches Err(e) ==> e == SaveError::Encode,
            r matches Ok(b) ==> b@ == save_encoding(
                self.version,
                self.name@,
                self.attributes.stats(),
            ),
            r matches Ok(b) ==> (self.version == SaveData::LATEST ==> load_outcome(b@) == Ok::<
                SaveRecord,
                SaveError,
            >(self@)),
            r matches Ok(b) ==> (self.version != SaveData::LATEST ==> load_outcome(b@) == Err::<
                SaveRecord,
                SaveError,
            >(SaveError::VersionMismatch { found: self.version })),
    {
        match encode_fields(self) {
            Ok(b) => {
                proof {
                    let s = self.attributes.stats();
                    assert(s.len() == 8);
                    if self.version == SaveData::LATEST {
                        let rec = load_outcome(b@)->Ok_0;
                        assert(rec.attributes == self.attributes);
                    }
                }
                Ok(b)
            },
            Err(_) => Err(SaveError::Encode),
        }
    }

    /// Reads a save file: the record it holds if that is of the latest version.
    /// Bytes that hold no record, or a record of another version, are an error.
    pub fn from_bytes(b: &[u8]) -> (r: Result<SaveData, SaveError>)
        ensures
            r matches Ok(d) ==> load_outcome(b@) == Ok::<SaveRecord, SaveError>(d@),
            r matches Err(e) ==> load_outcome(b@) == Err::<SaveRecord, SaveError>(e),
    {
        match decode_fields(b) {
            Ok(d) => {
                proof {
                    assert(d.attributes.stats().len() == 8);
                }
                let r = d.check_version();
                proof {
                    if r is Ok {
                        let rec = load_outcome(b@)->Ok_0;
                        assert(rec.attributes == d.attributes);
                    }
                }
                r
            },
            Err(_) => Err(SaveError::Corrupt),
        }
    }
}

/// Loading never turns a record of another schema version into a record: whatever
/// bytes are read, a successful load is of the latest version, and a record of
/// another version is reported with the version found.
pub proof fn load_never_coerces_version(bytes: Seq<u8>)
    ensures
        load_outcome(bytes) matches Ok(rec) ==> rec.version == SaveData::LATEST,
        save_decoding(bytes) matches Some((v, n, s)) ==> (s.len() == 8 && v != SaveData::LATEST
            ==> load_outcome(bytes) == Err::<SaveRecord, SaveError>(
            SaveError::VersionMismatch { found: v },
        )),
{
}

/// Builds the save record of a new character.
pub struct SaveDataBuilder {
    pub data: SaveData,
}

impl SaveDataBuilder {
    /// A record of the latest version with an empty name and default stats.
    pub fn new() -> (r: Self)
        ensures
            r.data.version == SaveData::LATEST,
            r.data.name@.len() == 0,
            r.data.attributes.all_equal(1),
    {
        SaveDataBuilder {
            data: SaveData {
                version: SaveData::LATEST,
                name: String::new(),
                attributes: Attributes::default(),
            },
        }
    }

    /// Sets the character's name.
    pub fn name(self, name: String) -> (r: Self)
        ensures
            r.data.version == self.data.version,
            r.data.name@ == name@,
            r.data.attributes == self.data.attributes,
    {
        let mut b = self;
        b.data.name = name;
        b
    }

    /// Sets the character's stats.
    pub fn attributes(self, attributes: Attributes) -> (r: Self)
        ensures
            r.data.version == self.data.version,
            r.data.name@ == self.data.name@,
            r.data.attributes == attributes,
    {
        let mut b = self;
        b.data.attributes = attributes;
        b
    }

    /// The record built.
    pub fn build(self) -> (r: SaveData)
        ensures
            r@ == self.data@,
    {
        self.data
    }
}

} // verus!
