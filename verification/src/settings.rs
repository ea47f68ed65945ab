//! The allocation parameters, fixed for the lifetime of the process.

use vstd::prelude::*;
use crate::decimal::{parse_u32, parsed_u32};
use crate::text::{trim, trimmed};

verus! {

/// The allocation parameters.
#[derive(Debug, Clone)]
pub struct Settings {
    /// Number of characters of every identifier.
    pub id_length: u32,
    /// The characters an identifier is drawn from; a character that occurs
    /// twice is drawn twice as often.
    pub charset: String,
    /// The secret that suspends and resumes the service.
    pub admin_secret: String,
}

/// What a `Settings` value holds.
pub struct SettingsView {
    pub id_length: nat,
    pub charset: Seq<char>,
    pub admin_secret: Seq<char>,
}

impl View for Settings {
    type V = SettingsView;

    open spec fn view(&self) -> SettingsView {
        SettingsView {
            id_length: self.id_length as nat,
            charset: self.charset@,
            admin_secret: self.admin_secret@,
        }
    }
}

impl SettingsView {
    /// The settings invariant: identifiers have at least one character and
    /// there is at least one character to draw.
    pub open spec fn valid(self) -> bool {
        self.id_length > 0 && self.charset.len() > 0
    }
}

/// Why the configuration cannot be used. Each of these is fatal at startup.
#[derive(Debug, Clone, Copy, PartialEq, Eq)]
pub enum ConfigError {
    /// The settings table has no `id_length`.
    MissingIdLength,
    /// `id_length` is not a decimal number that fits 32 bits.
    InvalidIdLength,
    /// `id_length` is zero.
    ZeroIdLength,
    /// The settings table has no `charset`.
    MissingCharset,
    /// `charset` holds no character.
    EmptyCharset,
    /// The settings table has no `admin_secret`.
    MissingAdminSecret,
    /// The place where the storage location is configured cannot be opened.
    MissingLocationKey,
    /// No storage location is configured there.
    MissingDbPath,
    /// The configured storage location is blank.
    EmptyDbPath,
}

impl ConfigError {
    /// The text of the error.
    pub open spec fn text(self) -> Seq<char> {
        match self {
            ConfigError::MissingIdLength => "Missing 'id_length' in settings table"@,
            ConfigError::InvalidIdLength => "Invalid 'id_length' value"@,
            ConfigError::ZeroIdLength => "'id_length' must be greater than zero"@,
            ConfigError::MissingCharset => "Missing 'charset' in settings table"@,
            ConfigError::EmptyCharset => "Charset is empty"@,
            ConfigError::MissingAdminSecret => "Missing 'admin_secret' in settings table"@,
            ConfigError::MissingLocationKey => "Failed to open IdRegistry registry key"@,
            ConfigError::MissingDbPath => "DBPath value not found in registry"@,
            ConfigError::EmptyDbPath => "DBPath is empty in registry"@,
        }
    }

    /// The text of the error, for a log or a startup failure.
    pub fn message(&self) -> (msg: String)
        ensures
            msg@ == self.text(),
    {
        match self {
            ConfigError::MissingIdLength => "Missing 'id_length' in settings table".to_owned(),
            ConfigError::InvalidIdLength => "Invalid 'id_length' value".to_owned(),
            ConfigError::ZeroIdLength => "'id_length' must be greater than zero".to_owned(),
            ConfigError::MissingCharset => "Missing 'charset' in settings table".to_owned(),
            ConfigError::EmptyCharset => "Charset is empty".to_owned(),
            ConfigError::MissingAdminSecret => "Missing 'admin_secret' in settings table".to_owned(),
            ConfigError::MissingLocationKey => "Failed to open IdRegistry registry key".to_owned(),
            ConfigError::MissingDbPath => "DBPath value not found in registry".to_owned(),
            ConfigError::EmptyDbPath => "DBPath is empty in registry".to_owned(),
        }
    }
}

/// What an optional string holds.
pub open spec fn text_of(value: Option<String>) -> Option<Seq<char>> {
    match value {
        Some(s) => Some(s@),
        None => None,
    }
}

/// The settings that the three values of the settings table make, or the
/// first thing wrong with them: `id_length` is looked at first, then
/// `charset`, then `admin_secret`.
pub open spec fn loaded(
    id_length: Option<Seq<char>>,
    charset: Option<Seq<char>>,
    admin_secret: Option<Seq<char>>,
) -> Result<SettingsView, ConfigError> {
    if id_length is None {
        Err(ConfigError::MissingIdLength)
    } else if parsed_u32(id_length->0) is None {
        Err(ConfigError::InvalidIdLength)
    } else if parsed_u32(id_length->0)->0 == 0 {
        Err(ConfigError::ZeroIdLength)
    } else if charset is None {
        Err(ConfigError::MissingCharset)
    } else if charset->0.len() == 0 {
        Err(ConfigError::EmptyCharset)
    } else if admin_secret is None {
        Err(ConfigError::MissingAdminSecret)
    } else {
        Ok(
            SettingsView {
                id_length: parsed_u32(id_length->0)->0 as nat,
                charset: charset->0,
                admin_secret: admin_secret->0,
            },
        )
    }
}

/// Whatever `loaded` accepts is valid.
pub proof fn lemma_loaded_is_valid(
    id_length: Option<Seq<char>>,
    charset: Option<Seq<char>>,
    admin_secret: Option<Seq<char>>,
)
    ensures
        loaded(id_length, charset, admin_secret) matches Ok(settings) ==> settings.valid(),
{
}

/// Builds the settings from the values found under the keys `id_length`,
/// `charset` and `admin_secret` of the settings table; `None` stands for a
/// key that is not there.
pub fn load_settings(
    id_length: Option<String>,
    charset: Option<String>,
    admin_secret: Option<String>,
) -> (r: Result<Settings, ConfigError>)
    ensures
        match r {
            Ok(settings) => loaded(text_of(id_length), text_of(charset), text_of(admin_secret))
                == Ok::<SettingsView, ConfigError>(settings@),
            Err(e) => loaded(text_of(id_length), text_of(charset), text_of(admin_secret)) == Err::<
                SettingsView,
                ConfigError,
            >(e),
        },
{
    let length_text = match id_length {
        Some(text) => text,
        None => { return Err(ConfigError::MissingIdLength); },
    };
    let id_length: u32 = match parse_u32(length_text.as_str()) {
        Some(n) => n,
        None => { return Err(ConfigError::InvalidIdLength); },
    };
    if id_length == 0 {
        return Err(ConfigError::ZeroIdLength);
    }
    let charset = match charset {
        Some(text) => text,
        None => { return Err(ConfigError::MissingCharset); },
    };
    if charset.as_str().is_empty() {
        return Err(ConfigError::EmptyCharset);
    }
    match admin_secret {
        Some(admin_secret) => Ok(Settings { id_length, charset, admin_secret }),
        None => Err(ConfigError::MissingAdminSecret),
    }
}

/// What reading the configured storage location came to.
#[derive(Debug, Clone, PartialEq, Eq)]
pub enum LocationLookup {
    /// The key that holds the configuration could not be opened.
    NoKey,
    /// The key holds no storage location.
    NoValue,
    /// The storage location as it is written there.
    Value(String),
}

/// The storage location, if the lookup found one that is not blank. The
/// location is handed on as it was written, whitespace included.
pub fn get_db_path(lookup: LocationLookup) -> (r: Result<String, ConfigError>)
    ensures
        lookup is NoKey ==> r == Err::<String, ConfigError>(ConfigError::MissingLocationKey),
        lookup is NoValue ==> r == Err::<String, ConfigError>(ConfigError::MissingDbPath),
        lookup matches LocationLookup::Value(path) ==> r == if trimmed(path@).len() == 0 {
            Err::<String, ConfigError>(ConfigError::EmptyDbPath)
        } else {
            Ok(path)
        },
{
    match lookup {
        LocationLookup::NoKey => Err(ConfigError::MissingLocationKey),
        LocationLookup::NoValue => Err(ConfigError::MissingDbPath),
        LocationLookup::Value(path) => {
            if trim(path.as_str()).as_str().is_empty() {
                Err(ConfigError::EmptyDbPath)
            } else {
                Ok(path)
            }
        },
    }
}

} // verus!
