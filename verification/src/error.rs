//! The errors of the write path.
use vstd::prelude::*;

verus! {

/// Why a configuration value cannot be used.
#[derive(Debug, PartialEq, Eq)]
pub enum ConfigError {
    /// The key has no value.
    NotFound(String),
    /// The value is none that the key accepts.
    InvalidValue(String),
    /// The value under the key is no integer.
    ParseInt(String, String, std::num::ParseIntError),
}

/// A configuration error by its texts.
pub enum ConfigErrorModel {
    NotFound(Seq<char>),
    InvalidValue(Seq<char>),
    ParseInt(Seq<char>, Seq<char>, std::num::ParseIntError),
}

impl View for ConfigError {
    type V = ConfigErrorModel;

    open spec fn view(&self) -> ConfigErrorModel {
        match self {
            ConfigError::NotFound(key) => ConfigErrorModel::NotFound(key@),
            ConfigError::InvalidValue(value) => ConfigErrorModel::InvalidValue(value@),
            ConfigError::ParseInt(key, value, error) => ConfigErrorModel::ParseInt(
                key@,
                value@,
                *error,
            ),
        }
    }
}

impl ConfigErrorModel {
    /// The error in words.
    pub open spec fn text(self) -> Seq<char> {
        match self {
            ConfigErrorModel::NotFound(key) => "Config '"@ + key + "' not found"@,
            ConfigErrorModel::InvalidValue(value) => "Invalid config value: "@ + value,
            ConfigErrorModel::ParseInt(key, value, _) => "Failed to parse integer config '"@ + key
                + "', value: '"@ + value + "'"@,
        }
    }
}

impl ConfigError {
    /// The error in words.
    pub fn message(&self) -> (r: String)
        ensures
            r@ == self@.text(),
    {
        match self {
            ConfigError::NotFound(key) => "Config '".to_owned().concat(key).concat("' not found"),
            ConfigError::InvalidValue(value) => "Invalid config value: ".to_owned().concat(value),
            ConfigError::ParseInt(key, value, _) => "Failed to parse integer config '".to_owned()
                .concat(key)
                .concat("', value: '")
                .concat(value)
                .concat("'"),
        }
    }
}

/// Why a write cannot go on.
#[derive(Debug, PartialEq, Eq)]
pub enum CoreError {
    /// The configuration is unusable.
    Config(ConfigError),
    /// The write path refuses to continue.
    Write(String),
    /// Another writer got in first.
    WriteConflict(String),
    /// The table asks for something that is not supported.
    Unsupported(String),
    /// The table's storage failed.
    Storage(String),
    /// The metadata of an action cannot be read.
    CommitMetadata(String),
}

/// An error of the write path by its texts.
pub enum CoreErrorModel {
    Config(ConfigErrorModel),
    Write(Seq<char>),
    WriteConflict(Seq<char>),
    Unsupported(Seq<char>),
    Storage(Seq<char>),
    CommitMetadata(Seq<char>),
}

impl View for CoreError {
    type V = CoreErrorModel;

    open spec fn view(&self) -> CoreErrorModel {
        match self {
            CoreError::Config(error) => CoreErrorModel::Config(error@),
            CoreError::Write(text) => CoreErrorModel::Write(text@),
            CoreError::WriteConflict(text) => CoreErrorModel::WriteConflict(text@),
            CoreError::Unsupported(text) => CoreErrorModel::Unsupported(text@),
            CoreError::Storage(text) => CoreErrorModel::Storage(text@),
            CoreError::CommitMetadata(text) => CoreErrorModel::CommitMetadata(text@),
        }
    }
}

impl CoreErrorModel {
    /// The error in words.
    pub open spec fn text(self) -> Seq<char> {
        match self {
            CoreErrorModel::Config(error) => error.text(),
            CoreErrorModel::Write(text) => text,
            CoreErrorModel::WriteConflict(text) => text,
            CoreErrorModel::Unsupported(text) => text,
            CoreErrorModel::Storage(text) => text,
            CoreErrorModel::CommitMetadata(text) => text,
        }
    }
}

impl CoreError {
    /// The error in words.
    pub fn message(&self) -> (r: String)
        ensures
            r@ == self@.text(),
    {
        match self {
            CoreError::Config(error) => error.message(),
            CoreError::Write(text) => text.clone(),
            CoreError::WriteConflict(text) => text.clone(),
            CoreError::Unsupported(text) => text.clone(),
            CoreError::Storage(text) => text.clone(),
            CoreError::CommitMetadata(text) => text.clone(),
        }
    }
}

} // verus!
