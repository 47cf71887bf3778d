//! The error kinds of the tool.

use vstd::prelude::*;

verus! {

/// A tool path that a command needs and the configuration does not hold.
#[derive(Clone, Copy, Debug, PartialEq, Eq, Structural)]
pub enum Missing {
    /// No compiler path is configured.
    Compiler,
    /// No flashing-project path is configured.
    Sanusb,
}

/// A request that cannot be carried out as given.
#[derive(Clone, Copy, Debug, PartialEq, Eq, Structural)]
pub enum Invalid {
    /// The source path does not exist.
    SourceMissing,
    /// The source path does not end in the source-file extension.
    WrongExtension,
    /// Neither a source path nor a bytecode path was supplied.
    NoPayload,
}

/// Why a command failed.
#[derive(Clone, Copy, Debug, PartialEq, Eq, Structural)]
pub enum ToolError {
    /// A required path is not configured.
    Config(Missing),
    /// The request itself is unacceptable.
    Validation(Invalid),
    /// The configuration document is malformed.
    Parse,
    /// A file could not be read or written.
    Io,
    /// A subprocess could not be spawned.
    Exec,
    /// A network request failed.
    Network,
}

impl ToolError {
    /// The message shown to the user for this error.
    pub fn message(&self) -> (text: String)
        ensures
            text@ == error_text(*self),
    {
        match self {
            ToolError::Config(Missing::Compiler) => String::from_str(
                "Compiler path is not defined in config.toml! Run santool config --help for more info!",
            ),
            ToolError::Config(Missing::Sanusb) => String::from_str(
                "SanUSB path is not defined in config.toml! Run santool config --help for more info!",
            ),
            ToolError::Validation(Invalid::SourceMissing) => String::from_str(
                "Source path does not exist!",
            ),
            ToolError::Validation(Invalid::WrongExtension) => String::from_str(
                "Source file should have .san extension!",
            ),
            ToolError::Validation(Invalid::NoPayload) => String::from_str(
                "Neither source path nor bytecode path are defined! Run santool flash --help for more info!",
            ),
            ToolError::Parse => String::from_str("Unable to deserialize file config.toml!"),
            ToolError::Io => String::from_str("Unable to read or write file!"),
            ToolError::Exec => String::from_str("failed to execute process"),
            ToolError::Network => String::from_str("failed to send request"),
        }
    }
}

/// The text of each error's message.
pub open spec fn error_text(error: ToolError) -> Seq<char> {
    match error {
        ToolError::Config(Missing::Compiler) =>
            "Compiler path is not defined in config.toml! Run santool config --help for more info!"@,
        ToolError::Config(Missing::Sanusb) =>
            "SanUSB path is not defined in config.toml! Run santool config --help for more info!"@,
        ToolError::Validation(Invalid::SourceMissing) => "Source path does not exist!"@,
        ToolError::Validation(Invalid::WrongExtension) => "Source file should have .san extension!"@,
        ToolError::Validation(Invalid::NoPayload) =>
            "Neither source path nor bytecode path are defined! Run santool flash --help for more info!"@,
        ToolError::Parse => "Unable to deserialize file config.toml!"@,
        ToolError::Io => "Unable to read or write file!"@,
        ToolError::Exec => "failed to execute process"@,
        ToolError::Network => "failed to send request"@,
    }
}

} // verus!
