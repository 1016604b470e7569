//! Errors of loading a cartridge and of its battery-backed save file, with
//! their messages.

use vstd::prelude::*;
use crate::text::{append_decimal, spec_decimal};

verus! {

/// Why a cartridge could not be loaded.
#[derive(PartialEq, Eq, Debug)]
pub enum CartridgeError {
    /// reading the file failed; holds the kind of failure and its message
    FileError(FileErrorKind, String),
    HeaderError,
    /// the file holds this many bytes after the cartridge data
    TooLargeFile(u64),
    ExtensionError,
    MapperNotImplemented(u16),
    Others,
}

/// The kinds of file errors that loading and saving tell apart.
#[derive(PartialEq, Eq, Clone, Copy, Debug, Structural)]
pub enum FileErrorKind {
    NotFound,
    PermissionDenied,
    /// the file ended before the data it must hold
    UnexpectedEof,
    Other,
}

/// Why the battery-backed save file could not be loaded or saved.
#[derive(PartialEq, Eq, Clone, Copy, Debug, Structural)]
pub enum SramError {
    NoSramFileFound,
    SramFileSizeDoesNotMatch,
    FailedToSaveSramFile,
    Others,
}

/// The message of a cartridge error.
pub open spec fn cartridge_error_message(e: CartridgeError) -> Seq<char> {
    match e {
        CartridgeError::FileError(_, err) => "FileError: "@ + err@,
        CartridgeError::HeaderError => "This is not a valid iNES file"@,
        CartridgeError::Others => "An unknown error occurred while decoding/reading the cartridge"@,
        CartridgeError::TooLargeFile(size) => "The cartridge reader read all the data needed, but the file still has some data at the end with size "@
            + spec_decimal(size as nat) + "-bytes"@,
        CartridgeError::MapperNotImplemented(id) => "Mapper "@ + spec_decimal(id as nat)
            + " is not yet implemented"@,
        CartridgeError::ExtensionError => "The cartridge file must end with `.nes` extension"@,
    }
}

/// The message of a save file error.
pub open spec fn sram_error_message(e: SramError) -> &'static str {
    match e {
        SramError::NoSramFileFound => "Could not load cartridge save file",
        SramError::SramFileSizeDoesNotMatch => "There is a conflict in the size of SRAM save file in the INES header and the file in disk",
        SramError::FailedToSaveSramFile => "Could not save cartridge save file",
        SramError::Others => "Unknown error occured while trying to save/load cartridge save file",
    }
}

impl CartridgeError {
    pub fn get_message(&self) -> (message: String)
        ensures
            message@ == cartridge_error_message(*self),
    {
        match self {
            CartridgeError::FileError(_, err) => {
                let mut message = String::from_str("FileError: ");
                message.append(err.as_str());
                message
            },
            CartridgeError::HeaderError => String::from_str("This is not a valid iNES file"),
            CartridgeError::Others => String::from_str(
                "An unknown error occurred while decoding/reading the cartridge",
            ),
            CartridgeError::TooLargeFile(size) => {
                let mut message = String::from_str(
                    "The cartridge reader read all the data needed, but the file still has some data at the end with size ",
                );
                append_decimal(&mut message, *size);
                message.append("-bytes");
                message
            },
            CartridgeError::MapperNotImplemented(id) => {
                let mut message = String::from_str("Mapper ");
                append_decimal(&mut message, *id as u64);
                message.append(" is not yet implemented");
                message
            },
            CartridgeError::ExtensionError => String::from_str(
                "The cartridge file must end with `.nes` extension",
            ),
        }
    }
}

impl Default for CartridgeError {
    fn default() -> (e: Self)
        ensures
            e == CartridgeError::Others,
    {
        CartridgeError::Others
    }
}

impl SramError {
    pub fn get_message(&self) -> (message: &'static str)
        ensures
            message == sram_error_message(*self),
    {
        match self {
            SramError::NoSramFileFound => "Could not load cartridge save file",
            SramError::SramFileSizeDoesNotMatch => "There is a conflict in the size of SRAM save file in the INES header and the file in disk",
            SramError::FailedToSaveSramFile => "Could not save cartridge save file",
            SramError::Others => "Unknown error occured while trying to save/load cartridge save file",
        }
    }

    /// The save file error for a failed file operation of the given kind.
    pub fn from_kind(kind: FileErrorKind) -> (e: Self)
        ensures
            e == (match kind {
                FileErrorKind::NotFound => SramError::NoSramFileFound,
                FileErrorKind::PermissionDenied => SramError::FailedToSaveSramFile,
                _ => SramError::Others,
            }),
    {
        match kind {
            FileErrorKind::NotFound => SramError::NoSramFileFound,
            FileErrorKind::PermissionDenied => SramError::FailedToSaveSramFile,
            _ => SramError::Others,
        }
    }
}

impl Default for SramError {
    fn default() -> (e: Self)
        ensures
            e == SramError::Others,
    {
        SramError::Others
    }
}

} // verus!
