//! The fault taxonomy and the opcodes that stand for it on the wire.

use vstd::prelude::*;

verus! {

/// Faults of the card's serial link.
#[derive(Clone, Copy, Debug, PartialEq, Eq)]
pub enum SpiError {
    Transport,
    CantEnableCRC,
    TimeoutReadBuffer,
    TimeoutWaitNotBusy,
    TimeoutCommand(u8),
    TimeoutACommand(u8),
    Cmd58Error,
    RegisterReadError,
    CrcError(u16, u16),
    ReadError,
    WriteError,
    BadState,
    CardNotFound,
    GpioError,
}

/// Ways in which a record name can be refused by the file system.
#[derive(Clone, Copy, Debug, PartialEq, Eq)]
pub enum FilenameError {
    InvalidCharacter,
    FilenameEmpty,
    NameTooLong,
    MisplacedPeriod,
    Utf8Error,
}

/// Faults reported by the file system on the card.
#[derive(Clone, Copy, Debug, PartialEq, Eq)]
pub enum ControllerError {
    DeviceError(SpiError),
    FormatError(&'static str),
    NoSuchVolume,
    FilenameError(FilenameError),
    TooManyOpenDirs,
    TooManyOpenFiles,
    FileNotFound,
    FileAlreadyOpen,
    DirAlreadyOpen,
    OpenedDirAsFile,
    DeleteDirAsFile,
    FileIsOpen,
    Unsupported,
    EndOfFile,
    BadCluster,
    ConversionError,
    NotEnoughSpace,
    AllocationError,
    JumpedFree,
    ReadOnly,
    FileAlreadyExists,
    BadBlockSize(u16),
    NotInBlock,
}

/// Faults of an open file.
#[derive(Clone, Copy, Debug, PartialEq, Eq)]
pub enum FileError {
    InvalidOffset,
}

/// Everything that can put the device into its fault state.
#[derive(Clone, Copy, Debug, PartialEq, Eq)]
pub enum AppError {
    SdmmcDetached,
    UnknownCommand,
    UnhandledCommand,
    UnhandledReadyCommand,
    UnhandledAddressCommand,
    SdMmcSpi(SpiError),
    SdMmcController(ControllerError),
    SdMmcFile(FileError),
}

/// The largest opcode in use.
pub const MAX_OPCODE: u16 = 46;

impl SpiError {
    /// Opcodes 4 to 17, one per kind of link fault; payloads do not count.
    pub open spec fn spec_opcode(self) -> u16 {
        match self {
            SpiError::Transport => 4,
            SpiError::CantEnableCRC => 5,
            SpiError::TimeoutReadBuffer => 6,
            SpiError::TimeoutWaitNotBusy => 7,
            SpiError::TimeoutCommand(_) => 8,
            SpiError::TimeoutACommand(_) => 9,
            SpiError::Cmd58Error => 10,
            SpiError::RegisterReadError => 11,
            SpiError::CrcError(_, _) => 12,
            SpiError::ReadError => 13,
            SpiError::WriteError => 14,
            SpiError::BadState => 15,
            SpiError::CardNotFound => 16,
            SpiError::GpioError => 17,
        }
    }

    pub fn opcode(&self) -> (code: u16)
        ensures
            code == self.spec_opcode(),
            4 <= code <= 17,
    {
        match self {
            SpiError::Transport => 4,
            SpiError::CantEnableCRC => 5,
            SpiError::TimeoutReadBuffer => 6,
            SpiError::TimeoutWaitNotBusy => 7,
            SpiError::TimeoutCommand(_) => 8,
            SpiError::TimeoutACommand(_) => 9,
            SpiError::Cmd58Error => 10,
            SpiError::RegisterReadError => 11,
            SpiError::CrcError(_, _) => 12,
            SpiError::ReadError => 13,
            SpiError::WriteError => 14,
            SpiError::BadState => 15,
            SpiError::CardNotFound => 16,
            SpiError::GpioError => 17,
        }
    }
}

impl FilenameError {
    /// Opcodes 20 to 24.
    pub open spec fn spec_opcode(self) -> u16 {
        match self {
            FilenameError::InvalidCharacter => 20,
            FilenameError::FilenameEmpty => 21,
            FilenameError::NameTooLong => 22,
            FilenameError::MisplacedPeriod => 23,
            FilenameError::Utf8Error => 24,
        }
    }

    pub fn opcode(&self) -> (code: u16)
        ensures
            code == self.spec_opcode(),
            20 <= code <= 24,
    {
        match self {
            FilenameError::InvalidCharacter => 20,
            FilenameError::FilenameEmpty => 21,
            FilenameError::NameTooLong => 22,
            FilenameError::MisplacedPeriod => 23,
            FilenameError::Utf8Error => 24,
        }
    }
}

impl ControllerError {
    /// A fault of the link below the file system keeps the link's opcode;
    /// the file system's own faults take 18 to 43.
    pub open spec fn spec_opcode(self) -> u16 {
        match self {
            ControllerError::DeviceError(link) => link.spec_opcode(),
            ControllerError::FormatError(_) => 18,
            ControllerError::NoSuchVolume => 19,
            ControllerError::FilenameError(name) => name.spec_opcode(),
            ControllerError::TooManyOpenDirs => 25,
            ControllerError::TooManyOpenFiles => 26,
            ControllerError::FileNotFound => 27,
            ControllerError::FileAlreadyOpen => 28,
            ControllerError::DirAlreadyOpen => 29,
            ControllerError::OpenedDirAsFile => 30,
            ControllerError::DeleteDirAsFile => 31,
            ControllerError::FileIsOpen => 32,
            ControllerError::Unsupported => 33,
            ControllerError::EndOfFile => 34,
            ControllerError::BadCluster => 35,
            ControllerError::ConversionError => 36,
            ControllerError::NotEnoughSpace => 37,
            ControllerError::AllocationError => 38,
            ControllerError::JumpedFree => 39,
            ControllerError::ReadOnly => 40,
            ControllerError::FileAlreadyExists => 41,
            ControllerError::BadBlockSize(_) => 42,
            ControllerError::NotInBlock => 43,
        }
    }

    pub fn opcode(&self) -> (code: u16)
        ensures
            code == self.spec_opcode(),
            4 <= code <= 43,
    {
        match self {
            ControllerError::DeviceError(link) => link.opcode(),
            ControllerError::FormatError(_) => 18,
            ControllerError::NoSuchVolume => 19,
            ControllerError::FilenameError(name) => name.opcode(),
            ControllerError::TooManyOpenDirs => 25,
            ControllerError::TooManyOpenFiles => 26,
            ControllerError::FileNotFound => 27,
            ControllerError::FileAlreadyOpen => 28,
            ControllerError::DirAlreadyOpen => 29,
            ControllerError::OpenedDirAsFile => 30,
            ControllerError::DeleteDirAsFile => 31,
            ControllerError::FileIsOpen => 32,
            ControllerError::Unsupported => 33,
            ControllerError::EndOfFile => 34,
            ControllerError::BadCluster => 35,
            ControllerError::ConversionError => 36,
            ControllerError::NotEnoughSpace => 37,
            ControllerError::AllocationError => 38,
            ControllerError::JumpedFree => 39,
            ControllerError::ReadOnly => 40,
            ControllerError::FileAlreadyExists => 41,
            ControllerError::BadBlockSize(_) => 42,
            ControllerError::NotInBlock => 43,
        }
    }
}

impl AppError {
    /// The number sent to the host for this fault. The values are fixed:
    /// a host decodes them without this table.
    pub open spec fn spec_opcode(self) -> u16 {
        match self {
            AppError::SdmmcDetached => 1,
            AppError::UnknownCommand => 2,
            AppError::UnhandledCommand => 3,
            AppError::SdMmcSpi(link) => link.spec_opcode(),
            AppError::SdMmcController(fault) => fault.spec_opcode(),
            AppError::SdMmcFile(FileError::InvalidOffset) => 44,
            AppError::UnhandledReadyCommand => 45,
            AppError::UnhandledAddressCommand => 46,
        }
    }

    pub fn opcode(&self) -> (code: u16)
        ensures
            code == self.spec_opcode(),
            1 <= code <= MAX_OPCODE,
    {
        match self {
            AppError::SdmmcDetached => 1,
            AppError::UnknownCommand => 2,
            AppError::UnhandledCommand => 3,
            AppError::SdMmcSpi(link) => link.opcode(),
            AppError::SdMmcController(fault) => fault.opcode(),
            AppError::SdMmcFile(FileError::InvalidOffset) => 44,
            AppError::UnhandledReadyCommand => 45,
            AppError::UnhandledAddressCommand => 46,
        }
    }

    /// A link fault seen directly.
    pub fn from_spi(value: SpiError) -> (error: Self)
        ensures
            error == AppError::SdMmcSpi(value),
    {
        AppError::SdMmcSpi(value)
    }

    /// A fault reported by the file system.
    pub fn from_controller(value: ControllerError) -> (error: Self)
        ensures
            error == AppError::SdMmcController(value),
    {
        AppError::SdMmcController(value)
    }

    /// A fault of an open file.
    pub fn from_file(value: FileError) -> (error: Self)
        ensures
            error == AppError::SdMmcFile(value),
    {
        AppError::SdMmcFile(value)
    }
}

/// No fault has opcode zero, so a fault word is never mistaken for an empty
/// payload, and a link fault has the same opcode whether it was seen directly
/// or through the file system.
pub proof fn lemma_opcode_range(error: AppError)
    ensures
        1 <= error.spec_opcode() <= MAX_OPCODE,
        forall|link: SpiError|
            AppError::SdMmcSpi(link).spec_opcode() == AppError::SdMmcController(
                ControllerError::DeviceError(link),
            ).spec_opcode(),
{
}

} // verus!
