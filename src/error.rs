//! The ways in which extracting an icon can fail.

use vstd::prelude::*;
use crate::n3ds::CIAMetaSize;

verus! {

/// A container format that begins with a signature.
#[derive(Clone, Copy, Debug, PartialEq, Eq, Structural)]
pub enum ContainerFormat {
    /// The icon-metadata block ("SMDH").
    Smdh,
    /// The homebrew executable ("3DSX").
    N3dsx,
    /// The cartridge image ("NCSD").
    Cci,
    /// The executable container ("NCCH").
    Cxi,
}

/// Why a well-formed input still cannot give an icon.
#[derive(Clone, Copy, Debug, PartialEq, Eq, Structural)]
pub enum UnsupportedReason {
    /// The homebrew executable has no extended header; carries its header size.
    NoExtendedHeader(u16),
    /// The executable container's contents are encrypted.
    EncryptedContent,
    /// The package's metadata section is of a kind that holds no icon.
    MetaSection(CIAMetaSize),
}

/// A field whose value is not one the format allows.
#[derive(Clone, Copy, Debug, PartialEq, Eq, Structural)]
pub enum InvalidField {
    /// The package's metadata-section size; carries the raw value.
    MetaSize(u32),
    /// A file-system entry whose name is not valid UTF-8.
    EntryName,
}

/// Something that the chain of containers should hold but does not.
#[derive(Clone, Copy, Debug, PartialEq, Eq, Structural)]
pub enum MissingResource {
    /// The embedded file system has no entry named "icon".
    IconEntry,
    /// The cartridge image's partition table has no first partition.
    ExecutablePartition,
}

/// Every failure of a parse; each one ends it.
#[derive(Clone, Copy, Debug, PartialEq, Eq, Structural)]
pub enum ParseError {
    MagicMismatch(ContainerFormat),
    UnsupportedFeature(UnsupportedReason),
    InvalidField(InvalidField),
    ResourceNotFound(MissingResource),
    /// A read ran past the end of the input, or a seek left the range of positions.
    IOFailure,
}

} // verus!
