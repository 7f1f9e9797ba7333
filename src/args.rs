//! What the thumbnailer is asked to do, and which resolver suits an input.

use vstd::prelude::*;

verus! {

/// The input and output of one thumbnail request.
#[derive(Debug)]
pub struct ThumbnailerArgsFileParams {
    /// The side of the square thumbnail; `None` keeps the icon's own size.
    pub size: Option<i32>,
    pub input_file: String,
    pub output_file: String,
}

impl ThumbnailerArgsFileParams {
    pub fn duplicate(&self) -> (r: ThumbnailerArgsFileParams)
        ensures
            r.size == self.size,
            r.input_file@ == self.input_file@,
            r.output_file@ == self.output_file@,
    {
        ThumbnailerArgsFileParams {
            size: self.size,
            input_file: self.input_file.clone(),
            output_file: self.output_file.clone(),
        }
    }
}

/// A request: show the version, or make a thumbnail.
#[derive(Debug)]
pub struct ThumbnailerArgs {
    pub show_version: bool,
    pub file_params: Option<ThumbnailerArgsFileParams>,
}

impl ThumbnailerArgs {
    /// The thumbnail request, if there is one.
    pub fn file_params(&self) -> (r: Option<ThumbnailerArgsFileParams>)
        ensures
            r is Some <==> self.file_params is Some,
            r matches Some(f) ==> ({
                let g = self.file_params->Some_0;
                f.size == g.size && f.input_file@ == g.input_file@ && f.output_file@ == g.output_file@
            }),
    {
        match &self.file_params {
            Some(f) => Some(f.duplicate()),
            None => None,
        }
    }
}

/// The kinds of input file that have a resolver.
#[derive(Clone, Copy, Debug, PartialEq, Eq, Structural)]
pub enum InputKind {
    /// A DS cartridge image, whose banner holds the icon.
    NdsRom,
    /// An installable package.
    Cia,
    /// A bare icon-metadata block.
    Smdh,
    /// A homebrew executable.
    N3dsx,
    /// An executable container.
    Cxi,
    /// A cartridge image.
    Cci,
}

/// The kind of input that a content type names.
pub open spec fn input_kind_of(ct: Seq<char>) -> Option<InputKind> {
    if ct == "application/x-nintendo-ds-rom"@ {
        Some(InputKind::NdsRom)
    } else if ct == "application/x-ctr-cia"@ {
        Some(InputKind::Cia)
    } else if ct == "application/x-ctr-smdh"@ {
        Some(InputKind::Smdh)
    } else if ct == "application/x-ctr-3dsx"@ || ct == "application/x-nintendo-3ds-executable"@ {
        Some(InputKind::N3dsx)
    } else if ct == "application/x-ctr-cxi"@ {
        Some(InputKind::Cxi)
    } else if ct == "application/x-ctr-cci"@ || ct == "application/x-nintendo-3ds-rom"@ {
        Some(InputKind::Cci)
    } else {
        None
    }
}

/// Picks the resolver for a content type; `None` for one that has none.
pub fn input_kind(content_type: &str) -> (r: Option<InputKind>)
    ensures
        r == input_kind_of(content_type@),
{
    let ct: String = content_type.to_owned();
    if ct == "application/x-nintendo-ds-rom".to_owned() {
        Some(InputKind::NdsRom)
    } else if ct == "application/x-ctr-cia".to_owned() {
        Some(InputKind::Cia)
    } else if ct == "application/x-ctr-smdh".to_owned() {
        Some(InputKind::Smdh)
    } else if ct == "application/x-ctr-3dsx".to_owned()
        || ct == "application/x-nintendo-3ds-executable".to_owned() {
        Some(InputKind::N3dsx)
    } else if ct == "application/x-ctr-cxi".to_owned() {
        Some(InputKind::Cxi)
    } else if ct == "application/x-ctr-cci".to_owned()
        || ct == "application/x-nintendo-3ds-rom".to_owned() {
        Some(InputKind::Cci)
    } else {
        None
    }
}

} // verus!
