//! Scalar aliases, sentinel values and small plain records shared by the
//! rest of the interface.

use vstd::prelude::*;

verus! {

pub type Bool = i32;

pub const TRUE: Bool = 1;

pub const FALSE: Bool = 0;

pub type Flags16 = u16;

pub type Flags32 = u32;

pub type Flags64 = u64;

pub type Index32 = u32;

pub const INDEX_NONE_U32: u32 = 0xffff_ffff;

pub const INDEX_NONE_I32: i32 = -1;

pub const NAME_MAX_LEN: usize = 256;

pub type TypeId = i32;

pub type NodeDeclId = u32;

pub type ParamId = u32;

pub type NodeId = u32;

pub const NODEDECL_ID_INVALID: u32 = INDEX_NONE_U32;

pub const PARAM_ID_INVALID: u32 = INDEX_NONE_U32;

pub type SourceFileId = Flags32;

pub type RpslEntryCallFlags = Flags32;

/// Size and alignment of a requested allocation, in bytes.
#[derive(Clone, Copy, Debug, Default)]
pub struct AllocInfo {
    pub size: usize,
    pub alignment: usize,
}

/// A position in a graph-description source file.
#[derive(Clone, Copy, Debug, Default)]
pub struct SourceLocation {
    pub file: SourceFileId,
    pub line: u32,
}

/// Severity of a diagnostic message, ordered from least to most severe.
/// The associated constants are the raw values of the known severities.
#[derive(Clone, Copy, Debug, Default, PartialEq, Eq, Hash, Structural)]
pub struct DiagLogLevel(pub u32);

impl DiagLogLevel {
    pub const INFO: u32 = 0;

    pub const WARNING: u32 = 1;

    pub const ERROR: u32 = 2;

    pub const FATAL: u32 = 3;

    /// Number of severities; not itself a severity.
    pub const COUNT: u32 = 4;
}

} // verus!
