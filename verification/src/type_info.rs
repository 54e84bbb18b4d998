//! Type descriptors handed to the native runtime: a 16-bit size and a
//! 16-bit type identifier.

use vstd::prelude::*;
use vstd::layout::size_of;
use crate::base::TypeId;

verus! {

/// Identifiers of the types the runtime knows without being told. The
/// associated constants are the raw values of the known identifiers.
#[derive(Clone, Copy, Debug, Default, PartialEq, Eq, Hash, Structural)]
pub struct BuiltInTypeIds(pub u32);

impl BuiltInTypeIds {
    /// A type known only by its size.
    pub const OPAQUE: u32 = 0;

    pub const BOOL: u32 = 1;

    pub const INT8: u32 = 2;

    pub const UINT8: u32 = 3;

    pub const INT16: u32 = 4;

    pub const UINT16: u32 = 5;

    pub const INT32: u32 = 6;

    pub const UINT32: u32 = 7;

    pub const INT64: u32 = 8;

    pub const UINT64: u32 = 9;

    pub const FLOAT32: u32 = 10;

    pub const FLOAT64: u32 = 11;

    pub const MAX_VALUE: u32 = 12;

    pub const RUNTIME_DEFINED_BEGIN: u32 = 64;

    pub const USER_DEFINED_BEGIN: u32 = 256;
}

/// The low sixteen bits of `n`, as a number in `0 .. 65536`.
pub open spec fn low16(n: int) -> int {
    n % 0x1_0000
}

#[derive(Clone, Copy, Debug)]
pub struct TypeInfo {
    pub size: u16,
    pub id: u16,
}

impl TypeInfo {
    /// Descriptor of an opaque type of `size` bytes. Only the low sixteen
    /// bits of `size` are kept.
    pub fn init_from_size(size: usize) -> (info: Self)
        ensures
            info.size == low16(size as int),
            info.id == 0,
    {
        let kept: u16 = #[verifier::truncate] (size as u16);
        assert(kept == size % 0x1_0000) by (bit_vector)
            requires
                kept == size as u16,
        ;
        TypeInfo { size: kept, id: 0 }
    }

    /// Descriptor with an explicit type identifier. Size and identifier
    /// are each cut to their low sixteen bits.
    pub fn init_from_size_and_type_id(size: usize, type_id: TypeId) -> (info: Self)
        ensures
            info.size == low16(size as int),
            info.id == low16(type_id as int),
    {
        let kept: u16 = #[verifier::truncate] (size as u16);
        let id: u16 = #[verifier::truncate] (type_id as u16);
        assert(kept == size % 0x1_0000) by (bit_vector)
            requires
                kept == size as u16,
        ;
        assert(type_id >= 0 ==> id == type_id % 0x1_0000) by (bit_vector)
            requires
                id == type_id as u16,
        ;
        assert(type_id < 0 ==> id == 0xffffi32 - ((-1i32 - type_id) % 0x1_0000)) by (bit_vector)
            requires
                id == type_id as u16,
        ;
        TypeInfo { size: kept, id }
    }

    /// Descriptor of an opaque type as large as `T`.
    pub fn init_from_type<T>() -> (info: Self)
        ensures
            info.size == low16(size_of::<T>() as int),
            info.id == 0,
    {
        Self::init_from_size(core::mem::size_of::<T>())
    }

    /// Descriptor of a type as large as `T` with an explicit identifier.
    pub fn init_from_type_and_id<T>(type_id: TypeId) -> (info: Self)
        ensures
            info.size == low16(size_of::<T>() as int),
            info.id == low16(type_id as int),
    {
        Self::init_from_size_and_type_id(core::mem::size_of::<T>(), type_id)
    }
}

} // verus!
