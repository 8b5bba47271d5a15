//! Element types of tensors.

use vstd::prelude::*;

verus! {

/// The scalar type of a tensor's elements.
#[derive(Debug, Clone, Copy, Hash, PartialEq, Eq, Structural)]
pub enum DType {
    U8,
    U32,
    I64,
    BF16,
    F16,
    F32,
    F64,
}

impl DType {
    /// Width of one element in bytes.
    pub open spec fn width(self) -> nat {
        match self {
            DType::U8 => 1,
            DType::U32 => 4,
            DType::I64 => 8,
            DType::BF16 => 2,
            DType::F16 => 2,
            DType::F32 => 4,
            DType::F64 => 8,
        }
    }

    /// The type's name as errors report it.
    pub open spec fn name(self) -> Seq<char> {
        match self {
            DType::U8 => "u8"@,
            DType::U32 => "u32"@,
            DType::I64 => "i64"@,
            DType::BF16 => "bf16"@,
            DType::F16 => "f16"@,
            DType::F32 => "f32"@,
            DType::F64 => "f64"@,
        }
    }

    /// Returns the width of one element in bytes.
    pub fn size_in_bytes(self) -> (width: usize)
        ensures
            width == self.width(),
            1 <= width <= 8,
    {
        match self {
            DType::U8 => 1,
            DType::U32 => 4,
            DType::I64 => 8,
            DType::BF16 => 2,
            DType::F16 => 2,
            DType::F32 => 4,
            DType::F64 => 8,
        }
    }

    /// Returns the type's name.
    pub fn as_str(self) -> (name: &'static str)
        ensures
            name@ == self.name(),
    {
        match self {
            DType::U8 => "u8",
            DType::U32 => "u32",
            DType::I64 => "i64",
            DType::BF16 => "bf16",
            DType::F16 => "f16",
            DType::F32 => "f32",
            DType::F64 => "f64",
        }
    }
}

} // verus!
