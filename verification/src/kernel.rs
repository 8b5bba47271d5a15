//! Kernel tags and the kernel catalog.

use vstd::prelude::*;

verus! {

/// Names one compute-kernel module. The set is closed: every operation of the
/// backend runs an entry point of exactly one of these modules.
#[derive(Debug, Clone, Copy, Hash, PartialEq, Eq, Structural)]
pub enum Shader {
    Conv,
    Fill,
    FillU8,
    FillU32,
    Random,
    Copy,
    CopySparse,
    ConvertU8ToF32,
    ConvertU32ToF32,
    Affine,
    BinaryOp,
    UnaryOp,
    UpsampleNearest,
    Repeat,
}

/// Number of kernel modules in the catalog.
pub const KERNEL_COUNT: usize = 14;

/// The catalog order: the tag compiled into each slot.
pub open spec fn catalog() -> Seq<Shader> {
    seq![
        Shader::Conv,
        Shader::Fill,
        Shader::FillU8,
        Shader::FillU32,
        Shader::Random,
        Shader::Copy,
        Shader::CopySparse,
        Shader::ConvertU8ToF32,
        Shader::ConvertU32ToF32,
        Shader::Affine,
        Shader::BinaryOp,
        Shader::UnaryOp,
        Shader::UpsampleNearest,
        Shader::Repeat,
    ]
}

impl Shader {
    /// The catalog slot that holds this tag's module.
    pub open spec fn slot_of(self) -> nat {
        match self {
            Shader::Conv => 0,
            Shader::Fill => 1,
            Shader::FillU8 => 2,
            Shader::FillU32 => 3,
            Shader::Random => 4,
            Shader::Copy => 5,
            Shader::CopySparse => 6,
            Shader::ConvertU8ToF32 => 7,
            Shader::ConvertU32ToF32 => 8,
            Shader::Affine => 9,
            Shader::BinaryOp => 10,
            Shader::UnaryOp => 11,
            Shader::UpsampleNearest => 12,
            Shader::Repeat => 13,
        }
    }

    /// The name of the file that holds this module's source text.
    pub open spec fn source_name(self) -> Seq<char> {
        match self {
            Shader::Conv => "conv.wgsl"@,
            Shader::Fill => "fill.wgsl"@,
            Shader::FillU8 => "fill_u8.wgsl"@,
            Shader::FillU32 => "fill_u32.wgsl"@,
            Shader::Random => "random.wgsl"@,
            Shader::Copy => "copy.wgsl"@,
            Shader::CopySparse => "copy_sparse.wgsl"@,
            Shader::ConvertU8ToF32 => "convert_u8_to_f32.wgsl"@,
            Shader::ConvertU32ToF32 => "convert_u32_to_f32.wgsl"@,
            Shader::Affine => "affine.wgsl"@,
            Shader::BinaryOp => "binary_op.wgsl"@,
            Shader::UnaryOp => "unary_op.wgsl"@,
            Shader::UpsampleNearest => "upsample_nearest.wgsl"@,
            Shader::Repeat => "repeat.wgsl"@,
        }
    }

    /// Returns the catalog slot of this tag.
    pub fn slot(self) -> (r: usize)
        ensures
            r == self.slot_of(),
            r < KERNEL_COUNT,
    {
        match self {
            Shader::Conv => 0,
            Shader::Fill => 1,
            Shader::FillU8 => 2,
            Shader::FillU32 => 3,
            Shader::Random => 4,
            Shader::Copy => 5,
            Shader::CopySparse => 6,
            Shader::ConvertU8ToF32 => 7,
            Shader::ConvertU32ToF32 => 8,
            Shader::Affine => 9,
            Shader::BinaryOp => 10,
            Shader::UnaryOp => 11,
            Shader::UpsampleNearest => 12,
            Shader::Repeat => 13,
        }
    }

    /// Returns the name of the file that holds this module's source text.
    pub fn source_file(self) -> (r: &'static str)
        ensures
            r@ == self.source_name(),
    {
        match self {
            Shader::Conv => "conv.wgsl",
            Shader::Fill => "fill.wgsl",
            Shader::FillU8 => "fill_u8.wgsl",
            Shader::FillU32 => "fill_u32.wgsl",
            Shader::Random => "random.wgsl",
            Shader::Copy => "copy.wgsl",
            Shader::CopySparse => "copy_sparse.wgsl",
            Shader::ConvertU8ToF32 => "convert_u8_to_f32.wgsl",
            Shader::ConvertU32ToF32 => "convert_u32_to_f32.wgsl",
            Shader::Affine => "affine.wgsl",
            Shader::BinaryOp => "binary_op.wgsl",
            Shader::UnaryOp => "unary_op.wgsl",
            Shader::UpsampleNearest => "upsample_nearest.wgsl",
            Shader::Repeat => "repeat.wgsl",
        }
    }
}

/// The kernel catalog: one module per tag, listed in slot order.
pub struct Kernels {
    entries: Vec<Shader>,
}

impl View for Kernels {
    type V = Seq<Shader>;

    closed spec fn view(&self) -> Seq<Shader> {
        self.entries@
    }
}

impl Kernels {
    /// Builds the catalog. It always lists every tag once, in slot order.
    pub fn new() -> (kernels: Kernels)
        ensures
            kernels@ == catalog(),
    {
        let mut entries: Vec<Shader> = Vec::new();
        entries.push(Shader::Conv);
        entries.push(Shader::Fill);
        entries.push(Shader::FillU8);
        entries.push(Shader::FillU32);
        entries.push(Shader::Random);
        entries.push(Shader::Copy);
        entries.push(Shader::CopySparse);
        entries.push(Shader::ConvertU8ToF32);
        entries.push(Shader::ConvertU32ToF32);
        entries.push(Shader::Affine);
        entries.push(Shader::BinaryOp);
        entries.push(Shader::UnaryOp);
        entries.push(Shader::UpsampleNearest);
        entries.push(Shader::Repeat);
        assert(entries@ =~= catalog());
        Kernels { entries }
    }

    /// Number of modules in the catalog.
    pub fn len(&self) -> (n: usize)
        ensures
            n == self@.len(),
    {
        self.entries.len()
    }

    /// The tag whose module sits in `slot`, if the catalog has such a slot.
    pub fn get(&self, slot: usize) -> (r: Option<Shader>)
        ensures
            r == if slot < self@.len() { Some(self@[slot as int]) } else { None },
    {
        if slot < self.entries.len() {
            Some(self.entries[slot])
        } else {
            None
        }
    }
}

/// Lookup by tag is total: every tag has a slot in the catalog, and that slot
/// holds the tag.
pub proof fn lemma_catalog_holds_every_tag(shader: Shader)
    ensures
        catalog().len() == KERNEL_COUNT,
        shader.slot_of() < catalog().len(),
        catalog()[shader.slot_of() as int] == shader,
{
}

/// No tag is catalogued twice: each slot holds the one tag that maps to it.
pub proof fn lemma_catalog_slots_are_distinct(slot: int)
    requires
        0 <= slot < catalog().len(),
    ensures
        catalog()[slot].slot_of() == slot,
{
}

} // verus!
