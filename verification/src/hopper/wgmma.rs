//! Shapes of the warpgroup matrix product.

use vstd::prelude::*;

verus! {

/// Shape of a warpgroup matrix product: rows, columns and inner extent. The
/// inner extent is 16 for half precision and 32 for 8-bit floats.
#[derive(Debug, Clone, Copy, PartialEq, Eq, Structural)]
pub enum WgmmaShape {
    M64N64K16,
    M64N128K16,
    M64N256K16,
    M64N64K32,
    M64N128K32,
    M64N256K32,
}

impl WgmmaShape {
    /// Rows, columns and inner extent.
    pub open spec fn spec_dims(self) -> (u32, u32, u32) {
        match self {
            WgmmaShape::M64N64K16 => (64, 64, 16),
            WgmmaShape::M64N128K16 => (64, 128, 16),
            WgmmaShape::M64N256K16 => (64, 256, 16),
            WgmmaShape::M64N64K32 => (64, 64, 32),
            WgmmaShape::M64N128K32 => (64, 128, 32),
            WgmmaShape::M64N256K32 => (64, 256, 32),
        }
    }

    /// Rows, columns and inner extent.
    pub fn dims(self) -> (d: (u32, u32, u32))
        ensures
            d == self.spec_dims(),
    {
        match self {
            WgmmaShape::M64N64K16 => (64, 64, 16),
            WgmmaShape::M64N128K16 => (64, 128, 16),
            WgmmaShape::M64N256K16 => (64, 256, 16),
            WgmmaShape::M64N64K32 => (64, 64, 32),
            WgmmaShape::M64N128K32 => (64, 128, 32),
            WgmmaShape::M64N256K32 => (64, 256, 32),
        }
    }

    /// Name of the macro in the kernel header.
    pub open spec fn spec_macro_name(self) -> Seq<char> {
        match self {
            WgmmaShape::M64N64K16 => "ATOMR_WGMMA_F16_M64N64K16"@,
            WgmmaShape::M64N128K16 => "ATOMR_WGMMA_F16_M64N128K16"@,
            WgmmaShape::M64N256K16 => "ATOMR_WGMMA_F16_M64N256K16"@,
            WgmmaShape::M64N64K32 => "ATOMR_WGMMA_F8_M64N64K32"@,
            WgmmaShape::M64N128K32 => "ATOMR_WGMMA_F8_M64N128K32"@,
            WgmmaShape::M64N256K32 => "ATOMR_WGMMA_F8_M64N256K32"@,
        }
    }

    /// Name of the macro in the kernel header.
    pub fn macro_name(self) -> (s: &'static str)
        ensures
            s@ == self.spec_macro_name(),
    {
        match self {
            WgmmaShape::M64N64K16 => "ATOMR_WGMMA_F16_M64N64K16",
            WgmmaShape::M64N128K16 => "ATOMR_WGMMA_F16_M64N128K16",
            WgmmaShape::M64N256K16 => "ATOMR_WGMMA_F16_M64N256K16",
            WgmmaShape::M64N64K32 => "ATOMR_WGMMA_F8_M64N64K32",
            WgmmaShape::M64N128K32 => "ATOMR_WGMMA_F8_M64N128K32",
            WgmmaShape::M64N256K32 => "ATOMR_WGMMA_F8_M64N256K32",
        }
    }
}

/// Two shapes have the same extents only if they are the same.
pub proof fn law_shapes_distinct(a: WgmmaShape, b: WgmmaShape)
    ensures
        a.spec_dims() == b.spec_dims() <==> a == b,
{
}

/// Every shape has 64 rows and the columns and inner extent of its name. Half
/// precision has the inner extent 16 and its own macro, 8-bit floats have 32 and
/// theirs.
pub proof fn law_shapes(s: WgmmaShape)
    ensures
        s.spec_dims().0 == 64,
        s.spec_dims().1 == 64 <==> s is M64N64K16 || s is M64N64K32,
        s.spec_dims().1 == 128 <==> s is M64N128K16 || s is M64N128K32,
        s.spec_dims().1 == 256 <==> s is M64N256K16 || s is M64N256K32,
        s.spec_dims().2 == 16 <==> s is M64N64K16 || s is M64N128K16 || s is M64N256K16,
        s.spec_dims().2 == 32 <==> s is M64N64K32 || s is M64N128K32 || s is M64N256K32,
        s is M64N64K16 ==> s.spec_macro_name() == "ATOMR_WGMMA_F16_M64N64K16"@,
        s is M64N128K16 ==> s.spec_macro_name() == "ATOMR_WGMMA_F16_M64N128K16"@,
        s is M64N256K16 ==> s.spec_macro_name() == "ATOMR_WGMMA_F16_M64N256K16"@,
        s is M64N64K32 ==> s.spec_macro_name() == "ATOMR_WGMMA_F8_M64N64K32"@,
        s is M64N128K32 ==> s.spec_macro_name() == "ATOMR_WGMMA_F8_M64N128K32"@,
        s is M64N256K32 ==> s.spec_macro_name() == "ATOMR_WGMMA_F8_M64N256K32"@,
{
}

} // verus!
