//! Tensor maps of the tensor memory accelerator.

use vstd::prelude::*;
use vstd::string::*;

use crate::text;
use crate::text::{hex_text, join2, join3, signed_text, unsigned_text};

verus! {

/// Element type of a tensor map.
#[derive(Debug, Clone, Copy, PartialEq, Eq, Structural)]
pub enum TensorMapDataType {
    UInt8,
    UInt16,
    UInt32,
    Int32,
    UInt64,
    Int64,
    Float16,
    Float32,
    Float64,
    BFloat16,
    Float32Ftz,
    TFloat32,
    TFloat32Ftz,
    Float8E4m3,
    Float8E5m2,
    Float4E2m1,
    Float6E2m3,
    Float6E3m2,
}

impl TensorMapDataType {
    /// Number of the variant in the driver's interface.
    pub open spec fn spec_as_u32(self) -> u32 {
        match self {
            TensorMapDataType::UInt8 => 0,
            TensorMapDataType::UInt16 => 1,
            TensorMapDataType::UInt32 => 2,
            TensorMapDataType::Int32 => 3,
            TensorMapDataType::UInt64 => 4,
            TensorMapDataType::Int64 => 5,
            TensorMapDataType::Float16 => 6,
            TensorMapDataType::Float32 => 7,
            TensorMapDataType::Float64 => 8,
            TensorMapDataType::BFloat16 => 9,
            TensorMapDataType::Float32Ftz => 10,
            TensorMapDataType::TFloat32 => 11,
            TensorMapDataType::TFloat32Ftz => 12,
            TensorMapDataType::Float8E4m3 => 13,
            TensorMapDataType::Float8E5m2 => 14,
            TensorMapDataType::Float4E2m1 => 15,
            TensorMapDataType::Float6E2m3 => 16,
            TensorMapDataType::Float6E3m2 => 17,
        }
    }

    /// Number of the variant in the driver's interface.
    pub fn as_u32(self) -> (n: u32)
        ensures
            n == self.spec_as_u32(),
    {
        match self {
            TensorMapDataType::UInt8 => 0,
            TensorMapDataType::UInt16 => 1,
            TensorMapDataType::UInt32 => 2,
            TensorMapDataType::Int32 => 3,
            TensorMapDataType::UInt64 => 4,
            TensorMapDataType::Int64 => 5,
            TensorMapDataType::Float16 => 6,
            TensorMapDataType::Float32 => 7,
            TensorMapDataType::Float64 => 8,
            TensorMapDataType::BFloat16 => 9,
            TensorMapDataType::Float32Ftz => 10,
            TensorMapDataType::TFloat32 => 11,
            TensorMapDataType::TFloat32Ftz => 12,
            TensorMapDataType::Float8E4m3 => 13,
            TensorMapDataType::Float8E5m2 => 14,
            TensorMapDataType::Float4E2m1 => 15,
            TensorMapDataType::Float6E2m3 => 16,
            TensorMapDataType::Float6E3m2 => 17,
        }
    }
}

/// How elements are interleaved in global memory.
#[derive(Debug, Clone, Copy, PartialEq, Eq, Structural)]
pub enum TensorMapInterleave {
    Off,
    Bytes16,
    Bytes32,
}

impl TensorMapInterleave {
    /// Number of the variant in the driver's interface.
    pub open spec fn spec_as_u32(self) -> u32 {
        match self {
            TensorMapInterleave::Off => 0,
            TensorMapInterleave::Bytes16 => 1,
            TensorMapInterleave::Bytes32 => 2,
        }
    }

    /// Number of the variant in the driver's interface.
    pub fn as_u32(self) -> (n: u32)
        ensures
            n == self.spec_as_u32(),
    {
        match self {
            TensorMapInterleave::Off => 0,
            TensorMapInterleave::Bytes16 => 1,
            TensorMapInterleave::Bytes32 => 2,
        }
    }
}

/// How rows are swizzled in shared memory.
#[derive(Debug, Clone, Copy, PartialEq, Eq, Structural)]
pub enum TensorMapSwizzle {
    Off,
    Bytes32,
    Bytes64,
    Bytes128,
}

impl TensorMapSwizzle {
    /// Number of the variant in the driver's interface.
    pub open spec fn spec_as_u32(self) -> u32 {
        match self {
            TensorMapSwizzle::Off => 0,
            TensorMapSwizzle::Bytes32 => 1,
            TensorMapSwizzle::Bytes64 => 2,
            TensorMapSwizzle::Bytes128 => 3,
        }
    }

    /// Number of the variant in the driver's interface.
    pub fn as_u32(self) -> (n: u32)
        ensures
            n == self.spec_as_u32(),
    {
        match self {
            TensorMapSwizzle::Off => 0,
            TensorMapSwizzle::Bytes32 => 1,
            TensorMapSwizzle::Bytes64 => 2,
            TensorMapSwizzle::Bytes128 => 3,
        }
    }
}

/// How far loads are promoted in the second-level cache.
#[derive(Debug, Clone, Copy, PartialEq, Eq, Structural)]
pub enum TensorMapL2Promotion {
    Off,
    Bytes64,
    Bytes128,
    Bytes256,
}

impl TensorMapL2Promotion {
    /// Number of the variant in the driver's interface.
    pub open spec fn spec_as_u32(self) -> u32 {
        match self {
            TensorMapL2Promotion::Off => 0,
            TensorMapL2Promotion::Bytes64 => 1,
            TensorMapL2Promotion::Bytes128 => 2,
            TensorMapL2Promotion::Bytes256 => 3,
        }
    }

    /// Number of the variant in the driver's interface.
    pub fn as_u32(self) -> (n: u32)
        ensures
            n == self.spec_as_u32(),
    {
        match self {
            TensorMapL2Promotion::Off => 0,
            TensorMapL2Promotion::Bytes64 => 1,
            TensorMapL2Promotion::Bytes128 => 2,
            TensorMapL2Promotion::Bytes256 => 3,
        }
    }
}

/// What fills the parts of a tile past the tensor.
#[derive(Debug, Clone, Copy, PartialEq, Eq, Structural)]
pub enum TensorMapOobFill {
    /// Zero.
    NaZero,
    /// Not-a-number, where the element type has it.
    NanRequest,
}

impl TensorMapOobFill {
    /// Number of the variant in the driver's interface.
    pub open spec fn spec_as_u32(self) -> u32 {
        match self {
            TensorMapOobFill::NaZero => 0,
            TensorMapOobFill::NanRequest => 1,
        }
    }

    /// Number of the variant in the driver's interface.
    pub fn as_u32(self) -> (n: u32)
        ensures
            n == self.spec_as_u32(),
    {
        match self {
            TensorMapOobFill::NaZero => 0,
            TensorMapOobFill::NanRequest => 1,
        }
    }
}

/// Description of a tiled tensor map, of up to five dimensions.
#[derive(Debug, Clone)]
pub struct TensorMapDescriptor {
    pub data_type: TensorMapDataType,
    pub global_address: usize,
    pub global_dim: Vec<u64>,
    /// Strides in bytes, without that of the innermost dimension.
    pub global_strides: Vec<u64>,
    pub box_dim: Vec<u32>,
    pub element_strides: Vec<u32>,
    pub interleave: TensorMapInterleave,
    pub swizzle: TensorMapSwizzle,
    pub l2_promotion: TensorMapL2Promotion,
    pub oob_fill: TensorMapOobFill,
}

/// Why a tensor map cannot be encoded.
#[derive(Debug, Clone, PartialEq, Eq)]
pub enum TmaEncodeError {
    BadRank(usize),
    Mismatch { what: &'static str, expected: usize, got: usize },
    UnalignedAddress(usize),
    ZeroDim(&'static str),
    /// The driver's error code.
    DriverError(i32),
}

/// [`TmaEncodeError`] with its texts taken as character sequences.
#[verifier::ext_equal]
pub enum TmaErrorView {
    BadRank(usize),
    Mismatch { what: Seq<char>, expected: usize, got: usize },
    UnalignedAddress(usize),
    ZeroDim(Seq<char>),
    DriverError(i32),
}

impl View for TmaEncodeError {
    type V = TmaErrorView;

    open spec fn view(&self) -> TmaErrorView {
        match self {
            TmaEncodeError::BadRank(r) => TmaErrorView::BadRank(*r),
            TmaEncodeError::Mismatch { what, expected, got } => TmaErrorView::Mismatch {
                what: what@,
                expected: *expected,
                got: *got,
            },
            TmaEncodeError::UnalignedAddress(a) => TmaErrorView::UnalignedAddress(*a),
            TmaEncodeError::ZeroDim(f) => TmaErrorView::ZeroDim(f@),
            TmaEncodeError::DriverError(c) => TmaErrorView::DriverError(*c),
        }
    }
}

impl TmaErrorView {
    /// The text that the error is displayed as.
    pub open spec fn message(self) -> Seq<char> {
        match self {
            TmaErrorView::BadRank(r) => "TMA rank "@ + text::decimal(r as nat) + " out of [1,5]"@,
            TmaErrorView::Mismatch { what, expected, got } => "TMA descriptor: "@ + what
                + ".len() = "@ + text::decimal(got as nat) + ", expected "@ + text::decimal(
                expected as nat,
            ),
            TmaErrorView::UnalignedAddress(a) => "TMA global_address 0x"@ + text::hexadecimal(
                a as nat,
            ) + " is not 16-byte aligned"@,
            TmaErrorView::ZeroDim(field) => "TMA descriptor: "@ + field + " contains a zero"@,
            TmaErrorView::DriverError(c) => "cuTensorMapEncodeTiled returned "@
                + text::signed_decimal(c as int),
        }
    }
}

impl TmaEncodeError {
    /// The text that the error is displayed as.
    pub fn message(&self) -> (s: String)
        ensures
            s@ == self@.message(),
    {
        match self {
            TmaEncodeError::BadRank(r) => {
                let d = unsigned_text(*r as u64);
                join3("TMA rank ", d.as_str(), " out of [1,5]")
            },
            TmaEncodeError::Mismatch { what, expected, got } => {
                let g = unsigned_text(*got as u64);
                let e = unsigned_text(*expected as u64);
                let mut s = join3("TMA descriptor: ", what, ".len() = ");
                s.append(g.as_str());
                s.append(", expected ");
                s.append(e.as_str());
                s
            },
            TmaEncodeError::UnalignedAddress(a) => {
                let h = hex_text(*a as u64);
                join3("TMA global_address 0x", h.as_str(), " is not 16-byte aligned")
            },
            TmaEncodeError::ZeroDim(field) => join3("TMA descriptor: ", field, " contains a zero"),
            TmaEncodeError::DriverError(c) => {
                let d = signed_text(*c as i64);
                join2("cuTensorMapEncodeTiled returned ", d.as_str())
            },
        }
    }
}

fn has_zero_u64(v: &Vec<u64>) -> (b: bool)
    ensures
        b == v@.contains(0),
{
    let mut i: usize = 0;
    while i < v.len()
        invariant
            i <= v.len(),
            forall|j: int| 0 <= j < i ==> v[j] != 0,
        decreases v.len() - i,
    {
        if v[i] == 0 {
            return true;
        }
        i = i + 1;
    }
    false
}

fn has_zero_u32(v: &Vec<u32>) -> (b: bool)
    ensures
        b == v@.contains(0),
{
    let mut i: usize = 0;
    while i < v.len()
        invariant
            i <= v.len(),
            forall|j: int| 0 <= j < i ==> v[j] != 0,
        decreases v.len() - i,
    {
        if v[i] == 0 {
            return true;
        }
        i = i + 1;
    }
    false
}

impl TensorMapDescriptor {
    /// Descriptor without dimensions; the caller fills them in.
    pub fn new(data_type: TensorMapDataType, global_address: usize) -> (d: TensorMapDescriptor)
        ensures
            d.data_type == data_type,
            d.global_address == global_address,
            d.global_dim@ == Seq::<u64>::empty(),
            d.global_strides@ == Seq::<u64>::empty(),
            d.box_dim@ == Seq::<u32>::empty(),
            d.element_strides@ == Seq::<u32>::empty(),
            d.interleave == TensorMapInterleave::Off,
            d.swizzle == TensorMapSwizzle::Off,
            d.l2_promotion == TensorMapL2Promotion::Off,
            d.oob_fill == TensorMapOobFill::NaZero,
    {
        TensorMapDescriptor {
            data_type,
            global_address,
            global_dim: Vec::new(),
            global_strides: Vec::new(),
            box_dim: Vec::new(),
            element_strides: Vec::new(),
            interleave: TensorMapInterleave::Off,
            swizzle: TensorMapSwizzle::Off,
            l2_promotion: TensorMapL2Promotion::Off,
            oob_fill: TensorMapOobFill::NaZero,
        }
    }

    /// Number of dimensions.
    pub fn rank(&self) -> (n: usize)
        ensures
            n == self.global_dim.len(),
    {
        self.global_dim.len()
    }

    /// The first thing that is wrong with the descriptor, if any.
    pub open spec fn fault(&self) -> Option<TmaErrorView> {
        let r = self.global_dim.len();
        if r == 0 || r > 5 {
            Some(TmaErrorView::BadRank(r))
        } else if self.box_dim.len() != r {
            Some(
                TmaErrorView::Mismatch {
                    what: "box_dim"@,
                    expected: r,
                    got: self.box_dim.len(),
                },
            )
        } else if self.element_strides.len() != r {
            Some(
                TmaErrorView::Mismatch {
                    what: "element_strides"@,
                    expected: r,
                    got: self.element_strides.len(),
                },
            )
        } else if self.global_strides.len() != r - 1 {
            Some(
                TmaErrorView::Mismatch {
                    what: "global_strides"@,
                    expected: (r - 1) as usize,
                    got: self.global_strides.len(),
                },
            )
        } else if self.global_address % 16 != 0 {
            Some(TmaErrorView::UnalignedAddress(self.global_address))
        } else if self.global_dim@.contains(0) {
            Some(TmaErrorView::ZeroDim("global_dim"@))
        } else if self.box_dim@.contains(0) {
            Some(TmaErrorView::ZeroDim("box_dim"@))
        } else {
            None
        }
    }

    /// Check that the lists line up, the address is aligned, and no extent is
    /// zero.
    pub fn validate(&self) -> (r: Result<(), TmaEncodeError>)
        ensures
            match self.fault() {
                None => r is Ok,
                Some(e) => r is Err && r->Err_0@ == e,
            },
    {
        let r = self.rank();
        if r == 0 || r > 5 {
            return Err(TmaEncodeError::BadRank(r));
        }
        if self.box_dim.len() != r {
            return Err(
                TmaEncodeError::Mismatch {
                    what: "box_dim",
                    expected: r,
                    got: self.box_dim.len(),
                },
            );
        }
        if self.element_strides.len() != r {
            return Err(
                TmaEncodeError::Mismatch {
                    what: "element_strides",
                    expected: r,
                    got: self.element_strides.len(),
                },
            );
        }
        if self.global_strides.len() != r - 1 {
            return Err(
                TmaEncodeError::Mismatch {
                    what: "global_strides",
                    expected: r - 1,
                    got: self.global_strides.len(),
                },
            );
        }
        if self.global_address % 16 != 0 {
            return Err(TmaEncodeError::UnalignedAddress(self.global_address));
        }
        if has_zero_u64(&self.global_dim) {
            return Err(TmaEncodeError::ZeroDim("global_dim"));
        }
        if has_zero_u32(&self.box_dim) {
            return Err(TmaEncodeError::ZeroDim("box_dim"));
        }
        Ok(())
    }

    /// The answer of encoding the map, from the code that the driver returned
    /// for a descriptor that passed [`TensorMapDescriptor::validate`]; zero
    /// stands for success.
    pub fn encoded(code: i32) -> (r: Result<(), TmaEncodeError>)
        ensures
            if code == 0 {
                r is Ok
            } else {
                r is Err && r->Err_0@ == TmaErrorView::DriverError(code)
            },
    {
        if code != 0 {
            return Err(TmaEncodeError::DriverError(code));
        }
        Ok(())
    }
}

/// Two element types have the same number only if they are the same.
pub proof fn law_data_type_numbers_distinct(a: TensorMapDataType, b: TensorMapDataType)
    ensures
        a.spec_as_u32() == b.spec_as_u32() <==> a == b,
{
}

/// A descriptor is accepted exactly when it has one to five dimensions, its
/// lists line up, its address is aligned, and no extent is zero.
pub proof fn law_accepted_descriptors(d: TensorMapDescriptor)
    ensures
        d.fault() is None <==> {
            &&& 1 <= d.global_dim.len() <= 5
            &&& d.box_dim.len() == d.global_dim.len()
            &&& d.element_strides.len() == d.global_dim.len()
            &&& d.global_strides.len() + 1 == d.global_dim.len()
            &&& d.global_address % 16 == 0
            &&& !d.global_dim@.contains(0)
            &&& !d.box_dim@.contains(0)
        },
{
}

/// The numbers are those of the driver's interface.
pub proof fn law_driver_numbers()
    ensures
        TensorMapDataType::UInt8.spec_as_u32() == 0,
        TensorMapDataType::UInt16.spec_as_u32() == 1,
        TensorMapDataType::UInt32.spec_as_u32() == 2,
        TensorMapDataType::Int32.spec_as_u32() == 3,
        TensorMapDataType::UInt64.spec_as_u32() == 4,
        TensorMapDataType::Int64.spec_as_u32() == 5,
        TensorMapDataType::Float16.spec_as_u32() == 6,
        TensorMapDataType::Float32.spec_as_u32() == 7,
        TensorMapDataType::Float64.spec_as_u32() == 8,
        TensorMapDataType::BFloat16.spec_as_u32() == 9,
        TensorMapDataType::Float32Ftz.spec_as_u32() == 10,
        TensorMapDataType::TFloat32.spec_as_u32() == 11,
        TensorMapDataType::TFloat32Ftz.spec_as_u32() == 12,
        TensorMapDataType::Float8E4m3.spec_as_u32() == 13,
        TensorMapDataType::Float8E5m2.spec_as_u32() == 14,
        TensorMapDataType::Float4E2m1.spec_as_u32() == 15,
        TensorMapDataType::Float6E2m3.spec_as_u32() == 16,
        TensorMapDataType::Float6E3m2.spec_as_u32() == 17,
        TensorMapInterleave::Off.spec_as_u32() == 0,
        TensorMapInterleave::Bytes16.spec_as_u32() == 1,
        TensorMapInterleave::Bytes32.spec_as_u32() == 2,
        TensorMapSwizzle::Off.spec_as_u32() == 0,
        TensorMapSwizzle::Bytes32.spec_as_u32() == 1,
        TensorMapSwizzle::Bytes64.spec_as_u32() == 2,
        TensorMapSwizzle::Bytes128.spec_as_u32() == 3,
        TensorMapL2Promotion::Off.spec_as_u32() == 0,
        TensorMapL2Promotion::Bytes64.spec_as_u32() == 1,
        TensorMapL2Promotion::Bytes128.spec_as_u32() == 2,
        TensorMapL2Promotion::Bytes256.spec_as_u32() == 3,
        TensorMapOobFill::NaZero.spec_as_u32() == 0,
        TensorMapOobFill::NanRequest.spec_as_u32() == 1,
{
}

/// A fault names what is wrong: the rank, the list whose length does not match
/// with both lengths, the address, or the list with a zero in it.
pub proof fn law_faults_name_what_is_wrong(d: TensorMapDescriptor)
    ensures
        match d.fault() {
            None => true,
            Some(TmaErrorView::BadRank(r)) => r == d.global_dim.len() && (r == 0 || r > 5),
            Some(TmaErrorView::Mismatch { what, expected, got }) => {
                &&& expected != got
                &&& 1 <= d.global_dim.len() <= 5
                &&& ({
                    ||| what == "box_dim"@ && got == d.box_dim.len() && expected
                        == d.global_dim.len()
                    ||| what == "element_strides"@ && got == d.element_strides.len() && expected
                        == d.global_dim.len()
                    ||| what == "global_strides"@ && got == d.global_strides.len() && expected + 1
                        == d.global_dim.len()
                })
            },
            Some(TmaErrorView::UnalignedAddress(a)) => a == d.global_address && a % 16 != 0,
            Some(TmaErrorView::ZeroDim(which)) => {
                ||| which == "global_dim"@ && d.global_dim@.contains(0)
                ||| which == "box_dim"@ && d.box_dim@.contains(0) && !d.global_dim@.contains(0)
            },
            Some(TmaErrorView::DriverError(_)) => false,
        },
{
}

/// The faults are looked for in the order rank, lists, address, zeros.
pub proof fn law_faults_in_order(d: TensorMapDescriptor)
    ensures
        d.global_dim.len() == 0 || d.global_dim.len() > 5 ==> d.fault() == Some(
            TmaErrorView::BadRank(d.global_dim.len()),
        ),
        1 <= d.global_dim.len() <= 5 && d.box_dim.len() != d.global_dim.len() ==> (
        d.fault() matches Some(TmaErrorView::Mismatch { what, .. }) && what == "box_dim"@),
        1 <= d.global_dim.len() <= 5 && d.box_dim.len() == d.global_dim.len()
            && d.element_strides.len() != d.global_dim.len() ==> (
        d.fault() matches Some(TmaErrorView::Mismatch { what, .. }) && what
            == "element_strides"@),
{
}

/// The messages say what was found and what was expected.
pub proof fn law_tma_messages(
    r: usize,
    what: Seq<char>,
    expected: usize,
    got: usize,
    code: i32,
)
    ensures
        TmaErrorView::BadRank(r).message() == "TMA rank "@ + text::decimal(r as nat)
            + " out of [1,5]"@,
        (TmaErrorView::Mismatch { what, expected, got }).message() == "TMA descriptor: "@ + what
            + ".len() = "@ + text::decimal(got as nat) + ", expected "@ + text::decimal(
            expected as nat,
        ),
        TmaErrorView::UnalignedAddress(r).message() == "TMA global_address 0x"@
            + text::hexadecimal(r as nat) + " is not 16-byte aligned"@,
        TmaErrorView::ZeroDim(what).message() == "TMA descriptor: "@ + what + " contains a zero"@,
        TmaErrorView::DriverError(code).message() == "cuTensorMapEncodeTiled returned "@
            + text::signed_decimal(code as int),
{
}

} // verus!
