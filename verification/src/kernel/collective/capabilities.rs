//! What the loaded NCCL library can do.

use vstd::prelude::*;

verus! {

/// Capabilities of the loaded NCCL library.
#[derive(Debug, Clone, Copy, PartialEq, Eq)]
pub struct NcclCapabilities {
    /// Major, minor and patch version; all zero where NCCL is not there.
    pub version: (i32, i32, i32),
    /// 8-bit float reductions: built in, and NCCL 2.20 or later.
    pub has_fp8: bool,
    /// NVLink SHARP: built in.
    pub has_nvls: bool,
    /// SHARP; not queried yet.
    pub has_sharp: bool,
}

/// Optional parts that the build has.
#[derive(Debug, Clone, Copy, PartialEq, Eq, Structural)]
pub struct BuildFeatures {
    pub fp8: bool,
    pub nvls: bool,
}

/// Quotient rounded toward zero.
pub open spec fn quotient(a: int, b: int) -> int {
    if a >= 0 {
        a / b
    } else {
        -((-a) / b)
    }
}

/// Remainder with the sign of the dividend.
pub open spec fn remainder(a: int, b: int) -> int {
    a - quotient(a, b) * b
}

/// The version that NCCL packs as `major * 10000 + minor * 100 + patch`, or
/// before version 2.9 as `major * 1000 + minor * 100 + patch`.
pub open spec fn unpacked(v: int) -> (int, int, int) {
    if v >= 20000 {
        (quotient(v, 10000), remainder(quotient(v, 100), 100), remainder(v, 100))
    } else {
        (quotient(v, 1000), remainder(quotient(v, 100), 10), remainder(v, 100))
    }
}

fn divide(a: i32, b: i32) -> (q: i32)
    requires
        b > 1,
    ensures
        q == quotient(a as int, b as int),
        -0x4000_0000 <= q < 0x4000_0000,
{
    let wide: i64 = a as i64;
    let by: i64 = b as i64;
    proof {
        let x = if a >= 0 {
            a as int
        } else {
            -(a as int)
        };
        let d = b as int;
        assert(0 <= x / d && x / d <= x / 2) by (nonlinear_arith)
            requires
                0 <= x,
                2 <= d,
        ;
    }
    if wide >= 0 {
        let u: u64 = wide as u64 / by as u64;
        u as i32
    } else {
        let u: u64 = (-wide) as u64 / by as u64;
        (-(u as i64)) as i32
    }
}

fn modulo(a: i32, b: i32) -> (r: i32)
    requires
        1 < b <= 100,
    ensures
        r == remainder(a as int, b as int),
{
    let q = divide(a, b);
    assert(-0x100_0000_0000 < q * b < 0x100_0000_0000) by (nonlinear_arith)
        requires
            -0x4000_0000 <= q < 0x4000_0000,
            1 < b <= 100,
    ;
    let back: i64 = q as i64 * b as i64;
    proof {
        let d = b as int;
        if a >= 0 {
            let x = a as int;
            assert(x - (x / d) * d == x % d && 0 <= x % d < d) by (nonlinear_arith)
                requires
                    d > 1,
            ;
        } else {
            let x = -(a as int);
            assert(x - (x / d) * d == x % d && 0 <= x % d < d) by (nonlinear_arith)
                requires
                    d > 1,
            ;
            assert((-(x / d)) * d == -((x / d) * d)) by (nonlinear_arith);
        }
    }
    (a as i64 - back) as i32
}

impl NcclCapabilities {
    /// No capabilities, as reported where NCCL is not there.
    pub fn zeroed() -> (c: NcclCapabilities)
        ensures
            c == spec_zeroed(),
    {
        NcclCapabilities { version: (0, 0, 0), has_fp8: false, has_nvls: false, has_sharp: false }
    }
}

impl Default for NcclCapabilities {
    fn default() -> (c: NcclCapabilities)
        ensures
            c == spec_zeroed(),
    {
        NcclCapabilities::zeroed()
    }
}

/// No capabilities.
pub open spec fn spec_zeroed() -> NcclCapabilities {
    NcclCapabilities { version: (0, 0, 0), has_fp8: false, has_nvls: false, has_sharp: false }
}

/// The capabilities of a library of this packed version.
pub open spec fn spec_capabilities(v: i32, build: BuildFeatures) -> NcclCapabilities {
    let (major, minor, patch) = unpacked(v as int);
    NcclCapabilities {
        version: (major as i32, minor as i32, patch as i32),
        has_fp8: build.fp8 && (major > 2 || (major == 2 && minor >= 20)),
        has_nvls: build.nvls,
        has_sharp: false,
    }
}

/// The capabilities of the loaded library, from the packed version that it
/// reports. `None` stands for a failed query and zero for a library that is
/// not there; neither has capabilities.
pub fn probe_capabilities(version: Option<i32>, build: BuildFeatures) -> (c: NcclCapabilities)
    ensures
        c == match version {
            None => spec_zeroed(),
            Some(v) => if v == 0 {
                spec_zeroed()
            } else {
                spec_capabilities(v, build)
            },
        },
{
    let v: i32 = match version {
        None => {
            return NcclCapabilities::zeroed();
        },
        Some(v) => v,
    };
    if v == 0 {
        return NcclCapabilities::zeroed();
    }
    let hundreds = divide(v, 100);
    let patch = modulo(v, 100);
    let (major, minor) = if v >= 20000 {
        (divide(v, 10000), modulo(hundreds, 100))
    } else {
        (divide(v, 1000), modulo(hundreds, 10))
    };
    let supports_fp8 = major > 2 || (major == 2 && minor >= 20);
    NcclCapabilities {
        version: (major, minor, patch),
        has_fp8: build.fp8 && supports_fp8,
        has_nvls: build.nvls,
        has_sharp: false,
    }
}

/// A version packed in the newer way comes back whole.
pub proof fn law_version_round_trip(major: int, minor: int, patch: int)
    requires
        2 <= major,
        0 <= minor < 100,
        0 <= patch < 100,
    ensures
        unpacked(major * 10000 + minor * 100 + patch) == (major, minor, patch),
{
    let v = major * 10000 + minor * 100 + patch;
    assert(v / 10000 == major);
    assert(v / 100 == major * 100 + minor);
}

/// A version packed in the older way comes back whole.
pub proof fn law_old_version_round_trip(major: int, minor: int, patch: int)
    requires
        0 <= major < 20,
        0 <= minor < 10,
        0 <= patch < 100,
    ensures
        unpacked(major * 1000 + minor * 100 + patch) == (major, minor, patch),
{
    let v = major * 1000 + minor * 100 + patch;
    assert(v / 1000 == major);
    assert(v / 100 == major * 10 + minor);
}

/// 8-bit reductions are there exactly from version 2.20 on, where the build has
/// them; the rest of the capabilities is what the build says, and SHARP is never
/// claimed.
pub proof fn law_capabilities_of_a_version(
    major: int,
    minor: int,
    patch: int,
    build: BuildFeatures,
    v: i32,
)
    requires
        2 <= major,
        0 <= minor < 100,
        0 <= patch < 100,
        v == major * 10000 + minor * 100 + patch,
    ensures
        ({
            let c = spec_capabilities(v, build);
            &&& c.version.0 == major && c.version.1 == minor && c.version.2 == patch
            &&& c.has_fp8 <==> build.fp8 && v >= 22000
            &&& c.has_nvls == build.nvls
            &&& !c.has_sharp
        }),
{
    law_version_round_trip(major, minor, patch);
}

/// Where there is no library there are no capabilities.
pub proof fn law_nothing_without_the_library(build: BuildFeatures, c: NcclCapabilities)
    requires
        call_ensures(probe_capabilities, (None::<i32>, build), c) || call_ensures(
            probe_capabilities,
            (Some(0i32), build),
            c,
        ),
    ensures
        c.version == (0i32, 0i32, 0i32),
        !c.has_fp8,
        !c.has_nvls,
        !c.has_sharp,
{
}

} // verus!
