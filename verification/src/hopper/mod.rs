//! Host side of the Hopper and Blackwell primitives: tensor maps, cluster
//! launches, and names and counts that kernel sources need.

pub mod cluster;
pub mod cp_async;
pub mod macro_names;
pub mod tma;
pub mod wgmma;

pub use cluster::{ClusterDim, ClusterError, LaunchSpec};
pub use tma::{
    TensorMapDataType, TensorMapDescriptor, TensorMapInterleave, TensorMapL2Promotion,
    TensorMapOobFill, TensorMapSwizzle, TmaEncodeError,
};

use vstd::prelude::*;
use vstd::string::*;

use crate::text::{chars_of, join2, join3};

verus! {

/// Where the kernel header is, below the package's directory.
pub const ATOMR_HOPPER_HEADER_REL_PATH: &'static str = "include/atomr_hopper.cuh";

/// The path of the kernel header below a directory.
pub open spec fn spec_header_location(dir: Seq<char>) -> Seq<char> {
    if dir.len() == 0 || dir.last() == '/' {
        dir + ATOMR_HOPPER_HEADER_REL_PATH@
    } else {
        dir + "/"@ + ATOMR_HOPPER_HEADER_REL_PATH@
    }
}

/// The path of the kernel header below a directory. Whether the file is there
/// is for the caller to find out.
pub fn header_location(dir: &str) -> (p: String)
    ensures
        p@ == spec_header_location(dir@),
{
    let chars = chars_of(dir);
    let n = chars.len();
    if n == 0 || chars[n - 1] == '/' {
        join2(dir, ATOMR_HOPPER_HEADER_REL_PATH)
    } else {
        join3(dir, "/", ATOMR_HOPPER_HEADER_REL_PATH)
    }
}

/// The header is below the directory, behind exactly one slash.
pub proof fn law_header_below_the_directory(dir: Seq<char>)
    ensures
        dir.len() > 0 && dir.last() != '/' ==> spec_header_location(dir) == dir
            + "/include/atomr_hopper.cuh"@,
        dir.len() > 0 && dir.last() == '/' ==> spec_header_location(dir) == dir
            + "include/atomr_hopper.cuh"@,
        dir.len() == 0 ==> spec_header_location(dir) == "include/atomr_hopper.cuh"@,
{
    reveal_strlit("/");
    reveal_strlit("/include/atomr_hopper.cuh");
    reveal_strlit("include/atomr_hopper.cuh");
    assert("/"@ + "include/atomr_hopper.cuh"@ =~= "/include/atomr_hopper.cuh"@);
    assert(dir + ("/"@ + "include/atomr_hopper.cuh"@) =~= dir + "/"@
        + "include/atomr_hopper.cuh"@);
    if dir.len() == 0 {
        assert(spec_header_location(dir) =~= "include/atomr_hopper.cuh"@);
    }
}

} // verus!
