//! Launches of thread block clusters.

use vstd::prelude::*;
use vstd::string::*;

use crate::text;
use crate::text::{join2, join3, signed_text, unsigned_text};

verus! {

/// Blocks of a cluster that every device of the family takes.
pub const PORTABLE_CLUSTER_LIMIT: u32 = 8;

/// Blocks of a cluster that no device exceeds.
pub const HARD_CLUSTER_LIMIT: u32 = 16;

/// Extent of a cluster in blocks.
#[derive(Debug, Clone, Copy, PartialEq, Eq, Structural)]
pub struct ClusterDim {
    pub x: u32,
    pub y: u32,
    pub z: u32,
}

/// Why a cluster cannot be launched.
#[derive(Debug, Clone, PartialEq, Eq)]
pub enum ClusterError {
    ZeroDim,
    /// More blocks than the portable limit.
    PortableLimit(u32),
    /// More blocks than the hardware limit.
    HardLimit(u32),
    /// The driver's error code.
    Driver(i32),
}

impl ClusterError {
    /// The text that the error is displayed as.
    pub open spec fn spec_message(self) -> Seq<char> {
        match self {
            ClusterError::ZeroDim => "cluster dim contains a zero"@,
            ClusterError::PortableLimit(n) => "cluster size "@ + text::decimal(n as nat)
                + " > 8 (portable limit); set allow_non_portable=true to opt in"@,
            ClusterError::HardLimit(n) => "cluster size "@ + text::decimal(n as nat)
                + " > 16 (hard limit)"@,
            ClusterError::Driver(c) => "cudaLaunchKernelExC returned "@ + text::signed_decimal(
                c as int,
            ),
        }
    }

    /// The text that the error is displayed as.
    pub fn message(&self) -> (s: String)
        ensures
            s@ == self.spec_message(),
    {
        match self {
            ClusterError::ZeroDim => String::from_str("cluster dim contains a zero"),
            ClusterError::PortableLimit(n) => {
                let d = unsigned_text(*n as u64);
                join3(
                    "cluster size ",
                    d.as_str(),
                    " > 8 (portable limit); set allow_non_portable=true to opt in",
                )
            },
            ClusterError::HardLimit(n) => {
                let d = unsigned_text(*n as u64);
                join3("cluster size ", d.as_str(), " > 16 (hard limit)")
            },
            ClusterError::Driver(c) => {
                let d = signed_text(*c as i64);
                join2("cudaLaunchKernelExC returned ", d.as_str())
            },
        }
    }
}

impl ClusterDim {
    pub fn new(x: u32, y: u32, z: u32) -> (c: ClusterDim)
        ensures
            c == (ClusterDim { x, y, z }),
    {
        ClusterDim { x, y, z }
    }

    /// A single block.
    pub fn unit() -> (c: ClusterDim)
        ensures
            c == (ClusterDim { x: 1, y: 1, z: 1 }),
    {
        ClusterDim { x: 1, y: 1, z: 1 }
    }

    /// Number of blocks.
    pub open spec fn blocks(self) -> int {
        self.x * self.y * self.z
    }

    /// The number of blocks can be computed.
    pub open spec fn countable(self) -> bool {
        self.x * self.y <= u32::MAX && self.blocks() <= u32::MAX
    }

    /// Number of blocks.
    pub fn block_count(self) -> (n: u32)
        requires
            self.countable(),
        ensures
            n == self.blocks(),
    {
        self.x * self.y * self.z
    }

    /// An extent is zero.
    pub open spec fn has_zero(self) -> bool {
        self.x == 0 || self.y == 0 || self.z == 0
    }

    /// Number of blocks as an error reports it: the largest number there is
    /// stands for all that are larger.
    pub open spec fn reported_blocks(self) -> u32 {
        if self.blocks() <= u32::MAX {
            self.blocks() as u32
        } else {
            u32::MAX
        }
    }

    fn capped_block_count(self) -> (n: u32)
        ensures
            n == self.reported_blocks(),
    {
        let (x, y, z) = (self.x as u128, self.y as u128, self.z as u128);
        assert(0 <= x * y <= 0xffff_ffff * 0xffff_ffff) by (nonlinear_arith)
            requires
                0 <= x <= 0xffff_ffff,
                0 <= y <= 0xffff_ffff,
        ;
        let area: u128 = x * y;
        assert(0 <= area * z <= 0xffff_ffff * 0xffff_ffff * 0xffff_ffff) by (nonlinear_arith)
            requires
                0 <= area <= 0xffff_ffff * 0xffff_ffff,
                0 <= z <= 0xffff_ffff,
        ;
        let blocks: u128 = area * z;
        if blocks <= u32::MAX as u128 {
            blocks as u32
        } else {
            u32::MAX
        }
    }

    /// Whether the cluster can be launched, or why not.
    pub open spec fn verdict(self, allow_non_portable: bool) -> Result<(), ClusterError> {
        if self.has_zero() {
            Err(ClusterError::ZeroDim)
        } else if self.blocks() > PORTABLE_CLUSTER_LIMIT && !allow_non_portable {
            Err(ClusterError::PortableLimit(self.reported_blocks()))
        } else if self.blocks() > HARD_CLUSTER_LIMIT {
            Err(ClusterError::HardLimit(self.reported_blocks()))
        } else {
            Ok(())
        }
    }

    /// Check the cluster against the limits.
    pub fn validate(self, allow_non_portable: bool) -> (r: Result<(), ClusterError>)
        ensures
            r == self.verdict(allow_non_portable),
    {
        if self.x == 0 || self.y == 0 || self.z == 0 {
            return Err(ClusterError::ZeroDim);
        }
        let n = self.capped_block_count();
        if n > PORTABLE_CLUSTER_LIMIT && !allow_non_portable {
            return Err(ClusterError::PortableLimit(n));
        }
        if n > HARD_CLUSTER_LIMIT {
            return Err(ClusterError::HardLimit(n));
        }
        Ok(())
    }
}

/// Dimensions and options of a kernel launch.
#[derive(Debug, Clone, Copy)]
pub struct LaunchSpec {
    pub grid_dim: (u32, u32, u32),
    pub block_dim: (u32, u32, u32),
    pub cluster_dim: ClusterDim,
    pub shared_bytes: u32,
    /// Clusters past the portable limit are allowed.
    pub allow_non_portable_cluster: bool,
}

impl LaunchSpec {
    /// Launch without clusters.
    pub fn new(grid_dim: (u32, u32, u32), block_dim: (u32, u32, u32)) -> (s: LaunchSpec)
        ensures
            s == (LaunchSpec {
                grid_dim,
                block_dim,
                cluster_dim: ClusterDim { x: 1, y: 1, z: 1 },
                shared_bytes: 0,
                allow_non_portable_cluster: false,
            }),
    {
        LaunchSpec {
            grid_dim,
            block_dim,
            cluster_dim: ClusterDim::unit(),
            shared_bytes: 0,
            allow_non_portable_cluster: false,
        }
    }

    /// The launch with these clusters, checked against the limits.
    pub fn with_cluster(self, cluster: ClusterDim) -> (r: Result<LaunchSpec, ClusterError>)
        ensures
            r == match cluster.verdict(self.allow_non_portable_cluster) {
                Ok(_) => Ok(LaunchSpec { cluster_dim: cluster, ..self }),
                Err(e) => Err(e),
            },
    {
        match cluster.validate(self.allow_non_portable_cluster) {
            Ok(_) => Ok(LaunchSpec { cluster_dim: cluster, ..self }),
            Err(e) => Err(e),
        }
    }

    /// The launch with clusters past the portable limit allowed.
    pub fn allow_non_portable(self) -> (s: LaunchSpec)
        ensures
            s == (LaunchSpec { allow_non_portable_cluster: true, ..self }),
    {
        LaunchSpec { allow_non_portable_cluster: true, ..self }
    }

    /// The launch with this much dynamic shared memory.
    pub fn with_shared_bytes(self, bytes: u32) -> (s: LaunchSpec)
        ensures
            s == (LaunchSpec { shared_bytes: bytes, ..self }),
    {
        LaunchSpec { shared_bytes: bytes, ..self }
    }

    /// Whether the clusters are more than single blocks.
    pub fn has_cluster(&self) -> (b: bool)
        ensures
            b == (self.cluster_dim != ClusterDim { x: 1, y: 1, z: 1 }),
    {
        !(self.cluster_dim.x == 1 && self.cluster_dim.y == 1 && self.cluster_dim.z == 1)
    }
}

/// Bytes of shared memory over all the blocks of a cluster.
pub fn dsm_total_bytes(cluster: ClusterDim, per_block: u32) -> (n: u64)
    requires
        cluster.countable(),
    ensures
        n == cluster.blocks() * per_block,
{
    let blocks: u64 = cluster.block_count() as u64;
    assert(0 <= blocks * per_block <= 0xffff_ffff * 0xffff_ffff) by (nonlinear_arith)
        requires
            0 <= blocks <= 0xffff_ffff,
            0 <= per_block <= 0xffff_ffff,
    ;
    blocks * per_block as u64
}

/// A cluster that can be launched can also be launched where clusters past
/// the portable limit are allowed, and every cluster that can be launched at
/// all keeps to the hardware limit.
pub proof fn law_opting_in_only_admits_more(c: ClusterDim)
    ensures
        c.verdict(false) is Ok ==> c.verdict(true) is Ok,
        c.verdict(true) is Ok ==> 1 <= c.blocks() <= HARD_CLUSTER_LIMIT,
        c.verdict(false) is Ok ==> 1 <= c.blocks() <= PORTABLE_CLUSTER_LIMIT,
{
    if !c.has_zero() {
        assert(1 <= c.x * c.y) by (nonlinear_arith)
            requires
                1 <= c.x,
                1 <= c.y,
        ;
        assert(1 <= c.x * c.y * c.z) by (nonlinear_arith)
            requires
                1 <= c.x * c.y,
                1 <= c.z,
        ;
    }
}

/// A cluster can be launched exactly when no extent is zero and its blocks keep to
/// the limit: eight, or sixteen for a caller who opts in. A zero is reported
/// before a limit, and the portable limit before the hard one.
pub proof fn law_cluster_verdict(c: ClusterDim, opted_in: bool)
    ensures
        c.verdict(opted_in) is Ok <==> c.x > 0 && c.y > 0 && c.z > 0 && c.x * c.y * c.z <= (
        if opted_in {
            16int
        } else {
            8int
        }),
        c.verdict(opted_in) == Err::<(), ClusterError>(ClusterError::ZeroDim) <==> c.x == 0 || c.y
            == 0 || c.z == 0,
        c.x > 0 && c.y > 0 && c.z > 0 && c.x * c.y * c.z > 8 && !opted_in ==> (c.verdict(
            opted_in,
        ) matches Err(ClusterError::PortableLimit(n)) && (c.x * c.y * c.z <= u32::MAX ==> n
            == c.x * c.y * c.z)),
        c.x > 0 && c.y > 0 && c.z > 0 && c.x * c.y * c.z > 16 && opted_in ==> (c.verdict(
            opted_in,
        ) matches Err(ClusterError::HardLimit(n)) && (c.x * c.y * c.z <= u32::MAX ==> n
            == c.x * c.y * c.z)),
{
}

/// The messages say how many blocks there are and which limit they exceed.
pub proof fn law_cluster_messages(n: u32, code: i32)
    ensures
        ClusterError::ZeroDim.spec_message() == "cluster dim contains a zero"@,
        ClusterError::PortableLimit(n).spec_message() == "cluster size "@ + text::decimal(n as nat)
            + " > 8 (portable limit); set allow_non_portable=true to opt in"@,
        ClusterError::HardLimit(n).spec_message() == "cluster size "@ + text::decimal(n as nat)
            + " > 16 (hard limit)"@,
        ClusterError::Driver(code).spec_message() == "cudaLaunchKernelExC returned "@
            + text::signed_decimal(code as int),
{
}

} // verus!
