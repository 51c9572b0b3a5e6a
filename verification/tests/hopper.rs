use std::collections::HashSet;

use atomr_accel_cuda::hopper::cluster::dsm_total_bytes;
use atomr_accel_cuda::hopper::cp_async::{mbarrier_arrival_count, PipelineStages};
use atomr_accel_cuda::hopper::wgmma::WgmmaShape;
use atomr_accel_cuda::hopper::{
    header_location, macro_names, ClusterDim, ClusterError, LaunchSpec, TensorMapDataType,
    TensorMapDescriptor, TensorMapInterleave, TensorMapL2Promotion, TensorMapOobFill,
    TensorMapSwizzle, TmaEncodeError,
};

#[test]
fn launch_spec_with_cluster_dim_constructs() {
    let spec = LaunchSpec::new((128, 1, 1), (256, 1, 1))
        .with_cluster(ClusterDim::new(2, 2, 1))
        .unwrap()
        .with_shared_bytes(48 * 1024);
    assert_eq!(spec.cluster_dim.block_count(), 4);
    assert!(spec.has_cluster());
    assert_eq!(spec.shared_bytes, 48 * 1024);
    spec.cluster_dim.validate(false).unwrap();
}

#[test]
fn portable_limit_rejects_cluster_of_nine() {
    let cluster = ClusterDim::new(3, 3, 1);
    assert!(matches!(cluster.validate(false).unwrap_err(), ClusterError::PortableLimit(9)));
    cluster.validate(true).unwrap();
}

#[test]
fn hard_limit_rejects_cluster_of_seventeen() {
    let cluster = ClusterDim::new(17, 1, 1);
    assert!(matches!(cluster.validate(true).unwrap_err(), ClusterError::HardLimit(17)));
}

#[test]
fn zero_dim_rejected() {
    let cluster = ClusterDim::new(0, 1, 1);
    assert!(matches!(cluster.validate(true).unwrap_err(), ClusterError::ZeroDim));
}

#[test]
fn dsm_total_bytes_scales_linearly() {
    let cluster = ClusterDim::new(2, 2, 2);
    assert_eq!(dsm_total_bytes(cluster, 4096), 8 * 4096);
    assert_eq!(dsm_total_bytes(ClusterDim::unit(), 4096), 4096);
}

#[test]
fn unit_spec_has_no_cluster() {
    let spec = LaunchSpec::new((1, 1, 1), (32, 1, 1));
    assert!(!spec.has_cluster());
}

#[test]
fn opting_in_admits_sixteen_blocks() {
    let wide = ClusterDim::new(4, 4, 1);
    assert!(LaunchSpec::new((1, 1, 1), (1, 1, 1)).with_cluster(wide).is_err());
    let spec =
        LaunchSpec::new((1, 1, 1), (1, 1, 1)).allow_non_portable().with_cluster(wide).unwrap();
    assert_eq!(spec.cluster_dim, wide);
}

#[test]
fn cluster_errors_are_displayed() {
    assert_eq!(ClusterError::ZeroDim.message(), "cluster dim contains a zero");
    assert_eq!(
        ClusterError::PortableLimit(9).message(),
        "cluster size 9 > 8 (portable limit); set allow_non_portable=true to opt in"
    );
    assert_eq!(ClusterError::HardLimit(17).message(), "cluster size 17 > 16 (hard limit)");
    assert_eq!(ClusterError::Driver(-3).message(), "cudaLaunchKernelExC returned -3");
}

#[test]
fn arrival_counts_balanced() {
    assert_eq!(mbarrier_arrival_count(2), 4);
    assert_eq!(mbarrier_arrival_count(3), 6);
    assert_eq!(mbarrier_arrival_count(4), 8);
    assert_eq!(PipelineStages::Double.count(), 2);
    assert_eq!(PipelineStages::Triple.count(), 3);
    assert_eq!(PipelineStages::Quad.count(), 4);
}

#[test]
fn dims_round_trip() {
    assert_eq!(WgmmaShape::M64N64K16.dims(), (64, 64, 16));
    assert_eq!(WgmmaShape::M64N256K32.dims(), (64, 256, 32));
}

#[test]
fn macro_names_match_header() {
    assert_eq!(WgmmaShape::M64N64K16.macro_name(), "ATOMR_WGMMA_F16_M64N64K16");
    assert_eq!(WgmmaShape::M64N128K32.macro_name(), "ATOMR_WGMMA_F8_M64N128K32");
    assert_eq!(macro_names::CP_ASYNC_BULK, "ATOMR_CP_ASYNC_BULK");
}

fn sample_2d_descriptor() -> TensorMapDescriptor {
    TensorMapDescriptor {
        data_type: TensorMapDataType::Float16,
        global_address: 0x1_0000,
        global_dim: vec![1024, 1024],
        global_strides: vec![1024 * 2],
        box_dim: vec![64, 64],
        element_strides: vec![1, 1],
        interleave: TensorMapInterleave::Off,
        swizzle: TensorMapSwizzle::Bytes128,
        l2_promotion: TensorMapL2Promotion::Bytes128,
        oob_fill: TensorMapOobFill::NaZero,
    }
}

#[test]
fn tensor_map_encode_descriptor_round_trip() {
    let d = sample_2d_descriptor();
    d.validate().expect("sample descriptor must validate");

    assert_eq!(d.rank(), 2);
    assert_eq!(d.data_type.as_u32(), TensorMapDataType::Float16.as_u32());
    assert_eq!(d.swizzle.as_u32(), TensorMapSwizzle::Bytes128.as_u32());
    assert_eq!(d.l2_promotion.as_u32(), TensorMapL2Promotion::Bytes128.as_u32());
    assert_eq!(d.oob_fill.as_u32(), TensorMapOobFill::NaZero.as_u32());

    let mut bad = d.clone();
    bad.global_address = 0x1_0001;
    assert!(matches!(bad.validate().unwrap_err(), TmaEncodeError::UnalignedAddress(_)));

    let mut bad = d.clone();
    bad.box_dim.push(32);
    assert!(matches!(
        bad.validate().unwrap_err(),
        TmaEncodeError::Mismatch { what: "box_dim", .. }
    ));

    let bad = TensorMapDescriptor::new(TensorMapDataType::Float32, 0x10);
    assert!(matches!(bad.validate().unwrap_err(), TmaEncodeError::BadRank(0)));

    let bad = TensorMapDescriptor {
        data_type: TensorMapDataType::Float32,
        global_address: 0x10,
        global_dim: vec![1; 6],
        global_strides: vec![4; 5],
        box_dim: vec![1; 6],
        element_strides: vec![1; 6],
        interleave: TensorMapInterleave::Off,
        swizzle: TensorMapSwizzle::Off,
        l2_promotion: TensorMapL2Promotion::Off,
        oob_fill: TensorMapOobFill::NaZero,
    };
    assert!(matches!(bad.validate().unwrap_err(), TmaEncodeError::BadRank(6)));
}

#[test]
fn enum_discriminants_are_unique() {
    let dts = [
        TensorMapDataType::UInt8,
        TensorMapDataType::UInt16,
        TensorMapDataType::UInt32,
        TensorMapDataType::Int32,
        TensorMapDataType::UInt64,
        TensorMapDataType::Int64,
        TensorMapDataType::Float16,
        TensorMapDataType::Float32,
        TensorMapDataType::Float64,
        TensorMapDataType::BFloat16,
        TensorMapDataType::Float32Ftz,
        TensorMapDataType::TFloat32,
        TensorMapDataType::TFloat32Ftz,
        TensorMapDataType::Float8E4m3,
        TensorMapDataType::Float8E5m2,
        TensorMapDataType::Float4E2m1,
        TensorMapDataType::Float6E2m3,
        TensorMapDataType::Float6E3m2,
    ];
    let mut seen = HashSet::new();
    for d in dts {
        assert!(seen.insert(d.as_u32()), "duplicate dtype discriminant for {d:?}");
    }
}

#[test]
fn descriptors_with_faults_are_refused() {
    let mut bad = sample_2d_descriptor();
    bad.element_strides.clear();
    assert_eq!(
        bad.validate().unwrap_err(),
        TmaEncodeError::Mismatch { what: "element_strides", expected: 2, got: 0 }
    );

    let mut bad = sample_2d_descriptor();
    bad.global_strides.clear();
    assert_eq!(
        bad.validate().unwrap_err(),
        TmaEncodeError::Mismatch { what: "global_strides", expected: 1, got: 0 }
    );

    let mut bad = sample_2d_descriptor();
    bad.global_dim[1] = 0;
    assert_eq!(bad.validate().unwrap_err(), TmaEncodeError::ZeroDim("global_dim"));

    let mut bad = sample_2d_descriptor();
    bad.box_dim[0] = 0;
    assert_eq!(bad.validate().unwrap_err(), TmaEncodeError::ZeroDim("box_dim"));

    assert_eq!(TensorMapDescriptor::encoded(0), Ok(()));
    assert_eq!(TensorMapDescriptor::encoded(1), Err(TmaEncodeError::DriverError(1)));
}

#[test]
fn tensor_map_errors_are_displayed() {
    assert_eq!(TmaEncodeError::BadRank(6).message(), "TMA rank 6 out of [1,5]");
    assert_eq!(
        TmaEncodeError::Mismatch { what: "box_dim", expected: 2, got: 3 }.message(),
        "TMA descriptor: box_dim.len() = 3, expected 2"
    );
    assert_eq!(
        TmaEncodeError::UnalignedAddress(0x1abf1).message(),
        "TMA global_address 0x1abf1 is not 16-byte aligned"
    );
    assert_eq!(
        TmaEncodeError::ZeroDim("global_dim").message(),
        "TMA descriptor: global_dim contains a zero"
    );
    assert_eq!(
        TmaEncodeError::DriverError(700).message(),
        "cuTensorMapEncodeTiled returned 700"
    );
}

#[test]
fn header_lies_below_the_package() {
    assert_eq!(header_location("/opt/pkg"), "/opt/pkg/include/atomr_hopper.cuh");
    assert_eq!(header_location("/opt/pkg/"), "/opt/pkg/include/atomr_hopper.cuh");
    assert_eq!(header_location(""), "include/atomr_hopper.cuh");
}

#[test]
fn huge_clusters_are_refused() {
    let wide = ClusterDim::new(65536, 65536, 1);
    assert_eq!(wide.validate(false), Err(ClusterError::PortableLimit(u32::MAX)));
    assert_eq!(wide.validate(true), Err(ClusterError::HardLimit(u32::MAX)));
    let whole = ClusterDim::new(u32::MAX, u32::MAX, u32::MAX);
    assert_eq!(whole.validate(true), Err(ClusterError::HardLimit(u32::MAX)));
    assert_eq!(
        LaunchSpec::new((1, 1, 1), (1, 1, 1)).with_cluster(wide).err(),
        Some(ClusterError::PortableLimit(u32::MAX))
    );
    let countable = ClusterDim::new(65536, 65535, 1);
    assert_eq!(countable.validate(true), Err(ClusterError::HardLimit(65536 * 65535)));
}
