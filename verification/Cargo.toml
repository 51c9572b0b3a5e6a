[package]
name = "atomr_accel_cuda"
version = "0.1.0"
edition = "2021"
publish = false

[dependencies]
lru = "=0.19.0"
half = "=2.7.1"
parking_lot = "=0.13.0"
thiserror = "=2.0.21"
tracing = "=0.1.44"
atomr-core = "=0.10.1"
tokio = { version = "=1.54.1", features = ["sync", "rt"] }
cudarc = { version = "=0.19.10", default-features = false, features = ["std", "driver", "dynamic-loading", "cuda-12080", "cublas", "cublaslt", "cufft", "curand", "nccl", "cudnn", "nvtx", "f16"] }
