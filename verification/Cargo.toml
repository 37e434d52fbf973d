[package]
name = "engines"
version = "0.1.0"
edition = "2021"
publish = false

[dependencies]
wasmer = { version = "=1.0.0-beta1", default-features = false, features = ["jit", "native", "compiler"] }
wasmer-compiler = "=1.0.0-beta1"
# The crates of the wasmer family are released together and fit together only
# at one version. No code here names these two: the lines keep them, and with
# them the rest of the family, at the version of the two above.
wasmer-types = "=1.0.0-beta1"
wasmer-vm = "=1.0.0-beta1"
pyo3 = "=0.12.4"

[dev-dependencies]
wasmer-compiler-singlepass = "=1.0.0-beta1"
