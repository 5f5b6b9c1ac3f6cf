[package]
name = "firmware_core"
version = "0.1.0"
edition = "2021"
publish = false

[dependencies]
crc = "=3.4.0"
postcard = { version = "=1.1.3", default-features = false }
serde = { version = "=1.0.229", default-features = false, features = ["derive"] }
libm = "=0.2.16"
num-complex = { version = "=0.4.6", default-features = false, features = ["libm"] }
num-traits = { version = "=0.2.19", default-features = false, features = ["libm"] }
rand = "=0.8.8"
rand_distr = "=0.4.3"
plotly = { version = "=0.14.1", default-features = false }
cortex-m = { version = "=0.7.10", features = ["critical-section-single-core"] }
embassy-stm32 = { version = "=0.6.0", default-features = false, features = ["stm32g473qe", "dual-bank", "unstable-pac"] }
