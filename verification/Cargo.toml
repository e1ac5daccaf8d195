[package]
name = "hull"
version = "0.1.0"
edition = "2021"
publish = false

[dependencies]
anyhow = "=1.0.104"
cap-std = "=3.4.6"
clap = { version = "=4.6.7", features = ["derive"] }
comfy-table = "=7.2.2"
num_cpus = "=1.17.0"
rand = "=0.10.3"
regex = "=1.13.1"
serde = { version = "=1.0.229", features = ["derive"] }
serde_json = "=1.0.154"
tracing = "=0.1.44"
tracing-subscriber = { version = "=0.3.23", features = ["env-filter"] }
tree-sitter = "=0.27.1"
tree-sitter-cpp = "=0.23.4"
wasi-common = { version = "=46.0.3", features = ["sync"] }
wasmtime = { version = "=46.0.3", default-features = false, features = ["anyhow", "backtrace", "cache", "gc", "gc-copying", "gc-drc", "gc-null", "wat", "profiling", "parallel-compilation", "cranelift", "pooling-allocator", "demangle", "addr2line", "coredump", "debug-builtins", "runtime", "component-model", "threads", "std"] }
