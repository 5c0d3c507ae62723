[package]
name = "lakehouse_scan"
version = "0.1.0"
edition = "2021"
publish = false

[dependencies]
url = "=2.5.8"
object_store = "=0.13.2"
async-std = "=1.13.2"
datafusion = { version = "=55.2.0", default-features = false, features = ["parquet"] }
pgrx = "=0.16.1"
supabase-wrappers = "=0.1.28"
