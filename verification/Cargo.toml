[package]
name = "xlsx_report"
version = "0.1.0"
edition = "2021"
publish = false

[dependencies]
chrono = "*"
lazy_static = "*"
tokio = { version = "*", features = ["macros", "rt-multi-thread"] }
uuid = { version = "*", features = ["v4"] }
warp = "*"
xlsxwriter = "*"
