[package]
name = "workbook_data"
version = "0.1.0"
edition = "2021"
publish = false

[dependencies]
calamine = "0.19"
thiserror = "1"
