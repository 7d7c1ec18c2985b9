[package]
name = "presence_logger"
version = "0.1.0"
edition = "2021"
publish = false

[dependencies]
chrono = "0.4"
crossterm = "0.26"
ctrlc = "3"
dotenv = "0.15"
rusqlite = "*"
tasklist = "*"
