[package]
name = "zfs_tui"
version = "0.1.0"
edition = "2021"
publish = false

[dependencies]
ncurses = "5"
