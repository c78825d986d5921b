[package]
name = "livegrep"
version = "0.1.0"
edition = "2021"
publish = false

[dependencies]
strip-ansi-escapes = "=0.2.1"
ansi-to-tui = "=7.0.0"
ratatui = "=0.29.0"
crossterm = "=0.28.1"
tui-textarea = "=0.7.0"
