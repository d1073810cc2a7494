[package]
name = "pomodoro"
version = "0.1.0"
edition = "2021"
publish = false

[dependencies]
exitfailure = "0.5"
failure = "0.1"
spin_sleep = "0.3"
structopt = "0.3"
termion = "1.5"
