[package]
name = "wb_notifier"
version = "0.1.0"
edition = "2021"
publish = false

[dependencies]
ht16k33 = "=0.4.0"
hd44780-driver = "0.4"
embedded-hal = "0.2"
linux-embedded-hal = "0.3"
shared-bus = { version = "0.3", features = ["std"] }
postcard = { version = "=1.0.10", features = ["experimental-derive", "use-std"] }
postcard-rpc = "=0.3.1"
serde = { version = "1", features = ["derive"] }
async-channel = "1"
async-executor = "1"
async-io = "1"
async-lock = "3"
async-net = "1"
blocking = "1"
futures-lite = "1"
smol = "1"
argh = "0.1"
eyre = "0.6"
fundu = "*"
config = { version = "0.13", default-features = false, features = ["json"] }
directories = "5"
