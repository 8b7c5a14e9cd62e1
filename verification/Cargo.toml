[package]
name = "weather_station"
version = "0.1.0"
edition = "2021"
publish = false

[dependencies]
atoi = "=3.1.1"
rp-pac = { version = "=7.0.0", features = ["rp2040"] }
embedded-alloc = "*"
askama = "=0.16.1"
const-default = "=1.0.0"
cortex-m = "=0.7.10"
cyw43 = "=0.7.0"
cyw43-pio = "=0.10.0"
dotenvy_macro = "=0.15.7"
edge-dhcp = "=0.8.0"
edge-http = "=0.8.0"
edge-nal = "=0.7.0"
edge-nal-embassy = "=0.9.0"
embassy-executor = "=0.10.0"
embassy-net = "=0.9.1"
embassy-rp = { version = "=0.10.0", features = ["rp2040"] }
embassy-sync = "=0.8.0"
embassy-time = "=0.5.1"
embassy-usb = "=0.6.0"
embassy-usb-logger = "=0.6.0"
embedded-io-async = "=0.7.0"
futures = { version = "=0.3.34", default-features = false }
log = "=0.4.35"
num-traits = { version = "=0.2.19", default-features = false }
panic-persist = "=0.3.0"
picoserve = "=0.20.1"
serde = { version = "=1.0.229", default-features = false, features = ["derive"] }
static_cell = "=2.1.1"
thiserror = { version = "=2.0.21", default-features = false }
uom = { version = "=0.38.0", default-features = false, features = ["f32", "u8", "u16", "si"] }
