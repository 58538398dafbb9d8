[package]
name = "mfs_rust"
version = "0.1.0"
edition = "2021"
publish = false

[dependencies]
mcp3x6x = { version = "=0.3.1", features = ["mcp3562r"] }
embedded-hal-async = "=1.0.0"
embassy-sync = "=0.8.0"
embassy-embedded-hal = "=0.6.0"
embassy-time = "=0.5.1"
embassy-futures = "=0.1.2"
embassy-stm32 = { version = "=0.6.0", features = ["stm32g071rb", "time-driver-any"] }
static_cell = "=2.1.1"
defmt = "=1.2.0"
ssd1306 = "=0.10.0"
