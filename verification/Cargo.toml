[package]
name = "livesplit-core"
version = "0.11.0"
edition = "2021"
publish = false

[dependencies]
bincode = "1.3"
bytemuck = "1"
chrono = "0.4"
euclid = "0.22"
hashbrown = "*"
image = { version = "*", default-features = false, features = ["png", "jpeg", "gif", "bmp", "ico"] }
lyon_tessellation = "*"
proc-maps = "*"
read-process-memory = "*"
rustybuzz = "*"
serde = { version = "1", features = ["derive"] }
serde_json = "1"
tiny-skia = "*"
ttf-parser = "*"

[dev-dependencies]
crc = "*"
