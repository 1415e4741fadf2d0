[package]
name = "mqtt_node"
version = "0.1.0"
edition = "2021"
publish = false

[dependencies]
heapless = "=0.7.17"
smoltcp = { version = "=0.8.2", default-features = false, features = ["medium-ethernet", "proto-ipv4", "socket-tcp", "socket-udp"] }
smoltcp-nal = { version = "=0.2.1", features = ["shared-stack"] }
minimq = "=0.5.3"
miniconf = "=0.3.0"
serde = { version = "=1.0.229", default-features = false, features = ["derive"] }
serde-json-core = "=0.4.0"
stm32-eth = { version = "=0.3.0", features = ["stm32f429", "smoltcp-phy", "smi"] }
stm32f4xx-hal = { version = "=0.13.2", features = ["stm32f429", "rt"] }
cortex-m-rtic = "=1.1.4"
systick-monotonic = "=1.0.1"
asm-delay = "=0.9.0"
rand_core = "=0.6.4"
log = "=0.4.34"
rtt-target = { version = "=0.3.1", features = ["cortex-m"] }
rtt-logger = "=0.2.1"
panic-rtt-target = "=0.1.3"
