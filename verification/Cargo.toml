[package]
name = "dnssd"
version = "0.1.0"
edition = "2021"
publish = false

[dependencies]
windows = { version = "*", features = ["Foundation", "Foundation_Collections", "Networking", "Networking_ServiceDiscovery_Dnssd", "Networking_Sockets"] }
