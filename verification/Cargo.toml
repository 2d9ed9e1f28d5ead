[package]
name = "linkaddrs"
version = "0.1.0"
edition = "2021"
publish = false

[dependencies]
futures = "0.3"
ipnet = "2"
netlink-packet-route = "0.17"
rtnetlink = "0.13"
tokio = { version = "1", features = ["rt-multi-thread"] }
