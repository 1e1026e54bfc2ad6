[package]
name = "rtnl_link_set"
version = "0.1.0"
edition = "2021"
publish = false

[dependencies]
futures = "0.3"
netlink-packet-core = "0.7"
netlink-packet-route = "0.17"
netlink-proto = "0.11"

[dev-dependencies]
netlink-packet-utils = "0.5"
