[package]
name = "netgauze-bgp-pkt"
version = "0.1.0"
edition = "2021"
publish = false

[dependencies]
ipnet = "=2.12.2"
netgauze-parse-utils = "=0.1.0"
nom = "=7.1.3"
