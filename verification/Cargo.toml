[package]
name = "rocketmq_remoting"
version = "0.1.0"
edition = "2021"
publish = false

[dependencies]
bytes = "1"
cheetah-string = "*"
flume = "0.11"
tokio = { version = "1", features = ["macros", "net", "rt", "rt-multi-thread", "io-util", "sync", "time"] }
tracing = "0.1"
uuid = { version = "1", features = ["v4"] }
