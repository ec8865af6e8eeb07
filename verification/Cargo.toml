[package]
name = "radar_reader"
version = "0.1.0"
edition = "2021"
publish = false

[dependencies]
ros_pointcloud2 = "*"
