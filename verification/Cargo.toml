[package]
name = "inverter_control"
version = "0.1.0"
edition = "2021"
publish = false

[dependencies]
idsp = "=0.23.1"
sogi_pll = "=0.2.1"
critical-section = "=1.2.0"
fugit = "0.3"
nb = "=1.1.0"
ads1x1x = "=0.2.2"
esp32-hal = "*"
