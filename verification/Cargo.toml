[package]
name = "sm2m_adapter"
version = "0.1.0"
edition = "2021"
publish = false

[dependencies]
heapless = "0.7.16"
embedded-sdmmc = "0.4.0"
embedded-hal = "0.2.7"
stm32f1xx-hal = { version = "0.10.0", features = ["stm32f103", "medium", "rt"] }
cortex-m = "0.7.7"
cortex-m-rtic = "1.1.4"
defmt = "0.3"
defmt-rtt = "0.4"
panic-probe = { version = "0.3", features = ["print-defmt"] }
