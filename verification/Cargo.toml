[package]
name = "bib_os"
version = "0.1.0"
edition = "2021"
publish = false

[dependencies]
pc-keyboard = "=0.7.0"
x86_64 = "=0.14.13"
pic8259 = "=0.10.4"
spin = "=0.12.3"
volatile = "=0.2.7"
