[package]
name = "pokemon_automata"
version = "0.1.0"
edition = "2021"
publish = false

[dependencies]
rand = "0.8"
log = "0.4"
env_logger = "0.10"
pixels = "0.11"
winit = "0.28"
winit_input_helper = "0.14"
