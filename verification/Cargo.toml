[package]
name = "ball_predictor"
version = "0.1.0"
edition = "2021"
publish = false

[dependencies]
rl_ball_sym = "*"
