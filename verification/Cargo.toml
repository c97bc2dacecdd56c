[package]
name = "mangrove"
version = "0.1.0"
edition = "2021"
publish = false

[dependencies]
chrono = "=0.4.45"
# Held at the version that swamp-script 0.1.10 was written for: the next
# patch changed the calls that its error reports make.
eira = "=0.1.10"
fixed32 = "=0.0.17"
int_math = "=0.0.2"
limnus-app = "=0.1.0"
limnus-basic-input = "=0.1.0"
limnus-default-stages = "=0.1.0"
limnus-gamepad = "=0.1.0"
limnus-local-resource = "=0.1.0"
limnus-message = "=0.1.0"
limnus-resource = "=0.1.0"
limnus-scheduler = "=0.1.0"
limnus-screen = "=0.1.0"
limnus-stage = "=0.1.0"
limnus-system-params = "=0.1.0"
limnus-system-state = "=0.1.0"
message-channel = "=0.0.1"
monotonic-time-rs = "=0.0.10"
notify = "=8.2.1"
seq-map = "=0.0.13"
steamworks = "=0.13.1"
swamp-script = "=0.1.10"
tracing = "=0.1.44"
yansi = "=1.0.1"
