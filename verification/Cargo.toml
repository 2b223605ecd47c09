[package]
name = "identity_engine"
version = "0.1.0"
edition = "2021"
publish = false

[dependencies]
argon2 = "=0.6.0"
base32 = "=0.5.1"
# Held at this release for lettre's address validation: later releases of
# this indirect dependency reject internationalized local parts.
email_address = { version = "=0.2.7", default-features = false }
idna = "=1.1.0"
lettre = { version = "=0.11.19", default-features = false }
rand = "=0.10.3"
ring = "=0.17.14"
totp-lite = "=2.0.1"
