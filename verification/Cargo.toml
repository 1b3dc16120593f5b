[package]
name = "mailer"
version = "0.1.0"
edition = "2021"
publish = false

[dependencies]
base64 = "0.13"
dotenv = "0.15"
lettre = "0.9"
lettre_email = "0.9"
