[package]
name = "input_locale"
version = "0.1.0"
edition = "2021"

[dependencies]
anyhow = "*"

[dependencies.windows]
version = "*"
features = ["Win32_Foundation", "Win32_UI_WindowsAndMessaging", "Win32_UI_Input_KeyboardAndMouse"]
