[package]
name = "wasapi"
version = "0.1.0"
edition = "2021"
publish = false

[dependencies]
num-integer = "*"
thiserror = "*"
widestring = "*"

[dependencies.windows]
version = "*"
features = [
    "implement",
    "Win32_Foundation",
    "Win32_Media_Audio",
    "Win32_Media_KernelStreaming",
    "Win32_Media_Multimedia",
    "Win32_Devices_FunctionDiscovery",
    "Win32_System_Com",
    "Win32_System_Com_StructuredStorage",
    "Win32_System_Variant",
    "Win32_System_Threading",
    "Win32_Security",
    "Win32_UI_Shell_PropertiesSystem",
]
