[package]
name = "npc_names"
version = "0.1.0"
edition = "2021"
publish = false

[dependencies]
bevy = { version = "=0.18.1", default-features = false, features = [
    "bevy_asset",
    "bevy_ui",
    "bevy_ui_render",
    "bevy_input_focus",
    "bevy_picking",
    "bevy_text",
    "bevy_core_pipeline",
    "bevy_window",
    "std",
] }
bevy_ui_text_input = "=0.7.0"
