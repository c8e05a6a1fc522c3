[package]
name = "fgb_viewer"
version = "0.1.0"
edition = "2021"
publish = false

[dependencies]
flatgeobuf = { version = "*", default-features = false }
gl = "*"
pathfinder_canvas = "*"
pathfinder_color = "*"
pathfinder_content = "*"
pathfinder_geometry = "*"
pathfinder_gl = "*"
pathfinder_gpu = "*"
pathfinder_renderer = "*"
pathfinder_resources = "*"
pathfinder_ui = "*"
sdl2 = "*"
