[package]
name = "surface_plot"
version = "0.1.0"
edition = "2021"
publish = false

[dependencies]
glam = "*"
js-sys = "*"
log = "*"
wasm-bindgen = "*"
web-sys = { version = "*", features = [
    "console",
    "Document",
    "Element",
    "EventTarget",
    "HtmlCanvasElement",
    "HtmlElement",
    "MouseEvent",
    "Node",
    "WebGlBuffer",
    "WebGlProgram",
    "WebGlRenderingContext",
    "WebGlShader",
    "WebGlUniformLocation",
    "Window",
] }
