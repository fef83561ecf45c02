[package]
name = "fluid_sim"
version = "0.1.0"
edition = "2021"
publish = false

[dependencies]
hex = "0.4"
js-sys = "0.3"
nalgebra = { version = "*", default-features = false, features = ["std"] }
palette = { version = "*", default-features = false, features = ["std"] }
wasm-bindgen = "0.2"
web-sys = { version = "0.3", features = ["Document", "Element", "EventTarget", "HtmlCanvasElement", "HtmlElement", "HtmlInputElement", "HtmlSelectElement", "MouseEvent", "WebGlBuffer", "WebGlFramebuffer", "WebGlProgram", "WebGlRenderingContext", "WebGlShader", "WebGlTexture", "WebGlUniformLocation", "Window", "console"] }
