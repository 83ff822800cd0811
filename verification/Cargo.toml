[package]
name = "cloudmath"
version = "0.1.0"
edition = "2021"
publish = false

[dependencies]
lazy_static = "1"
rand = "0.8"
console_error_panic_hook = "0.1"
wasm-bindgen = "0.2"
js-sys = "0.3"
web-sys = { version = "0.3", features = ["Window", "Document", "Element", "Node", "EventTarget", "HtmlElement", "HtmlCanvasElement", "HtmlButtonElement", "Performance", "WebGlRenderingContext", "WebGlProgram", "WebGlShader", "WebGlUniformLocation", "WebGlBuffer"] }
rustc_apfloat = "=0.2.3"
ieee-apsqrt = "*"
