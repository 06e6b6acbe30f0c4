[package]
name = "alemian-saga-core"
version = "0.1.0"
edition = "2021"
publish = false

[dependencies]
ndarray = { version = "*", features = ["serde"] }
num-traits = "*"
futures = "*"
async-trait = "*"
bytes = "*"
rmp-serde = "*"
serde = { version = "*", features = ["derive"] }
serde_json = "*"
wasm-bindgen = "*"
wasm-bindgen-futures = "*"
js-sys = "*"
gloo-events = "*"
console_error_panic_hook = "*"
reqwest = { version = "*", default-features = false }
web-sys = { version = "*", features = ["CanvasRenderingContext2d", "CssStyleDeclaration", "Document", "Element", "Event", "EventTarget", "HtmlCanvasElement", "HtmlElement", "HtmlImageElement", "KeyboardEvent", "MouseEvent", "WheelEvent", "Window", "console"] }
