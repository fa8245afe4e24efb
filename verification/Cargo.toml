[package]
name = "js_resized_event_channel"
version = "0.1.0"
edition = "2021"
publish = false

[dependencies]
kanal = "*"
winit = "0.30"
wasm-bindgen = "0.2"
js-sys = "0.3"
web-sys = { version = "0.3", features = ["Window", "Document", "Element", "Node", "HtmlCanvasElement", "ResizeObserver", "ResizeObserverEntry", "ResizeObserverSize"] }
