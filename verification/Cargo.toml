[package]
name = "turn_timer"
version = "0.1.0"
edition = "2021"
publish = false

[dependencies]
console_error_panic_hook = "0.1"
js-sys = "0.3"
leptos = { version = "0.8", features = ["csr"] }
wasm-bindgen = "0.2"
web-sys = { version = "0.3", features = ["Document", "DomRect", "Element", "Event", "EventTarget", "HtmlDivElement", "MouseEvent", "ResizeObserver", "ResizeObserverEntry", "Window"] }
web-time = "1"
