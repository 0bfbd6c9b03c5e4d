[package]
name = "edita"
version = "0.1.0"
edition = "2021"
publish = false

[dependencies]
console_error_panic_hook = "0.1"
hirola = "0.4"
js-sys = "0.3"
log = "0.4"
serde = { version = "1", features = ["derive"] }
serde_json = "1"
wasm-bindgen = "0.2"
wasm-logger = "0.2"
web-sys = { version = "0.3", features = ["Document", "DocumentFragment", "Element", "Event", "HtmlElement", "HtmlImageElement", "MutationObserver", "MutationObserverInit", "MutationRecord", "Node", "NodeList", "Range", "Selection", "Text", "Window"] }
