[package]
name = "radzen_leptos"
version = "0.1.0"
edition = "2021"
publish = false

[dependencies]
chrono = "0.4"
leptos = { version = "0.8", features = ["csr"] }
leptos_router = "0.8"
web-sys = { version = "0.3", features = ["MouseEvent", "KeyboardEvent", "FocusEvent", "Event", "EventTarget", "Element", "HtmlElement", "HtmlInputElement", "HtmlTextAreaElement", "HtmlSelectElement", "Node", "Window", "Navigator", "DomRect"] }
js-sys = "0.3"
wasm-bindgen-futures = "0.4"
gloo-timers = "0.3"
log = "0.4"
sys-locale = "0.3"
