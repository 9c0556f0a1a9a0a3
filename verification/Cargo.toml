[package]
name = "annotator"
version = "0.1.0"
edition = "2021"
publish = false

[dependencies]
shakmaty = "=0.27.3"
chrono = "=0.4.45"
rooky-core = "=0.1.0"
nostr-minions = { version = "=0.1.19", features = ["toastify"] }
# Held back for rooky-core: nostro2-signer 0.1.12 is written for nostro2 0.3 and
# does not compile beside nostro2-nips 0.1.8, which moved on to nostro2 0.4.
nostro2-nips = "=0.1.7"
shady-minions = "=0.1.7"
lucide-yew = "=1.2.0"
yew = { version = "=0.21.0", features = ["csr"] }
yew-router = "=0.18.0"
web-sys = { version = "=0.3.106", features = ["Blob", "CssStyleDeclaration", "Document", "Element", "Event", "EventTarget", "HtmlCollection", "HtmlElement", "HtmlFormElement", "HtmlInputElement", "HtmlSelectElement", "KeyboardEvent", "MediaQueryList", "MouseEvent", "Navigator", "Node", "Url", "Window", "console"] }
gloo = { version = "=0.10.0", features = ["futures"] }
serde = { version = "=1.0.229", features = ["derive"] }
serde_json = "=1.0.154"
serde-wasm-bindgen = "=0.6.5"
wasm-bindgen = "=0.2.129"
wasm-bindgen-futures = "=0.4.79"
