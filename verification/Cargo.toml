[package]
name = "canvas_checkcode"
version = "0.1.0"
edition = "2021"
publish = false

[dependencies]
rand = "0.8"
wasm-bindgen = "0.2"
web-sys = { version = "0.3", features = ["Window", "Document", "Element", "Node", "HtmlCanvasElement", "HtmlHeadElement", "CanvasRenderingContext2d", "CssStyleDeclaration", "TextMetrics", "MouseEvent", "DomTokenList"] }
gloo = "0.11"
yew = "0.21"
