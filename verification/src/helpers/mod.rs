pub mod calc;
pub mod comp;
pub mod date;
pub mod http;
pub mod status;
pub mod text;
pub mod websocket;
pub mod uuid;
