//! The official-account subsystems: webhook authentication, message
//! decoding and reply building, the shared credential lifecycle, and the
//! per-endpoint request builders.
pub mod menu;
pub mod message;
pub mod oauth;
pub mod qrcode;
pub mod quota;
pub mod signature;
pub mod token;
pub mod user;
pub mod xml;
