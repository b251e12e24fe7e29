//! The logic of a bridge that plays Spotify Connect audio on a Yandex Station.
pub mod text;
pub mod json;
pub mod chunk;
pub mod state;
pub mod events;
pub mod base64;
pub mod protobuf;
pub mod glagol;
pub mod encoder;
pub mod http;
pub mod sink;
pub mod session;
pub mod laws;
pub mod changes;
pub mod answers;
pub mod talk;
