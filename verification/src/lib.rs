//! A headless client for the "My Wave" radio of Yandex Music: the request
//! rules of its web API, the signing of stream addresses, the MPRIS metadata
//! it publishes and the decisions of its playback loop.
pub mod api;
pub mod config;
pub mod mpris;
pub mod player;
pub mod retry;
pub mod stream;
pub mod text;
