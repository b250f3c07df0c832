//! The rules of an HTTP stream proxy: which upstream runs, what the rewritten playlist says, who
//! may connect and what every client is told about playback.
pub mod api;
pub mod auth;
pub mod channels;
pub mod error;
pub mod http;
pub mod percent;
pub mod playlist;
pub mod proxy;
pub mod pump;
pub mod relay;
pub mod state;
pub mod sync;
pub mod text;
pub mod transcode;
