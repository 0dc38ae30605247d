//! Resolves and downloads the cover artwork of the track currently playing
//! on a line-protocol music daemon, using a streaming catalog's web API for
//! the metadata.
//!
//! The crate holds the verified logic: the daemon protocol parser, the OAuth
//! token lifecycle, the catalog request builders and response interpretation,
//! and the resolution state machine that ties them together. The surrounding
//! binary performs the network and file I/O and feeds the results back in as
//! plain values.

pub mod auth;
pub mod clock;
pub mod config;
pub mod errors;
pub mod mpd;
pub mod resolver;
pub mod spotify;
pub mod text;
pub mod util;

pub use config::Config;
pub use config::CoverConfig;
pub use config::MpdConfig;
pub use config::SpotifyConfig;
