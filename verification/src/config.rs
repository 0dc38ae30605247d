//! The configuration snapshot that a single run works on.
//!
//! The snapshot is produced by an external configuration store, injected into
//! the run, and handed back for persistence after a token refresh. Nothing in
//! the verified logic reads or writes the store itself.

use vstd::prelude::*;

verus! {

/// Catalog credentials and the optional token set.
///
/// The snapshot is "authenticated" only when all three token fields are
/// present at once; the token lifecycle never leaves them partially set.
pub struct SpotifyConfig {
    pub client_id: String,
    pub client_secret: String,
    pub access_token: Option<String>,
    pub refresh_token: Option<String>,
    pub expires_at: Option<i64>,
}

/// Where the music daemon listens.
pub struct MpdConfig {
    pub address: String,
    pub port: u16,
}

/// Which artwork size to pick and where to write it.
pub struct CoverConfig {
    pub preferred_size: String,
    pub output_path: String,
}

/// One immutable snapshot of everything a run needs.
pub struct Config {
    pub spotify: SpotifyConfig,
    pub mpd: MpdConfig,
    pub cover: CoverConfig,
}

impl SpotifyConfig {
    /// All three token fields present at once.
    pub open spec fn spec_auth_configured(&self) -> bool {
        self.access_token is Some && self.refresh_token is Some && self.expires_at is Some
    }
}

impl Config {
    /// True exactly when the snapshot carries a complete token set.
    pub fn auth_configured(&self) -> (r: bool)
        ensures
            r == self.spotify.spec_auth_configured(),
    {
        let spotify_config = &self.spotify;

        spotify_config.access_token.is_some() && spotify_config.refresh_token.is_some()
            && spotify_config.expires_at.is_some()
    }
}

} // verus!
