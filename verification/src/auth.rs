//! The OAuth token lifecycle over the configuration snapshot.
//!
//! The snapshot moves from unauthenticated to authenticated through the
//! authorization-code exchange, and stays authenticated through refreshes
//! that rotate the token fields in place. Expiry is a derived predicate over
//! the stored instant, not a state of its own.

use vstd::prelude::*;

use crate::config::Config;
use crate::spotify::ExchangeCodeResponse;
use crate::spotify::RefreshTokenResponse;
use crate::util::offset_time_from;
use crate::util::sat_add_i64;

verus! {

/// A token that expires at `expires_at` is expired at `now` exactly when
/// `now >= expires_at`; both are instants in epoch seconds.
pub fn is_expired(expires_at: i64, now: i64) -> (r: bool)
    ensures
        r == (now >= expires_at),
{
    now >= expires_at
}

/// Fold a successful refresh into the snapshot: the access token and expiry
/// are always replaced, the refresh token only when the server sent a new
/// one. Nothing else changes; the caller owes the store a save.
pub fn update_token(config: &mut Config, response: &RefreshTokenResponse, now: i64)
    ensures
        final(config).spotify.access_token == Some(response.access_token),
        final(config).spotify.expires_at matches Some(e) && e as int == sat_add_i64(
            now as int,
            response.expires_in as int,
        ),
        final(config).spotify.refresh_token == match response.refresh_token {
            Some(rt) => Some(rt),
            None => old(config).spotify.refresh_token,
        },
        final(config).spotify.client_id == old(config).spotify.client_id,
        final(config).spotify.client_secret == old(config).spotify.client_secret,
        final(config).mpd == old(config).mpd,
        final(config).cover == old(config).cover,
{
    config.spotify.access_token = Some(response.access_token.clone());
    config.spotify.expires_at = Some(offset_time_from(now, response.expires_in));
    match &response.refresh_token {
        Some(rt) => {
            config.spotify.refresh_token = Some(rt.clone());
        },
        None => {},
    }
}

/// Fold a successful authorization-code exchange into the snapshot: all
/// three token fields are set at once, so the snapshot becomes
/// authenticated. The caller owes the store a save.
pub fn apply_exchange(config: &mut Config, response: &ExchangeCodeResponse, now: i64)
    ensures
        final(config).spotify.access_token == Some(response.access_token),
        final(config).spotify.refresh_token == Some(response.refresh_token),
        final(config).spotify.expires_at matches Some(e) && e as int == sat_add_i64(
            now as int,
            response.expires_in as int,
        ),
        final(config).spotify.spec_auth_configured(),
        final(config).spotify.client_id == old(config).spotify.client_id,
        final(config).spotify.client_secret == old(config).spotify.client_secret,
        final(config).mpd == old(config).mpd,
        final(config).cover == old(config).cover,
{
    config.spotify.access_token = Some(response.access_token.clone());
    config.spotify.refresh_token = Some(response.refresh_token.clone());
    config.spotify.expires_at = Some(offset_time_from(now, response.expires_in));
}

} // verus!
