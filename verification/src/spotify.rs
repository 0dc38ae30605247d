//! The catalog's REST surface: the typed records its endpoints return, the
//! request each call sends, and how an error response is read.
//!
//! The HTTP transport lives outside the crate. A call is described here as a
//! request value (endpoint, credentials, parameters) with an exact contract;
//! the decoded response comes back in as one of the record types below.

use vstd::prelude::*;
use vstd::string::*;

use crate::config::Config;
use crate::errors::AppError;
use crate::text::pairs_view;
use crate::text::replace_all;
use crate::text::replaced;

verus! {

/// One artwork entry of an album.
#[derive(Clone, Debug)]
pub struct Image {
    pub width: u32,
    pub height: u32,
    pub url: String,
}

/// An album and its artwork, largest first as the catalog sends it.
#[derive(Clone)]
pub struct Album {
    pub name: String,
    pub images: Vec<Image>,
}

/// A performing artist.
pub struct Artist {
    pub name: String,
}

/// One track of a search reply.
pub struct Track {
    pub album: Album,
    pub artists: Vec<Artist>,
    pub id: String,
    pub name: String,
}

/// One page of search matches.
pub struct SearchResult<T> {
    pub href: String,
    pub items: Vec<T>,
}

/// The search endpoint's envelope; `tracks` is absent when the search could
/// not be performed.
pub struct SearchResults {
    pub tracks: Option<SearchResult<Track>>,
}

/// The token endpoint's reply to an authorization-code exchange.
pub struct ExchangeCodeResponse {
    pub access_token: String,
    pub refresh_token: String,
    pub expires_in: i64,
    pub token_type: String,
}

/// The token endpoint's reply to a refresh; the refresh token is only
/// present when the server rotates it.
pub struct RefreshTokenResponse {
    pub access_token: String,
    pub refresh_token: Option<String>,
    pub expires_in: i64,
    pub token_type: String,
}

/// The token endpoint's URL.
pub fn token_endpoint() -> (r: &'static str)
    ensures
        r@ == "https://accounts.spotify.com/api/token"@,
{
    "https://accounts.spotify.com/api/token"
}

/// The album endpoint's URL template; `{id}` is substituted away.
pub fn album_endpoint_template() -> (r: &'static str)
    ensures
        r@ == "https://api.spotify.com/v1/albums/{id}"@,
{
    "https://api.spotify.com/v1/albums/{id}"
}

/// The search endpoint's URL.
pub fn search_endpoint() -> (r: &'static str)
    ensures
        r@ == "https://api.spotify.com/v1/search"@,
{
    "https://api.spotify.com/v1/search"
}

/// `url` with every `{key}` placeholder replaced by its value, one parameter
/// after the other.
pub open spec fn substituted(url: Seq<char>, params: Seq<(Seq<char>, Seq<char>)>) -> Seq<char>
    decreases params.len(),
{
    if params.len() == 0 {
        url
    } else {
        substituted(
            replaced(url, "{"@ + params[0].0 + "}"@, params[0].1),
            params.drop_first(),
        )
    }
}

/// Substitute each `{key}` placeholder in `url` by the parameter's value.
pub fn substitute(url: &str, params: &Vec<(String, String)>) -> (r: String)
    ensures
        r@ == substituted(url@, pairs_view(params@)),
{
    let mut cur = url.to_owned();
    let mut i: usize = 0;
    let n = params.len();
    proof {
        assert(pairs_view(params@).skip(0) =~= pairs_view(params@));
    }
    while i < n
        invariant
            n == params@.len(),
            0 <= i <= n,
            pairs_view(params@).len() == n,
            substituted(cur@, pairs_view(params@).skip(i as int)) == substituted(
                url@,
                pairs_view(params@),
            ),
        decreases n - i,
    {
        let pat = String::from_str("{").concat(params[i].0.as_str()).concat("}");
        proof {
            assert(pairs_view(params@)[i as int] == (params@[i as int].0@, params@[i as int].1@));
            assert(pairs_view(params@).skip(i as int)[0] == pairs_view(params@)[i as int]);
            assert(pairs_view(params@).skip(i as int).drop_first() =~= pairs_view(params@).skip(
                i + 1,
            ));
        }
        cur = replace_all(cur.as_str(), pat.as_str(), params[i].1.as_str());
        i += 1;
    }
    proof {
        assert(pairs_view(params@).skip(i as int) =~= Seq::<(Seq<char>, Seq<char>)>::empty());
    }
    cur
}

/// A form-encoded POST to the token endpoint, authenticated with the client
/// credentials as basic auth.
#[derive(Debug)]
pub struct TokenRequest {
    pub url: String,
    pub client_id: String,
    pub client_secret: String,
    pub params: Vec<(String, String)>,
}

/// A bearer-authenticated GET against the catalog API.
#[derive(Debug)]
pub struct ApiRequest {
    pub url: String,
    pub access_token: String,
    pub query: Vec<(String, String)>,
}

/// The token request that exchanges an authorization code for a token set.
pub fn exchange_code(config: &Config, redirect_uri: &str, code: &str) -> (r: TokenRequest)
    ensures
        r.url@ == "https://accounts.spotify.com/api/token"@,
        r.client_id@ == config.spotify.client_id@,
        r.client_secret@ == config.spotify.client_secret@,
        pairs_view(r.params@) == seq![
            ("redirect_uri"@, redirect_uri@),
            ("code"@, code@),
            ("grant_type"@, "authorization_code"@),
        ],
{
    let mut params: Vec<(String, String)> = Vec::new();
    params.push((String::from_str("redirect_uri"), redirect_uri.to_owned()));
    params.push((String::from_str("code"), code.to_owned()));
    params.push((String::from_str("grant_type"), String::from_str("authorization_code")));
    let r = TokenRequest {
        url: String::from_str(token_endpoint()),
        client_id: config.spotify.client_id.clone(),
        client_secret: config.spotify.client_secret.clone(),
        params,
    };
    proof {
        assert(pairs_view(r.params@) =~= seq![
            ("redirect_uri"@, redirect_uri@),
            ("code"@, code@),
            ("grant_type"@, "authorization_code"@),
        ]);
    }
    r
}

/// The token request that refreshes the access token.
///
/// Owed exactly when a refresh token is configured; without one the call is
/// an auth error.
pub fn refresh_token(config: &Config) -> (r: Result<TokenRequest, AppError>)
    ensures
        r is Ok <==> config.spotify.refresh_token is Some,
        r matches Ok(t) ==> {
            &&& t.url@ == "https://accounts.spotify.com/api/token"@
            &&& t.client_id@ == config.spotify.client_id@
            &&& t.client_secret@ == config.spotify.client_secret@
            &&& pairs_view(t.params@) == seq![
                ("refresh_token"@, config.spotify.refresh_token->0@),
                ("grant_type"@, "refresh_token"@),
            ]
        },
        r matches Err(e) ==> e is Auth,
{
    match &config.spotify.refresh_token {
        Some(rt) => {
            let mut params: Vec<(String, String)> = Vec::new();
            params.push((String::from_str("refresh_token"), rt.clone()));
            params.push((String::from_str("grant_type"), String::from_str("refresh_token")));
            let t = TokenRequest {
                url: String::from_str(token_endpoint()),
                client_id: config.spotify.client_id.clone(),
                client_secret: config.spotify.client_secret.clone(),
                params,
            };
            proof {
                assert(pairs_view(t.params@) =~= seq![
                    ("refresh_token"@, config.spotify.refresh_token->0@),
                    ("grant_type"@, "refresh_token"@),
                ]);
            }
            Ok(t)
        },
        None => Err(AppError::Auth(String::from_str("refresh token is not configured"))),
    }
}

/// The search request for `q`, restricted to `type_`.
///
/// Owed exactly when an access token is configured.
pub fn search(config: &Config, q: &str, type_: &str) -> (r: Result<ApiRequest, AppError>)
    ensures
        r is Ok <==> config.spotify.access_token is Some,
        r matches Ok(t) ==> {
            &&& t.url@ == "https://api.spotify.com/v1/search"@
            &&& t.access_token@ == config.spotify.access_token->0@
            &&& pairs_view(t.query@) == seq![("q"@, q@), ("type"@, type_@)]
        },
        r matches Err(e) ==> e is Auth,
{
    match &config.spotify.access_token {
        Some(token) => {
            let mut query: Vec<(String, String)> = Vec::new();
            query.push((String::from_str("q"), q.to_owned()));
            query.push((String::from_str("type"), type_.to_owned()));
            let t = ApiRequest {
                url: String::from_str(search_endpoint()),
                access_token: token.clone(),
                query,
            };
            proof {
                assert(pairs_view(t.query@) =~= seq![("q"@, q@), ("type"@, type_@)]);
            }
            Ok(t)
        },
        None => Err(AppError::Auth(String::from_str("access token is not configured"))),
    }
}

/// The album-lookup request for the album `id`.
///
/// Owed exactly when an access token is configured.
pub fn get_album(config: &Config, id: &str) -> (r: Result<ApiRequest, AppError>)
    ensures
        r is Ok <==> config.spotify.access_token is Some,
        r matches Ok(t) ==> {
            &&& t.url@ == replaced("https://api.spotify.com/v1/albums/{id}"@, "{id}"@, id@)
            &&& t.access_token@ == config.spotify.access_token->0@
            &&& pairs_view(t.query@) == Seq::<(Seq<char>, Seq<char>)>::empty()
        },
        r matches Err(e) ==> e is Auth,
{
    match &config.spotify.access_token {
        Some(token) => {
            let mut params: Vec<(String, String)> = Vec::new();
            params.push((String::from_str("id"), id.to_owned()));
            let url = substitute(album_endpoint_template(), &params);
            proof {
                let tpl = "https://api.spotify.com/v1/albums/{id}"@;
                let ps = pairs_view(params@);
                assert(ps =~= seq![("id"@, id@)]);
                assert(ps.drop_first() =~= Seq::<(Seq<char>, Seq<char>)>::empty());
                reveal_strlit("{");
                reveal_strlit("id");
                reveal_strlit("}");
                reveal_strlit("{id}");
                assert(("{"@ + ps[0].0 + "}"@) =~= "{id}"@);
                assert(substituted(tpl, ps) == substituted(
                    replaced(tpl, "{id}"@, id@),
                    ps.drop_first(),
                ));
                assert(substituted(replaced(tpl, "{id}"@, id@), ps.drop_first()) == replaced(
                    tpl,
                    "{id}"@,
                    id@,
                ));
            }
            let query: Vec<(String, String)> = Vec::new();
            let t = ApiRequest { url, access_token: token.clone(), query };
            proof {
                assert(pairs_view(t.query@) =~= Seq::<(Seq<char>, Seq<char>)>::empty());
            }
            Ok(t)
        },
        None => Err(AppError::Auth(String::from_str("access token is not configured"))),
    }
}

/// The HTTP status classes the clients distinguish.
pub fn is_success_status(status: u16) -> (r: bool)
    ensures
        r == (200 <= status < 300),
{
    200 <= status && status < 300
}

/// The message taken from an error response: its `error_description` field
/// when the body carried one, a generic message otherwise.
pub open spec fn spec_error_text(description: Option<Seq<char>>) -> Seq<char> {
    match description {
        Some(t) => t,
        None => "Server returned an unknown error"@,
    }
}

/// The auth error for a failed token-endpoint call.
pub fn auth_error_of(description: Option<String>) -> (r: AppError)
    ensures
        r is Auth,
        r.spec_message() == spec_error_text(
            match description {
                Some(d) => Some(d@),
                None => None,
            },
        ),
{
    match description {
        Some(d) => AppError::Auth(d),
        None => AppError::Auth(String::from_str("Server returned an unknown error")),
    }
}

/// The API error for a failed catalog REST call.
pub fn catalog_error_of(description: Option<String>) -> (r: AppError)
    ensures
        r is CatalogApi,
        r.spec_message() == spec_error_text(
            match description {
                Some(d) => Some(d@),
                None => None,
            },
        ),
{
    match description {
        Some(d) => AppError::CatalogApi(d),
        None => AppError::CatalogApi(String::from_str("Server returned an unknown error")),
    }
}

/// The literal search query for a track: `"<artist> - <title>"`.
pub fn build_search_query(artist: &str, title: &str) -> (r: String)
    ensures
        r@ == artist@ + " - "@ + title@,
{
    String::from_str(artist).concat(" - ").concat(title)
}

} // verus!
