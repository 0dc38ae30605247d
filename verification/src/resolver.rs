//! The resolution algorithm: pick a lookup strategy from the daemon's track
//! properties, pick the matching track from a search reply, pick the image of
//! the configured size, and drive the whole run as a state machine.

use vstd::prelude::*;
use vstd::string::*;

use vstd::pervasive::unreached;

use crate::auth::is_expired;
use crate::auth::update_token;
use crate::config::Config;
use crate::errors::AppError;
use crate::mpd::TrackProperties;
use crate::spotify::Album;
use crate::spotify::ApiRequest;
use crate::spotify::Image;
use crate::spotify::RefreshTokenResponse;
use crate::spotify::SearchResults;
use crate::spotify::TokenRequest;
use crate::spotify::Track;
use crate::spotify::build_search_query;
use crate::spotify::get_album;
use crate::spotify::refresh_token;
use crate::spotify::search;
use crate::text::pairs_view;
use crate::text::replaced;
use crate::util::sat_add_i64;
use crate::text::dec_str;
use crate::text::dec_value;
use crate::text::is_prefix;
use crate::text::is_u32_numeral;
use crate::text::spec_find;
use crate::text::find_sub;
use crate::text::lemma_find_first;
use crate::text::lemma_find_none;
use crate::text::parse_u32;
use crate::text::starts_with;
use crate::text::u32_to_dec;
use crate::util::spec_either_contains;
use crate::util::either_contains;

verus! {

/// How the album will be resolved: directly by the catalog album id the
/// daemon handed over, or by searching for artist and title.
pub enum LookupStrategy {
    ByAlbumId(String),
    ByName { artist: String, title: String },
}

/// The strategy the properties call for: the album-URI extension field wins
/// when present with the catalog prefix; otherwise artist and title are
/// required.
pub enum SpecStrategy {
    ByAlbum(Seq<char>),
    ByName(Seq<char>, Seq<char>),
    Missing,
}

/// Which strategy a property set selects.
pub open spec fn spec_choose_strategy(ps: Seq<(Seq<char>, Seq<char>)>) -> SpecStrategy {
    let uri = TrackProperties::spec_lookup(ps, "X-AlbumUri"@);
    let artist = TrackProperties::spec_lookup(ps, "Artist"@);
    let title = TrackProperties::spec_lookup(ps, "Title"@);
    if uri is Some && is_prefix(uri->0, "spotify:album:"@) {
        SpecStrategy::ByAlbum(uri->0.skip("spotify:album:"@.len() as int))
    } else if artist is Some && title is Some {
        SpecStrategy::ByName(artist->0, title->0)
    } else {
        SpecStrategy::Missing
    }
}

/// Select the lookup strategy for the current track.
///
/// When the properties carry the album-URI extension field with the
/// catalog's album prefix, the id after the prefix is used directly;
/// otherwise both `"Artist"` and `"Title"` must be present, and a missing
/// one is a parse error.
pub fn choose_strategy(props: &TrackProperties) -> (r: Result<LookupStrategy, AppError>)
    ensures
        match spec_choose_strategy(props@) {
            SpecStrategy::ByAlbum(id) => r matches Ok(LookupStrategy::ByAlbumId(s)) && s@ == id,
            SpecStrategy::ByName(a, t) => r matches Ok(LookupStrategy::ByName { artist, title })
                && artist@ == a && title@ == t,
            SpecStrategy::Missing => r matches Err(e) && e is Parse,
        },
{
    let album_prefix = "spotify:album:";
    match props.get("X-AlbumUri") {
        Some(uri) => {
            if starts_with(uri.as_str(), album_prefix) {
                let plen = album_prefix.unicode_len();
                let ulen = uri.as_str().unicode_len();
                let id = uri.as_str().substring_char(plen, ulen);
                proof {
                    assert(uri@.subrange("spotify:album:"@.len() as int, uri@.len() as int)
                        =~= uri@.skip("spotify:album:"@.len() as int));
                }
                return Ok(LookupStrategy::ByAlbumId(id.to_owned()));
            }
            strategy_by_name(props)
        },
        None => strategy_by_name(props),
    }
}

fn strategy_by_name(props: &TrackProperties) -> (r: Result<LookupStrategy, AppError>)
    requires
        !(TrackProperties::spec_lookup(props@, "X-AlbumUri"@) is Some && is_prefix(
            TrackProperties::spec_lookup(props@, "X-AlbumUri"@)->0,
            "spotify:album:"@,
        )),
    ensures
        match spec_choose_strategy(props@) {
            SpecStrategy::ByAlbum(id) => false,
            SpecStrategy::ByName(a, t) => r matches Ok(LookupStrategy::ByName { artist, title })
                && artist@ == a && title@ == t,
            SpecStrategy::Missing => r matches Err(e) && e is Parse,
        },
{
    let artist = match props.get("Artist") {
        Some(a) => a,
        None => {
            return Err(AppError::Parse(String::from_str("no `Artist` in properties")));
        },
    };
    let title = match props.get("Title") {
        Some(t) => t,
        None => {
            return Err(AppError::Parse(String::from_str("no `Title` in properties")));
        },
    };
    Ok(LookupStrategy::ByName { artist: artist.clone(), title: title.clone() })
}

/// What a size string means: split at the first `x`, the part before it the
/// width, the part after it up to the next `x` (or the end) the height; both
/// parts must be numerals that a `u32` holds, and anything after a second
/// `x` is ignored.
pub open spec fn spec_parse_size(s: Seq<char>) -> Option<(nat, nat)> {
    match spec_find(s, "x"@) {
        None => None,
        Some(i) => {
            let first = s.subrange(0, i);
            let rest = s.skip(i + "x"@.len() as int);
            let second = match spec_find(rest, "x"@) {
                None => rest,
                Some(j) => rest.subrange(0, j),
            };
            if is_u32_numeral(first) && is_u32_numeral(second) {
                Some((dec_value(first), dec_value(second)))
            } else {
                None
            }
        },
    }
}

/// Parse the preferred size string `"<width>x<height>"`.
///
/// A string without two parts, or with a non-numeric part, is a parse
/// error; parts past the second are ignored.
pub fn parse_size(s: &str) -> (r: Result<(u32, u32), AppError>)
    ensures
        r is Ok <==> spec_parse_size(s@) is Some,
        r matches Ok(wh) ==> spec_parse_size(s@) == Some(((wh.0 as nat), (wh.1 as nat))),
        r matches Err(e) ==> e is Parse,
{
    let sep = "x";
    proof {
        reveal_strlit("x");
    }
    match find_sub(s, sep) {
        None => {
            proof {
                lemma_find_none(s@, sep@);
            }
            Err(AppError::Parse(String::from_str("size must be <width>x<height>")))
        },
        Some(i) => {
            proof {
                lemma_find_first(s@, sep@, i as int);
            }
            let len = s.unicode_len();
            let first = s.substring_char(0, i);
            let rest = s.substring_char(i + 1, len);
            proof {
                assert(rest@ =~= s@.skip(i + "x"@.len() as int));
            }
            let second = match find_sub(rest, sep) {
                None => {
                    proof {
                        lemma_find_none(rest@, sep@);
                    }
                    rest
                },
                Some(j) => {
                    proof {
                        lemma_find_first(rest@, sep@, j as int);
                    }
                    rest.substring_char(0, j)
                },
            };
            let w = match parse_u32(first) {
                Some(w) => w,
                None => {
                    return Err(AppError::Parse(String::from_str("unable to parse size part")));
                },
            };
            let h = match parse_u32(second) {
                Some(h) => h,
                None => {
                    return Err(AppError::Parse(String::from_str("unable to parse size part")));
                },
            };
            Ok((w, h))
        },
    }
}

/// `img` has exactly the wanted dimensions.
pub open spec fn size_matches(img: Image, width: nat, height: nat) -> bool {
    img.width as nat == width && img.height as nat == height
}

/// The index of the first image with exactly the wanted dimensions.
pub fn select_image(images: &Vec<Image>, width: u32, height: u32) -> (r: Option<usize>)
    ensures
        match r {
            Some(i) => i < images@.len() && size_matches(images@[i as int], width as nat, height as nat)
                && forall|j: int|
                0 <= j < i ==> !size_matches(images@[j], width as nat, height as nat),
            None => forall|j: int|
                0 <= j < images@.len() ==> !size_matches(images@[j], width as nat, height as nat),
        },
{
    let n = images.len();
    let mut i: usize = 0;
    while i < n
        invariant
            n == images@.len(),
            0 <= i <= n,
            forall|j: int| 0 <= j < i ==> !size_matches(images@[j], width as nat, height as nat),
        decreases n - i,
    {
        if images[i].width == width && images[i].height == height {
            return Some(i);
        }
        i += 1;
    }
    None
}

/// The label `"<width>x<height>"` of one image.
pub open spec fn size_label(img: Image) -> Seq<char> {
    dec_str(img.width as nat) + "x"@ + dec_str(img.height as nat)
}

/// The labels of the images from index `i` on, joined by `", "`.
pub open spec fn sizes_text_from(imgs: Seq<Image>, i: int) -> Seq<char>
    decreases imgs.len() - i,
    when 0 <= i <= imgs.len()
{
    if i == imgs.len() {
        Seq::empty()
    } else if i == imgs.len() - 1 {
        size_label(imgs[i])
    } else {
        size_label(imgs[i]) + ", "@ + sizes_text_from(imgs, i + 1)
    }
}

/// The available sizes of an album's images, as `"WxH"` labels joined by
/// `", "`, in source order.
pub fn available_sizes(images: &Vec<Image>) -> (r: String)
    ensures
        r@ == sizes_text_from(images@, 0),
{
    let n = images.len();
    let mut i: usize = n;
    let mut acc = String::new();
    proof {
        assert(acc@ =~= sizes_text_from(images@, n as int));
    }
    while i > 0
        invariant
            n == images@.len(),
            0 <= i <= n,
            acc@ == sizes_text_from(images@, i as int),
        decreases i,
    {
        i -= 1;
        let label = u32_to_dec(images[i].width).concat("x").concat(
            u32_to_dec(images[i].height).as_str(),
        );
        proof {
            reveal_strlit("x");
            assert(label@ =~= size_label(images@[i as int]));
        }
        if i + 1 == n {
            acc = label;
        } else {
            acc = label.concat(", ").concat(acc.as_str());
        }
    }
    acc
}

/// `t` matches the wanted track: its name and the title satisfy the fuzzy
/// match, and at least one of its artists matches the wanted artist.
pub open spec fn track_matches(t: Track, artist: Seq<char>, title: Seq<char>) -> bool {
    spec_either_contains(t.name@, title) && exists|k: int|
        0 <= k < t.artists@.len() && spec_either_contains(t.artists@[k].name@, artist)
}

#[verifier::loop_isolation(false)]
fn track_matches_exec(t: &Track, artist: &str, title: &str) -> (r: bool)
    ensures
        r == track_matches(*t, artist@, title@),
{
    if !either_contains(t.name.as_str(), title) {
        return false;
    }
    let n = t.artists.len();
    let mut k: usize = 0;
    while k < n
        invariant
            n == t.artists@.len(),
            0 <= k <= n,
            forall|m: int| 0 <= m < k ==> !spec_either_contains(t.artists@[m].name@, artist@),
        decreases n - k,
    {
        if either_contains(t.artists[k].name.as_str(), artist) {
            proof {
                assert(exists|m: int|
                    0 <= m < t.artists@.len() && spec_either_contains(
                        t.artists@[m].name@,
                        artist@,
                    )) by {
                    assert(0 <= k < t.artists@.len() && spec_either_contains(
                        t.artists@[k as int].name@,
                        artist@,
                    ));
                }
            }
            return true;
        }
        k += 1;
    }
    false
}

/// The images of the album resolved directly by its catalog id.
pub fn lookup_images_by_album_id(album: &Album) -> (r: &Vec<Image>)
    ensures
        r@ == album.images@,
{
    &album.images
}

/// `i` is the position of the first track of `items` that matches.
pub open spec fn is_first_match(items: Seq<Track>, artist: Seq<char>, title: Seq<char>, i: int) -> bool {
    &&& 0 <= i < items.len()
    &&& track_matches(items[i], artist, title)
    &&& forall|j: int| 0 <= j < i ==> !track_matches(items[j], artist, title)
}

/// Pick the artwork from a search reply.
///
/// A reply without the `tracks` envelope means the search could not be
/// performed; an empty reply or one without a matching track finds nothing.
/// The first track (in source order) whose name matches the title and one of
/// whose artists matches the artist wins, and its album's images are
/// returned.
#[verifier::loop_isolation(false)]
pub fn lookup_images_by_name<'a>(results: &'a SearchResults, artist: &str, title: &str) -> (r:
    Result<&'a Vec<Image>, AppError>)
    ensures
        match &results.tracks {
            None => r matches Err(e) && e is CatalogApi && e.spec_message()
                == "Unable to perform search"@,
            Some(sr) => {
                if sr.items@.len() == 0 {
                    r matches Err(e) && e is NotFound && e.spec_message() == "No tracks found"@
                } else if exists|i: int|
                    0 <= i < sr.items@.len() && track_matches(sr.items@[i], artist@, title@) {
                    r matches Ok(imgs) && exists|i: int|
                        is_first_match(sr.items@, artist@, title@, i) && imgs@
                            == sr.items@[i].album.images@
                } else {
                    r matches Err(e) && e is NotFound && e.spec_message()
                        == "No matching tracks found"@
                }
            },
        },
{
    match &results.tracks {
        None => Err(AppError::CatalogApi(String::from_str("Unable to perform search"))),
        Some(sr) => {
            let n = sr.items.len();
            if n == 0 {
                return Err(AppError::NotFound(String::from_str("No tracks found")));
            }
            let mut i: usize = 0;
            while i < n
                invariant
                    n == sr.items@.len(),
                    0 <= i <= n,
                    forall|j: int| 0 <= j < i ==> !track_matches(sr.items@[j], artist@, title@),
                decreases n - i,
            {
                if track_matches_exec(&sr.items[i], artist, title) {
                    proof {
                        assert(is_first_match(sr.items@, artist@, title@, i as int));
                    }
                    return Ok(&sr.items[i].album.images);
                }
                i += 1;
            }
            Err(AppError::NotFound(String::from_str("No matching tracks found")))
        },
    }
}

/// The phase a run is in between two I/O steps. Failure is absorbing: the
/// run is fail-fast, with no retries and no backward transitions.
pub enum Phase {
    Start,
    Refreshing { props: TrackProperties },
    Persisting { props: TrackProperties },
    FetchingAlbum,
    Searching { artist: String, title: String },
    Downloading,
    Done,
    Failed(AppError),
}

/// What the surrounding binary reports back after performing an action.
pub enum Event {
    Begin { props: Result<TrackProperties, AppError>, now: i64 },
    Refreshed { response: Result<RefreshTokenResponse, AppError>, now: i64 },
    Persisted { result: Result<(), AppError> },
    AlbumFetched { album: Result<Album, AppError> },
    SearchReturned { results: Result<SearchResults, AppError> },
    Downloaded { result: Result<(), AppError> },
}

/// What the surrounding binary must do next.
pub enum Action {
    Refresh(TokenRequest),
    Persist,
    FetchAlbum(ApiRequest),
    Search(ApiRequest),
    Download { url: String, path: String },
    Stop,
}

/// `i` is the position of the first image of `images` with the wanted size.
pub open spec fn is_first_size_match(images: Seq<Image>, w: nat, h: nat, i: int) -> bool {
    &&& 0 <= i < images.len()
    &&& size_matches(images[i], w, h)
    &&& forall|j: int| 0 <= j < i ==> !size_matches(images[j], w, h)
}

/// The step failed with `e`, leaving the snapshot alone.
pub open spec fn failed_with(r: (Resolver, Action), config: Config, e: AppError) -> bool {
    &&& r.0.config == config
    &&& r.0.phase == Phase::Failed(e)
    &&& r.1 is Stop
}

/// Where strategy selection sends the run: an album fetch, a search, or a
/// parse failure.
pub open spec fn resolve_post(
    config: Config,
    ps: Seq<(Seq<char>, Seq<char>)>,
    phase: Phase,
    action: Action,
) -> bool {
    match spec_choose_strategy(ps) {
        SpecStrategy::ByAlbum(id) => {
            &&& phase is FetchingAlbum
            &&& action matches Action::FetchAlbum(req)
            &&& req.url@ == replaced("https://api.spotify.com/v1/albums/{id}"@, "{id}"@, id)
            &&& req.access_token@ == config.spotify.access_token->0@
        },
        SpecStrategy::ByName(a, t) => {
            &&& phase matches Phase::Searching { artist, title } && artist@ == a && title@ == t
            &&& action matches Action::Search(req)
            &&& req.url@ == "https://api.spotify.com/v1/search"@
            &&& req.access_token@ == config.spotify.access_token->0@
            &&& pairs_view(req.query@) == seq![("q"@, a + " - "@ + t), ("type"@, "track"@)]
        },
        SpecStrategy::Missing => {
            &&& phase matches Phase::Failed(e) && e is Parse
            &&& action is Stop
        },
    }
}

/// Where image selection sends the run: a download of the first image with
/// the configured size, a parse failure for a bad size string, or a
/// not-found failure listing the available sizes.
pub open spec fn select_post(config: Config, images: Seq<Image>, phase: Phase, action: Action) -> bool {
    match spec_parse_size(config.cover.preferred_size@) {
        None => {
            &&& phase matches Phase::Failed(e) && e is Parse
            &&& action is Stop
        },
        Some(wh) => {
            if exists|i: int| 0 <= i < images.len() && size_matches(images[i], wh.0, wh.1) {
                &&& phase is Downloading
                &&& action matches Action::Download { url, path }
                &&& exists|i: int|
                    is_first_size_match(images, wh.0, wh.1, i) && url@ == images[i].url@
                &&& path@ == config.cover.output_path@
            } else {
                &&& phase matches Phase::Failed(e)
                &&& e is NotFound
                &&& e.spec_message() == "preferred size is not available; available sizes: "@
                    + sizes_text_from(images, 0)
                &&& action is Stop
            }
        },
    }
}

/// Where a search reply sends the run: image selection on the first matching
/// track's album, or the failure the reply calls for.
pub open spec fn search_post(
    config: Config,
    artist: Seq<char>,
    title: Seq<char>,
    results: SearchResults,
    phase: Phase,
    action: Action,
) -> bool {
    match results.tracks {
        None => {
            &&& phase matches Phase::Failed(e) && e is CatalogApi
            &&& action is Stop
        },
        Some(sr) => {
            if sr.items@.len() == 0 {
                &&& phase matches Phase::Failed(e) && e is NotFound && e.spec_message()
                    == "No tracks found"@
                &&& action is Stop
            } else if exists|i: int|
                0 <= i < sr.items@.len() && track_matches(sr.items@[i], artist, title) {
                exists|i: int|
                    is_first_match(sr.items@, artist, title, i) && select_post(
                        config,
                        sr.items@[i].album.images@,
                        phase,
                        action,
                    )
            } else {
                &&& phase matches Phase::Failed(e) && e is NotFound && e.spec_message()
                    == "No matching tracks found"@
                &&& action is Stop
            }
        },
    }
}

fn resolve_phase(config: &Config, props: &TrackProperties) -> (r: (Phase, Action))
    requires
        config.spotify.spec_auth_configured(),
    ensures
        resolve_post(*config, props@, r.0, r.1),
{
    match choose_strategy(props) {
        Err(e) => (Phase::Failed(e), Action::Stop),
        Ok(LookupStrategy::ByAlbumId(id)) => {
            let req = match get_album(config, id.as_str()) {
                Ok(req) => req,
                Err(_) => unreached(),
            };
            (Phase::FetchingAlbum, Action::FetchAlbum(req))
        },
        Ok(LookupStrategy::ByName { artist, title }) => {
            let q = build_search_query(artist.as_str(), title.as_str());
            let req = match search(config, q.as_str(), "track") {
                Ok(req) => req,
                Err(_) => unreached(),
            };
            (Phase::Searching { artist, title }, Action::Search(req))
        },
    }
}

fn select_phase(config: &Config, images: &Vec<Image>) -> (r: (Phase, Action))
    ensures
        select_post(*config, images@, r.0, r.1),
{
    match parse_size(config.cover.preferred_size.as_str()) {
        Err(e) => (Phase::Failed(e), Action::Stop),
        Ok((w, h)) => match select_image(images, w, h) {
            Some(i) => {
                proof {
                    assert(is_first_size_match(images@, w as nat, h as nat, i as int));
                }
                (
                    Phase::Downloading,
                    Action::Download {
                        url: images[i].url.clone(),
                        path: config.cover.output_path.clone(),
                    },
                )
            },
            None => {
                let msg = String::from_str(
                    "preferred size is not available; available sizes: ",
                ).concat(available_sizes(images).as_str());
                (Phase::Failed(AppError::NotFound(msg)), Action::Stop)
            },
        },
    }
}

fn search_phase(config: &Config, artist: &str, title: &str, results: &SearchResults) -> (r: (
    Phase,
    Action,
))
    ensures
        search_post(*config, artist@, title@, *results, r.0, r.1),
{
    match lookup_images_by_name(results, artist, title) {
        Err(e) => (Phase::Failed(e), Action::Stop),
        Ok(imgs) => select_phase(config, imgs),
    }
}

/// One run's state: the configuration snapshot it owns and the phase it is
/// in. The snapshot changes only when a refresh response is folded in.
pub struct Resolver {
    pub config: Config,
    pub phase: Phase,
}

impl Resolver {
    /// The run owns an authenticated snapshot throughout.
    pub open spec fn wf(&self) -> bool {
        self.config.spotify.spec_auth_configured()
    }

    /// Start a run on an authenticated snapshot.
    pub fn new(config: Config) -> (r: Resolver)
        requires
            config.spotify.spec_auth_configured(),
        ensures
            r.wf(),
            r.phase is Start,
            r.config == config,
    {
        Resolver { config, phase: Phase::Start }
    }

    /// Advance the run by one step: fold the event the last action produced
    /// into the state, and say what to do next.
    ///
    /// A failed event fails the run with that error. A fresh run decides
    /// between refreshing the expired token and resolving right away; a
    /// refresh is followed by exactly one persist of the updated snapshot
    /// before the lookup proceeds; the lookup and the image selection send
    /// the run to the download, and a finished download ends it. An event
    /// that does not belong to the phase fails the run.
    pub fn step(self, event: Event) -> (r: (Resolver, Action))
        requires
            self.wf(),
        ensures
            r.0.wf(),
            match (self.phase, event) {
                (Phase::Start, Event::Begin { props, now }) => match props {
                    Err(e) => failed_with(r, self.config, e),
                    Ok(props) => {
                        &&& r.0.config == self.config
                        &&& if now >= self.config.spotify.expires_at->0 {
                            &&& r.0.phase matches Phase::Refreshing { props: p } && p == props
                            &&& r.1 matches Action::Refresh(req)
                            &&& req.url@ == "https://accounts.spotify.com/api/token"@
                            &&& req.client_id@ == self.config.spotify.client_id@
                            &&& req.client_secret@ == self.config.spotify.client_secret@
                            &&& pairs_view(req.params@) == seq![
                                ("refresh_token"@, self.config.spotify.refresh_token->0@),
                                ("grant_type"@, "refresh_token"@),
                            ]
                        } else {
                            resolve_post(self.config, props@, r.0.phase, r.1)
                        }
                    },
                },
                (Phase::Refreshing { props }, Event::Refreshed { response, now }) => match response {
                    Err(e) => failed_with(r, self.config, e),
                    Ok(resp) => {
                        &&& r.0.phase matches Phase::Persisting { props: p } && p == props
                        &&& r.1 is Persist
                        &&& r.0.config.spotify.access_token == Some(resp.access_token)
                        &&& r.0.config.spotify.expires_at matches Some(x) && x as int
                            == sat_add_i64(now as int, resp.expires_in as int)
                        &&& r.0.config.spotify.refresh_token == (match resp.refresh_token {
                            Some(rt) => Some(rt),
                            None => self.config.spotify.refresh_token,
                        })
                        &&& r.0.config.spotify.client_id == self.config.spotify.client_id
                        &&& r.0.config.spotify.client_secret == self.config.spotify.client_secret
                        &&& r.0.config.mpd == self.config.mpd
                        &&& r.0.config.cover == self.config.cover
                    },
                },
                (Phase::Persisting { props }, Event::Persisted { result }) => match result {
                    Err(e) => failed_with(r, self.config, e),
                    Ok(_) => r.0.config == self.config && resolve_post(
                        self.config,
                        props@,
                        r.0.phase,
                        r.1,
                    ),
                },
                (Phase::FetchingAlbum, Event::AlbumFetched { album }) => match album {
                    Err(e) => failed_with(r, self.config, e),
                    Ok(album) => r.0.config == self.config && select_post(
                        self.config,
                        album.images@,
                        r.0.phase,
                        r.1,
                    ),
                },
                (Phase::Searching { artist, title }, Event::SearchReturned { results }) => match results {
                    Err(e) => failed_with(r, self.config, e),
                    Ok(results) => r.0.config == self.config && search_post(
                        self.config,
                        artist@,
                        title@,
                        results,
                        r.0.phase,
                        r.1,
                    ),
                },
                (Phase::Downloading, Event::Downloaded { result }) => match result {
                    Err(e) => failed_with(r, self.config, e),
                    Ok(_) => r.0.config == self.config && r.0.phase is Done && r.1 is Stop,
                },
                (Phase::Failed(e), _) => failed_with(r, self.config, e),
                (Phase::Done, _) => r.0.config == self.config && r.0.phase is Done && r.1 is Stop,
                _ => {
                    &&& r.0.config == self.config
                    &&& r.0.phase matches Phase::Failed(e) && e is Protocol
                    &&& r.1 is Stop
                },
            },
    {
        let Resolver { config, phase } = self;
        match (phase, event) {
            (Phase::Start, Event::Begin { props, now }) => match props {
                Err(e) => (Resolver { config, phase: Phase::Failed(e) }, Action::Stop),
                Ok(props) => {
                    let expires_at = match &config.spotify.expires_at {
                        Some(x) => *x,
                        None => unreached(),
                    };
                    if is_expired(expires_at, now) {
                        let req = match refresh_token(&config) {
                            Ok(req) => req,
                            Err(_) => unreached(),
                        };
                        (
                            Resolver { config, phase: Phase::Refreshing { props } },
                            Action::Refresh(req),
                        )
                    } else {
                        let (ph, act) = resolve_phase(&config, &props);
                        (Resolver { config, phase: ph }, act)
                    }
                },
            },
            (Phase::Refreshing { props }, Event::Refreshed { response, now }) => match response {
                Err(e) => (Resolver { config, phase: Phase::Failed(e) }, Action::Stop),
                Ok(resp) => {
                    let mut config = config;
                    update_token(&mut config, &resp, now);
                    (Resolver { config, phase: Phase::Persisting { props } }, Action::Persist)
                },
            },
            (Phase::Persisting { props }, Event::Persisted { result }) => match result {
                Err(e) => (Resolver { config, phase: Phase::Failed(e) }, Action::Stop),
                Ok(_) => {
                    let (ph, act) = resolve_phase(&config, &props);
                    (Resolver { config, phase: ph }, act)
                },
            },
            (Phase::FetchingAlbum, Event::AlbumFetched { album }) => match album {
                Err(e) => (Resolver { config, phase: Phase::Failed(e) }, Action::Stop),
                Ok(album) => {
                    let (ph, act) = select_phase(&config, lookup_images_by_album_id(&album));
                    (Resolver { config, phase: ph }, act)
                },
            },
            (Phase::Searching { artist, title }, Event::SearchReturned { results }) => match results {
                Err(e) => (Resolver { config, phase: Phase::Failed(e) }, Action::Stop),
                Ok(results) => {
                    let (ph, act) = search_phase(&config, artist.as_str(), title.as_str(), &results);
                    (Resolver { config, phase: ph }, act)
                },
            },
            (Phase::Downloading, Event::Downloaded { result }) => match result {
                Err(e) => (Resolver { config, phase: Phase::Failed(e) }, Action::Stop),
                Ok(_) => (Resolver { config, phase: Phase::Done }, Action::Stop),
            },
            (Phase::Failed(e), _) => (Resolver { config, phase: Phase::Failed(e) }, Action::Stop),
            (Phase::Done, _) => (Resolver { config, phase: Phase::Done }, Action::Stop),
            (_, _) => (
                Resolver {
                    config,
                    phase: Phase::Failed(
                        AppError::Protocol(String::from_str("event does not belong to this phase")),
                    ),
                },
                Action::Stop,
            ),
        }
    }
}

} // verus!
