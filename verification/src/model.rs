//! Core data entities: tracks, albums, artists, playlists, playback
//! snapshots, and the error taxonomy of the request dispatcher.

use vstd::prelude::*;
use vstd::string::StringExecFns;

verus! {

/// An artist, reduced to what the client logic reads.
#[derive(Debug, PartialEq)]
pub struct Artist {
    pub id: String,
    pub name: String,
}

impl Clone for Artist {
    /// An exact copy.
    fn clone(&self) -> (r: Self)
        ensures
            r == *self,
    {
        Artist { id: self.id.clone(), name: self.name.clone() }
    }
}

/// Copies a list of artists exactly.
pub fn clone_artists(artists: &Vec<Artist>) -> (r: Vec<Artist>)
    ensures
        r@ == artists@,
{
    let mut r: Vec<Artist> = Vec::new();
    let n = artists.len();
    let mut i: usize = 0;
    while i < n
        invariant
            i <= n,
            n == artists@.len(),
            r@ == artists@.take(i as int),
        decreases n - i,
    {
        r.push(artists[i].clone());
        proof {
            assert(r@ =~= artists@.take(i as int + 1));
        }
        i += 1;
    }
    proof {
        assert(artists@.take(n as int) =~= artists@);
    }
    r
}

/// An album. The release date is held as a day number (for example
/// `yyyymmdd` written in decimal) so that the chronological order used by the
/// discography cleanup is a total order on integers.
#[derive(Debug, PartialEq)]
pub struct Album {
    pub id: String,
    pub name: String,
    pub release_date: u64,
    pub artists: Vec<Artist>,
}

/// Two albums that agree on every field (their artist lists as sequences):
/// how a copied album relates to its source.
pub open spec fn album_like(a: Album, b: Album) -> bool {
    &&& a.id == b.id
    &&& a.name == b.name
    &&& a.release_date == b.release_date
    &&& a.artists@ == b.artists@
}

impl Clone for Album {
    /// A field-exact copy.
    fn clone(&self) -> (r: Self)
        ensures
            album_like(r, *self),
    {
        Album {
            id: self.id.clone(),
            name: self.name.clone(),
            release_date: self.release_date,
            artists: clone_artists(&self.artists),
        }
    }
}

/// A track.
#[derive(Debug, PartialEq)]
pub struct Track {
    pub id: String,
    pub name: String,
    pub artists: Vec<Artist>,
    pub album: Option<Album>,
    pub duration_ms: u64,
}

/// A playlist, with the owner's id kept as a plain value so that the
/// "modifiable by the current user" rule can be checked locally.
#[derive(Debug, PartialEq)]
pub struct Playlist {
    pub id: String,
    pub name: String,
    pub owner_name: String,
    pub owner_id: String,
    pub collaborative: bool,
}

/// A browse category.
#[derive(Debug, PartialEq)]
pub struct Category {
    pub id: String,
    pub name: String,
}

/// A playback device that carries an id (devices without one cannot be
/// addressed and are filtered out on arrival).
#[derive(Debug, PartialEq)]
pub struct Device {
    pub id: String,
    pub name: String,
}

/// A device exactly as the remote service reports it: the id may be absent.
#[derive(Debug, PartialEq)]
pub struct RawDevice {
    pub id: Option<String>,
    pub name: String,
}

/// The current user, reduced to what the client logic reads.
#[derive(Debug, PartialEq)]
pub struct UserInfo {
    pub id: String,
}

/// The outcome of a lyric lookup.
#[derive(Debug, PartialEq)]
pub enum LyricResult {
    Found { track: String, artists: String, lyric: String },
    NotFound,
}

/// The repeat mode of the player.
#[derive(Debug, Clone, Copy, PartialEq, Eq, Structural)]
pub enum RepeatState {
    Off,
    Track,
    Context,
}

/// Advances the repeat mode one step along the fixed cycle
/// Off -> Track -> Context -> Off.
pub fn cycle_repeat(state: RepeatState) -> (r: RepeatState)
    ensures
        r == cycle_repeat_spec(state),
{
    match state {
        RepeatState::Off => RepeatState::Track,
        RepeatState::Track => RepeatState::Context,
        RepeatState::Context => RepeatState::Off,
    }
}

/// The repeat-mode cycle, as a specification.
pub open spec fn cycle_repeat_spec(state: RepeatState) -> RepeatState {
    match state {
        RepeatState::Off => RepeatState::Track,
        RepeatState::Track => RepeatState::Context,
        RepeatState::Context => RepeatState::Off,
    }
}

/// Cycling the repeat mode three times returns to the starting mode, for
/// every starting mode: the cycle has period three.
pub proof fn lemma_repeat_cycle_period(state: RepeatState)
    ensures
        cycle_repeat_spec(cycle_repeat_spec(cycle_repeat_spec(state))) == state,
{
}

/// The minimal playback snapshot used to decide player-action targets.
#[derive(Debug, PartialEq)]
pub struct SimplifiedPlayback {
    pub device_id: Option<String>,
    pub is_playing: bool,
    pub repeat_state: RepeatState,
    pub shuffle_state: bool,
}

/// The playback snapshot kept in the player region of the shared state.
#[derive(Debug, PartialEq)]
pub struct PlaybackSnapshot {
    pub device_id: Option<String>,
    pub is_playing: bool,
    pub repeat_state: RepeatState,
    pub shuffle_state: bool,
    pub track_id: Option<String>,
    pub album_cover_url: Option<String>,
    pub progress_ms: u64,
}

/// Identifies a context (the aggregated metadata and track listing of a
/// playlist, album, or artist).
#[derive(Debug, PartialEq)]
pub enum ContextId {
    Playlist(String),
    Album(String),
    Artist(String),
}

impl ContextId {
    /// The canonical URI of this context, used as its cache fingerprint.
    pub open spec fn uri_spec(&self) -> Seq<char> {
        match self {
            ContextId::Playlist(id) => "spotify:playlist:"@ + id@,
            ContextId::Album(id) => "spotify:album:"@ + id@,
            ContextId::Artist(id) => "spotify:artist:"@ + id@,
        }
    }

    /// Builds the canonical URI of this context.
    pub fn uri(&self) -> (r: String)
        ensures
            r@ == self.uri_spec(),
    {
        match self {
            ContextId::Playlist(id) => String::from_str("spotify:playlist:").concat(id.as_str()),
            ContextId::Album(id) => String::from_str("spotify:album:").concat(id.as_str()),
            ContextId::Artist(id) => String::from_str("spotify:artist:").concat(id.as_str()),
        }
    }
}

/// A context: built once per remote fetch and replaced wholesale on refresh.
#[derive(Debug, PartialEq)]
pub enum Context {
    Playlist { playlist: Playlist, tracks: Vec<Track> },
    Album { album: Album, tracks: Vec<Track> },
    Artist { artist: Artist, top_tracks: Vec<Track>, albums: Vec<Album>, related_artists: Vec<Artist> },
}

/// Whether a context's variant matches the kind of a context id: a playlist
/// id names a playlist context, an album id an album context, an artist id
/// an artist context.
pub open spec fn context_matches_id(context: Context, id: ContextId) -> bool {
    match id {
        ContextId::Playlist(_) => context is Playlist,
        ContextId::Album(_) => context is Album,
        ContextId::Artist(_) => context is Artist,
    }
}

/// The four result lists of a search, one per category.
#[derive(Debug, PartialEq)]
pub struct SearchResults {
    pub tracks: Vec<Track>,
    pub artists: Vec<Artist>,
    pub albums: Vec<Album>,
    pub playlists: Vec<Playlist>,
}

/// An item to add to the current user's library.
#[derive(Debug, PartialEq)]
pub enum Item {
    Track(Track),
    Album(Album),
    Artist(Artist),
    Playlist(Playlist),
}

/// The id of an item to delete from the current user's library.
#[derive(Debug, PartialEq)]
pub enum ItemId {
    Track(String),
    Album(String),
    Artist(String),
    Playlist(String),
}

/// The position at which a playback starts.
#[derive(Debug, PartialEq)]
pub enum PlayOffset {
    Position(u32),
    Uri(String),
}

/// What to play: a whole context, or an explicit list of track URIs.
#[derive(Debug, PartialEq)]
pub enum Playback {
    Context(ContextId, Option<PlayOffset>),
    URIs(Vec<String>, Option<PlayOffset>),
}

/// A recommendation seed.
#[derive(Debug, PartialEq)]
pub enum SeedItem {
    Artist(Artist),
    Track(Track),
}

impl SeedItem {
    /// The canonical URI of the seed, used in the recommendation fingerprint.
    pub open spec fn uri_spec(&self) -> Seq<char> {
        match self {
            SeedItem::Artist(artist) => "spotify:artist:"@ + artist.id@,
            SeedItem::Track(track) => "spotify:track:"@ + track.id@,
        }
    }

    /// Builds the canonical URI of the seed.
    pub fn uri(&self) -> (r: String)
        ensures
            r@ == self.uri_spec(),
    {
        match self {
            SeedItem::Artist(artist) => String::from_str("spotify:artist:").concat(artist.id.as_str()),
            SeedItem::Track(track) => String::from_str("spotify:track:").concat(track.id.as_str()),
        }
    }
}

/// A typed failure of a remote call, as reported by the transport boundary.
#[derive(Debug, Clone, Copy, PartialEq, Eq, Structural)]
pub enum RemoteError {
    Unauthorized,
    NotFound,
    RateLimited,
    Transport,
    MalformedResponse,
}

/// A failure of the request dispatcher.
#[derive(Debug, Clone, Copy, PartialEq, Eq, Structural)]
pub enum AppError {
    /// A player action was requested while no playback snapshot is present.
    NoActivePlayback,
    /// A search sub-call returned a result of the wrong category: an
    /// unrecoverable contract violation of the remote facade.
    UnexpectedSearchResult,
    /// The bytes fetched for a cover image could not be decoded.
    InvalidImageData,
    /// A remote call failed; the failure is surfaced as the request's result.
    Remote(RemoteError),
}

} // verus!
