//! Requests accepted by the dispatcher, and the remote operations it plans.
//!
//! A [`ClientRequest`] is immutable once constructed and consumed exactly
//! once by the dispatcher. A [`RemoteAction`] or [`FetchKind`] names one
//! remote operation the caller must perform against the streaming service;
//! the typed result of a fetch is handed back to the matching commit
//! function of this crate.

use vstd::prelude::*;
use crate::model::{Category, ContextId, Item, ItemId, PlayOffset, Playback, RepeatState, SeedItem};

verus! {

/// A player request, dispatched against the resolved target device.
#[derive(Debug, PartialEq)]
pub enum PlayerRequest {
    NextTrack,
    PreviousTrack,
    ResumePause,
    SeekTrack(u32),
    Repeat,
    Shuffle,
    Volume(u8),
    StartPlayback(Playback),
    TransferPlayback(String, bool),
}

/// A request accepted by the dispatcher's single entry point.
#[derive(Debug, PartialEq)]
pub enum ClientRequest {
    ConnectDevice(Option<String>),
    GetBrowseCategories,
    GetBrowseCategoryPlaylists(Category),
    GetLyric { track: String, artists: String },
    GetCurrentUser,
    Player(PlayerRequest),
    GetCurrentPlayback,
    GetDevices,
    GetUserPlaylists,
    GetUserFollowedArtists,
    GetUserSavedAlbums,
    GetUserTopTracks,
    GetUserSavedTracks,
    GetUserRecentlyPlayedTracks,
    GetContext(ContextId),
    Search(String),
    GetRecommendations(SeedItem),
    AddTrackToQueue(String),
    AddTrackToPlaylist(String, String),
    DeleteTrackFromPlaylist(String, String),
    AddToLibrary(Item),
    DeleteFromLibrary(ItemId),
}

/// One mutating remote operation. The caller performs it and reports
/// success or the typed failure; on failure the request's handling aborts.
#[derive(Debug, PartialEq)]
pub enum RemoteAction {
    TransferPlayback { device_id: String, force_play: bool },
    NextTrack { device_id: Option<String> },
    PreviousTrack { device_id: Option<String> },
    ResumePlayback { device_id: Option<String> },
    PausePlayback { device_id: Option<String> },
    SeekTrack { position_ms: u32, device_id: Option<String> },
    SetRepeat { state: RepeatState, device_id: Option<String> },
    SetShuffle { state: bool, device_id: Option<String> },
    SetVolume { volume: u8, device_id: Option<String> },
    StartContextPlayback { context_id: ContextId, offset: Option<PlayOffset>, device_id: Option<String> },
    StartUrisPlayback { track_ids: Vec<String>, offset: Option<PlayOffset>, device_id: Option<String> },
    AddItemToQueue { track_id: String },
    PlaylistRemoveAllOccurrences { playlist_id: String, track_id: String },
    PlaylistAddItem { playlist_id: String, track_id: String },
    CheckSavedTracks { track_id: String },
    CheckSavedAlbums { album_id: String },
    CheckFollowedArtists { artist_id: String },
    CheckFollowedPlaylist { playlist_id: String, user_id: String },
    SaveTrack { track_id: String },
    SaveAlbum { album_id: String },
    FollowArtist { artist_id: String },
    FollowPlaylist { playlist_id: String },
    RemoveSavedTrack { track_id: String },
    RemoveSavedAlbum { album_id: String },
    UnfollowArtist { artist_id: String },
    UnfollowPlaylist { playlist_id: String },
}

/// One read-only remote fetch. The caller performs it and hands the typed
/// result to the matching commit function.
#[derive(Debug, PartialEq)]
pub enum FetchKind {
    BrowseCategories,
    CategoryPlaylists { category_id: String },
    Lyric { query: String },
    CurrentUser,
    Devices,
    UserPlaylists,
    FollowedArtists,
    SavedAlbums,
    TopTracks,
    SavedTracks,
    RecentlyPlayedTracks,
    Context { id: ContextId },
    Search { query: String },
    Recommendations { seed: SeedItem },
    CurrentPlayback,
}

} // verus!
