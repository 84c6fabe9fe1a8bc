//! The request dispatcher: one request in, one plan out.
//!
//! [`handle_request`] is the single entry point the front end feeds. It
//! consults the shared state — returning early, with no remote call, when a
//! fingerprint is already cached — and plans the remote work of the request.
//! The caller performs the planned fetches and actions (aborting the request
//! on the first remote failure) and hands each typed result to the matching
//! commit function; after any player-mutating plan it unconditionally
//! schedules a [`crate::retry::RefreshPlan`].

use vstd::prelude::*;
use vstd::string::StringExecFns;
use crate::cache::cache_has;
use crate::library::{
    add_track_to_playlist_actions, delete_from_library, library_add_check, library_add_check_spec,
    library_delete_action_spec,
};
use crate::model::{AppError, Item, ItemId};
use crate::player::{handle_player_request, player_plan_spec};
use crate::request::{ClientRequest, FetchKind, RemoteAction};
use crate::retry::{ConnectSession, CONNECT_MAX_ATTEMPTS};
use crate::search::recommendations_fingerprint;
use crate::state::{simplified_spec, AppData, PlayerState};

verus! {

/// The plan of one request: what the caller performs against the remote
/// service, and which commit function the results feed.
#[derive(Debug)]
pub enum DispatchPlan {
    /// Nothing to perform: the result is already cached, or the request has
    /// no work (a playlist follow with no known user).
    Done,
    /// Perform this fetch, then hand its typed result to the matching
    /// commit function.
    Fetch(FetchKind),
    /// Perform these player actions in order, aborting on the first
    /// failure, then unconditionally schedule a playback refresh plan.
    PlayerActions(Vec<RemoteAction>),
    /// Drive this connection session: sleep, ask it for the attempt's step,
    /// discover and transfer, report the outcome, repeat. A success triggers
    /// one playback refresh; exhausting every attempt is not a failure.
    ConnectDevice(ConnectSession),
    /// Perform this single queue mutation; nothing is committed locally.
    QueueAdd(RemoteAction),
    /// Perform the removal, then the add; when both succeeded, call the
    /// playlist-add commit to evict the playlist's context cache entry.
    PlaylistAdd { remove: RemoteAction, add: RemoteAction, playlist_id: String },
    /// Perform the removal; when it succeeded, call the playlist-delete
    /// commit to patch the cached track list.
    PlaylistDelete { remove: RemoteAction, playlist_id: String, track_id: String },
    /// Perform the presence check, decide with the check's answer whether
    /// the mutating call is issued, and commit locally only after it
    /// succeeded.
    LibraryAdd { check: RemoteAction, item: Item },
    /// Perform the delete action; when it succeeded, call the
    /// library-delete commit to remove the item from the local lists.
    LibraryDelete { action: RemoteAction, id: ItemId },
}

/// Plans the handling of one request against the current shared state.
///
/// Read-through requests return [`DispatchPlan::Done`] when their
/// fingerprint is already cached, with no remote call; otherwise they plan
/// exactly one fetch under that fingerprint. Player requests fail as
/// [`AppError::NoActivePlayback`] when no playback snapshot is present,
/// except the playback transfer; mutating requests plan their remote calls
/// in order. No other error is possible at planning time.
pub fn handle_request(request: ClientRequest, data: &AppData, player: &PlayerState) -> (r: Result<
    DispatchPlan,
    AppError,
>)
    ensures
        ({
            match request {
                ClientRequest::ConnectDevice(id) => r matches Ok(
                    DispatchPlan::ConnectDevice(session),
                ) && session.attempts_spec() == CONNECT_MAX_ATTEMPTS && session.explicit_spec()
                    == id,
                ClientRequest::GetBrowseCategories => r == Ok::<DispatchPlan, AppError>(
                    DispatchPlan::Fetch(FetchKind::BrowseCategories),
                ),
                ClientRequest::GetBrowseCategoryPlaylists(category) => r matches Ok(
                    DispatchPlan::Fetch(FetchKind::CategoryPlaylists { category_id }),
                ) && category_id == category.id,
                ClientRequest::GetLyric { track, artists } => {
                    let query = track@ + " "@ + artists@;
                    if cache_has(data.caches.lyrics@, query) {
                        r == Ok::<DispatchPlan, AppError>(DispatchPlan::Done)
                    } else {
                        r matches Ok(DispatchPlan::Fetch(FetchKind::Lyric { query: q }))
                            && q@ == query
                    }
                },
                ClientRequest::GetCurrentUser => r == Ok::<DispatchPlan, AppError>(
                    DispatchPlan::Fetch(FetchKind::CurrentUser),
                ),
                ClientRequest::Player(preq) => {
                    let plan = player_plan_spec(preq, simplified_spec(player.playback));
                    &&& (r is Err <==> plan is Err)
                    &&& (r is Err ==> r->Err_0 == plan->Err_0)
                    &&& (r is Ok ==> (r->Ok_0 matches DispatchPlan::PlayerActions(v) && v@
                        == plan->Ok_0))
                },
                ClientRequest::GetCurrentPlayback => r == Ok::<DispatchPlan, AppError>(
                    DispatchPlan::Fetch(FetchKind::CurrentPlayback),
                ),
                ClientRequest::GetDevices => r == Ok::<DispatchPlan, AppError>(
                    DispatchPlan::Fetch(FetchKind::Devices),
                ),
                ClientRequest::GetUserPlaylists => r == Ok::<DispatchPlan, AppError>(
                    DispatchPlan::Fetch(FetchKind::UserPlaylists),
                ),
                ClientRequest::GetUserFollowedArtists => r == Ok::<DispatchPlan, AppError>(
                    DispatchPlan::Fetch(FetchKind::FollowedArtists),
                ),
                ClientRequest::GetUserSavedAlbums => r == Ok::<DispatchPlan, AppError>(
                    DispatchPlan::Fetch(FetchKind::SavedAlbums),
                ),
                ClientRequest::GetUserTopTracks => {
                    if cache_has(data.caches.tracks@, "top-tracks"@) {
                        r == Ok::<DispatchPlan, AppError>(DispatchPlan::Done)
                    } else {
                        r == Ok::<DispatchPlan, AppError>(
                            DispatchPlan::Fetch(FetchKind::TopTracks),
                        )
                    }
                },
                ClientRequest::GetUserSavedTracks => r == Ok::<DispatchPlan, AppError>(
                    DispatchPlan::Fetch(FetchKind::SavedTracks),
                ),
                ClientRequest::GetUserRecentlyPlayedTracks => {
                    if cache_has(data.caches.tracks@, "recently-played-tracks"@) {
                        r == Ok::<DispatchPlan, AppError>(DispatchPlan::Done)
                    } else {
                        r == Ok::<DispatchPlan, AppError>(
                            DispatchPlan::Fetch(FetchKind::RecentlyPlayedTracks),
                        )
                    }
                },
                ClientRequest::GetContext(context_id) => {
                    if cache_has(data.caches.context@, context_id.uri_spec()) {
                        r == Ok::<DispatchPlan, AppError>(DispatchPlan::Done)
                    } else {
                        r matches Ok(DispatchPlan::Fetch(FetchKind::Context { id })) && id
                            == context_id
                    }
                },
                ClientRequest::Search(query) => {
                    if cache_has(data.caches.search@, query@) {
                        r == Ok::<DispatchPlan, AppError>(DispatchPlan::Done)
                    } else {
                        r matches Ok(DispatchPlan::Fetch(FetchKind::Search { query: q })) && q
                            == query
                    }
                },
                ClientRequest::GetRecommendations(seed) => {
                    if cache_has(data.caches.tracks@, "recommendations::"@ + seed.uri_spec()) {
                        r == Ok::<DispatchPlan, AppError>(DispatchPlan::Done)
                    } else {
                        r matches Ok(DispatchPlan::Fetch(FetchKind::Recommendations { seed: s }))
                            && s == seed
                    }
                },
                ClientRequest::AddTrackToQueue(track_id) => r matches Ok(
                    DispatchPlan::QueueAdd(action),
                ) && action == (RemoteAction::AddItemToQueue { track_id }),
                ClientRequest::AddTrackToPlaylist(playlist_id, track_id) => r matches Ok(
                    DispatchPlan::PlaylistAdd { remove, add, playlist_id: p },
                ) && remove == (RemoteAction::PlaylistRemoveAllOccurrences {
                    playlist_id,
                    track_id,
                }) && add == (RemoteAction::PlaylistAddItem { playlist_id, track_id }) && p
                    == playlist_id,
                ClientRequest::DeleteTrackFromPlaylist(playlist_id, track_id) => r matches Ok(
                    DispatchPlan::PlaylistDelete { remove, playlist_id: p, track_id: t },
                ) && remove == (RemoteAction::PlaylistRemoveAllOccurrences {
                    playlist_id,
                    track_id,
                }) && p == playlist_id && t == track_id,
                ClientRequest::AddToLibrary(item) => {
                    match library_add_check_spec(item, data.user_data.user) {
                        Some(check_action) => r matches Ok(
                            DispatchPlan::LibraryAdd { check, item: i },
                        ) && check == check_action && i == item,
                        None => r == Ok::<DispatchPlan, AppError>(DispatchPlan::Done),
                    }
                },
                ClientRequest::DeleteFromLibrary(item_id) => r matches Ok(
                    DispatchPlan::LibraryDelete { action, id },
                ) && action == library_delete_action_spec(item_id) && id == item_id,
            }
        }),
{
    match request {
        ClientRequest::ConnectDevice(id) => Ok(
            DispatchPlan::ConnectDevice(ConnectSession::new(id)),
        ),
        ClientRequest::GetBrowseCategories => Ok(
            DispatchPlan::Fetch(FetchKind::BrowseCategories),
        ),
        ClientRequest::GetBrowseCategoryPlaylists(category) => Ok(
            DispatchPlan::Fetch(FetchKind::CategoryPlaylists { category_id: category.id }),
        ),
        ClientRequest::GetLyric { track, artists } => {
            let query = lyric_query(&track, &artists);
            if data.caches.lyrics.contains(query.as_str()) {
                Ok(DispatchPlan::Done)
            } else {
                Ok(DispatchPlan::Fetch(FetchKind::Lyric { query }))
            }
        },
        ClientRequest::GetCurrentUser => Ok(DispatchPlan::Fetch(FetchKind::CurrentUser)),
        ClientRequest::Player(preq) => {
            let playback = player.simplified_playback();
            match handle_player_request(preq, &playback) {
                Ok(actions) => Ok(DispatchPlan::PlayerActions(actions)),
                Err(e) => Err(e),
            }
        },
        ClientRequest::GetCurrentPlayback => Ok(DispatchPlan::Fetch(FetchKind::CurrentPlayback)),
        ClientRequest::GetDevices => Ok(DispatchPlan::Fetch(FetchKind::Devices)),
        ClientRequest::GetUserPlaylists => Ok(DispatchPlan::Fetch(FetchKind::UserPlaylists)),
        ClientRequest::GetUserFollowedArtists => Ok(
            DispatchPlan::Fetch(FetchKind::FollowedArtists),
        ),
        ClientRequest::GetUserSavedAlbums => Ok(DispatchPlan::Fetch(FetchKind::SavedAlbums)),
        ClientRequest::GetUserTopTracks => {
            if data.caches.tracks.contains("top-tracks") {
                Ok(DispatchPlan::Done)
            } else {
                Ok(DispatchPlan::Fetch(FetchKind::TopTracks))
            }
        },
        ClientRequest::GetUserSavedTracks => Ok(DispatchPlan::Fetch(FetchKind::SavedTracks)),
        ClientRequest::GetUserRecentlyPlayedTracks => {
            if data.caches.tracks.contains("recently-played-tracks") {
                Ok(DispatchPlan::Done)
            } else {
                Ok(DispatchPlan::Fetch(FetchKind::RecentlyPlayedTracks))
            }
        },
        ClientRequest::GetContext(context_id) => {
            let uri = context_id.uri();
            if data.caches.context.contains(uri.as_str()) {
                Ok(DispatchPlan::Done)
            } else {
                Ok(DispatchPlan::Fetch(FetchKind::Context { id: context_id }))
            }
        },
        ClientRequest::Search(query) => {
            if data.caches.search.contains(query.as_str()) {
                Ok(DispatchPlan::Done)
            } else {
                Ok(DispatchPlan::Fetch(FetchKind::Search { query }))
            }
        },
        ClientRequest::GetRecommendations(seed) => {
            let fingerprint = recommendations_fingerprint(&seed);
            if data.caches.tracks.contains(fingerprint.as_str()) {
                Ok(DispatchPlan::Done)
            } else {
                Ok(DispatchPlan::Fetch(FetchKind::Recommendations { seed }))
            }
        },
        ClientRequest::AddTrackToQueue(track_id) => Ok(
            DispatchPlan::QueueAdd(RemoteAction::AddItemToQueue { track_id }),
        ),
        ClientRequest::AddTrackToPlaylist(playlist_id, track_id) => {
            let (remove, add) = add_track_to_playlist_actions(&playlist_id, &track_id);
            Ok(DispatchPlan::PlaylistAdd { remove, add, playlist_id })
        },
        ClientRequest::DeleteTrackFromPlaylist(playlist_id, track_id) => {
            let remove = RemoteAction::PlaylistRemoveAllOccurrences {
                playlist_id: playlist_id.clone(),
                track_id: track_id.clone(),
            };
            Ok(DispatchPlan::PlaylistDelete { remove, playlist_id, track_id })
        },
        ClientRequest::AddToLibrary(item) => {
            match library_add_check(&item, &data.user_data.user) {
                Some(check) => Ok(DispatchPlan::LibraryAdd { check, item }),
                None => Ok(DispatchPlan::Done),
            }
        },
        ClientRequest::DeleteFromLibrary(id) => {
            let action = delete_from_library(&id);
            Ok(DispatchPlan::LibraryDelete { action, id })
        },
    }
}

/// The fingerprint under which a lyric lookup is cached: the track's name
/// and its artists, separated by one space.
pub fn lyric_query(track: &String, artists: &String) -> (r: String)
    ensures
        r@ == track@ + " "@ + artists@,
{
    track.clone().concat(" ").concat(artists.as_str())
}

} // verus!
