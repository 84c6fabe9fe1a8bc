use spotify_player::dispatch::{handle_request, lyric_query, DispatchPlan};
use spotify_player::model::{
    AppError, Category, ContextId, Item, ItemId, Playlist, RepeatState, SeedItem,
    SimplifiedPlayback, Track, cycle_repeat,
};
use spotify_player::player::handle_player_request;
use spotify_player::request::{ClientRequest, FetchKind, PlayerRequest, RemoteAction};
use spotify_player::state::{AppData, PlayerState};

fn sample_playback(is_playing: bool) -> SimplifiedPlayback {
    SimplifiedPlayback {
        device_id: Some(String::from("device-1")),
        is_playing,
        repeat_state: RepeatState::Off,
        shuffle_state: false,
    }
}

fn sample_track(id: &str, name: &str) -> Track {
    Track {
        id: String::from(id),
        name: String::from(name),
        artists: vec![],
        album: None,
        duration_ms: 1000,
    }
}

#[test]
fn repeat_cycle_has_period_three() {
    for start in [RepeatState::Off, RepeatState::Track, RepeatState::Context] {
        assert_eq!(cycle_repeat(cycle_repeat(cycle_repeat(start))), start);
    }
    assert_eq!(cycle_repeat(RepeatState::Off), RepeatState::Track);
    assert_eq!(cycle_repeat(RepeatState::Track), RepeatState::Context);
    assert_eq!(cycle_repeat(RepeatState::Context), RepeatState::Off);
}

#[test]
fn player_action_without_playback_is_a_precondition_error() {
    let r = handle_player_request(PlayerRequest::NextTrack, &None);
    assert_eq!(r, Err(AppError::NoActivePlayback));
    let r = handle_player_request(PlayerRequest::Shuffle, &None);
    assert_eq!(r, Err(AppError::NoActivePlayback));
}

#[test]
fn transfer_playback_without_playback_is_exactly_one_action() {
    let r = handle_player_request(
        PlayerRequest::TransferPlayback(String::from("device-9"), true),
        &None,
    );
    let actions = r.expect("transfer must not need an active playback");
    assert_eq!(
        actions,
        vec![RemoteAction::TransferPlayback { device_id: String::from("device-9"), force_play: true }]
    );
}

#[test]
fn resume_pause_toggles_on_playing_state() {
    let playing = Some(sample_playback(true));
    let actions = handle_player_request(PlayerRequest::ResumePause, &playing).unwrap();
    assert_eq!(
        actions,
        vec![RemoteAction::PausePlayback { device_id: Some(String::from("device-1")) }]
    );
    let paused = Some(sample_playback(false));
    let actions = handle_player_request(PlayerRequest::ResumePause, &paused).unwrap();
    assert_eq!(
        actions,
        vec![RemoteAction::ResumePlayback { device_id: Some(String::from("device-1")) }]
    );
}

#[test]
fn repeat_action_advances_one_step() {
    let playback = Some(sample_playback(true));
    let actions = handle_player_request(PlayerRequest::Repeat, &playback).unwrap();
    assert_eq!(
        actions,
        vec![RemoteAction::SetRepeat {
            state: RepeatState::Track,
            device_id: Some(String::from("device-1")),
        }]
    );
}

#[test]
fn start_playback_reapplies_the_shuffle_flag() {
    let mut pb = sample_playback(true);
    pb.shuffle_state = true;
    let actions = handle_player_request(
        PlayerRequest::StartPlayback(spotify_player::model::Playback::Context(
            ContextId::Album(String::from("al1")),
            None,
        )),
        &Some(pb),
    )
    .unwrap();
    assert_eq!(actions.len(), 2);
    assert_eq!(
        actions[1],
        RemoteAction::SetShuffle { state: true, device_id: Some(String::from("device-1")) }
    );
}

#[test]
fn dispatch_fails_player_action_without_playback_and_plans_nothing() {
    let data = AppData::new();
    let player = PlayerState::new();
    let r = handle_request(ClientRequest::Player(PlayerRequest::NextTrack), &data, &player);
    assert!(matches!(r, Err(AppError::NoActivePlayback)));
}

#[test]
fn dispatch_context_is_read_through() {
    let mut data = AppData::new();
    let player = PlayerState::new();
    let request = || ClientRequest::GetContext(ContextId::Playlist(String::from("p1")));
    match handle_request(request(), &data, &player) {
        Ok(DispatchPlan::Fetch(FetchKind::Context { id })) => {
            assert_eq!(id, ContextId::Playlist(String::from("p1")));
        }
        other => panic!("expected a context fetch, got {:?}", other),
    }
    let context = spotify_player::contexts::playlist_context(
        Playlist {
            id: String::from("p1"),
            name: String::from("mix"),
            owner_name: String::from("me"),
            owner_id: String::from("u1"),
            collaborative: false,
        },
        vec![],
    );
    spotify_player::commit::store_context(&mut data, &ContextId::Playlist(String::from("p1")), context);
    match handle_request(request(), &data, &player) {
        Ok(DispatchPlan::Done) => {}
        other => panic!("expected an early return on the cached context, got {:?}", other),
    }
}

#[test]
fn dispatch_search_uses_the_query_as_fingerprint() {
    let mut data = AppData::new();
    let player = PlayerState::new();
    match handle_request(ClientRequest::Search(String::from("hello")), &data, &player) {
        Ok(DispatchPlan::Fetch(FetchKind::Search { query })) => assert_eq!(query, "hello"),
        other => panic!("expected a search fetch, got {:?}", other),
    }
    spotify_player::commit::store_search_results(
        &mut data,
        String::from("hello"),
        spotify_player::model::SearchResults {
            tracks: vec![],
            artists: vec![],
            albums: vec![],
            playlists: vec![],
        },
    );
    assert!(matches!(
        handle_request(ClientRequest::Search(String::from("hello")), &data, &player),
        Ok(DispatchPlan::Done)
    ));
}

#[test]
fn dispatch_top_tracks_checks_its_fixed_fingerprint() {
    let mut data = AppData::new();
    let player = PlayerState::new();
    assert!(matches!(
        handle_request(ClientRequest::GetUserTopTracks, &data, &player),
        Ok(DispatchPlan::Fetch(FetchKind::TopTracks))
    ));
    spotify_player::commit::store_track_list(
        &mut data,
        String::from("top-tracks"),
        vec![sample_track("t1", "one")],
    );
    assert!(matches!(
        handle_request(ClientRequest::GetUserTopTracks, &data, &player),
        Ok(DispatchPlan::Done)
    ));
}

#[test]
fn dispatch_recommendations_fingerprint_composes_the_seed_uri() {
    let data = AppData::new();
    let player = PlayerState::new();
    let seed = SeedItem::Artist(spotify_player::model::Artist {
        id: String::from("ar1"),
        name: String::from("someone"),
    });
    assert_eq!(seed.uri(), "spotify:artist:ar1");
    assert_eq!(
        spotify_player::search::recommendations_fingerprint(&seed),
        "recommendations::spotify:artist:ar1"
    );
    assert!(matches!(
        handle_request(ClientRequest::GetRecommendations(seed), &data, &player),
        Ok(DispatchPlan::Fetch(FetchKind::Recommendations { .. }))
    ));
}

#[test]
fn dispatch_library_add_plans_the_presence_check_first() {
    let data = AppData::new();
    let player = PlayerState::new();
    let item = Item::Track(sample_track("t1", "one"));
    match handle_request(ClientRequest::AddToLibrary(item), &data, &player) {
        Ok(DispatchPlan::LibraryAdd { check, .. }) => {
            assert_eq!(check, RemoteAction::CheckSavedTracks { track_id: String::from("t1") });
        }
        other => panic!("expected a library-add plan, got {:?}", other),
    }
}

#[test]
fn dispatch_playlist_follow_without_user_is_a_no_op() {
    let data = AppData::new();
    let player = PlayerState::new();
    let item = Item::Playlist(Playlist {
        id: String::from("p1"),
        name: String::from("mix"),
        owner_name: String::from("me"),
        owner_id: String::from("u1"),
        collaborative: false,
    });
    assert!(matches!(
        handle_request(ClientRequest::AddToLibrary(item), &data, &player),
        Ok(DispatchPlan::Done)
    ));
}

#[test]
fn dispatch_delete_from_library_defers_to_the_commit() {
    let data = AppData::new();
    let player = PlayerState::new();
    match handle_request(
        ClientRequest::DeleteFromLibrary(ItemId::Album(String::from("al1"))),
        &data,
        &player,
    ) {
        Ok(DispatchPlan::LibraryDelete { action, id: ItemId::Album(id) }) => {
            assert_eq!(action, RemoteAction::RemoveSavedAlbum { album_id: String::from("al1") });
            assert_eq!(id, "al1");
        }
        other => panic!("expected a library-delete plan, got {:?}", other),
    }
}

#[test]
fn dispatch_connect_device_opens_a_ten_attempt_session() {
    let data = AppData::new();
    let player = PlayerState::new();
    match handle_request(ClientRequest::ConnectDevice(None), &data, &player) {
        Ok(DispatchPlan::ConnectDevice(mut session)) => {
            let mut attempts = 0;
            while session.begin_attempt().is_some() {
                attempts += 1;
            }
            assert_eq!(attempts, 10);
        }
        other => panic!("expected a connection session, got {:?}", other),
    }
}

#[test]
fn lyric_fingerprint_joins_track_and_artists() {
    let q = lyric_query(&String::from("song"), &String::from("band"));
    assert_eq!(q, "song band");
    let data = AppData::new();
    let player = PlayerState::new();
    match handle_request(
        ClientRequest::GetLyric { track: String::from("song"), artists: String::from("band") },
        &data,
        &player,
    ) {
        Ok(DispatchPlan::Fetch(FetchKind::Lyric { query })) => assert_eq!(query, "song band"),
        other => panic!("expected a lyric fetch, got {:?}", other),
    }
}

#[test]
fn dispatch_browse_category_playlists_keys_by_category_id() {
    let data = AppData::new();
    let player = PlayerState::new();
    let category = Category { id: String::from("cat-1"), name: String::from("Focus") };
    match handle_request(ClientRequest::GetBrowseCategoryPlaylists(category), &data, &player) {
        Ok(DispatchPlan::Fetch(FetchKind::CategoryPlaylists { category_id })) => {
            assert_eq!(category_id, "cat-1");
        }
        other => panic!("expected a category-playlists fetch, got {:?}", other),
    }
}
