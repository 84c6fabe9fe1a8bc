use spotify_player::contexts::album_context;
use spotify_player::cover::{should_fetch_cover, store_cover_image};
use spotify_player::model::{
    Album, AppError, Artist, Context, Device, LyricResult, PlaybackSnapshot, Playlist, RawDevice,
    RepeatState, SeedItem, SimplifiedPlayback, Track, UserInfo,
};
use spotify_player::retry::{find_available_device, ConnectSession, AttemptStep, RefreshPlan};
use spotify_player::search::{assemble_search_results, recommendations, SearchEvent};
use spotify_player::state::{store_devices, store_playback, AppData, PlayerState};

fn track(id: &str, name: &str) -> Track {
    Track {
        id: String::from(id),
        name: String::from(name),
        artists: vec![],
        album: None,
        duration_ms: 1000,
    }
}

fn raw_device(id: Option<&str>, name: &str) -> RawDevice {
    RawDevice { id: id.map(String::from), name: String::from(name) }
}

#[test]
fn store_devices_keeps_only_addressable_devices() {
    let mut player = PlayerState::new();
    store_devices(
        &mut player,
        vec![raw_device(Some("d1"), "kitchen"), raw_device(None, "ghost"), raw_device(Some("d2"), "desk")],
    );
    assert_eq!(
        player.devices,
        vec![
            Device { id: String::from("d1"), name: String::from("kitchen") },
            Device { id: String::from("d2"), name: String::from("desk") },
        ]
    );
}

#[test]
fn find_available_device_prefers_the_default_name() {
    let id = find_available_device(
        vec![
            raw_device(Some("d1"), "kitchen"),
            raw_device(Some("d2"), "default-box"),
            raw_device(Some("d3"), "desk"),
        ],
        "default-box",
    );
    assert_eq!(id, Some(String::from("d2")));
}

#[test]
fn find_available_device_falls_back_to_the_first() {
    let id = find_available_device(
        vec![raw_device(Some("d1"), "kitchen"), raw_device(Some("d2"), "desk")],
        "default-box",
    );
    assert_eq!(id, Some(String::from("d1")));
}

#[test]
fn find_available_device_skips_devices_without_id() {
    let id = find_available_device(
        vec![raw_device(None, "default-box"), raw_device(Some("d2"), "desk")],
        "default-box",
    );
    assert_eq!(id, Some(String::from("d2")));
    assert_eq!(find_available_device(vec![raw_device(None, "ghost")], "x"), None);
}

#[test]
fn connect_session_stops_after_a_success() {
    let mut session = ConnectSession::new(Some(String::from("d1")));
    let step = session.begin_attempt();
    assert_eq!(step, Some(AttemptStep::UseDevice(String::from("d1"))));
    assert!(session.on_transfer_result(true));
    assert_eq!(session.begin_attempt(), None);
}

#[test]
fn connect_session_discovers_when_no_id_is_given() {
    let mut session = ConnectSession::new(None);
    assert_eq!(session.begin_attempt(), Some(AttemptStep::Discover));
    assert!(!session.on_transfer_result(false));
    assert_eq!(session.begin_attempt(), Some(AttemptStep::Discover));
}

#[test]
fn refresh_plan_runs_exactly_five_rounds() {
    let mut plan = RefreshPlan::new();
    let mut rounds = 0;
    while plan.next_round() {
        rounds += 1;
    }
    assert_eq!(rounds, 5);
}

#[test]
fn search_assembly_requires_matching_categories() {
    let ok = assemble_search_results(
        SearchEvent::Tracks(vec![track("t1", "one")]),
        SearchEvent::Artists(vec![]),
        SearchEvent::Albums(vec![]),
        SearchEvent::Playlists(vec![]),
    );
    let results = ok.expect("matching categories must assemble");
    assert_eq!(results.tracks, vec![track("t1", "one")]);

    let err = assemble_search_results(
        SearchEvent::Artists(vec![]),
        SearchEvent::Artists(vec![]),
        SearchEvent::Albums(vec![]),
        SearchEvent::Playlists(vec![]),
    );
    assert_eq!(err, Err(AppError::UnexpectedSearchResult));
}

#[test]
fn track_seed_opens_its_recommendation_list_without_album() {
    let mut seed_track = track("t1", "one");
    seed_track.album = Some(Album {
        id: String::from("al1"),
        name: String::from("X"),
        release_date: 2020,
        artists: vec![],
    });
    let seed = SeedItem::Track(seed_track);
    let out = recommendations(&seed, vec![track("t2", "two")]);
    assert_eq!(out.len(), 2);
    assert_eq!(out[0].id, "t1");
    assert_eq!(out[0].album, None);
    assert_eq!(out[1], track("t2", "two"));

    let artist_seed = SeedItem::Artist(Artist { id: String::from("ar1"), name: String::from("a") });
    assert_eq!(recommendations(&artist_seed, vec![track("t2", "two")]), vec![track("t2", "two")]);
}

#[test]
fn album_context_attaches_the_album_to_every_track() {
    let album = Album {
        id: String::from("al1"),
        name: String::from("X"),
        release_date: 2020,
        artists: vec![Artist { id: String::from("ar1"), name: String::from("a") }],
    };
    match album_context(album, vec![track("t1", "one"), track("t2", "two")]) {
        Context::Album { album, tracks } => {
            assert_eq!(tracks.len(), 2);
            for t in &tracks {
                assert_eq!(t.album.as_ref().map(|a| a.id.as_str()), Some("al1"));
            }
            assert_eq!(album.id, "al1");
        }
        other => panic!("expected an album context, got {:?}", other),
    }
}

#[test]
fn playback_snapshot_is_written_wholesale() {
    let mut player = PlayerState::new();
    let snapshot = PlaybackSnapshot {
        device_id: Some(String::from("d1")),
        is_playing: true,
        repeat_state: RepeatState::Track,
        shuffle_state: true,
        track_id: Some(String::from("t1")),
        album_cover_url: Some(String::from("https://img.example/cover.png")),
        progress_ms: 1234,
    };
    store_playback(&mut player, Some(snapshot), 99);
    assert_eq!(player.playback_last_updated_ms, Some(99));
    assert_eq!(
        player.simplified_playback(),
        Some(SimplifiedPlayback {
            device_id: Some(String::from("d1")),
            is_playing: true,
            repeat_state: RepeatState::Track,
            shuffle_state: true,
        })
    );
    assert_eq!(
        player.current_playing_track_album_cover_url(),
        Some(&String::from("https://img.example/cover.png"))
    );
}

#[test]
fn tracks_by_id_answers_liked_tracks_from_user_data() {
    let mut data = AppData::new();
    data.user_data.saved_tracks = vec![track("t1", "one")];
    assert_eq!(data.get_tracks_by_id("liked-tracks"), Some(&vec![track("t1", "one")]));
    assert_eq!(data.get_tracks_by_id("top-tracks"), None);
    spotify_player::commit::store_track_list(
        &mut data,
        String::from("top-tracks"),
        vec![track("t2", "two")],
    );
    assert_eq!(data.get_tracks_by_id("top-tracks"), Some(&vec![track("t2", "two")]));
}

#[test]
fn modifiable_playlists_need_a_known_user() {
    fn playlist_of(id: &str, owner_id: &str, collaborative: bool) -> Playlist {
        Playlist {
            id: String::from(id),
            name: String::from(id),
            owner_name: String::from(owner_id),
            owner_id: String::from(owner_id),
            collaborative,
        }
    }
    let mut data = AppData::new();
    data.user_data.playlists = vec![
        playlist_of("p1", "u1", false),
        playlist_of("p2", "u2", false),
        playlist_of("p3", "u2", true),
    ];
    assert!(data.user_data.modifiable_playlists().is_empty());
    data.user_data.user = Some(UserInfo { id: String::from("u1") });
    let modifiable = data.user_data.modifiable_playlists();
    assert_eq!(
        modifiable,
        vec![&playlist_of("p1", "u1", false), &playlist_of("p3", "u2", true)]
    );
}

#[test]
fn lyric_cache_stores_both_outcomes() {
    let mut data = AppData::new();
    spotify_player::commit::store_lyric(
        &mut data,
        String::from("song band"),
        LyricResult::NotFound,
    );
    assert!(data.caches.lyrics.contains("song band"));
    assert_eq!(data.caches.lyrics.peek("song band"), Some(&LyricResult::NotFound));
}

#[test]
fn undecodable_cover_bytes_are_rejected_and_not_cached() {
    let mut data = AppData::new();
    let url = String::from("https://img.example/cover.png");
    assert!(should_fetch_cover(&data, Some(&url)));
    let r = store_cover_image(&mut data, url.clone(), &vec![1, 2, 3]);
    assert_eq!(r, Err(AppError::InvalidImageData));
    assert!(should_fetch_cover(&data, Some(&url)));
    assert!(!should_fetch_cover(&data, None));
}

#[test]
fn decoded_cover_image_is_cached_under_its_url() {
    let mut data = AppData::new();
    let url = String::from("https://img.example/cover.png");
    let image = image::DynamicImage::new_rgb8(2, 2);
    let mut bytes: Vec<u8> = Vec::new();
    image
        .write_to(&mut std::io::Cursor::new(&mut bytes), image::ImageFormat::Png)
        .expect("encoding a 2x2 image must work");
    let r = store_cover_image(&mut data, url.clone(), &bytes);
    assert_eq!(r, Ok(()));
    assert!(!should_fetch_cover(&data, Some(&url)));
}

#[test]
fn default_caches_evict_at_capacity_sixty_four() {
    let mut data = AppData::new();
    for i in 0..65u32 {
        spotify_player::commit::store_track_list(
            &mut data,
            format!("recommendations::spotify:artist:{}", i),
            vec![],
        );
    }
    assert_eq!(data.caches.tracks.len(), 64);
    assert!(!data.caches.tracks.contains("recommendations::spotify:artist:0"));
    assert!(data.caches.tracks.contains("recommendations::spotify:artist:1"));
    assert!(data.caches.tracks.contains("recommendations::spotify:artist:64"));
}
