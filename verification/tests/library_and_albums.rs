use spotify_player::albums::{artist_albums, clean_up_artist_albums, sort_albums_by_date};
use spotify_player::contexts::dedup_tracks_by_name;
use spotify_player::library::{
    add_track_to_playlist_actions, add_track_to_playlist_commit, delete_from_library,
    delete_from_library_commit, delete_track_from_playlist_commit, library_add_check,
    library_add_commit, library_add_decide,
};
use spotify_player::model::{
    Album, Artist, Context, ContextId, Item, ItemId, Playlist, Track, UserInfo,
};
use spotify_player::request::RemoteAction;
use spotify_player::state::AppData;

fn album(id: &str, name: &str, date: u64) -> Album {
    Album { id: String::from(id), name: String::from(name), release_date: date, artists: vec![] }
}

fn track(id: &str, name: &str) -> Track {
    Track {
        id: String::from(id),
        name: String::from(name),
        artists: vec![],
        album: None,
        duration_ms: 1000,
    }
}

fn playlist(id: &str) -> Playlist {
    Playlist {
        id: String::from(id),
        name: String::from("mix"),
        owner_name: String::from("me"),
        owner_id: String::from("u1"),
        collaborative: false,
    }
}

#[test]
fn album_cleanup_keeps_the_later_duplicate_in_ascending_order() {
    let cleaned = clean_up_artist_albums(vec![
        album("a1", "X", 2020),
        album("a2", "X", 2021),
        album("a3", "Y", 2019),
    ]);
    assert_eq!(cleaned, vec![album("a3", "Y", 2019), album("a2", "X", 2021)]);
}

#[test]
fn album_sort_is_ascending_by_date() {
    let sorted = sort_albums_by_date(vec![
        album("a1", "c", 2021),
        album("a2", "a", 2019),
        album("a3", "b", 2020),
    ]);
    assert_eq!(
        sorted,
        vec![album("a2", "a", 2019), album("a3", "b", 2020), album("a1", "c", 2021)]
    );
}

#[test]
fn artist_albums_combines_albums_and_singles() {
    let cleaned = artist_albums(
        vec![album("a1", "Record", 2018)],
        vec![album("s1", "Single", 2020), album("s2", "Record", 2019)],
    );
    assert_eq!(cleaned, vec![album("s2", "Record", 2019), album("s1", "Single", 2020)]);
}

#[test]
fn library_add_is_skipped_when_already_contained() {
    let item = Item::Track(track("t1", "one"));
    assert_eq!(library_add_decide(&item, true), None);
    let planned = library_add_decide(&item, false);
    assert_eq!(planned, Some(RemoteAction::SaveTrack { track_id: String::from("t1") }));
}

#[test]
fn library_add_check_names_the_right_endpoint() {
    let user = Some(UserInfo { id: String::from("u1") });
    assert_eq!(
        library_add_check(&Item::Album(album("al1", "X", 2020)), &user),
        Some(RemoteAction::CheckSavedAlbums { album_id: String::from("al1") })
    );
    assert_eq!(
        library_add_check(&Item::Playlist(playlist("p1")), &user),
        Some(RemoteAction::CheckFollowedPlaylist {
            playlist_id: String::from("p1"),
            user_id: String::from("u1"),
        })
    );
    assert_eq!(library_add_check(&Item::Playlist(playlist("p1")), &None), None);
}

#[test]
fn library_add_commit_inserts_at_the_front() {
    let mut data = AppData::new();
    data.user_data.saved_tracks = vec![track("t1", "one")];
    library_add_commit(&mut data.user_data, Item::Track(track("t2", "two")));
    assert_eq!(data.user_data.saved_tracks, vec![track("t2", "two"), track("t1", "one")]);
}

#[test]
fn library_delete_mutates_locally_only_after_the_commit() {
    let mut data = AppData::new();
    data.user_data.saved_albums = vec![album("al1", "X", 2020), album("al2", "Y", 2021)];
    let action = delete_from_library(&ItemId::Album(String::from("al1")));
    assert_eq!(action, RemoteAction::RemoveSavedAlbum { album_id: String::from("al1") });
    // Planning alone leaves the user data untouched: the filter-out happens
    // only once the remote call succeeded.
    assert_eq!(
        data.user_data.saved_albums,
        vec![album("al1", "X", 2020), album("al2", "Y", 2021)]
    );
    delete_from_library_commit(&mut data.user_data, ItemId::Album(String::from("al1")));
    assert_eq!(data.user_data.saved_albums, vec![album("al2", "Y", 2021)]);
}

#[test]
fn playlist_add_removes_all_occurrences_before_adding() {
    let (remove, add) =
        add_track_to_playlist_actions(&String::from("p1"), &String::from("t1"));
    assert_eq!(
        remove,
        RemoteAction::PlaylistRemoveAllOccurrences {
            playlist_id: String::from("p1"),
            track_id: String::from("t1"),
        }
    );
    assert_eq!(
        add,
        RemoteAction::PlaylistAddItem {
            playlist_id: String::from("p1"),
            track_id: String::from("t1"),
        }
    );
}

#[test]
fn playlist_add_evicts_while_delete_patches() {
    let mut data = AppData::new();
    let uri = ContextId::Playlist(String::from("p1")).uri();
    let context = Context::Playlist {
        playlist: playlist("p1"),
        tracks: vec![track("t1", "one"), track("t2", "two")],
    };
    spotify_player::commit::store_context(
        &mut data,
        &ContextId::Playlist(String::from("p1")),
        context,
    );
    assert!(data.caches.context.contains(uri.as_str()));

    // A single-track deletion patches the cached track list in place.
    delete_track_from_playlist_commit(&mut data, &String::from("p1"), &String::from("t1"));
    match data.caches.context.peek(uri.as_str()) {
        Some(Context::Playlist { tracks, .. }) => {
            assert_eq!(tracks, &vec![track("t2", "two")]);
        }
        other => panic!("expected the patched playlist context, got {:?}", other),
    }

    // An add evicts the entry wholesale.
    add_track_to_playlist_commit(&mut data, &String::from("p1"));
    assert!(!data.caches.context.contains(uri.as_str()));
}

#[test]
fn deleting_from_an_uncached_playlist_changes_nothing() {
    let mut data = AppData::new();
    delete_track_from_playlist_commit(&mut data, &String::from("p9"), &String::from("t1"));
    assert_eq!(data.caches.context.len(), 0);
}

#[test]
fn recently_played_dedup_keeps_the_first_occurrence_per_name() {
    let deduped = dedup_tracks_by_name(vec![
        track("t1", "one"),
        track("t2", "two"),
        track("t3", "one"),
        track("t4", "two"),
    ]);
    assert_eq!(deduped, vec![track("t1", "one"), track("t2", "two")]);
}

#[test]
fn album_cleanup_of_nothing_is_nothing() {
    assert_eq!(clean_up_artist_albums(vec![]), Vec::<Album>::new());
}

#[test]
fn album_cleanup_collapses_same_name_same_date_to_one() {
    let cleaned = clean_up_artist_albums(vec![album("a1", "X", 2020), album("a2", "X", 2020)]);
    assert_eq!(cleaned.len(), 1);
    assert_eq!(cleaned[0].name, "X");
    assert_eq!(cleaned[0].release_date, 2020);
}
