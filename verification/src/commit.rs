//! Commit functions: each writes one fetched result into the shared state,
//! exactly as the dispatcher's plan prescribes.
//!
//! Requests without a cache category write into the user data or the browse
//! region directly; the cached categories insert under their request
//! fingerprint, bumping it to most recently used.

use vstd::prelude::*;
use crate::cache::{cache_has, cache_idx, cache_put};
use crate::model::{
    Album, Artist, Category, Context, ContextId, LyricResult, Playlist, SearchResults, Track,
    UserInfo, context_matches_id,
};
use crate::state::AppData;

verus! {

/// Stores the fetched browse categories, wholesale.
pub fn store_browse_categories(data: &mut AppData, categories: Vec<Category>)
    ensures
        final(data).browse.categories == categories,
        final(data).browse.category_playlists == old(data).browse.category_playlists,
        final(data).user_data == old(data).user_data,
        final(data).caches == old(data).caches,
{
    data.browse.categories = categories;
}

/// Stores the fetched playlists of a browse category, replacing an earlier
/// entry of the same category id.
pub fn store_category_playlists(data: &mut AppData, category_id: String, playlists: Vec<Playlist>)
    requires
        old(data).wf(),
    ensures
        final(data).wf(),
        cache_has(old(data).browse.category_playlists@, category_id@) ==> final(
            data).browse.category_playlists@ == old(data).browse.category_playlists@.update(
            cache_idx(old(data).browse.category_playlists@, category_id@),
            (category_id@, playlists),
        ),
        !cache_has(old(data).browse.category_playlists@, category_id@) ==> final(
            data).browse.category_playlists@ == old(data).browse.category_playlists@.push(
            (category_id@, playlists),
        ),
        final(data).browse.categories == old(data).browse.categories,
        final(data).user_data == old(data).user_data,
        final(data).caches == old(data).caches,
{
    data.browse.category_playlists.insert(category_id, playlists);
}

/// Records the fetched current user.
pub fn store_current_user(data: &mut AppData, user: UserInfo)
    ensures
        final(data).user_data.user == Some(user),
        final(data).user_data.playlists == old(data).user_data.playlists,
        final(data).user_data.followed_artists == old(data).user_data.followed_artists,
        final(data).user_data.saved_albums == old(data).user_data.saved_albums,
        final(data).user_data.saved_tracks == old(data).user_data.saved_tracks,
        final(data).browse == old(data).browse,
        final(data).caches == old(data).caches,
{
    data.user_data.user = Some(user);
}

/// Stores the user's fetched playlists, wholesale.
pub fn store_user_playlists(data: &mut AppData, playlists: Vec<Playlist>)
    ensures
        final(data).user_data.playlists == playlists,
        final(data).user_data.user == old(data).user_data.user,
        final(data).user_data.followed_artists == old(data).user_data.followed_artists,
        final(data).user_data.saved_albums == old(data).user_data.saved_albums,
        final(data).user_data.saved_tracks == old(data).user_data.saved_tracks,
        final(data).browse == old(data).browse,
        final(data).caches == old(data).caches,
{
    data.user_data.playlists = playlists;
}

/// Stores the user's fetched followed artists, wholesale.
pub fn store_followed_artists(data: &mut AppData, artists: Vec<Artist>)
    ensures
        final(data).user_data.followed_artists == artists,
        final(data).user_data.user == old(data).user_data.user,
        final(data).user_data.playlists == old(data).user_data.playlists,
        final(data).user_data.saved_albums == old(data).user_data.saved_albums,
        final(data).user_data.saved_tracks == old(data).user_data.saved_tracks,
        final(data).browse == old(data).browse,
        final(data).caches == old(data).caches,
{
    data.user_data.followed_artists = artists;
}

/// Stores the user's fetched saved albums, wholesale.
pub fn store_saved_albums(data: &mut AppData, albums: Vec<Album>)
    ensures
        final(data).user_data.saved_albums == albums,
        final(data).user_data.user == old(data).user_data.user,
        final(data).user_data.playlists == old(data).user_data.playlists,
        final(data).user_data.followed_artists == old(data).user_data.followed_artists,
        final(data).user_data.saved_tracks == old(data).user_data.saved_tracks,
        final(data).browse == old(data).browse,
        final(data).caches == old(data).caches,
{
    data.user_data.saved_albums = albums;
}

/// Stores the user's fetched saved tracks, wholesale.
pub fn store_saved_tracks(data: &mut AppData, tracks: Vec<Track>)
    ensures
        final(data).user_data.saved_tracks == tracks,
        final(data).user_data.user == old(data).user_data.user,
        final(data).user_data.playlists == old(data).user_data.playlists,
        final(data).user_data.followed_artists == old(data).user_data.followed_artists,
        final(data).user_data.saved_albums == old(data).user_data.saved_albums,
        final(data).browse == old(data).browse,
        final(data).caches == old(data).caches,
{
    data.user_data.saved_tracks = tracks;
}

/// Caches a fetched track list under its fingerprint (the top-tracks or
/// recently-played id, or a recommendation fingerprint).
pub fn store_track_list(data: &mut AppData, id: String, tracks: Vec<Track>)
    requires
        old(data).wf(),
    ensures
        final(data).wf(),
        final(data).caches.tracks@ == cache_put(
            old(data).caches.tracks@,
            old(data).caches.tracks.cap(),
            id@,
            tracks,
        ),
        final(data).caches.tracks.cap() == old(data).caches.tracks.cap(),
        final(data).caches.context == old(data).caches.context,
        final(data).caches.search == old(data).caches.search,
        final(data).caches.lyrics == old(data).caches.lyrics,
        final(data).caches.images == old(data).caches.images,
        final(data).user_data == old(data).user_data,
        final(data).browse == old(data).browse,
{
    data.caches.tracks.put(id, tracks);
}

/// Caches fetched search results under the query they answer.
pub fn store_search_results(data: &mut AppData, query: String, results: SearchResults)
    requires
        old(data).wf(),
    ensures
        final(data).wf(),
        final(data).caches.search@ == cache_put(
            old(data).caches.search@,
            old(data).caches.search.cap(),
            query@,
            results,
        ),
        final(data).caches.search.cap() == old(data).caches.search.cap(),
        final(data).caches.context == old(data).caches.context,
        final(data).caches.tracks == old(data).caches.tracks,
        final(data).caches.lyrics == old(data).caches.lyrics,
        final(data).caches.images == old(data).caches.images,
        final(data).user_data == old(data).user_data,
        final(data).browse == old(data).browse,
{
    data.caches.search.put(query, results);
}

/// Caches a freshly built context under its context URI, replacing any
/// earlier entry wholesale. The context's variant must match the id it is
/// stored under: the cache maps a URI only to a context of its own kind.
pub fn store_context(data: &mut AppData, context_id: &ContextId, context: Context)
    requires
        old(data).wf(),
        context_matches_id(context, *context_id),
    ensures
        final(data).wf(),
        final(data).caches.context@ == cache_put(
            old(data).caches.context@,
            old(data).caches.context.cap(),
            context_id.uri_spec(),
            context,
        ),
        final(data).caches.context.cap() == old(data).caches.context.cap(),
        final(data).caches.search == old(data).caches.search,
        final(data).caches.tracks == old(data).caches.tracks,
        final(data).caches.lyrics == old(data).caches.lyrics,
        final(data).caches.images == old(data).caches.images,
        final(data).user_data == old(data).user_data,
        final(data).browse == old(data).browse,
{
    let uri = context_id.uri();
    data.caches.context.put(uri, context);
}

/// Caches a lyric lookup's outcome under its query fingerprint. A failed
/// remote call is never cached; a successful lookup is, found or not.
pub fn store_lyric(data: &mut AppData, query: String, lyric: LyricResult)
    requires
        old(data).wf(),
    ensures
        final(data).wf(),
        final(data).caches.lyrics@ == cache_put(
            old(data).caches.lyrics@,
            old(data).caches.lyrics.cap(),
            query@,
            lyric,
        ),
        final(data).caches.lyrics.cap() == old(data).caches.lyrics.cap(),
        final(data).caches.context == old(data).caches.context,
        final(data).caches.search == old(data).caches.search,
        final(data).caches.tracks == old(data).caches.tracks,
        final(data).caches.images == old(data).caches.images,
        final(data).user_data == old(data).user_data,
        final(data).browse == old(data).browse,
{
    data.caches.lyrics.put(query, lyric);
}

} // verus!
