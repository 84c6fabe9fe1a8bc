//! The shared application state: user data, response caches, browse data,
//! and the playback snapshot region.
//!
//! The state is an explicit value handed by reference into every handler.
//! Callers that need concurrent access keep the two independent regions
//! ([`AppData`] and [`PlayerState`]) each behind its own reader/writer lock;
//! no function here holds a lock across a remote call.

use vstd::prelude::*;
use crate::cache::{LruCache, cache_has, cache_idx};
use crate::model::{
    Album, Artist, Category, Context, Device, LyricResult, PlaybackSnapshot, Playlist, RawDevice,
    SearchResults, SimplifiedPlayback, Track, UserInfo,
};
use crate::strkit::str_eq;

verus! {

/// The default capacity of every response cache category.
pub const DEFAULT_CACHE_CAPACITY: usize = 64;

/// Browse playlists per category id, with pairwise distinct keys.
pub struct CategoryPlaylists {
    entries: Vec<(String, Vec<Playlist>)>,
}

impl View for CategoryPlaylists {
    type V = Seq<(Seq<char>, Vec<Playlist>)>;

    closed spec fn view(&self) -> Seq<(Seq<char>, Vec<Playlist>)> {
        Seq::new(self.entries@.len() as nat, |i: int| (self.entries@[i].0@, self.entries@[i].1))
    }
}

impl CategoryPlaylists {
    /// Well-formed: pairwise distinct category ids.
    pub open spec fn wf(&self) -> bool {
        forall|i: int, j: int| 0 <= i < j < self@.len() ==> self@[i].0 != self@[j].0
    }

    /// An empty table.
    pub fn new() -> (r: Self)
        ensures
            r.wf(),
            r@ == Seq::<(Seq<char>, Vec<Playlist>)>::empty(),
    {
        let r = CategoryPlaylists { entries: Vec::new() };
        proof {
            assert(r@ =~= Seq::<(Seq<char>, Vec<Playlist>)>::empty());
        }
        r
    }

    /// Stores the playlists of a category, replacing an earlier entry under
    /// the same id.
    pub fn insert(&mut self, category_id: String, playlists: Vec<Playlist>)
        requires
            old(self).wf(),
        ensures
            final(self).wf(),
            cache_has(old(self)@, category_id@) ==> final(self)@ == old(self)@.update(
                cache_idx(old(self)@, category_id@),
                (category_id@, playlists),
            ),
            !cache_has(old(self)@, category_id@) ==> final(self)@ == old(self)@.push(
                (category_id@, playlists),
            ),
    {
        let ghost s0 = self@;
        let n = self.entries.len();
        let mut i: usize = 0;
        while i < n
            invariant
                i <= n,
                n == self@.len(),
                self@ == s0,
                s0 == old(self)@,
                self.wf(),
                forall|j: int| 0 <= j < i ==> self@[j].0 != category_id@,
        decreases n - i,
        {
            if str_eq(self.entries[i].0.as_str(), category_id.as_str()) {
                let ghost k = category_id@;
                let ghost pv = playlists;
                proof {
                    assert(s0[i as int].0 == k);
                    assert(cache_has(s0, k));
                    let j = cache_idx(s0, k);
                    assert(0 <= j < s0.len() && s0[j].0 == k);
                    if i < j {
                        assert(s0[i as int].0 != s0[j].0);
                    } else if j < i {
                        assert(s0[j].0 != s0[i as int].0);
                    }
                    assert(cache_idx(s0, k) == i as int);
                }
                self.entries[i] = (category_id, playlists);
                proof {
                    assert(self@ =~= s0.update(i as int, (k, pv)));
                    assert forall|a: int| 0 <= a < self@.len() implies self@[a].0 == s0[a].0 by {
                        if a == i as int {
                            assert(self@[a].0 == k);
                        }
                    }
                }
                return ;
            }
            i += 1;
        }
        self.entries.push((category_id, playlists));
        proof {
            assert(self@ =~= s0.push((category_id@, playlists)));
        }
    }

    /// The playlists stored for a category id, if any.
    pub fn get(&self, category_id: &str) -> (r: Option<&Vec<Playlist>>)
        requires
            self.wf(),
        ensures
            match r {
                Some(v) => cache_has(self@, category_id@) && *v == self@[cache_idx(
                    self@,
                    category_id@,
                )].1,
                None => !cache_has(self@, category_id@),
            },
    {
        let n = self.entries.len();
        let mut i: usize = 0;
        while i < n
            invariant
                i <= n,
                n == self@.len(),
                self.wf(),
                forall|j: int| 0 <= j < i ==> self@[j].0 != category_id@,
            decreases n - i,
        {
            if str_eq(self.entries[i].0.as_str(), category_id) {
                proof {
                    assert(self@[i as int].0 == category_id@);
                    assert(cache_has(self@, category_id@));
                    let j = cache_idx(self@, category_id@);
                    if i < j {
                        assert(self@[i as int].0 != self@[j].0);
                    } else if j < i {
                        assert(self@[j].0 != self@[i as int].0);
                    }
                }
                return Some(&self.entries[i].1);
            }
            i += 1;
        }
        None
    }
}

/// Current user's data: mutated optimistically in place by the library-edit
/// handlers, strictly after the remote call succeeded.
pub struct UserData {
    pub user: Option<UserInfo>,
    pub playlists: Vec<Playlist>,
    pub followed_artists: Vec<Artist>,
    pub saved_albums: Vec<Album>,
    pub saved_tracks: Vec<Track>,
}

/// The playlists the current user can possibly modify: owned by the user,
/// or collaborative.
pub open spec fn modifiable_spec(s: Seq<Playlist>, user_id: Seq<char>) -> Seq<Playlist>
    decreases s.len(),
{
    if s.len() == 0 {
        Seq::empty()
    } else {
        modifiable_spec(s.drop_last(), user_id) + if s.last().owner_id@ == user_id
            || s.last().collaborative {
            seq![s.last()]
        } else {
            Seq::empty()
        }
    }
}

/// One unfolding of [`modifiable_spec`] on a non-empty sequence.
proof fn lemma_modifiable_step(s: Seq<Playlist>, user_id: Seq<char>)
    requires
        s.len() > 0,
    ensures
        modifiable_spec(s, user_id) == modifiable_spec(s.drop_last(), user_id) + (
        if s.last().owner_id@ == user_id || s.last().collaborative {
            seq![s.last()]
        } else {
            Seq::<Playlist>::empty()
        }),
{
}

impl UserData {
    /// An empty user-data region, with no user known yet.
    pub fn new() -> (r: Self)
        ensures
            r.user is None,
            r.playlists@ == Seq::<Playlist>::empty(),
            r.followed_artists@ == Seq::<Artist>::empty(),
            r.saved_albums@ == Seq::<Album>::empty(),
            r.saved_tracks@ == Seq::<Track>::empty(),
    {
        UserData {
            user: None,
            playlists: Vec::new(),
            followed_artists: Vec::new(),
            saved_albums: Vec::new(),
            saved_tracks: Vec::new(),
        }
    }

    /// The playlists that are possibly modifiable by the current user; empty
    /// when no user is known.
    pub fn modifiable_playlists(&self) -> (r: Vec<&Playlist>)
        ensures
            match self.user {
                None => r@.len() == 0,
                Some(u) => {
                    let m = modifiable_spec(self.playlists@, u.id@);
                    r@.len() == m.len() && forall|i: int| 0 <= i < m.len() ==> *r@[i] == m[i]
                },
            },
    {
        match &self.user {
            None => Vec::new(),
            Some(u) => {
                let ghost uid = u.id@;
                let mut r: Vec<&Playlist> = Vec::new();
                let n = self.playlists.len();
                let mut i: usize = 0;
                while i < n
                    invariant
                        i <= n,
                        n == self.playlists@.len(),
                        uid == u.id@,
                        r@.len() == modifiable_spec(self.playlists@.take(i as int), uid).len(),
                        forall|j: int|
                            0 <= j < r@.len() ==> *r@[j] == modifiable_spec(
                                self.playlists@.take(i as int),
                                uid,
                            )[j],
                    decreases n - i,
                {
                    let ghost pre = self.playlists@.take(i as int);
                    let ghost post = self.playlists@.take(i as int + 1);
                    let p = &self.playlists[i];
                    let keep = str_eq(p.owner_id.as_str(), u.id.as_str()) || p.collaborative;
                    proof {
                        assert(post.drop_last() =~= pre);
                        assert(post.last() == self.playlists@[i as int]);
                        lemma_modifiable_step(post, uid);
                        if keep {
                            assert(modifiable_spec(post, uid) == modifiable_spec(pre, uid)
                                + seq![self.playlists@[i as int]]);
                        } else {
                            assert(modifiable_spec(post, uid) == modifiable_spec(pre, uid)
                                + Seq::<Playlist>::empty());
                            assert(modifiable_spec(post, uid) =~= modifiable_spec(pre, uid));
                        }
                    }
                    if keep {
                        r.push(p);
                    }
                    i += 1;
                }
                proof {
                    assert(self.playlists@.take(n as int) =~= self.playlists@);
                }
                r
            },
        }
    }
}

/// The application's response caches, one bounded LRU cache per category.
pub struct Caches {
    pub context: LruCache<Context>,
    pub search: LruCache<SearchResults>,
    pub tracks: LruCache<Vec<Track>>,
    pub lyrics: LruCache<LyricResult>,
    pub images: LruCache<image::DynamicImage>,
}

impl Caches {
    /// Every cache category is well-formed.
    pub open spec fn wf(&self) -> bool {
        &&& self.context.wf()
        &&& self.search.wf()
        &&& self.tracks.wf()
        &&& self.lyrics.wf()
        &&& self.images.wf()
    }

    /// Empty caches, each with the default capacity.
    pub fn new() -> (r: Self)
        ensures
            r.wf(),
            r.context@.len() == 0,
            r.search@.len() == 0,
            r.tracks@.len() == 0,
            r.lyrics@.len() == 0,
            r.images@.len() == 0,
            r.context.cap() == DEFAULT_CACHE_CAPACITY,
            r.search.cap() == DEFAULT_CACHE_CAPACITY,
            r.tracks.cap() == DEFAULT_CACHE_CAPACITY,
            r.lyrics.cap() == DEFAULT_CACHE_CAPACITY,
            r.images.cap() == DEFAULT_CACHE_CAPACITY,
    {
        Caches {
            context: LruCache::new(DEFAULT_CACHE_CAPACITY),
            search: LruCache::new(DEFAULT_CACHE_CAPACITY),
            tracks: LruCache::new(DEFAULT_CACHE_CAPACITY),
            lyrics: LruCache::new(DEFAULT_CACHE_CAPACITY),
            images: LruCache::new(DEFAULT_CACHE_CAPACITY),
        }
    }
}

impl Default for Caches {
    /// Empty caches, each with the default capacity.
    fn default() -> (r: Self)
        ensures
            r.wf(),
            r.context@.len() == 0,
            r.search@.len() == 0,
            r.tracks@.len() == 0,
            r.lyrics@.len() == 0,
            r.images@.len() == 0,
            r.context.cap() == DEFAULT_CACHE_CAPACITY,
            r.search.cap() == DEFAULT_CACHE_CAPACITY,
            r.tracks.cap() == DEFAULT_CACHE_CAPACITY,
            r.lyrics.cap() == DEFAULT_CACHE_CAPACITY,
            r.images.cap() == DEFAULT_CACHE_CAPACITY,
    {
        Caches::new()
    }
}

/// Browse data fetched from the remote service's discovery endpoints.
pub struct BrowseData {
    pub categories: Vec<Category>,
    pub category_playlists: CategoryPlaylists,
}

impl BrowseData {
    /// An empty browse region.
    pub fn new() -> (r: Self)
        ensures
            r.categories@ == Seq::<Category>::empty(),
            r.category_playlists.wf(),
            r.category_playlists@ == Seq::<(Seq<char>, Vec<Playlist>)>::empty(),
    {
        BrowseData { categories: Vec::new(), category_playlists: CategoryPlaylists::new() }
    }
}

/// The data region of the shared state: user data, caches, browse data.
pub struct AppData {
    pub user_data: UserData,
    pub caches: Caches,
    pub browse: BrowseData,
}

impl AppData {
    /// Well-formed: every cache and the browse table are well-formed.
    pub open spec fn wf(&self) -> bool {
        &&& self.caches.wf()
        &&& self.browse.category_playlists.wf()
    }

    /// A fresh data region.
    pub fn new() -> (r: Self)
        ensures
            r.wf(),
            r.user_data.user is None,
            r.caches.context@.len() == 0,
            r.caches.search@.len() == 0,
            r.caches.tracks@.len() == 0,
            r.caches.lyrics@.len() == 0,
            r.caches.images@.len() == 0,
            r.caches.context.cap() == DEFAULT_CACHE_CAPACITY,
            r.caches.search.cap() == DEFAULT_CACHE_CAPACITY,
            r.caches.tracks.cap() == DEFAULT_CACHE_CAPACITY,
            r.caches.lyrics.cap() == DEFAULT_CACHE_CAPACITY,
            r.caches.images.cap() == DEFAULT_CACHE_CAPACITY,
    {
        AppData { user_data: UserData::new(), caches: Caches::new(), browse: BrowseData::new() }
    }

    /// The track list stored under a track-list id. The saved-track list of
    /// the user data answers for the dedicated liked-tracks id; every other
    /// id is looked up in the track-list cache without a recency bump.
    pub fn get_tracks_by_id(&self, id: &str) -> (r: Option<&Vec<Track>>)
        requires
            self.wf(),
        ensures
            id@ == "liked-tracks"@ ==> r == Some(&self.user_data.saved_tracks),
            id@ != "liked-tracks"@ ==> match r {
                Some(v) => cache_has(self.caches.tracks@, id@) && *v == self.caches.tracks@[
                    cache_idx(self.caches.tracks@, id@)
                ].1,
                None => !cache_has(self.caches.tracks@, id@),
            },
    {
        if str_eq(id, "liked-tracks") {
            Some(&self.user_data.saved_tracks)
        } else {
            self.caches.tracks.peek(id)
        }
    }
}

impl Default for AppData {
    /// A fresh data region.
    fn default() -> (r: Self)
        ensures
            r.wf(),
            r.user_data.user is None,
            r.caches.context.cap() == DEFAULT_CACHE_CAPACITY,
            r.caches.search.cap() == DEFAULT_CACHE_CAPACITY,
            r.caches.tracks.cap() == DEFAULT_CACHE_CAPACITY,
            r.caches.lyrics.cap() == DEFAULT_CACHE_CAPACITY,
            r.caches.images.cap() == DEFAULT_CACHE_CAPACITY,
    {
        AppData::new()
    }
}

impl Default for UserData {
    /// An empty user-data region.
    fn default() -> (r: Self)
        ensures
            r.user is None,
            r.playlists@ == Seq::<Playlist>::empty(),
            r.followed_artists@ == Seq::<Artist>::empty(),
            r.saved_albums@ == Seq::<Album>::empty(),
            r.saved_tracks@ == Seq::<Track>::empty(),
    {
        UserData::new()
    }
}

impl Default for BrowseData {
    /// An empty browse region.
    fn default() -> (r: Self)
        ensures
            r.categories@ == Seq::<Category>::empty(),
            r.category_playlists.wf(),
            r.category_playlists@ == Seq::<(Seq<char>, Vec<Playlist>)>::empty(),
    {
        BrowseData::new()
    }
}

impl Default for PlayerState {
    /// A fresh player region with no known playback.
    fn default() -> (r: Self)
        ensures
            r.playback is None,
            r.devices@ == Seq::<Device>::empty(),
            r.playback_last_updated_ms is None,
    {
        PlayerState::new()
    }
}

/// The devices of a raw device list that can actually be addressed: those
/// carrying an id, in arrival order.
pub open spec fn named_devices(s: Seq<RawDevice>) -> Seq<Device>
    decreases s.len(),
{
    if s.len() == 0 {
        Seq::empty()
    } else {
        named_devices(s.drop_last()) + match s.last().id {
            Some(id) => seq![Device { id: id, name: s.last().name }],
            None => Seq::empty(),
        }
    }
}

/// The minimal playback snapshot derived from a full one.
pub open spec fn simplified_spec(playback: Option<PlaybackSnapshot>) -> Option<
    SimplifiedPlayback,
> {
    match playback {
        None => None,
        Some(p) => Some(
            SimplifiedPlayback {
                device_id: p.device_id,
                is_playing: p.is_playing,
                repeat_state: p.repeat_state,
                shuffle_state: p.shuffle_state,
            },
        ),
    }
}

/// The player region of the shared state: the playback snapshot, the device
/// list, and the time of the last successful playback refresh.
pub struct PlayerState {
    pub playback: Option<PlaybackSnapshot>,
    pub devices: Vec<Device>,
    pub playback_last_updated_ms: Option<u64>,
}

impl PlayerState {
    /// A fresh player region with no known playback.
    pub fn new() -> (r: Self)
        ensures
            r.playback is None,
            r.devices@ == Seq::<Device>::empty(),
            r.playback_last_updated_ms is None,
    {
        PlayerState { playback: None, devices: Vec::new(), playback_last_updated_ms: None }
    }

    /// The minimal snapshot used to decide player-action targets, when a
    /// playback snapshot is present.
    pub fn simplified_playback(&self) -> (r: Option<SimplifiedPlayback>)
        ensures
            r == simplified_spec(self.playback),
    {
        match &self.playback {
            None => None,
            Some(p) => Some(
                SimplifiedPlayback {
                    device_id: clone_opt_string(&p.device_id),
                    is_playing: p.is_playing,
                    repeat_state: p.repeat_state,
                    shuffle_state: p.shuffle_state,
                },
            ),
        }
    }

    /// The cover-image URL of the currently playing track's album, if one is
    /// known.
    pub fn current_playing_track_album_cover_url(&self) -> (r: Option<&String>)
        ensures
            match self.playback {
                None => r is None,
                Some(p) => match p.album_cover_url {
                    Some(url) => r is Some && *r->Some_0 == url,
                    None => r is None,
                },
            },
    {
        match &self.playback {
            None => None,
            Some(p) => p.album_cover_url.as_ref(),
        }
    }
}

/// Clones an optional string, preserving the value.
pub fn clone_opt_string(o: &Option<String>) -> (r: Option<String>)
    ensures
        r == *o,
{
    match o {
        None => None,
        Some(s) => Some(s.clone()),
    }
}

/// Writes a freshly fetched playback snapshot, whole, together with the time
/// of the refresh: the player region always reflects the most recent
/// successful playback fetch and is never partially written.
pub fn store_playback(player: &mut PlayerState, playback: Option<PlaybackSnapshot>, now_ms: u64)
    ensures
        final(player).playback == playback,
        final(player).playback_last_updated_ms == Some(now_ms),
        final(player).devices == old(player).devices,
{
    player.playback = playback;
    player.playback_last_updated_ms = Some(now_ms);
}

/// Stores a freshly fetched device list, keeping exactly the devices that
/// carry an id, in arrival order.
pub fn store_devices(player: &mut PlayerState, devices: Vec<RawDevice>)
    ensures
        final(player).devices@ == named_devices(devices@),
        final(player).playback == old(player).playback,
        final(player).playback_last_updated_ms == old(player).playback_last_updated_ms,
{
    player.devices = named_of(devices);
}

/// Keeps exactly the devices that carry an id, in arrival order.
pub fn named_of(devices: Vec<RawDevice>) -> (r: Vec<Device>)
    ensures
        r@ == named_devices(devices@),
{
    let ghost all = devices@;
    let n = devices.len();
    let mut rest = devices;
    let mut out: Vec<Device> = Vec::new();
    let mut i: usize = 0;
    while rest.len() > 0
        invariant
            i <= n,
            n == all.len(),
            rest@ == all.skip(i as int),
            out@ == named_devices(all.take(i as int)),
        decreases rest@.len(),
    {
        let ghost pre = all.take(i as int);
        let ghost post = all.take(i as int + 1);
        proof {
            assert(post.drop_last() =~= pre);
            assert(post.last() == all[i as int]);
            assert(rest@[0] == all[i as int]);
        }
        let raw = rest.remove(0);
        match raw.id {
            Some(id) => out.push(Device { id: id, name: raw.name }),
            None => {},
        }
        i += 1;
        proof {
            assert(rest@ =~= all.skip(i as int));
        }
    }
    proof {
        assert(all.take(i as int) =~= all);
    }
    out
}

} // verus!
