use vstd::prelude::*;

use crate::duration::{decimal, digits_of};
use crate::page::{copy_page, page_of, page_start, answer_view, ReturnAction, ITEM_PER_PAGE};
use crate::units::{ArtistUnit, Duplicate, MusicUnit, PlaylistUnit};

verus! {

/// Extra attempts, each on the next mirror, for the trending list.
pub const TRENDING_RETRIES: u32 = 2;

/// Extra attempts, each on the next mirror, for a playlist or a search.
pub const FETCH_RETRIES: u32 = 1;

/// The kind of record a search looks for.
#[derive(Debug, Clone, Copy, PartialEq, Eq, Structural)]
pub enum Category {
    Music,
    Playlist,
    Artist,
}

/// A GET of `url`, which is a mirror's base address followed by `path`.
/// `retry_for` is how many more attempts may follow if no server answers.
#[derive(Debug, Clone, PartialEq, Eq)]
pub struct Request {
    pub url: String,
    pub path: String,
    pub retry_for: u32,
}

/// What the transport made of a request.
#[derive(Debug)]
pub enum Reply<T> {
    /// The server answered and the body decoded into records.
    Data(Vec<T>),
    /// The server answered but the body did not decode.
    Malformed,
    /// No answer: connection refused, timed out, or similar.
    Unreachable,
}

/// What a page request asks of its caller next.
#[derive(Debug)]
pub enum Step<T> {
    /// The answer: the page's records, the end of the results, or a failure.
    Done(Result<Vec<T>, ReturnAction>),
    /// Send this request and hand its reply back.
    Send(Request),
}

/// A step seen as values: the answer, or the url, path and retry budget of a request.
pub enum Plan<T> {
    Serve(Result<Seq<T>, ReturnAction>),
    Fetch(Seq<char>, Seq<char>, u32),
}

impl<T> View for Step<T> {
    type V = Plan<T>;

    open spec fn view(&self) -> Plan<T> {
        match self {
            Step::Done(r) => Plan::Serve(answer_view(*r)),
            Step::Send(q) => Plan::Fetch(q.url@, q.path@, q.retry_for),
        }
    }
}

/// What one reply amounts to, before the operation that asked for it acts on it.
#[derive(Debug)]
pub enum Attempt<T> {
    Decoded(Vec<T>),
    Again(Request),
    Failed,
}

/// The results of the last search, one list per category, and the category
/// that the last search asked for.
pub struct SearchRes {
    pub music: Vec<MusicUnit>,
    pub playlist: Vec<PlaylistUnit>,
    pub artist: Vec<ArtistUnit>,
    pub last_fetched: Option<Category>,
}

/// The session state: the mirror pool with its active server, and the three caches.
pub struct Fetcher {
    pub trending_now: Option<Vec<MusicUnit>>,
    pub playlist_id: String,
    pub playlist_content: Vec<MusicUnit>,
    pub search_query: String,
    pub search_res: SearchRes,
    pub servers: Vec<String>,
    pub active_server_index: usize,
}

/// The path that asks for the trending songs.
pub open spec fn trending_path() -> Seq<char> {
    "/trending?type=Music&region=NP&"@ + fields_of(Category::Music)
}

/// The path that asks for the songs of a playlist.
pub open spec fn playlist_path(id: Seq<char>) -> Seq<char> {
    "/playlists/"@ + id + "?fields=videos"@
}

/// The type filter that a search of `cat` sends.
pub open spec fn filter_of(cat: Category) -> Seq<char> {
    match cat {
        Category::Music => "music"@,
        Category::Playlist => "playlist"@,
        Category::Artist => "channel"@,
    }
}

/// The field projection that asks for what a record of `cat` holds.
pub open spec fn fields_of(cat: Category) -> Seq<char> {
    match cat {
        Category::Music => "fields=videoId,title,author,lengthSeconds"@,
        Category::Playlist => "fields=title,playlistId,author,videoCount"@,
        Category::Artist => "fields=author,authorId,videoCount"@,
    }
}

/// The path of page `page` of a search of `cat` for `query`.
pub open spec fn search_path(cat: Category, query: Seq<char>, page: nat) -> Seq<char> {
    "/search?q="@ + query + "&type="@ + filter_of(cat) + "&region=NP&page="@ + decimal(page) + "&"@
        + fields_of(cat)
}

/// Whether a slot of `len` records holds less than a full page `page`.
pub open spec fn window_short(len: nat, page: nat) -> bool {
    len < page_start(page) + ITEM_PER_PAGE
}

/// The plan after a reply that did not arrive: the next attempt on `after`'s
/// active server while the budget lasts, a failure after that.
pub open spec fn failover<T>(before: Fetcher, after: Fetcher, req: Request, plan: Plan<T>) -> bool {
    if req.retry_for > 0 {
        &&& after == before.rotated()
        &&& plan == Plan::<T>::Fetch(after.base() + req.path@, req.path@, (req.retry_for - 1) as u32)
    } else {
        &&& after == before
        &&& plan == Plan::<T>::Serve(Err(ReturnAction::Failed))
    }
}

fn filter_str(cat: Category) -> (r: &'static str)
    ensures
        r@ == filter_of(cat),
{
    match cat {
        Category::Music => "music",
        Category::Playlist => "playlist",
        Category::Artist => "channel",
    }
}

fn fields_str(cat: Category) -> (r: &'static str)
    ensures
        r@ == fields_of(cat),
{
    match cat {
        Category::Music => "fields=videoId,title,author,lengthSeconds",
        Category::Playlist => "fields=title,playlistId,author,videoCount",
        Category::Artist => "fields=author,authorId,videoCount",
    }
}

fn search_path_of(cat: Category, query: &str, page: usize) -> (r: String)
    ensures
        r@ == search_path(cat, query@, page as nat),
{
    let mut s = String::from_str("/search?q=");
    s.append(query);
    s.append("&type=");
    s.append(filter_str(cat));
    s.append("&region=NP&page=");
    let digits = digits_of(page as u64);
    s.append(digits.as_str());
    s.append("&");
    s.append(fields_str(cat));
    s
}

impl Fetcher {
    /// The pool is non-empty and the active index points into it.
    pub open spec fn wf(&self) -> bool {
        &&& self.servers@.len() > 0
        &&& self.active_server_index < self.servers@.len()
    }

    /// The base address of the active server.
    pub open spec fn base(&self) -> Seq<char> {
        self.servers@[self.active_server_index as int]@
    }

    /// The state with the next server of the pool active, wrapping to the first.
    pub open spec fn rotated(self) -> Fetcher {
        Fetcher {
            active_server_index: ((self.active_server_index + 1) % (self.servers@.len() as int)) as usize,
            ..self
        }
    }

    /// A fresh session: empty caches, the first of six mirrors active.
    pub fn new() -> (r: Fetcher)
        ensures
            r.wf(),
            r.servers@.len() == 6,
            r.active_server_index == 0,
            r.trending_now is None,
            r.playlist_id@ == Seq::<char>::empty(),
            r.playlist_content@ == Seq::<MusicUnit>::empty(),
            r.search_query@ == Seq::<char>::empty(),
            r.search_res.music@ == Seq::<MusicUnit>::empty(),
            r.search_res.playlist@ == Seq::<PlaylistUnit>::empty(),
            r.search_res.artist@ == Seq::<ArtistUnit>::empty(),
            r.search_res.last_fetched is None,
    {
        let mut servers: Vec<String> = Vec::new();
        servers.push(String::from_str("https://invidious.snopyta.org/api/v1"));
        servers.push(String::from_str("https://vid.puffyan.us/api/v1"));
        servers.push(String::from_str("https://ytprivate.com/api/v1"));
        servers.push(String::from_str("https://ytb.trom.tf/api/v1"));
        servers.push(String::from_str("https://invidious.namazso.eu/api/v1"));
        servers.push(String::from_str("https://invidious.hub.ne.kr/api/v1"));
        Fetcher {
            trending_now: None,
            playlist_id: String::new(),
            playlist_content: Vec::new(),
            search_query: String::new(),
            search_res: SearchRes {
                music: Vec::new(),
                playlist: Vec::new(),
                artist: Vec::new(),
                last_fetched: None,
            },
            servers,
            active_server_index: 0,
        }
    }

    /// Makes the next server of the pool active, wrapping to the first.
    pub fn change_server(&mut self)
        requires
            old(self).wf(),
        ensures
            *final(self) == old(self).rotated(),
            final(self).wf(),
    {
        let n = self.servers.len();
        let i = self.active_server_index;
        let next: usize = if i < n - 1 {
            i + 1
        } else {
            0
        };
        assert(next == (i + 1) % (n as int)) by (nonlinear_arith)
            requires
                i < n,
                i < n - 1 ==> next == i + 1,
                i >= n - 1 ==> next == 0,
        ;
        self.active_server_index = next;
    }

    /// The request for `path` on the active server, with `retry_for` more attempts allowed.
    fn request(&self, path: String, retry_for: u32) -> (r: Request)
        requires
            self.wf(),
        ensures
            r.url@ == self.base() + path@,
            r.path == path,
            r.retry_for == retry_for,
    {
        let mut url = self.servers[self.active_server_index].clone();
        url.append(path.as_str());
        Request { url, path, retry_for }
    }

    /// Settles one reply to `req`. Records that decoded are handed on; a
    /// malformed body fails at once; an unanswered request makes the next
    /// server active and is tried again there while `req.retry_for` is positive.
    pub fn send_request<T>(&mut self, req: Request, reply: Reply<T>) -> (r: Attempt<T>)
        requires
            old(self).wf(),
        ensures
            final(self).wf(),
            match reply {
                Reply::Data(v) => *final(self) == *old(self) && r == Attempt::Decoded(v),
                Reply::Malformed => *final(self) == *old(self) && r is Failed,
                Reply::Unreachable => if req.retry_for > 0 {
                    &&& *final(self) == old(self).rotated()
                    &&& r matches Attempt::Again(q) && q.url@ == final(self).base() + req.path@
                        && q.path == req.path && q.retry_for == req.retry_for - 1
                } else {
                    *final(self) == *old(self) && r is Failed
                },
            },
    {
        match reply {
            Reply::Data(v) => Attempt::Decoded(v),
            Reply::Malformed => Attempt::Failed,
            Reply::Unreachable => {
                if req.retry_for > 0 {
                    self.change_server();
                    Attempt::Again(self.request(req.path, req.retry_for - 1))
                } else {
                    Attempt::Failed
                }
            },
        }
    }
    /// The trending answer for `page` from this state: served from the cached
    /// list once there is one, else a request for the whole list.
    pub open spec fn trending_plan(self, page: nat) -> Plan<MusicUnit> {
        match self.trending_now {
            Some(v) => Plan::Serve(page_of(v@, page)),
            None => Plan::Fetch(self.base() + trending_path(), trending_path(), TRENDING_RETRIES),
        }
    }

    /// Page `page` of the trending songs, or the request that fetches them.
    /// The list is fetched once per session and never refreshed.
    pub fn get_trending_music(&self, page: usize) -> (r: Step<MusicUnit>)
        requires
            self.wf(),
        ensures
            r@ == self.trending_plan(page as nat),
    {
        match &self.trending_now {
            Some(v) => Step::Done(copy_page(v, page)),
            None => {
                let mut path = String::from_str("/trending?type=Music&region=NP&");
                path.append(fields_str(Category::Music));
                Step::Send(self.request(path, TRENDING_RETRIES))
            },
        }
    }

    /// Takes the reply to a trending request for `page`: decoded records become
    /// the cached list and the page is served from it.
    pub fn trending_reply(&mut self, page: usize, req: Request, reply: Reply<MusicUnit>) -> (r: Step<
        MusicUnit,
    >)
        requires
            old(self).wf(),
        ensures
            final(self).wf(),
            match reply {
                Reply::Data(v) => *final(self) == (Fetcher { trending_now: Some(v), ..*old(self) })
                    && r@ == Plan::Serve(page_of(v@, page as nat)),
                Reply::Malformed => *final(self) == *old(self) && r@ == Plan::<MusicUnit>::Serve(
                    Err(ReturnAction::Failed),
                ),
                Reply::Unreachable => failover(*old(self), *final(self), req, r@),
            },
    {
        match self.send_request(req, reply) {
            Attempt::Decoded(v) => {
                let r = copy_page(&v, page);
                self.trending_now = Some(v);
                Step::Done(r)
            },
            Attempt::Again(q) => Step::Send(q),
            Attempt::Failed => Step::Done(Err(ReturnAction::Failed)),
        }
    }

    /// Whether a playlist request for `id` must fetch: another playlist is
    /// cached, or the cached one is empty.
    pub open spec fn playlist_stale(self, id: Seq<char>) -> bool {
        self.playlist_id@ != id || self.playlist_content@.len() == 0
    }

    /// The answer to a request for page `page` of playlist `id` from this state.
    pub open spec fn playlist_plan(self, id: Seq<char>, page: nat) -> Plan<MusicUnit> {
        if self.playlist_stale(id) {
            Plan::Fetch(self.base() + playlist_path(id), playlist_path(id), FETCH_RETRIES)
        } else {
            Plan::Serve(page_of(self.playlist_content@, page))
        }
    }

    /// Page `page` of the songs of playlist `playlist_id`, or the request that
    /// fetches the whole playlist.
    pub fn get_playlist_content(&self, playlist_id: &str, page: usize) -> (r: Step<MusicUnit>)
        requires
            self.wf(),
        ensures
            r@ == self.playlist_plan(playlist_id@, page as nat),
    {
        let id = String::from_str(playlist_id);
        if !(id == self.playlist_id) || self.playlist_content.len() == 0 {
            let mut path = String::from_str("/playlists/");
            path.append(playlist_id);
            path.append("?fields=videos");
            Step::Send(self.request(path, FETCH_RETRIES))
        } else {
            Step::Done(copy_page(&self.playlist_content, page))
        }
    }

    /// Takes the reply to a request for playlist `playlist_id`: decoded records
    /// replace the cached playlist, which is then keyed by `playlist_id`.
    pub fn playlist_reply(
        &mut self,
        playlist_id: &str,
        page: usize,
        req: Request,
        reply: Reply<MusicUnit>,
    ) -> (r: Step<MusicUnit>)
        requires
            old(self).wf(),
        ensures
            final(self).wf(),
            match reply {
                Reply::Data(v) => {
                    &&& final(self).playlist_id@ == playlist_id@
                    &&& *final(self) == (Fetcher {
                        playlist_id: final(self).playlist_id,
                        playlist_content: v,
                        ..*old(self)
                    })
                    &&& r@ == Plan::Serve(page_of(v@, page as nat))
                },
                Reply::Malformed => *final(self) == *old(self) && r@ == Plan::<MusicUnit>::Serve(
                    Err(ReturnAction::Failed),
                ),
                Reply::Unreachable => failover(*old(self), *final(self), req, r@),
            },
    {
        match self.send_request(req, reply) {
            Attempt::Decoded(v) => {
                let r = copy_page(&v, page);
                self.playlist_id = String::from_str(playlist_id);
                self.playlist_content = v;
                Step::Done(r)
            },
            Attempt::Again(q) => Step::Send(q),
            Attempt::Failed => Step::Done(Err(ReturnAction::Failed)),
        }
    }

    /// Whether a search of `cat` for `query` starts over: the query differs from
    /// the cached one, or the last search was of another category.
    pub open spec fn scope_changed(self, cat: Category, query: Seq<char>) -> bool {
        self.search_query@ != query || self.search_res.last_fetched != Some(cat)
    }

    /// The answer to a search of `cat` for `query`, page `page`, from this
    /// state, where `slot` is what the state holds for `cat`: a fetch when the
    /// search starts over or the slot lacks a full page, else the cached page.
    pub open spec fn search_plan<T>(self, slot: Seq<T>, cat: Category, query: Seq<char>, page: nat) -> Plan<T> {
        if self.scope_changed(cat, query) || window_short(slot.len(), page) {
            Plan::Fetch(
                self.base() + search_path(cat, query, page),
                search_path(cat, query, page),
                FETCH_RETRIES,
            )
        } else {
            Plan::Serve(page_of(slot, page))
        }
    }

    fn scope_changed_exec(&self, cat: Category, query: &str) -> (r: bool)
        ensures
            r == self.scope_changed(cat, query@),
    {
        let q = String::from_str(query);
        let other_category = match self.search_res.last_fetched {
            Some(c) => c != cat,
            None => true,
        };
        !(q == self.search_query) || other_category
    }

    fn search_step<T: Duplicate>(
        &self,
        slot: &Vec<T>,
        cat: Category,
        query: &str,
        page: usize,
        changed: bool,
    ) -> (r: Step<T>)
        requires
            self.wf(),
            changed == self.scope_changed(cat, query@),
        ensures
            r@ == self.search_plan(slot@, cat, query@, page as nat),
    {
        let len = slot.len();
        let short = len / ITEM_PER_PAGE <= page;
        assert(short == window_short(len as nat, page as nat)) by (nonlinear_arith)
            requires
                short == (len / 10 <= page),
        ;
        if changed || short {
            Step::Send(self.request(search_path_of(cat, query, page), FETCH_RETRIES))
        } else {
            Step::Done(copy_page(slot, page))
        }
    }

    /// Page `page` of a search of music records for `query`, or the request that
    /// fetches it. The search is remembered as the last one of its category;
    /// when it starts over, the music results held so far are dropped.
    pub fn search_music(&mut self, query: &str, page: usize) -> (r: Step<MusicUnit>)
        requires
            old(self).wf(),
        ensures
            final(self).wf(),
            r@ == old(self).search_plan(old(self).search_res.music@, Category::Music, query@, page as nat),
            *final(self) == (Fetcher {
                search_res: SearchRes {
                    music: final(self).search_res.music,
                    last_fetched: Some(Category::Music),
                    ..old(self).search_res
                },
                ..*old(self)
            }),
            final(self).search_res.music@ == if old(self).scope_changed(Category::Music, query@) {
                Seq::empty()
            } else {
                old(self).search_res.music@
            },
    {
        let changed = self.scope_changed_exec(Category::Music, query);
        let r = self.search_step(&self.search_res.music, Category::Music, query, page, changed);
        self.search_res.last_fetched = Some(Category::Music);
        if changed {
            self.search_res.music.clear();
        }
        r
    }

    /// Takes the reply to a search of music records for `query`: decoded records
    /// are added after those held, the query is remembered, and the page is
    /// served from the grown list.
    pub fn search_music_reply(
        &mut self,
        query: &str,
        page: usize,
        req: Request,
        reply: Reply<MusicUnit>,
    ) -> (r: Step<MusicUnit>)
        requires
            old(self).wf(),
        ensures
            final(self).wf(),
            match reply {
                Reply::Data(v) => {
                    &&& final(self).search_query@ == query@
                    &&& final(self).search_res.music@ == old(self).search_res.music@ + v@
                    &&& *final(self) == (Fetcher {
                        search_query: final(self).search_query,
                        search_res: SearchRes { music: final(self).search_res.music, ..old(self).search_res },
                        ..*old(self)
                    })
                    &&& r@ == Plan::Serve(page_of(final(self).search_res.music@, page as nat))
                },
                Reply::Malformed => *final(self) == *old(self) && r@ == Plan::<MusicUnit>::Serve(
                    Err(ReturnAction::Failed),
                ),
                Reply::Unreachable => failover(*old(self), *final(self), req, r@),
            },
    {
        match self.send_request(req, reply) {
            Attempt::Decoded(v) => {
                let mut v = v;
                self.search_query = String::from_str(query);
                self.search_res.music.append(&mut v);
                Step::Done(copy_page(&self.search_res.music, page))
            },
            Attempt::Again(q) => Step::Send(q),
            Attempt::Failed => Step::Done(Err(ReturnAction::Failed)),
        }
    }

    /// Page `page` of a search of playlist records for `query`, or the request that
    /// fetches it. The search is remembered as the last one of its category;
    /// when it starts over, the playlist results held so far are dropped.
    pub fn search_playlist(&mut self, query: &str, page: usize) -> (r: Step<PlaylistUnit>)
        requires
            old(self).wf(),
        ensures
            final(self).wf(),
            r@ == old(self).search_plan(old(self).search_res.playlist@, Category::Playlist, query@, page as nat),
            *final(self) == (Fetcher {
                search_res: SearchRes {
                    playlist: final(self).search_res.playlist,
                    last_fetched: Some(Category::Playlist),
                    ..old(self).search_res
                },
                ..*old(self)
            }),
            final(self).search_res.playlist@ == if old(self).scope_changed(Category::Playlist, query@) {
                Seq::empty()
            } else {
                old(self).search_res.playlist@
            },
    {
        let changed = self.scope_changed_exec(Category::Playlist, query);
        let r = self.search_step(&self.search_res.playlist, Category::Playlist, query, page, changed);
        self.search_res.last_fetched = Some(Category::Playlist);
        if changed {
            self.search_res.playlist.clear();
        }
        r
    }

    /// Takes the reply to a search of playlist records for `query`: decoded records
    /// are added after those held, the query is remembered, and the page is
    /// served from the grown list.
    pub fn search_playlist_reply(
        &mut self,
        query: &str,
        page: usize,
        req: Request,
        reply: Reply<PlaylistUnit>,
    ) -> (r: Step<PlaylistUnit>)
        requires
            old(self).wf(),
        ensures
            final(self).wf(),
            match reply {
                Reply::Data(v) => {
                    &&& final(self).search_query@ == query@
                    &&& final(self).search_res.playlist@ == old(self).search_res.playlist@ + v@
                    &&& *final(self) == (Fetcher {
                        search_query: final(self).search_query,
                        search_res: SearchRes { playlist: final(self).search_res.playlist, ..old(self).search_res },
                        ..*old(self)
                    })
                    &&& r@ == Plan::Serve(page_of(final(self).search_res.playlist@, page as nat))
                },
                Reply::Malformed => *final(self) == *old(self) && r@ == Plan::<PlaylistUnit>::Serve(
                    Err(ReturnAction::Failed),
                ),
                Reply::Unreachable => failover(*old(self), *final(self), req, r@),
            },
    {
        match self.send_request(req, reply) {
            Attempt::Decoded(v) => {
                let mut v = v;
                self.search_query = String::from_str(query);
                self.search_res.playlist.append(&mut v);
                Step::Done(copy_page(&self.search_res.playlist, page))
            },
            Attempt::Again(q) => Step::Send(q),
            Attempt::Failed => Step::Done(Err(ReturnAction::Failed)),
        }
    }

    /// Page `page` of a search of artist records for `query`, or the request that
    /// fetches it. The search is remembered as the last one of its category;
    /// when it starts over, the artist results held so far are dropped.
    pub fn search_artist(&mut self, query: &str, page: usize) -> (r: Step<ArtistUnit>)
        requires
            old(self).wf(),
        ensures
            final(self).wf(),
            r@ == old(self).search_plan(old(self).search_res.artist@, Category::Artist, query@, page as nat),
            *final(self) == (Fetcher {
                search_res: SearchRes {
                    artist: final(self).search_res.artist,
                    last_fetched: Some(Category::Artist),
                    ..old(self).search_res
                },
                ..*old(self)
            }),
            final(self).search_res.artist@ == if old(self).scope_changed(Category::Artist, query@) {
                Seq::empty()
            } else {
                old(self).search_res.artist@
            },
    {
        let changed = self.scope_changed_exec(Category::Artist, query);
        let r = self.search_step(&self.search_res.artist, Category::Artist, query, page, changed);
        self.search_res.last_fetched = Some(Category::Artist);
        if changed {
            self.search_res.artist.clear();
        }
        r
    }

    /// Takes the reply to a search of artist records for `query`: decoded records
    /// are added after those held, the query is remembered, and the page is
    /// served from the grown list.
    pub fn search_artist_reply(
        &mut self,
        query: &str,
        page: usize,
        req: Request,
        reply: Reply<ArtistUnit>,
    ) -> (r: Step<ArtistUnit>)
        requires
            old(self).wf(),
        ensures
            final(self).wf(),
            match reply {
                Reply::Data(v) => {
                    &&& final(self).search_query@ == query@
                    &&& final(self).search_res.artist@ == old(self).search_res.artist@ + v@
                    &&& *final(self) == (Fetcher {
                        search_query: final(self).search_query,
                        search_res: SearchRes { artist: final(self).search_res.artist, ..old(self).search_res },
                        ..*old(self)
                    })
                    &&& r@ == Plan::Serve(page_of(final(self).search_res.artist@, page as nat))
                },
                Reply::Malformed => *final(self) == *old(self) && r@ == Plan::<ArtistUnit>::Serve(
                    Err(ReturnAction::Failed),
                ),
                Reply::Unreachable => failover(*old(self), *final(self), req, r@),
            },
    {
        match self.send_request(req, reply) {
            Attempt::Decoded(v) => {
                let mut v = v;
                self.search_query = String::from_str(query);
                self.search_res.artist.append(&mut v);
                Step::Done(copy_page(&self.search_res.artist, page))
            },
            Attempt::Again(q) => Step::Send(q),
            Attempt::Failed => Step::Done(Err(ReturnAction::Failed)),
        }
    }
}

} // verus!
