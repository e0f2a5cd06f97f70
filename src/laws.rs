use vstd::prelude::*;

use crate::duration::{
    decimal, duration_seconds, duration_text, first_colon, lemma_decimal_reads_back,
    lemma_field_of_digits,
};
use crate::fetcher::{failover, window_short, Category, Fetcher, Plan, Request};
use crate::page::{page_end, page_of, page_start, ReturnAction, ITEM_PER_PAGE};
use crate::units::MusicUnit;

verus! {

/// With the trending list cached, page `page` is served from it: the records
/// from `page * 10` up to ten more or the end of the list, and the end of the
/// results exactly when `page * 10` is at or past the list's length.
pub proof fn lemma_trending_window(f: Fetcher, page: nat)
    requires
        f.trending_now is Some,
    ensures
        ({
            let s = f.trending_now->Some_0@;
            &&& (f.trending_plan(page) == Plan::<MusicUnit>::Serve(Err(ReturnAction::EOR)))
                <==> page * 10 >= s.len()
            &&& page * 10 < s.len() ==> f.trending_plan(page) == Plan::Serve(
                Ok(s.subrange(page * 10 as int, vstd::math::min(s.len() as int, page * 10 + 10 as int))),
            )
        }),
{
}

/// When a list grows at its end, a page that was already full in it stays the same page.
pub proof fn lemma_full_page_kept<T>(s: Seq<T>, t: Seq<T>, page: nat)
    requires
        s.len() <= t.len(),
        t.subrange(0, s.len() as int) == s,
        !window_short(s.len(), page),
    ensures
        page_of(t, page) == page_of(s, page),
{
    let lo = page_start(page) as int;
    let hi = lo + ITEM_PER_PAGE;
    assert(page_end(s.len(), page) == hi);
    assert(page_end(t.len(), page) == hi);
    assert forall|i: int| 0 <= i < hi - lo implies t.subrange(lo, hi)[i] == s.subrange(lo, hi)[i] by {
        assert(t.subrange(0, s.len() as int)[lo + i] == t[lo + i]);
    }
    assert(t.subrange(lo, hi) =~= s.subrange(lo, hi));
}

/// The trending list is fetched at most once: once a reply has stored it,
/// every later trending page is served from the cache, with no request.
pub proof fn lemma_trending_fetched_once(f: Fetcher, v: Vec<MusicUnit>, page: nat)
    ensures
        (Fetcher { trending_now: Some(v), ..f }).trending_plan(page) == Plan::Serve(
            page_of(v@, page),
        ),
        f.trending_plan(page) is Fetch ==> f.trending_now is None,
{
}

/// Switching playlists fetches once for each: a request for `a` on a state
/// keyed otherwise fetches, a request for `b` after `a`'s reply fetches again,
/// and after `b`'s reply the cache holds `b`'s records alone.
pub proof fn lemma_playlist_switch(
    f: Fetcher,
    g: Fetcher,
    h: Fetcher,
    a: Seq<char>,
    b: Seq<char>,
    va: Vec<MusicUnit>,
    vb: Vec<MusicUnit>,
)
    requires
        a != b,
        f.playlist_id@ != a,
        g.playlist_id@ == a,
        g == (Fetcher { playlist_id: g.playlist_id, playlist_content: va, ..f }),
        h.playlist_id@ == b,
        h == (Fetcher { playlist_id: h.playlist_id, playlist_content: vb, ..g }),
    ensures
        f.playlist_plan(a, 0) is Fetch,
        g.playlist_plan(b, 0) is Fetch,
        h.playlist_content == vb,
        h.playlist_plan(b, 0) is Fetch <==> vb@.len() == 0,
{
}

/// Searching music, then playlists, then music again for one query fetches
/// three times. `f1` is the state after the music search began and `f2` after
/// its reply; `f3` and `f4` the same for the playlist search. Each search
/// marks its category as the last one and a reply keeps that mark, so the
/// second music search starts over though the query is the same.
pub proof fn lemma_category_switch(
    f0: Fetcher,
    f1: Fetcher,
    f2: Fetcher,
    f3: Fetcher,
    f4: Fetcher,
    x: Seq<char>,
)
    requires
        f0.search_res.last_fetched != Some(Category::Music),
        f1.search_res.last_fetched == Some(Category::Music),
        f2.search_res.last_fetched == f1.search_res.last_fetched,
        f3.search_res.last_fetched == Some(Category::Playlist),
        f4.search_res.last_fetched == f3.search_res.last_fetched,
    ensures
        f0.search_plan(f0.search_res.music@, Category::Music, x, 0) is Fetch,
        f2.search_plan(f2.search_res.playlist@, Category::Playlist, x, 0) is Fetch,
        f4.search_plan(f4.search_res.music@, Category::Music, x, 0) is Fetch,
        f4.scope_changed(Category::Music, x),
{
}

/// With more than one server, a request that got no answer and has retries
/// left moves the pool to another server and is sent again there.
pub proof fn lemma_failover_moves<T>(before: Fetcher, after: Fetcher, req: Request, plan: Plan<T>)
    requires
        before.wf(),
        before.servers@.len() > 1,
        req.retry_for > 0,
        failover(before, after, req, plan),
    ensures
        after.wf(),
        after.active_server_index != before.active_server_index,
        plan == Plan::<T>::Fetch(after.base() + req.path@, req.path@, (req.retry_for - 1) as u32),
{
    let n = before.servers@.len() as int;
    let i = before.active_server_index as int;
    assert(n == before.servers.len());
    assert((i + 1) % n != i && 0 <= (i + 1) % n < n) by (nonlinear_arith)
        requires
            0 <= i < n,
            n > 1,
    ;
    assert(after.active_server_index as int == (i + 1) % n);
}

/// A page that starts exactly at the end of a list whose length is a multiple
/// of the page size is the end of the results, not an empty page.
pub proof fn lemma_end_at_boundary<T>(s: Seq<T>, page: nat)
    requires
        s.len() % 10 == 0,
        page * 10 == s.len(),
    ensures
        page_of(s, page) == Err::<Seq<T>, ReturnAction>(ReturnAction::EOR),
{
}


/// Writing a length in seconds as "minutes:seconds" and reading the text
/// back gives the same length.
pub proof fn lemma_duration_round_trip(seconds: u64)
    ensures
        duration_seconds(duration_text(seconds as nat)) == seconds,
{
    let m = seconds as nat / 60;
    let s = seconds as nat % 60;
    let dm = decimal(m);
    let ds = decimal(s);
    let t = duration_text(seconds as nat);
    lemma_decimal_reads_back(m);
    lemma_decimal_reads_back(s);
    let i = dm.len() as int;
    assert(t[i] == ':');
    assert forall|j: int| 0 <= j < i implies t[j] != ':' by {
        assert(t[j] == dm[j]);
    }
    assert(first_colon(t, i));
    let k = choose|k: int| first_colon(t, k);
    if k < i {
        assert(t[k] == dm[k]);
    }
    assert(k == i);
    assert(t.subrange(0, i) =~= dm);
    assert(t.subrange(i + 1, t.len() as int) =~= ds);
    lemma_field_of_digits(dm);
    lemma_field_of_digits(ds);
}

} // verus!
