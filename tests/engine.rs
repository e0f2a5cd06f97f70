use fetcher::{
    copy_page, digits_of, duration_to_string, ArtistUnit, Attempt, Fetcher, MusicUnit,
    PlaylistUnit, Reply, Request, ReturnAction, Step, ITEM_PER_PAGE,
};

fn song(i: usize) -> MusicUnit {
    MusicUnit::from_fields(format!("song {}", i), &format!("id{}", i), format!("artist {}", i), i as u64)
}

fn songs(range: std::ops::Range<usize>) -> Vec<MusicUnit> {
    range.map(song).collect()
}

fn expect_send<T>(step: Step<T>) -> Request {
    match step {
        Step::Send(req) => req,
        Step::Done(_) => panic!("expected a request"),
    }
}

fn expect_done<T>(step: Step<T>) -> Result<Vec<T>, ReturnAction> {
    match step {
        Step::Done(r) => r,
        Step::Send(req) => panic!("unexpected request to {}", req.url),
    }
}

#[test]
fn check_format() {
    let obj = MusicUnit::from_fields(
        "Some song title".to_string(),
        "WNgO6G7uERU",
        "CHHEWANG".to_string(),
        271,
    );
    assert_eq!(
        obj,
        MusicUnit {
            liked: false,
            artist: "CHHEWANG".to_string(),
            name: "Some song title".to_string(),
            duration: "4:31".to_string(),
            path: "https://www.youtube.com/watch?v=WNgO6G7uERU".to_string(),
        },
    );
}

#[test]
fn duration_text_is_unpadded() {
    assert_eq!(duration_to_string(271), "4:31");
    assert_eq!(duration_to_string(61), "1:1");
    assert_eq!(duration_to_string(0), "0:0");
    assert_eq!(duration_to_string(3600), "60:0");
    assert_eq!(digits_of(u64::MAX), u64::MAX.to_string());
    assert_eq!(digits_of(1_000_007), "1000007");
}

#[test]
fn page_windows() {
    let items = songs(0..25);
    assert_eq!(ITEM_PER_PAGE, 10);
    assert_eq!(copy_page(&items, 0), Ok(songs(0..10)));
    assert_eq!(copy_page(&items, 2), Ok(songs(20..25)));
    assert_eq!(copy_page(&items, 3), Err(ReturnAction::EOR));
    assert_eq!(copy_page(&items, usize::MAX), Err(ReturnAction::EOR));
    assert_eq!(copy_page(&Vec::<MusicUnit>::new(), 0), Err(ReturnAction::EOR));
}

#[test]
fn end_of_results_at_exact_multiple() {
    let mut f = Fetcher::new();
    let req = expect_send(f.get_trending_music(2));
    assert_eq!(expect_done(f.trending_reply(2, req, Reply::Data(songs(0..20)))), Err(ReturnAction::EOR));
    assert_eq!(expect_done(f.get_trending_music(1)), Ok(songs(10..20)));
}

#[test]
fn trending_is_fetched_once() {
    let mut f = Fetcher::new();
    let req = expect_send(f.get_trending_music(0));
    assert_eq!(
        req.url,
        "https://invidious.snopyta.org/api/v1/trending?type=Music&region=NP&fields=videoId,title,author,lengthSeconds"
    );
    assert_eq!(req.retry_for, 2);
    let first = expect_done(f.trending_reply(0, req, Reply::Data(songs(0..25))));
    assert_eq!(first, Ok(songs(0..10)));
    assert_eq!(expect_done(f.get_trending_music(0)), Ok(songs(0..10)));
    assert_eq!(expect_done(f.get_trending_music(2)), Ok(songs(20..25)));
    assert_eq!(expect_done(f.get_trending_music(3)), Err(ReturnAction::EOR));
}

#[test]
fn playlist_switch_refetches() {
    let mut f = Fetcher::new();
    let req = expect_send(f.get_playlist_content("A", 0));
    assert_eq!(req.url, "https://invidious.snopyta.org/api/v1/playlists/A?fields=videos");
    assert_eq!(req.retry_for, 1);
    assert_eq!(expect_done(f.playlist_reply("A", 0, req, Reply::Data(songs(0..12)))), Ok(songs(0..10)));
    assert_eq!(expect_done(f.get_playlist_content("A", 1)), Ok(songs(10..12)));
    let req = expect_send(f.get_playlist_content("B", 0));
    assert_eq!(expect_done(f.playlist_reply("B", 0, req, Reply::Data(songs(100..103)))), Ok(songs(100..103)));
    assert_eq!(f.playlist_id, "B");
    assert_eq!(f.playlist_content, songs(100..103));
    assert_eq!(expect_done(f.get_playlist_content("B", 1)), Err(ReturnAction::EOR));
}

#[test]
fn empty_playlist_is_fetched_again() {
    let mut f = Fetcher::new();
    let req = expect_send(f.get_playlist_content("E", 0));
    assert_eq!(expect_done(f.playlist_reply("E", 0, req, Reply::Data(Vec::new()))), Err(ReturnAction::EOR));
    assert!(matches!(f.get_playlist_content("E", 0), Step::Send(_)));
}

fn playlists(n: usize) -> Vec<PlaylistUnit> {
    (0..n)
        .map(|i| PlaylistUnit { title: format!("p{}", i), id: format!("PL{}", i), author: "a".to_string(), video_count: i as u64 })
        .collect()
}

#[test]
fn category_switch_refetches() {
    let mut f = Fetcher::new();
    let mut fetches = 0;
    let req = expect_send(f.search_music("x", 0));
    fetches += 1;
    assert_eq!(
        req.url,
        "https://invidious.snopyta.org/api/v1/search?q=x&type=music&region=NP&page=0&fields=videoId,title,author,lengthSeconds"
    );
    assert_eq!(expect_done(f.search_music_reply("x", 0, req, Reply::Data(songs(0..10)))), Ok(songs(0..10)));
    // a full page is served from the cache
    assert_eq!(expect_done(f.search_music("x", 0)), Ok(songs(0..10)));
    let req = expect_send(f.search_playlist("x", 0));
    fetches += 1;
    assert_eq!(
        req.url,
        "https://invidious.snopyta.org/api/v1/search?q=x&type=playlist&region=NP&page=0&fields=title,playlistId,author,videoCount"
    );
    assert_eq!(expect_done(f.search_playlist_reply("x", 0, req, Reply::Data(playlists(10)))), Ok(playlists(10)));
    let req = expect_send(f.search_music("x", 0));
    fetches += 1;
    assert_eq!(f.search_res.music.len(), 0);
    assert_eq!(f.search_res.playlist.len(), 10);
    assert_eq!(expect_done(f.search_music_reply("x", 0, req, Reply::Data(songs(50..60)))), Ok(songs(50..60)));
    assert_eq!(fetches, 3);
}

#[test]
fn short_window_fetches_next_page() {
    let mut f = Fetcher::new();
    let req = expect_send(f.search_artist("y", 0));
    assert!(req.url.contains("type=channel"));
    let artists: Vec<ArtistUnit> =
        (0..15).map(|i| ArtistUnit { author: format!("a{}", i), id: format!("UC{}", i), video_count: 1 }).collect();
    assert_eq!(expect_done(f.search_artist_reply("y", 0, req, Reply::Data(artists[..10].to_vec()))), Ok(artists[..10].to_vec()));
    let req = expect_send(f.search_artist("y", 1));
    assert!(req.url.contains("&page=1&"));
    assert_eq!(expect_done(f.search_artist_reply("y", 1, req, Reply::Data(artists[10..].to_vec()))), Ok(artists[10..].to_vec()));
    assert_eq!(f.search_res.artist, artists);
    // a new query starts over
    let req = expect_send(f.search_artist("z", 0));
    assert_eq!(f.search_res.artist.len(), 0);
    assert_eq!(expect_done(f.search_artist_reply("z", 5, req, Reply::Data(Vec::new()))), Err(ReturnAction::EOR));
    assert_eq!(f.search_query, "z");
}

#[test]
fn failover_moves_to_next_server() {
    let mut f = Fetcher::new();
    let req = expect_send(f.get_playlist_content("A", 0));
    let again = expect_send(f.playlist_reply("A", 0, req, Reply::Unreachable));
    assert_eq!(f.active_server_index, 1);
    assert_eq!(again.url, "https://vid.puffyan.us/api/v1/playlists/A?fields=videos");
    assert_eq!(again.retry_for, 0);
    assert_eq!(expect_done(f.playlist_reply("A", 0, again, Reply::Unreachable)), Err(ReturnAction::Failed));
    assert_eq!(f.active_server_index, 1);
    assert_eq!(f.playlist_content.len(), 0);
}

#[test]
fn trending_retries_twice() {
    let mut f = Fetcher::new();
    let req = expect_send(f.get_trending_music(0));
    let second = expect_send(f.trending_reply(0, req, Reply::Unreachable));
    let third = expect_send(f.trending_reply(0, second, Reply::Unreachable));
    assert_eq!(f.active_server_index, 2);
    assert!(third.url.starts_with("https://ytprivate.com/api/v1/trending"));
    assert_eq!(expect_done(f.trending_reply(0, third, Reply::Data(songs(0..3)))), Ok(songs(0..3)));
}

#[test]
fn malformed_reply_fails_without_retry() {
    let mut f = Fetcher::new();
    let req = expect_send(f.search_music("q", 0));
    assert_eq!(expect_done(f.search_music_reply("q", 0, req, Reply::Malformed)), Err(ReturnAction::Failed));
    assert_eq!(f.active_server_index, 0);
    assert_eq!(f.search_query, "");
}

#[test]
fn send_request_outcomes() {
    let mut f = Fetcher::new();
    let req = Request { url: "u".to_string(), path: "/p".to_string(), retry_for: 1 };
    match f.send_request(req.clone(), Reply::Data(songs(0..2))) {
        Attempt::Decoded(v) => assert_eq!(v, songs(0..2)),
        _ => panic!("expected records"),
    }
    match f.send_request::<MusicUnit>(req, Reply::Unreachable) {
        Attempt::Again(q) => assert_eq!(q.url, "https://vid.puffyan.us/api/v1/p"),
        _ => panic!("expected a retry"),
    }
}

#[test]
fn change_server_wraps() {
    let mut f = Fetcher::new();
    assert_eq!(f.servers.len(), 6);
    for expected in [1, 2, 3, 4, 5, 0, 1] {
        f.change_server();
        assert_eq!(f.active_server_index, expected);
    }
}
