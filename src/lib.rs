//! A paginated, caching client engine for a music discovery API served by a
//! pool of interchangeable mirror servers.
//!
//! The engine makes no network calls itself: each page request yields a
//! [`fetcher::Step`], either the finished answer or a request to send, and the
//! reply to that request is handed back to the engine, which decides what
//! happens next (serve, retry on the next mirror, or fail).

pub mod duration;
pub mod fetcher;
pub mod laws;
pub mod page;
pub mod units;

pub use duration::{digits_of, duration_from_string, duration_to_string};
pub use fetcher::{Attempt, Category, Fetcher, Plan, Reply, Request, SearchRes, Step};
pub use page::{copy_page, ReturnAction, ITEM_PER_PAGE};
pub use units::{ArtistUnit, Duplicate, MusicUnit, PlaylistUnit};
