//! A client library for the Torznab protocol: category-scoped torrent
//! searches whose RSS/XML results are mapped, item by item, into validated
//! `Torrent` records.
//!
//! The heart of the library is the feed-item mapping ([`torrent`]): required
//! fields (title, enclosure length, link) are extracted and validated, the
//! optional `torznab` extension block is scanned for swarm and policy
//! attributes, and each feed item independently becomes a
//! `Result<Torrent, Error>`. The category enumeration ([`torznab_cat`])
//! parameterizes outbound queries, and [`url`] assembles the query URL the
//! transport layer fetches.

pub mod error;
pub mod feed;
pub mod numbers;
pub mod text;
pub mod torrent;
pub mod torznab_cat;
pub mod url;

pub use error::Error;
pub use feed::from_raw;
pub use feed::map_items;
pub use feed::map_raw_items;
pub use feed::RawItem;
pub use feed::torrents_from_feed;
pub use torrent::from_item;
pub use torrent::map_item;
pub use torrent::ExtElem;
pub use torrent::FeedItem;
pub use torrent::Torrent;
pub use torznab_cat::TorznabCategory;
pub use url::build_search_url;
pub use url::search_params;
