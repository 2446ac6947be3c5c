//! The feed side of the pipeline: response bytes are parsed into a feed
//! document by the `rss` crate, each item's fields are gathered as plain
//! values, and each item is mapped independently into a [`Torrent`]
//! outcome.
//!
//! The parse is a function of the bytes alone, so its result carries a name,
//! [`feed_fields_of`], and [`torrents_from_feed`]'s contract pins every
//! outcome to [`map_raw_spec`] of the named items. The `rss` types stay
//! opaque behind the boundary; everything that decides — which extension
//! elements belong to the `torznab` namespace, and the whole field
//! mapping — runs as verified code over the gathered values.

use vstd::prelude::*;

use crate::error::Error;
use crate::error::ErrorSpec;
use crate::text::str_eq;
use crate::torrent;
use crate::torrent::map_item;
use crate::torrent::result_model;
use crate::torrent::ExtElem;
use crate::torrent::FeedItem;
use crate::torrent::Torrent;
use crate::torrent::TorrentSpec;

verus! {

#[verifier::external_type_specification]
#[verifier::external_body]
pub struct ExItem(rss::Item);

/// One feed item as the parser hands it over, every field a plain value:
/// the optional texts, the category tags, and all extension elements as
/// (namespace prefix, element name, elements) triples — not yet narrowed
/// to the `torznab` namespace, so that the narrowing itself is verified.
#[derive(Debug, Clone)]
pub struct RawItem {
    pub title: Option<String>,
    pub enclosure_length: Option<String>,
    pub categories: Vec<String>,
    pub link: Option<String>,
    pub extensions: Vec<(String, String, Vec<ExtElem>)>,
}

/// The items a feed document's bytes parse to, their fields gathered as
/// plain values, or nothing when the bytes hold no RSS document. The parse
/// depends on the bytes alone; [`read_feed_fields`] is the one place that
/// states anything of this name.
pub uninterp spec fn feed_fields_of(bytes: Seq<u8>) -> Option<Seq<RawItem>>;

/// Relies on `rss::Item::extensions`: the item's extension elements as
/// (namespace prefix, element name, elements) triples, each element's XML
/// attributes as name/value pairs; pure conversion of the nested maps.
#[verifier::external_body]
fn extensions_of(item: &rss::Item) -> (r: Vec<(String, String, Vec<ExtElem>)>) {
    item.extensions().iter().flat_map(|(ns, inner)| {
        inner.iter().map(move |(k, els)| {
            (ns.clone(), k.clone(), els.iter().map(|e| ExtElem {
                attrs: e.attrs.iter().map(|(a, b)| (a.clone(), b.clone())).collect(),
            }).collect())
        })
    }).collect()
}

/// Relies on the `rss::Item` getters — `title`, `link`, `enclosure` with
/// `Enclosure::length`, `categories` with `Category::name` — the item's
/// scalar fields as (title, enclosure length, category tags, link);
/// conversion only, order of the category slice kept.
#[verifier::external_body]
fn scalar_fields_of(item: &rss::Item) -> (r: (
    Option<String>,
    Option<String>,
    Vec<String>,
    Option<String>,
)) {
    (
        item.title().map(|s| s.to_string()),
        item.enclosure().map(|e| e.length().to_string()),
        item.categories().iter().map(|c| c.name().to_string()).collect(),
        item.link().map(|s| s.to_string()),
    )
}

/// Gathers one parsed item's fields as plain values, through the two
/// boundary wrappers above.
pub(crate) fn raw_of_item(item: &rss::Item) -> RawItem {
    let (title, enclosure_length, categories, link) = scalar_fields_of(item);
    RawItem { title, enclosure_length, categories, link, extensions: extensions_of(item) }
}

/// Relies on `rss::Channel::read_from` and `rss::Channel::into_items`:
/// parses the bytes and gathers each item's fields through
/// [`raw_of_item`]. The whole computation is deterministic in the bytes,
/// which is all this contract claims of [`feed_fields_of`].
#[verifier::external_body]
fn read_feed_fields(bytes: &Vec<u8>) -> (r: Option<Vec<RawItem>>)
    ensures
        match r {
            Some(items) => feed_fields_of(bytes@) == Some(items@),
            None => feed_fields_of(bytes@) is None,
        },
{
    match rss::Channel::read_from(bytes.as_slice()) {
        Ok(channel) => Some(channel.into_items().iter().map(|item| raw_of_item(item)).collect()),
        Err(_) => None,
    }
}

/// The elements of the first triple under namespace `ns` and element name
/// `key`, if any. Namespace prefixes and element names are unique in the
/// parser's maps, so the first match is the only one.
pub open spec fn triple_lookup(
    ts: Seq<(String, String, Vec<ExtElem>)>,
    ns: Seq<char>,
    key: Seq<char>,
) -> Option<Seq<ExtElem>>
    decreases ts.len(),
{
    if ts.len() == 0 {
        None
    } else if ts[0].0@ == ns && ts[0].1@ == key {
        Some(ts[0].2@)
    } else {
        triple_lookup(ts.drop_first(), ns, key)
    }
}

/// Takes the elements under namespace `ns`, element name `key`, out of the
/// triples, as [`triple_lookup`] describes.
fn extract_triple(ts: Vec<(String, String, Vec<ExtElem>)>, ns: &str, key: &str) -> (r: Option<
    Vec<ExtElem>,
>)
    ensures
        match r {
            Some(v) => triple_lookup(ts@, ns@, key@) == Some(v@),
            None => triple_lookup(ts@, ns@, key@) is None,
        },
{
    let ghost orig = ts@;
    let mut rest = ts;
    let mut found: Option<Vec<ExtElem>> = None;
    while found.is_none() && rest.len() > 0
        invariant
            found is None ==> triple_lookup(orig, ns@, key@) == triple_lookup(rest@, ns@, key@),
            found matches Some(v) ==> triple_lookup(orig, ns@, key@) == Some(v@),
        decreases rest@.len(),
    {
        let ghost pre = rest@;
        let t = rest.remove(0);
        proof {
            assert(pre[0] == t);
            assert(pre.drop_first() =~= rest@);
        }
        if str_eq(t.0.as_str(), ns) && str_eq(t.1.as_str(), key) {
            found = Some(t.2);
        }
    }
    found
}

/// What mapping one gathered item yields: the `attr` elements of the
/// `torznab` namespace are selected from the raw triples, then the field
/// policy of [`torrent::map_fields_spec`] applies.
pub open spec fn map_raw_spec(raw: RawItem) -> Result<TorrentSpec, ErrorSpec> {
    torrent::map_fields_spec(
        raw.title,
        raw.enclosure_length,
        raw.categories@,
        raw.link,
        triple_lookup(raw.extensions@, "torznab"@, "attr"@),
    )
}

/// Maps one gathered item to a validated record, exactly as
/// [`map_raw_spec`] describes: the `torznab`/`attr` selection runs here,
/// verified, and [`torrent::map_item`] does the rest.
pub fn from_raw(raw: RawItem) -> (r: Result<Torrent, Error>)
    ensures
        result_model(r) == map_raw_spec(raw),
{
    let RawItem { title, enclosure_length, categories, link, extensions } = raw;
    let torznab = extract_triple(extensions, "torznab", "attr");
    let item = FeedItem { title, enclosure_length, categories, link, torznab };
    map_item(&item)
}

/// Maps every parsed feed item independently: one outcome per item, an
/// item's failure never touching its siblings.
pub fn map_items(items: Vec<rss::Item>) -> (r: Vec<Result<Torrent, Error>>)
    ensures
        r@.len() == items@.len(),
{
    let ghost n = items@.len();
    let mut rest = items;
    let mut out: Vec<Result<Torrent, Error>> = Vec::new();
    while rest.len() > 0
        invariant
            out@.len() + rest@.len() == n,
        decreases rest@.len(),
    {
        let item = rest.remove(0);
        out.push(torrent::from_item(item));
    }
    out
}

/// Maps every gathered item independently: one outcome per item, in order,
/// each pinned to [`map_raw_spec`] of its item.
pub fn map_raw_items(raws: Vec<RawItem>) -> (r: Vec<Result<Torrent, Error>>)
    ensures
        r@.len() == raws@.len(),
        forall|k: int|
            0 <= k < raws@.len() ==> result_model(#[trigger] r@[k]) == map_raw_spec(raws@[k]),
{
    let ghost orig = raws@;
    let mut rest = raws;
    let mut out: Vec<Result<Torrent, Error>> = Vec::new();
    proof {
        assert(rest@ =~= orig.skip(0));
    }
    while rest.len() > 0
        invariant
            out@.len() + rest@.len() == orig.len(),
            rest@ =~= orig.skip(out@.len() as int),
            forall|j: int|
                0 <= j < out@.len() ==> result_model(#[trigger] out@[j]) == map_raw_spec(orig[j]),
        decreases rest@.len(),
    {
        let ghost pre = rest@;
        let ghost done = out@.len() as int;
        proof {
            assert(pre[0] == orig[done]);
        }
        let item = rest.remove(0);
        out.push(from_raw(item));
        proof {
            assert(pre.drop_first() =~= rest@);
            assert(orig.skip(done).drop_first() =~= orig.skip(done + 1));
        }
    }
    out
}

/// Parses a feed document and maps every item. The document failing to
/// parse is the one whole-feed error, `Feed`; a document that parses to
/// items yields exactly one outcome per item, in order, each pinned to
/// [`map_raw_spec`] of the item [`feed_fields_of`] names at its position.
pub fn torrents_from_feed(bytes: &Vec<u8>) -> (r: Result<Vec<Result<Torrent, Error>>, Error>)
    ensures
        (r matches Ok(outs) ==> feed_fields_of(bytes@) matches Some(items) && outs@.len()
            == items.len() && (forall|k: int|
            0 <= k < items.len() ==> result_model(#[trigger] outs@[k]) == map_raw_spec(items[k]))),
        r matches Err(e) ==> e@ == ErrorSpec::Feed && feed_fields_of(bytes@) is None,
{
    match read_feed_fields(bytes) {
        None => Err(Error::Feed),
        Some(raws) => Ok(map_raw_items(raws)),
    }
}

} // verus!
