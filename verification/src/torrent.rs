//! Mapping one feed item into a validated [`Torrent`] record.
//!
//! A feed item arrives as loosely-structured text: an optional title and
//! link, an enclosure whose byte length is a string, category tags whose
//! codes are strings, and an optional `torznab` extension block of
//! name/value attribute records. [`map_item`] extracts and validates every
//! field, and its contract pins the outcome to [`map_item_spec`], the
//! mathematical statement of the whole policy: which error each malformed
//! shape produces, and field by field what a successful record holds.

use vstd::prelude::*;

use crate::error::Error;
use crate::error::ErrorSpec;
use crate::numbers;
use crate::numbers::is_float_text;
use crate::numbers::u16_of_dec;
use crate::numbers::u32_of_dec;
use crate::numbers::u64_of_dec;
use crate::text::str_eq;

verus! {

/// One element of an extension block: its XML attributes as name/value
/// pairs, in attribute-name order (they come from the parser's ordered
/// map, whose keys are unique).
#[derive(Debug, Clone)]
pub struct ExtElem {
    pub attrs: Vec<(String, String)>,
}

/// The fields of one feed item that the mapping reads, as plain values.
/// `torznab` is `Some` exactly when the item carries `attr` elements of the
/// `torznab` extension namespace (possibly zero of them); the distinction
/// between a missing block and an empty one drives the `EmptyExtension`
/// policy.
#[derive(Debug, Clone)]
pub struct FeedItem {
    pub title: Option<String>,
    pub enclosure_length: Option<String>,
    pub categories: Vec<String>,
    pub link: Option<String>,
    pub torznab: Option<Vec<ExtElem>>,
}

/// A validated torrent record, one per successfully mapped feed item.
/// `minimum_ratio` keeps the validated floating-point text rather than a
/// float value; `minimum_seedtime` is a duration in whole seconds.
#[derive(Debug, Clone)]
pub struct Torrent {
    pub name: String,
    pub size: u64,
    pub categories: Vec<u32>,
    pub link: String,
    pub seeders: Option<u16>,
    pub leechers: Option<u16>,
    pub minimum_ratio: Option<String>,
    pub minimum_seedtime: Option<u64>,
}

/// The mathematical value of a [`Torrent`].
pub ghost struct TorrentSpec {
    pub name: Seq<char>,
    pub size: u64,
    pub categories: Seq<u32>,
    pub link: Seq<char>,
    pub seeders: Option<u16>,
    pub leechers: Option<u16>,
    pub minimum_ratio: Option<Seq<char>>,
    pub minimum_seedtime: Option<u64>,
}

impl View for Torrent {
    type V = TorrentSpec;

    open spec fn view(&self) -> TorrentSpec {
        TorrentSpec {
            name: self.name@,
            size: self.size,
            categories: self.categories@,
            link: self.link@,
            seeders: self.seeders,
            leechers: self.leechers,
            minimum_ratio: match self.minimum_ratio {
                Some(s) => Some(s@),
                None => None,
            },
            minimum_seedtime: self.minimum_seedtime,
        }
    }
}

/// The value of the first pair of `ps` whose name is `key`, if any. This is
/// the lookup an attribute map offers, stated over pairs in order.
pub open spec fn pair_lookup(ps: Seq<(String, String)>, key: Seq<char>) -> Option<Seq<char>>
    decreases ps.len(),
{
    if ps.len() == 0 {
        None
    } else if ps[0].0@ == key {
        Some(ps[0].1@)
    } else {
        pair_lookup(ps.drop_first(), key)
    }
}

/// The named attribute of one extension element.
pub open spec fn attr_of(el: ExtElem, key: Seq<char>) -> Option<Seq<char>> {
    pair_lookup(el.attrs@, key)
}

/// The value of the first element of `els` that carries both a `name`
/// attribute equal to `key` and a `value` attribute. An element whose
/// `name` matches but which lacks a `value` is passed over.
pub open spec fn lookup_value(els: Seq<ExtElem>, key: Seq<char>) -> Option<Seq<char>>
    decreases els.len(),
{
    if els.len() == 0 {
        None
    } else if attr_of(els[0], "name"@) == Some(key) && attr_of(els[0], "value"@) is Some {
        attr_of(els[0], "value"@)
    } else {
        lookup_value(els.drop_first(), key)
    }
}

/// The extension block as a sequence, when present.
pub open spec fn tz_view(tz: Option<Vec<ExtElem>>) -> Option<Seq<ExtElem>> {
    match tz {
        Some(els) => Some(els@),
        None => None,
    }
}

/// One extension lookup: no block at all yields `None` silently; a block
/// with zero records is a hard `EmptyExtension` error carrying the key that
/// was being sought; otherwise the first matching record's value.
pub open spec fn ext_value(tz: Option<Seq<ExtElem>>, key: Seq<char>) -> Result<
    Option<Seq<char>>,
    ErrorSpec,
> {
    match tz {
        None => Ok(None),
        Some(els) => if els.len() == 0 {
            Err(ErrorSpec::EmptyExtension(key))
        } else {
            Ok(lookup_value(els, key))
        },
    }
}

/// Whether every category tag parses as an unsigned 32-bit code.
pub open spec fn cats_ok(cs: Seq<String>) -> bool {
    forall|i: int| 0 <= i < cs.len() ==> u32_of_dec(#[trigger] cs[i]@) is Some
}

/// The parsed category codes, in tag order, not deduplicated.
pub open spec fn parsed_cats(cs: Seq<String>) -> Seq<u32> {
    Seq::new(cs.len(), |i: int| u32_of_dec(cs[i]@)->0)
}

/// The swarm counters the extension block yields: `seeders` from the
/// `seeders` key, and `leechers` derived as `peers - seeders` (saturating
/// at zero should a feed report fewer peers than seeders) — computed only
/// when `seeders` was found, so `leechers` is never present without it.
pub open spec fn swarm_of(tz: Option<Seq<ExtElem>>) -> Result<
    (Option<u16>, Option<u16>),
    ErrorSpec,
> {
    match ext_value(tz, "seeders"@) {
        Err(e) => Err(e),
        Ok(None) => Ok((None, None)),
        Ok(Some(sv)) => match u16_of_dec(sv) {
            None => Err(ErrorSpec::ParseInt),
            Some(s) => match ext_value(tz, "peers"@) {
                Err(e) => Err(e),
                Ok(None) => Ok((Some(s), None)),
                Ok(Some(pv)) => match u16_of_dec(pv) {
                    None => Err(ErrorSpec::ParseInt),
                    Some(p) => Ok(
                        (
                            Some(s),
                            Some(
                                if p >= s {
                                    (p - s) as u16
                                } else {
                                    0u16
                                },
                            ),
                        ),
                    ),
                },
            },
        },
    }
}

/// The retention-ratio requirement: the value under the `minimumrato` key
/// (the key is a fixed wire constant, spelled as indexers emit it), kept as
/// validated floating-point text.
pub open spec fn ratio_of(tz: Option<Seq<ExtElem>>) -> Result<Option<Seq<char>>, ErrorSpec> {
    match ext_value(tz, "minimumrato"@) {
        Err(e) => Err(e),
        Ok(None) => Ok(None),
        Ok(Some(v)) => if is_float_text(v) {
            Ok(Some(v))
        } else {
            Err(ErrorSpec::ParseFloat)
        },
    }
}

/// The retention-time requirement in seconds, from the `minimumseedtime`
/// key.
pub open spec fn seedtime_of(tz: Option<Seq<ExtElem>>) -> Result<Option<u64>, ErrorSpec> {
    match ext_value(tz, "minimumseedtime"@) {
        Err(e) => Err(e),
        Ok(None) => Ok(None),
        Ok(Some(v)) => match u64_of_dec(v) {
            None => Err(ErrorSpec::ParseInt),
            Some(n) => Ok(Some(n)),
        },
    }
}

/// What mapping yields for the given field values: the complete policy, in
/// the order the fields are examined. Each failure is terminal for this one
/// item only.
pub open spec fn map_fields_spec(
    title: Option<String>,
    enclosure_length: Option<String>,
    categories: Seq<String>,
    link: Option<String>,
    tz: Option<Seq<ExtElem>>,
) -> Result<TorrentSpec, ErrorSpec> {
    if title is None {
        Err(ErrorSpec::MissingTitle)
    } else if enclosure_length is None {
        Err(ErrorSpec::MissingSize)
    } else if u64_of_dec(enclosure_length->0@) is None {
        Err(ErrorSpec::ParseInt)
    } else if !cats_ok(categories) {
        Err(ErrorSpec::ParseInt)
    } else if link is None {
        Err(ErrorSpec::MissingLink)
    } else {
        match swarm_of(tz) {
            Err(e) => Err(e),
            Ok(sl) => match ratio_of(tz) {
                Err(e) => Err(e),
                Ok(ratio) => match seedtime_of(tz) {
                    Err(e) => Err(e),
                    Ok(seedtime) => Ok(
                        TorrentSpec {
                            name: title->0@,
                            size: u64_of_dec(enclosure_length->0@)->0,
                            categories: parsed_cats(categories),
                            link: link->0@,
                            seeders: sl.0,
                            leechers: sl.1,
                            minimum_ratio: ratio,
                            minimum_seedtime: seedtime,
                        },
                    ),
                },
            },
        }
    }
}

/// What mapping one feed item yields: [`map_fields_spec`] over its fields.
pub open spec fn map_item_spec(item: FeedItem) -> Result<TorrentSpec, ErrorSpec> {
    map_fields_spec(
        item.title,
        item.enclosure_length,
        item.categories@,
        item.link,
        tz_view(item.torznab),
    )
}

/// A mapping outcome, field views in place of field values.
pub open spec fn result_model(r: Result<Torrent, Error>) -> Result<TorrentSpec, ErrorSpec> {
    match r {
        Ok(t) => Ok(t@),
        Err(e) => Err(e@),
    }
}

/// Finds the first attribute pair named `key`.
fn find_attr<'a>(attrs: &'a Vec<(String, String)>, key: &str) -> (r: Option<&'a String>)
    ensures
        match r {
            Some(v) => pair_lookup(attrs@, key@) == Some(v@),
            None => pair_lookup(attrs@, key@) is None,
        },
{
    proof {
        assert(attrs@.skip(0) =~= attrs@);
    }
    let mut i: usize = 0;
    while i < attrs.len()
        invariant
            0 <= i <= attrs@.len(),
            pair_lookup(attrs@, key@) == pair_lookup(attrs@.skip(i as int), key@),
        decreases attrs@.len() - i,
    {
        proof {
            assert(attrs@.skip(i as int)[0] == attrs@[i as int]);
            assert(attrs@.skip(i as int).drop_first() =~= attrs@.skip(i as int + 1));
        }
        if str_eq(attrs[i].0.as_str(), key) {
            return Some(&attrs[i].1);
        }
        i += 1;
    }
    None
}

/// Finds the value of the first element whose `name` attribute is `key` and
/// which carries a `value` attribute, as [`lookup_value`] describes.
fn lookup_ext<'a>(els: &'a Vec<ExtElem>, key: &str) -> (r: Option<&'a String>)
    ensures
        match r {
            Some(v) => lookup_value(els@, key@) == Some(v@),
            None => lookup_value(els@, key@) is None,
        },
{
    proof {
        assert(els@.skip(0) =~= els@);
    }
    let mut i: usize = 0;
    while i < els.len()
        invariant
            0 <= i <= els@.len(),
            lookup_value(els@, key@) == lookup_value(els@.skip(i as int), key@),
        decreases els@.len() - i,
    {
        proof {
            assert(els@.skip(i as int)[0] == els@[i as int]);
            assert(els@.skip(i as int).drop_first() =~= els@.skip(i as int + 1));
        }
        let name = find_attr(&els[i].attrs, "name");
        let value = find_attr(&els[i].attrs, "value");
        match (name, value) {
            (Some(n), Some(v)) => {
                if str_eq(n.as_str(), key) {
                    return Some(v);
                }
            },
            _ => {},
        }
        i += 1;
    }
    None
}

/// One extension lookup over the optional block, as [`ext_value`]
/// describes.
fn ext_value_exec<'a>(tz: &'a Option<Vec<ExtElem>>, key: &str) -> (r: Result<
    Option<&'a String>,
    Error,
>)
    ensures
        match r {
            Ok(Some(v)) => ext_value(tz_view(*tz), key@) == Ok::<Option<Seq<char>>, ErrorSpec>(
                Some(v@),
            ),
            Ok(None) => ext_value(tz_view(*tz), key@) == Ok::<Option<Seq<char>>, ErrorSpec>(None),
            Err(e) => ext_value(tz_view(*tz), key@) == Err::<Option<Seq<char>>, ErrorSpec>(e@),
        },
{
    match tz {
        None => Ok(None),
        Some(els) => {
            if els.len() == 0 {
                Err(Error::EmptyExtension(String::from_str(key)))
            } else {
                Ok(lookup_ext(els, key))
            }
        },
    }
}

/// Parses every category tag as an unsigned 32-bit code, or reports that
/// some tag does not parse.
fn parse_categories(cs: &Vec<String>) -> (r: Option<Vec<u32>>)
    ensures
        match r {
            Some(v) => cats_ok(cs@) && v@ == parsed_cats(cs@),
            None => !cats_ok(cs@),
        },
{
    let mut out: Vec<u32> = Vec::new();
    let mut i: usize = 0;
    while i < cs.len()
        invariant
            0 <= i <= cs@.len(),
            out@.len() == i,
            forall|j: int| 0 <= j < i ==> u32_of_dec(#[trigger] cs@[j]@) is Some,
            forall|j: int| 0 <= j < i ==> out@[j] == u32_of_dec(#[trigger] cs@[j]@)->0,
        decreases cs@.len() - i,
    {
        match numbers::parse_u32(cs[i].as_str()) {
            Some(v) => out.push(v),
            None => {
                return None;
            },
        }
        i += 1;
    }
    proof {
        assert(out@ =~= parsed_cats(cs@));
    }
    Some(out)
}

/// Maps one feed item to a validated record, exactly as [`map_item_spec`]
/// describes: the required fields become `name`, `size`, `categories` and
/// `link`; the optional extension block yields the swarm counters and
/// retention policy; and each malformed shape yields its own error.
pub fn map_item(item: &FeedItem) -> (r: Result<Torrent, Error>)
    ensures
        result_model(r) == map_item_spec(*item),
{
    let name = match &item.title {
        Some(t) => t.clone(),
        None => {
            return Err(Error::MissingTitle);
        },
    };
    let size = match &item.enclosure_length {
        None => {
            return Err(Error::MissingSize);
        },
        Some(lt) => match numbers::parse_u64(lt.as_str()) {
            Some(v) => v,
            None => {
                return Err(Error::ParseInt);
            },
        },
    };
    let categories = match parse_categories(&item.categories) {
        Some(v) => v,
        None => {
            return Err(Error::ParseInt);
        },
    };
    let link = match &item.link {
        Some(l) => l.clone(),
        None => {
            return Err(Error::MissingLink);
        },
    };
    let mut seeders: Option<u16> = None;
    let mut leechers: Option<u16> = None;
    match ext_value_exec(&item.torznab, "seeders") {
        Err(e) => {
            return Err(e);
        },
        Ok(None) => {},
        Ok(Some(sv)) => match numbers::parse_u16(sv.as_str()) {
            None => {
                return Err(Error::ParseInt);
            },
            Some(s) => {
                seeders = Some(s);
                match ext_value_exec(&item.torznab, "peers") {
                    Err(e) => {
                        return Err(e);
                    },
                    Ok(None) => {},
                    Ok(Some(pv)) => match numbers::parse_u16(pv.as_str()) {
                        None => {
                            return Err(Error::ParseInt);
                        },
                        Some(p) => {
                            leechers = Some(
                                if p >= s {
                                    p - s
                                } else {
                                    0
                                },
                            );
                        },
                    },
                }
            },
        },
    }
    let minimum_ratio = match ext_value_exec(&item.torznab, "minimumrato") {
        Err(e) => {
            return Err(e);
        },
        Ok(None) => None,
        Ok(Some(v)) => {
            if numbers::is_float_literal(v.as_str()) {
                Some(v.clone())
            } else {
                return Err(Error::ParseFloat);
            }
        },
    };
    let minimum_seedtime = match ext_value_exec(&item.torznab, "minimumseedtime") {
        Err(e) => {
            return Err(e);
        },
        Ok(None) => None,
        Ok(Some(v)) => match numbers::parse_u64(v.as_str()) {
            None => {
                return Err(Error::ParseInt);
            },
            Some(n) => Some(n),
        },
    };
    Ok(
        Torrent {
            name,
            size,
            categories,
            link,
            seeders,
            leechers,
            minimum_ratio,
            minimum_seedtime,
        },
    )
}

/// Maps one externally-parsed feed item: gathers the fields the mapping
/// reads as plain values, then applies [`crate::feed::from_raw`], whose
/// contract pins the outcome for the gathered fields.
pub fn from_item(item: rss::Item) -> Result<Torrent, Error> {
    crate::feed::from_raw(crate::feed::raw_of_item(&item))
}

/// Mapping is complete: an item whose required fields are present and
/// well-formed, and whose extension block (if any) raises no error, maps
/// successfully, and the record's `name`, `size` and `link` are exactly the
/// item's title, parsed enclosure length and link, with the category codes
/// in tag order.
pub proof fn lemma_map_item_complete(item: FeedItem)
    requires
        item.title is Some,
        item.enclosure_length is Some,
        u64_of_dec(item.enclosure_length->0@) is Some,
        cats_ok(item.categories@),
        item.link is Some,
        swarm_of(tz_view(item.torznab)) is Ok,
        ratio_of(tz_view(item.torznab)) is Ok,
        seedtime_of(tz_view(item.torznab)) is Ok,
    ensures
        map_item_spec(item) is Ok,
        map_item_spec(item)->Ok_0.name == item.title->0@,
        map_item_spec(item)->Ok_0.size == u64_of_dec(item.enclosure_length->0@)->0,
        map_item_spec(item)->Ok_0.link == item.link->0@,
        map_item_spec(item)->Ok_0.categories == parsed_cats(item.categories@),
        map_item_spec(item)->Ok_0.seeders == swarm_of(tz_view(item.torznab))->Ok_0.0,
        map_item_spec(item)->Ok_0.leechers == swarm_of(tz_view(item.torznab))->Ok_0.1,
        map_item_spec(item)->Ok_0.minimum_ratio == ratio_of(tz_view(item.torznab))->Ok_0,
        map_item_spec(item)->Ok_0.minimum_seedtime == seedtime_of(tz_view(item.torznab))->Ok_0,
{
}

/// A missing title is reported as exactly `MissingTitle`.
pub proof fn lemma_missing_title(item: FeedItem)
    requires
        item.title is None,
    ensures
        map_item_spec(item) == Err::<TorrentSpec, ErrorSpec>(ErrorSpec::MissingTitle),
{
}

/// A missing enclosure is reported as exactly `MissingSize`.
pub proof fn lemma_missing_size(item: FeedItem)
    requires
        item.title is Some,
        item.enclosure_length is None,
    ensures
        map_item_spec(item) == Err::<TorrentSpec, ErrorSpec>(ErrorSpec::MissingSize),
{
}

/// A missing link is reported as exactly `MissingLink` once the fields
/// examined before it are well-formed.
pub proof fn lemma_missing_link(item: FeedItem)
    requires
        item.title is Some,
        item.enclosure_length is Some,
        u64_of_dec(item.enclosure_length->0@) is Some,
        cats_ok(item.categories@),
        item.link is None,
    ensures
        map_item_spec(item) == Err::<TorrentSpec, ErrorSpec>(ErrorSpec::MissingLink),
{
}

/// When the `seeders` key yields nothing, the record carries neither
/// seeders nor leechers, whatever the `peers` key holds.
pub proof fn lemma_seeders_absent(item: FeedItem, t: TorrentSpec)
    requires
        map_item_spec(item) == Ok::<TorrentSpec, ErrorSpec>(t),
        ext_value(tz_view(item.torznab), "seeders"@) == Ok::<Option<Seq<char>>, ErrorSpec>(None),
    ensures
        t.seeders is None,
        t.leechers is None,
{
}

/// A successful record never carries leechers without seeders.
pub proof fn lemma_leechers_need_seeders(item: FeedItem, t: TorrentSpec)
    requires
        map_item_spec(item) == Ok::<TorrentSpec, ErrorSpec>(t),
        t.seeders is None,
    ensures
        t.leechers is None,
{
}

/// When both `seeders` and `peers` are present and `peers >= seeders`, the
/// record's leechers count is exactly their difference.
pub proof fn lemma_leechers_difference(item: FeedItem, t: TorrentSpec, sv: Seq<char>, pv: Seq<char>)
    requires
        map_item_spec(item) == Ok::<TorrentSpec, ErrorSpec>(t),
        ext_value(tz_view(item.torznab), "seeders"@) == Ok::<Option<Seq<char>>, ErrorSpec>(
            Some(sv),
        ),
        ext_value(tz_view(item.torznab), "peers"@) == Ok::<Option<Seq<char>>, ErrorSpec>(Some(pv)),
        u16_of_dec(pv)->0 >= u16_of_dec(sv)->0,
    ensures
        t.seeders == Some(u16_of_dec(sv)->0),
        t.leechers == Some((u16_of_dec(pv)->0 - u16_of_dec(sv)->0) as u16),
{
}

} // verus!
