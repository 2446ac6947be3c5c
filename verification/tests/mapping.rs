use torznab::from_raw;
use torznab::map_item;
use torznab::Error;
use torznab::ExtElem;
use torznab::FeedItem;
use torznab::RawItem;

fn attr(name: &str, value: &str) -> ExtElem {
    ExtElem {
        attrs: vec![
            ("name".to_string(), name.to_string()),
            ("value".to_string(), value.to_string()),
        ],
    }
}

fn base_item() -> FeedItem {
    FeedItem {
        title: Some("Example.Release.2021.1080p".to_string()),
        enclosure_length: Some("1820639152".to_string()),
        categories: vec!["2040".to_string(), "100054".to_string()],
        link: Some("magnet:?xt=urn:btih:abc".to_string()),
        torznab: None,
    }
}

#[test]
fn valid_item_maps_exactly() {
    let mut item = base_item();
    item.torznab = Some(vec![attr("seeders", "264"), attr("peers", "287")]);
    let t = map_item(&item).unwrap();
    assert_eq!(t.name, "Example.Release.2021.1080p");
    assert_eq!(t.size, 1820639152);
    assert_eq!(t.link, "magnet:?xt=urn:btih:abc");
    assert_eq!(t.categories, vec![2040, 100054]);
    assert_eq!(t.seeders, Some(264));
    assert_eq!(t.leechers, Some(287 - 264));
    assert_eq!(t.minimum_ratio, None);
    assert_eq!(t.minimum_seedtime, None);
}

#[test]
fn missing_title_is_specific() {
    let mut item = base_item();
    item.title = None;
    assert!(matches!(map_item(&item), Err(Error::MissingTitle)));
}

#[test]
fn missing_enclosure_is_specific() {
    let mut item = base_item();
    item.enclosure_length = None;
    assert!(matches!(map_item(&item), Err(Error::MissingSize)));
}

#[test]
fn missing_link_is_specific() {
    let mut item = base_item();
    item.link = None;
    assert!(matches!(map_item(&item), Err(Error::MissingLink)));
}

#[test]
fn non_numeric_enclosure_length_fails() {
    let mut item = base_item();
    item.enclosure_length = Some("about 2GB".to_string());
    assert!(matches!(map_item(&item), Err(Error::ParseInt)));
}

#[test]
fn non_numeric_category_fails() {
    let mut item = base_item();
    item.categories = vec!["2040".to_string(), "movies".to_string()];
    assert!(matches!(map_item(&item), Err(Error::ParseInt)));
}

#[test]
fn seeders_absent_leaves_leechers_none() {
    // Even with peers present, no seeders means no leechers.
    let mut item = base_item();
    item.torznab = Some(vec![attr("peers", "287")]);
    let t = map_item(&item).unwrap();
    assert_eq!(t.seeders, None);
    assert_eq!(t.leechers, None);
}

#[test]
fn peers_absent_leaves_leechers_none() {
    let mut item = base_item();
    item.torznab = Some(vec![attr("seeders", "264")]);
    let t = map_item(&item).unwrap();
    assert_eq!(t.seeders, Some(264));
    assert_eq!(t.leechers, None);
}

#[test]
fn leechers_is_peers_minus_seeders() {
    let mut item = base_item();
    item.torznab = Some(vec![attr("seeders", "109"), attr("peers", "133")]);
    let t = map_item(&item).unwrap();
    assert_eq!(t.leechers, Some(24));
}

#[test]
fn fewer_peers_than_seeders_saturates_to_zero() {
    let mut item = base_item();
    item.torznab = Some(vec![attr("seeders", "10"), attr("peers", "7")]);
    let t = map_item(&item).unwrap();
    assert_eq!(t.seeders, Some(10));
    assert_eq!(t.leechers, Some(0));
}

#[test]
fn empty_extension_block_is_an_error() {
    // A block that exists but holds zero records fails on the first lookup,
    // which asks for the seeders key; it must not silently yield None.
    let mut item = base_item();
    item.torznab = Some(vec![]);
    match map_item(&item) {
        Err(Error::EmptyExtension(key)) => assert_eq!(key, "seeders"),
        other => panic!("expected EmptyExtension, got {other:?}"),
    }
}

#[test]
fn absent_extension_block_yields_all_none() {
    let item = base_item();
    let t = map_item(&item).unwrap();
    assert_eq!(t.seeders, None);
    assert_eq!(t.leechers, None);
    assert_eq!(t.minimum_ratio, None);
    assert_eq!(t.minimum_seedtime, None);
}

#[test]
fn non_numeric_seeders_fails() {
    let mut item = base_item();
    item.torznab = Some(vec![attr("seeders", "many")]);
    assert!(matches!(map_item(&item), Err(Error::ParseInt)));
}

#[test]
fn ratio_text_is_kept_when_it_is_a_float() {
    let mut item = base_item();
    item.torznab = Some(vec![attr("minimumrato", "1.5")]);
    let t = map_item(&item).unwrap();
    assert_eq!(t.minimum_ratio.as_deref(), Some("1.5"));
    assert_eq!(t.minimum_ratio.as_deref().map(|s| s.parse::<f32>().unwrap()), Some(1.5));
}

#[test]
fn non_float_ratio_fails() {
    let mut item = base_item();
    item.torznab = Some(vec![attr("minimumrato", "one point five")]);
    assert!(matches!(map_item(&item), Err(Error::ParseFloat)));
}

#[test]
fn seedtime_is_seconds() {
    let mut item = base_item();
    item.torznab = Some(vec![attr("minimumseedtime", "86400")]);
    let t = map_item(&item).unwrap();
    assert_eq!(t.minimum_seedtime, Some(86400));
}

#[test]
fn non_numeric_seedtime_fails() {
    let mut item = base_item();
    item.torznab = Some(vec![attr("minimumseedtime", "a day")]);
    assert!(matches!(map_item(&item), Err(Error::ParseInt)));
}

#[test]
fn record_without_value_attribute_is_passed_over() {
    // A record whose name matches but which lacks a value attribute does
    // not satisfy the lookup; a later complete record does.
    let mut item = base_item();
    item.torznab = Some(vec![
        ExtElem { attrs: vec![("name".to_string(), "seeders".to_string())] },
        attr("seeders", "42"),
    ]);
    let t = map_item(&item).unwrap();
    assert_eq!(t.seeders, Some(42));
}

#[test]
fn unrelated_records_are_ignored() {
    let mut item = base_item();
    item.torznab = Some(vec![
        attr("imdbid", "tt2076822"),
        attr("downloadvolumefactor", "0"),
        attr("seeders", "19"),
        attr("peers", "21"),
    ]);
    let t = map_item(&item).unwrap();
    assert_eq!(t.seeders, Some(19));
    assert_eq!(t.leechers, Some(2));
}

#[test]
fn error_descriptions_are_fixed() {
    assert_eq!(Error::MissingTitle.describe(), "missing title");
    assert_eq!(Error::ParseFloat.describe(), "failed to parse float");
    assert_eq!(Error::Feed.describe(), "failed to read feed");
}

fn raw_base() -> RawItem {
    RawItem {
        title: Some("Example.Release.2021.1080p".to_string()),
        enclosure_length: Some("1820639152".to_string()),
        categories: vec!["2040".to_string()],
        link: Some("magnet:?xt=urn:btih:abc".to_string()),
        extensions: vec![],
    }
}

#[test]
fn raw_item_selects_the_torznab_attr_triple() {
    let mut raw = raw_base();
    raw.extensions = vec![
        ("dc".to_string(), "creator".to_string(), vec![attr("seeders", "999")]),
        ("torznab".to_string(), "other".to_string(), vec![attr("seeders", "888")]),
        ("torznab".to_string(), "attr".to_string(), vec![attr("seeders", "7"), attr("peers", "9")]),
    ];
    let t = from_raw(raw).unwrap();
    assert_eq!(t.seeders, Some(7));
    assert_eq!(t.leechers, Some(2));
}

#[test]
fn raw_item_without_torznab_attr_yields_all_none() {
    let mut raw = raw_base();
    raw.extensions = vec![
        ("atom".to_string(), "link".to_string(), vec![attr("seeders", "999")]),
    ];
    let t = from_raw(raw).unwrap();
    assert_eq!(t.seeders, None);
    assert_eq!(t.leechers, None);
    assert_eq!(t.minimum_ratio, None);
    assert_eq!(t.minimum_seedtime, None);
}

#[test]
fn raw_item_with_empty_attr_triple_is_an_error() {
    let mut raw = raw_base();
    raw.extensions = vec![("torznab".to_string(), "attr".to_string(), vec![])];
    match from_raw(raw) {
        Err(Error::EmptyExtension(key)) => assert_eq!(key, "seeders"),
        other => panic!("expected EmptyExtension, got {other:?}"),
    }
}
