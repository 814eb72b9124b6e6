use bgm_collector::onair::{
    catalog_from, payload_hash, subject_id, BangumiData, BangumiItem, Cache, CatalogError, ItemType, Language,
    Site, SiteList,
};

fn site(kind: SiteList, id: Option<&str>) -> Site {
    Site {
        site: kind,
        id: id.map(|s| s.to_string()),
        url: None,
        begin: None,
        broadcast: None,
        official: None,
        comment: None,
    }
}

fn item(title: &str, sites: Vec<Site>) -> BangumiItem {
    BangumiItem {
        title: title.to_string(),
        title_translate: vec![("zh-Hans".to_string(), vec![format!("{title}-zh")])],
        item_type: ItemType::Tv,
        lang: Language::Ja,
        official_site: String::new(),
        begin: "2025-10-01T00:00:00.000Z".to_string(),
        broadcast: String::new(),
        end: String::new(),
        comment: String::new(),
        sites,
    }
}

fn data(items: Vec<BangumiItem>) -> BangumiData {
    BangumiData { site_meta: vec![], items }
}

fn sample() -> Vec<BangumiItem> {
    vec![
        item("a", vec![site(SiteList::Bilibili, Some("x")), site(SiteList::Bangumi, Some("100"))]),
        item("no-site", vec![site(SiteList::Acfun, Some("1"))]),
        item("bad-id", vec![site(SiteList::Bangumi, Some("abc"))]),
        item("no-id", vec![site(SiteList::Bangumi, None), site(SiteList::Bangumi, Some("7"))]),
        item("b", vec![site(SiteList::Bangumi, Some("200"))]),
        item("a2", vec![site(SiteList::Other("x".to_string()), None), site(SiteList::Bangumi, Some("100"))]),
    ]
}

#[test]
fn subject_ids() {
    let items = sample();
    assert_eq!(subject_id(&items[0]), Some(100));
    assert_eq!(subject_id(&items[1]), None);
    assert_eq!(subject_id(&items[2]), None);
    assert_eq!(subject_id(&items[3]), None);
}

#[test]
fn catalog_keeps_items_with_ids() {
    let m = catalog_from(sample());
    assert_eq!(m.len(), 2);
    assert_eq!(m[&100].title, "a2");
    assert_eq!(m[&200].title, "b");
}

#[test]
fn payload_hash_is_md5() {
    assert_eq!(payload_hash(""), "d41d8cd98f00b204e9800998ecf8427e");
    assert_eq!(payload_hash("abc"), "900150983cd24fb0d6963f7d28e17f72");
}

#[test]
fn refresh_twice_writes_once() {
    let mut c = Cache::new();
    let payload = "{\"items\":[]}";
    assert_eq!(c.refresh(payload, Ok(data(sample())), 10), Ok(true));
    assert_eq!(c.len(), 2);
    assert_eq!(c.get_hash().map(|h| h.as_str()), Some(payload_hash(payload).as_str()));
    assert_eq!(c.get_update_at(), Some(10));
    assert_eq!(c.refresh(payload, Ok(data(vec![])), 20), Ok(false));
    assert_eq!(c.refresh(payload, Err(()), 30), Ok(false));
    assert_eq!(c.get_update_at(), Some(10));
    assert_eq!(c.len(), 2);
    assert!(c.needs_refresh(payload).is_none());
}

#[test]
fn changed_payload_upserts() {
    let mut c = Cache::new();
    assert_eq!(c.refresh("one", Ok(data(sample())), 10), Ok(true));
    assert_eq!(c.refresh("two", Err(()), 20), Err(CatalogError::Parse));
    assert_eq!(c.get_update_at(), Some(10));
    let newer = vec![item("c", vec![site(SiteList::Bangumi, Some("300"))]), item("b-new", vec![site(SiteList::Bangumi, Some("200"))])];
    assert_eq!(c.refresh("two", Ok(data(newer)), 30), Ok(true));
    assert_eq!(c.len(), 3);
    assert_eq!(c.get(200).unwrap().title, "b-new");
    assert_eq!(c.get(100).unwrap().title, "a2");
    assert!(c.get(1).is_none());
    assert!(c.diff_hash(&"other".to_string()));
    assert!(!c.diff_hash(&payload_hash("two")));
}

#[test]
fn find_by_subject_ids_skips_unknown() {
    let mut c = Cache::new();
    assert_eq!(c.refresh("p", Ok(data(sample())), 1), Ok(true));
    let found = c.find_by_subject_ids(&vec![200, 5, 100]);
    let ids: Vec<i32> = found.iter().map(|(k, _)| *k).collect();
    assert_eq!(ids, vec![200, 100]);
    assert_eq!(found[0].1.title, "b");
    assert!(c.find_by_subject_ids(&vec![]).is_empty());
}
