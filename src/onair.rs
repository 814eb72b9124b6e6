use vstd::prelude::*;

use std::collections::{HashMap, HashSet};

use crate::text::{parse_i32, parse_i32_spec};
use crate::user::Timestamp;

verus! {

broadcast use vstd::std_specs::hash::group_hash_axioms;

/// The sites that the catalog lists.
#[derive(Clone, Debug)]
pub enum SiteList {
    Bangumi,
    Acfun,
    Bilibili,
    BilibiliHkMoTw,
    BilibiliHkMo,
    BilibiliTw,
    Youku,
    Qq,
    Iqiyi,
    Letv,
    Mgtv,
    Nicovideo,
    Netflix,
    Gamer,
    GamerHk,
    MuseHk,
    MuseTw,
    AniOne,
    AniOneAsia,
    Viu,
    Mytv,
    Disneyplus,
    Abema,
    Unext,
    Tropics,
    Prime,
    Dmhy,
    Mikan,
    BangumiMoe,
    Other(String),
}

#[derive(PartialEq, Eq, Structural, Clone, Copy, Debug, Hash)]
pub enum ItemType {
    Tv,
    Web,
    Movie,
    Ova,
}

#[derive(PartialEq, Eq, Structural, Clone, Copy, Debug, Hash)]
pub enum SiteType {
    Onair,
    Info,
    Resource,
}

#[derive(PartialEq, Eq, Structural, Clone, Copy, Debug, Hash)]
pub enum Language {
    Ja,
    ZhHans,
    ZhHant,
    En,
}

/// Where and when an item is shown on one site.
#[derive(Clone, Debug)]
pub struct Site {
    pub site: SiteList,
    pub id: Option<String>,
    pub url: Option<String>,
    pub begin: Option<String>,
    pub broadcast: Option<String>,
    pub official: Option<String>,
    pub comment: Option<String>,
}

/// One on-air item of the catalog.
#[derive(Clone, Debug)]
pub struct BangumiItem {
    pub title: String,
    /// Translated titles, by language tag.
    pub title_translate: Vec<(String, Vec<String>)>,
    pub item_type: ItemType,
    pub lang: Language,
    pub official_site: String,
    pub begin: String,
    pub broadcast: String,
    pub end: String,
    pub comment: String,
    pub sites: Vec<Site>,
}

/// What the catalog says of a site.
#[derive(Clone, Debug)]
pub struct SiteMeta {
    pub title: String,
    pub url_template: String,
    pub regions: Vec<String>,
    pub site_type: Option<SiteType>,
}

/// The whole upstream catalog.
#[derive(Clone, Debug)]
pub struct BangumiData {
    pub site_meta: Vec<(SiteList, SiteMeta)>,
    pub items: Vec<BangumiItem>,
}

/// The first index from `i` on of a site entry for the tracking site, or -1.
pub open spec fn tracking_site_from(sites: Seq<Site>, i: int) -> int
    decreases sites.len() - i,
{
    if i < 0 || i >= sites.len() {
        -1
    } else if sites[i].site is Bangumi {
        i
    } else {
        tracking_site_from(sites, i + 1)
    }
}

/// The subject id under which an item is kept: the id of its first entry for
/// the tracking site, when there is one and it is a number.
pub open spec fn subject_id_of(item: BangumiItem) -> Option<i32> {
    let i = tracking_site_from(item.sites@, 0);
    if i < 0 {
        None
    } else {
        match item.sites@[i].id {
            Some(t) => parse_i32_spec(t@),
            None => None,
        }
    }
}

/// The items keyed by subject id; of two items with one id, the later is kept.
pub open spec fn catalog_map(items: Seq<BangumiItem>) -> Map<i32, BangumiItem>
    decreases items.len(),
{
    if items.len() == 0 {
        Map::empty()
    } else {
        let rest = catalog_map(items.drop_first());
        match subject_id_of(items[0]) {
            Some(k) => if rest.contains_key(k) { rest } else { rest.insert(k, items[0]) },
            None => rest,
        }
    }
}

proof fn lemma_tracking_site_bounds(sites: Seq<Site>, i: int)
    requires
        0 <= i,
    ensures
        tracking_site_from(sites, i) == -1 || (i <= tracking_site_from(sites, i) < sites.len()
            && sites[tracking_site_from(sites, i)].site is Bangumi),
    decreases sites.len() - i,
{
    if i < sites.len() && !(sites[i].site is Bangumi) {
        lemma_tracking_site_bounds(sites, i + 1);
    }
}

/// The subject id under which an item is kept, if any.
pub fn subject_id(item: &BangumiItem) -> (r: Option<i32>)
    ensures
        r == subject_id_of(*item),
{
    let mut i: usize = 0;
    while i < item.sites.len()
        invariant
            0 <= i <= item.sites@.len(),
            tracking_site_from(item.sites@, 0) == tracking_site_from(item.sites@, i as int),
        decreases item.sites@.len() - i,
    {
        if matches!(item.sites[i].site, SiteList::Bangumi) {
            return match &item.sites[i].id {
                Some(t) => parse_i32(t.as_str()),
                None => None,
            };
        }
        i = i + 1;
    }
    None
}

/// Keys the catalog's items by subject id, leaving out items without one.
pub fn catalog_from(items: Vec<BangumiItem>) -> (r: HashMap<i32, BangumiItem>)
    ensures
        r@ == catalog_map(items@),
{
    let ghost all = items@;
    let mut items = items;
    let mut map: HashMap<i32, BangumiItem> = HashMap::new();
    assert(all.subrange(all.len() as int, all.len() as int) =~= Seq::<BangumiItem>::empty());
    while items.len() > 0
        invariant
            items@.len() <= all.len(),
            items@ == all.subrange(0, items@.len() as int),
            map@ == catalog_map(all.subrange(items@.len() as int, all.len() as int)),
        decreases items@.len(),
    {
        let n = items.len();
        let item = items.pop().unwrap();
        proof {
            assert(all.subrange(n - 1, all.len() as int).drop_first() =~= all.subrange(n as int, all.len() as int));
            assert(all.subrange(n - 1, all.len() as int)[0] == item);
        }
        match subject_id(&item) {
            Some(k) => {
                if !map.contains_key(&k) {
                    map.insert(k, item);
                }
            },
            None => {},
        }
    }
    map
}

/// The lower-case hexadecimal MD5 digest of a text's UTF-8 bytes.
pub uninterp spec fn md5_hex(s: Seq<char>) -> Seq<char>;

/// Relies on `md5::compute` and its `LowerHex` format: the digest depends on
/// the bytes alone.
#[verifier::external_body]
fn md5_of(s: &str) -> (r: String)
    ensures
        r@ == md5_hex(s@),
{
    format!("{:x}", md5::compute(s))
}

/// The content hash of an upstream payload.
pub fn payload_hash(payload: &str) -> (r: String)
    ensures
        r@ == md5_hex(payload@),
{
    md5_of(payload)
}

/// Why a catalog refresh failed.
#[derive(PartialEq, Eq, Structural, Clone, Copy, Debug)]
pub enum CatalogError {
    /// The payload changed but could not be read as a catalog.
    Parse,
}

/// The local copy of the on-air catalog, with the hash of the payload it was
/// last written from and when.
pub struct Cache {
    items: HashMap<i32, BangumiItem>,
    hash: Option<String>,
    update_at: Option<Timestamp>,
}

/// The mathematical value of a [`Cache`].
pub struct CacheView {
    pub items: Map<i32, BangumiItem>,
    pub hash: Option<Seq<char>>,
    pub update_at: Option<Timestamp>,
}

impl View for Cache {
    type V = CacheView;

    closed spec fn view(&self) -> CacheView {
        CacheView {
            items: self.items@,
            hash: match self.hash {
                Some(h) => Some(h@),
                None => None,
            },
            update_at: self.update_at,
        }
    }
}

/// Whether a payload with hash `h` differs from what the cache was written from.
pub open spec fn hash_differs(c: CacheView, h: Seq<char>) -> bool {
    c.hash != Some(h)
}

/// The cache after writing the items of `items` under hash `h` at `now`, in one step.
pub open spec fn flushed(c: CacheView, h: Seq<char>, items: Seq<BangumiItem>, now: Timestamp) -> CacheView {
    CacheView { items: c.items.union_prefer_right(catalog_map(items)), hash: Some(h), update_at: Some(now) }
}

/// What a refresh with `payload`, read as `parsed`, at `now` gives: the new
/// cache and whether it wrote.
pub open spec fn refresh_spec(
    c: CacheView,
    payload: Seq<char>,
    parsed: Result<BangumiData, ()>,
    now: Timestamp,
) -> (CacheView, Result<bool, CatalogError>) {
    let h = md5_hex(payload);
    if !hash_differs(c, h) {
        (c, Ok(false))
    } else {
        match parsed {
            Ok(d) => (flushed(c, h, d.items@, now), Ok(true)),
            Err(_) => (c, Err(CatalogError::Parse)),
        }
    }
}

impl Cache {
    pub fn new() -> (r: Cache)
        ensures
            r@.items == Map::<i32, BangumiItem>::empty(),
            r@.hash is None,
            r@.update_at is None,
    {
        Cache { items: HashMap::new(), hash: None, update_at: None }
    }

    /// The item kept under subject id `id`.
    pub fn get(&self, id: i32) -> (r: Option<&BangumiItem>)
        ensures
            match r {
                Some(v) => self@.items.contains_key(id) && *v == self@.items[id],
                None => !self@.items.contains_key(id),
            },
    {
        self.items.get(&id)
    }

    /// The items kept under the given subject ids, each with its id, in the
    /// order of `ids`; ids with no item are passed over.
    pub fn find_by_subject_ids(&self, ids: &Vec<i32>) -> (r: Vec<(i32, &BangumiItem)>)
        ensures
            forall|j: int| 0 <= j < r@.len() ==> ids@.contains(#[trigger] r@[j].0) && self@.items.contains_key(r@[j].0)
                && *r@[j].1 == self@.items[r@[j].0],
            forall|k: i32| ids@.contains(k) && self@.items.contains_key(k) ==> exists|j: int| 0 <= j < r@.len()
                && #[trigger] r@[j].0 == k,
    {
        let mut out: Vec<(i32, &BangumiItem)> = Vec::new();
        let mut i: usize = 0;
        while i < ids.len()
            invariant
                0 <= i <= ids@.len(),
                forall|j: int| 0 <= j < out@.len() ==> ids@.contains(#[trigger] out@[j].0) && self@.items.contains_key(
                    out@[j].0,
                ) && *out@[j].1 == self@.items[out@[j].0],
                forall|m: int| 0 <= m < i && self@.items.contains_key(#[trigger] ids@[m]) ==> exists|j: int|
                    0 <= j < out@.len() && #[trigger] out@[j].0 == ids@[m],
            decreases ids@.len() - i,
        {
            let k = ids[i];
            let ghost before = out@;
            match self.items.get(&k) {
                Some(v) => {
                    out.push((k, v));
                    assert(out@[out@.len() - 1].0 == k);
                },
                None => {},
            }
            assert forall|m: int| 0 <= m < i + 1 && self@.items.contains_key(#[trigger] ids@[m]) implies exists|j: int|
                0 <= j < out@.len() && #[trigger] out@[j].0 == ids@[m] by {
                if m < i {
                    let j = choose|j: int| 0 <= j < before.len() && #[trigger] before[j].0 == ids@[m];
                    assert(out@[j].0 == ids@[m]);
                } else {
                    assert(out@[out@.len() - 1].0 == ids@[m]);
                }
            }
            i = i + 1;
        }
        assert forall|k: i32| ids@.contains(k) && self@.items.contains_key(k) implies exists|j: int| 0 <= j < out@.len()
            && #[trigger] out@[j].0 == k by {
            let m = choose|m: int| 0 <= m < ids@.len() && ids@[m] == k;
            assert(self@.items.contains_key(ids@[m]));
        }
        out
    }

    pub fn len(&self) -> (r: usize)
        ensures
            r == self@.items.len(),
    {
        self.items.len()
    }

    /// The hash of the payload the cache was last written from.
    pub fn get_hash(&self) -> (r: Option<&String>)
        ensures
            match r {
                Some(h) => self@.hash == Some(h@),
                None => self@.hash is None,
            },
    {
        match &self.hash {
            Some(h) => Some(h),
            None => None,
        }
    }

    pub fn get_update_at(&self) -> (r: Option<Timestamp>)
        ensures
            r == self@.update_at,
    {
        self.update_at
    }

    /// Whether a payload with hash `hash` differs from the one last written.
    pub fn diff_hash(&self, hash: &String) -> (r: bool)
        ensures
            r == hash_differs(self@, hash@),
    {
        match &self.hash {
            Some(old) => !old.eq(hash),
            None => true,
        }
    }

    /// The hash of `payload` when it differs from the one last written.
    pub fn needs_refresh(&self, payload: &str) -> (r: Option<String>)
        ensures
            match r {
                Some(h) => h@ == md5_hex(payload@) && hash_differs(self@, h@),
                None => !hash_differs(self@, md5_hex(payload@)),
            },
    {
        let h = payload_hash(payload);
        if self.diff_hash(&h) {
            Some(h)
        } else {
            None
        }
    }

    /// Writes every item that has a subject id (replacing the item kept under
    /// it) and records `hash` and `now`, all in one step.
    pub fn flush(&mut self, hash: String, items: Vec<BangumiItem>, now: Timestamp)
        ensures
            final(self)@ == flushed(old(self)@, hash@, items@, now),
    {
        let ghost all = items@;
        let ghost before = self.items@;
        let mut items = items;
        let mut seen: HashSet<i32> = HashSet::new();
        assert(all.subrange(all.len() as int, all.len() as int) =~= Seq::<BangumiItem>::empty());
        assert(before.union_prefer_right(Map::empty()) =~= before);
        assert(seen@ =~= Map::<i32, BangumiItem>::empty().dom());
        while items.len() > 0
            invariant
                items@.len() <= all.len(),
                items@ == all.subrange(0, items@.len() as int),
                self.items@ == before.union_prefer_right(catalog_map(all.subrange(items@.len() as int, all.len() as int))),
                seen@ == catalog_map(all.subrange(items@.len() as int, all.len() as int)).dom(),
            decreases items@.len(),
        {
            let n = items.len();
            let item = items.pop().unwrap();
            let ghost m = catalog_map(all.subrange(n as int, all.len() as int));
            proof {
                assert(all.subrange(n - 1, all.len() as int).drop_first() =~= all.subrange(n as int, all.len() as int));
                assert(all.subrange(n - 1, all.len() as int)[0] == item);
            }
            match subject_id(&item) {
                Some(k) => {
                    if !seen.contains(&k) {
                        proof {
                            assert(before.union_prefer_right(m.insert(k, item)) =~= before.union_prefer_right(m).insert(k, item));
                            assert(m.insert(k, item).dom() =~= m.dom().insert(k));
                        }
                        seen.insert(k);
                        self.items.insert(k, item);
                    }
                },
                None => {},
            }
        }
        self.hash = Some(hash);
        self.update_at = Some(now);
    }

    /// Refreshes the catalog from an upstream payload and its reading
    /// (`Err(())` when it could not be read): nothing is written when the
    /// payload's hash equals the last one written. Returns whether it wrote.
    pub fn refresh(&mut self, payload: &str, parsed: Result<BangumiData, ()>, now: Timestamp) -> (r: Result<bool, CatalogError>)
        ensures
            (final(self)@, r) == refresh_spec(old(self)@, payload@, parsed, now),
    {
        match self.needs_refresh(payload) {
            None => Ok(false),
            Some(h) => match parsed {
                Ok(d) => {
                    self.flush(h, d.items, now);
                    Ok(true)
                },
                Err(()) => Err(CatalogError::Parse),
            },
        }
    }
}

/// Refreshing twice from the same payload writes at most once: the second
/// refresh leaves the cache as the first left it, whatever it was read as.
pub proof fn lemma_refresh_idempotent(
    c: CacheView,
    payload: Seq<char>,
    parsed1: Result<BangumiData, ()>,
    parsed2: Result<BangumiData, ()>,
    now1: Timestamp,
    now2: Timestamp,
)
    requires
        refresh_spec(c, payload, parsed1, now1).1 == Ok::<bool, CatalogError>(true),
    ensures
        refresh_spec(refresh_spec(c, payload, parsed1, now1).0, payload, parsed2, now2)
            == (refresh_spec(c, payload, parsed1, now1).0, Ok::<bool, CatalogError>(false)),
{
}

/// A refresh that did not write leaves the cache as it was.
pub proof fn lemma_unchanged_payload_is_noop(
    c: CacheView,
    payload: Seq<char>,
    parsed: Result<BangumiData, ()>,
    now: Timestamp,
)
    requires
        !hash_differs(c, md5_hex(payload)),
    ensures
        refresh_spec(c, payload, parsed, now) == (c, Ok::<bool, CatalogError>(false)),
{
}

} // verus!
