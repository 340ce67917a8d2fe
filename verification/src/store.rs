//! The relational state behind the service, modelled in memory.
//!
//! One `Store` value stands for the whole database: credentials,
//! providers, delivery zones, the provider-zone association table,
//! prices and scraping runs.  `Store::wf` is the representation
//! invariant every handler preserves: ids are unique and below their
//! counter, every association references existing rows, and the price
//! table is kept ordered by creation time (the order in which price
//! queries present their rows).

use vstd::prelude::*;

verus! {

/// One registered client: a unique id and the PHC-encoded hash of its secret.
#[derive(Debug, PartialEq, Eq)]
pub struct Credential {
    pub client_id: String,
    pub password_hash: String,
}

/// A fuel-price provider. Timestamps are unix seconds.
#[derive(Debug, PartialEq, Eq)]
pub struct Provider {
    pub id: i32,
    pub name: String,
    pub url: String,
    pub html_element: String,
    pub created_at: i64,
    pub last_updated: i64,
    pub last_accessed: i64,
}

/// A delivery zone, independent of any provider.
#[derive(Debug, PartialEq, Eq)]
pub struct DeliveryZone {
    pub id: i32,
    pub name: String,
    pub description: String,
}

/// One row of the many-to-many provider-zone association table.
#[derive(Clone, Copy, Debug, PartialEq, Eq, Structural)]
pub struct ZoneLink {
    pub provider_id: i32,
    pub zone_id: i32,
}

/// A recorded price. `price` is a fixed-point amount in thousandths,
/// `created_at` is unix seconds.
#[derive(Clone, Copy, Debug, PartialEq, Eq, Structural)]
pub struct Price {
    pub id: i32,
    pub provider_id: i32,
    pub price: i64,
    pub created_at: i64,
}

/// One scraping run, written by the external scraper. Unix seconds.
#[derive(Clone, Copy, Debug, PartialEq, Eq, Structural)]
pub struct ScrapingRun {
    pub start_time: i64,
    pub end_time: i64,
}

/// The whole relational state. The `next_*` counters play the role of
/// the id sequences of the store.
pub struct Store {
    pub users: Vec<Credential>,
    pub providers: Vec<Provider>,
    pub zones: Vec<DeliveryZone>,
    pub provider_zones: Vec<ZoneLink>,
    pub prices: Vec<Price>,
    pub runs: Vec<ScrapingRun>,
    pub next_provider_id: i32,
    pub next_zone_id: i32,
    pub next_price_id: i32,
    pub next_run_id: i32,
}

pub open spec fn user_with_id(users: Seq<Credential>, cid: Seq<char>) -> bool {
    exists|i: int| 0 <= i < users.len() && users[i].client_id@ == cid
}

pub open spec fn user_index(users: Seq<Credential>, cid: Seq<char>) -> int {
    choose|i: int| 0 <= i < users.len() && users[i].client_id@ == cid
}

/// The hash stored for a client id (meaningful when the id is present
/// and client ids are distinct).
pub open spec fn stored_hash(users: Seq<Credential>, cid: Seq<char>) -> Seq<char> {
    users[user_index(users, cid)].password_hash@
}

pub open spec fn provider_with_id(ps: Seq<Provider>, id: i32) -> bool {
    exists|i: int| 0 <= i < ps.len() && ps[i].id == id
}

pub open spec fn provider_index(ps: Seq<Provider>, id: i32) -> int {
    choose|i: int| 0 <= i < ps.len() && ps[i].id == id
}

pub open spec fn zone_with_id(zs: Seq<DeliveryZone>, id: i32) -> bool {
    exists|i: int| 0 <= i < zs.len() && zs[i].id == id
}

pub open spec fn zone_index(zs: Seq<DeliveryZone>, id: i32) -> int {
    choose|i: int| 0 <= i < zs.len() && zs[i].id == id
}

/// The zone record carrying an id (meaningful when the id is present
/// and zone ids are distinct).
pub open spec fn zone_at(zs: Seq<DeliveryZone>, id: i32) -> DeliveryZone {
    zs[zone_index(zs, id)]
}

pub open spec fn price_with_id(ps: Seq<Price>, id: i32) -> bool {
    exists|i: int| 0 <= i < ps.len() && ps[i].id == id
}

pub open spec fn price_index(ps: Seq<Price>, id: i32) -> int {
    choose|i: int| 0 <= i < ps.len() && ps[i].id == id
}

pub open spec fn distinct_client_ids(users: Seq<Credential>) -> bool {
    forall|i: int, j: int|
        0 <= i < j < users.len() ==> users[i].client_id@ != users[j].client_id@
}

pub open spec fn distinct_provider_ids(ps: Seq<Provider>) -> bool {
    forall|i: int, j: int| 0 <= i < j < ps.len() ==> ps[i].id != ps[j].id
}

pub open spec fn distinct_zone_ids(zs: Seq<DeliveryZone>) -> bool {
    forall|i: int, j: int| 0 <= i < j < zs.len() ==> zs[i].id != zs[j].id
}

pub open spec fn distinct_price_ids(ps: Seq<Price>) -> bool {
    forall|i: int, j: int| 0 <= i < j < ps.len() ==> ps[i].id != ps[j].id
}

/// The price table is ordered by creation time.
pub open spec fn prices_ordered(ps: Seq<Price>) -> bool {
    forall|i: int, j: int| 0 <= i <= j < ps.len() ==> ps[i].created_at <= ps[j].created_at
}

impl Store {
    pub open spec fn users_wf(self) -> bool {
        distinct_client_ids(self.users@)
    }

    pub open spec fn providers_wf(self) -> bool {
        &&& 1 <= self.next_provider_id
        &&& forall|i: int|
            0 <= i < self.providers@.len() ==> 1 <= (#[trigger] self.providers@[i]).id
                < self.next_provider_id
        &&& distinct_provider_ids(self.providers@)
    }

    pub open spec fn zones_wf(self) -> bool {
        &&& 1 <= self.next_zone_id
        &&& forall|i: int|
            0 <= i < self.zones@.len() ==> 1 <= (#[trigger] self.zones@[i]).id < self.next_zone_id
        &&& distinct_zone_ids(self.zones@)
    }

    /// Referential integrity of the association table: both endpoints
    /// of every link exist.
    pub open spec fn links_wf(self) -> bool {
        forall|i: int|
            0 <= i < self.provider_zones@.len() ==> provider_with_id(
                self.providers@,
                (#[trigger] self.provider_zones@[i]).provider_id,
            ) && zone_with_id(self.zones@, self.provider_zones@[i].zone_id)
    }

    pub open spec fn prices_wf(self) -> bool {
        &&& 1 <= self.next_price_id
        &&& forall|i: int|
            0 <= i < self.prices@.len() ==> 1 <= (#[trigger] self.prices@[i]).id
                < self.next_price_id
        &&& distinct_price_ids(self.prices@)
        &&& prices_ordered(self.prices@)
    }

    pub open spec fn wf(self) -> bool {
        &&& self.users_wf()
        &&& self.providers_wf()
        &&& self.zones_wf()
        &&& self.links_wf()
        &&& self.prices_wf()
        &&& 1 <= self.next_run_id
    }

    /// An empty store, as after running the schema migrations.
    pub fn new() -> (s: Store)
        ensures
            s.wf(),
            s.users@ =~= Seq::<Credential>::empty(),
            s.providers@ =~= Seq::<Provider>::empty(),
            s.zones@ =~= Seq::<DeliveryZone>::empty(),
            s.provider_zones@ =~= Seq::<ZoneLink>::empty(),
            s.prices@ =~= Seq::<Price>::empty(),
            s.runs@ =~= Seq::<ScrapingRun>::empty(),
            s.next_provider_id == 1,
            s.next_zone_id == 1,
            s.next_price_id == 1,
            s.next_run_id == 1,
    {
        Store {
            users: Vec::new(),
            providers: Vec::new(),
            zones: Vec::new(),
            provider_zones: Vec::new(),
            prices: Vec::new(),
            runs: Vec::new(),
            next_provider_id: 1,
            next_zone_id: 1,
            next_price_id: 1,
            next_run_id: 1,
        }
    }
}

/// With distinct provider ids, any position holding `id` is the one
/// `provider_index` denotes.
pub proof fn lemma_provider_index_agrees(ps: Seq<Provider>, k: int, id: i32)
    requires
        distinct_provider_ids(ps),
        0 <= k < ps.len(),
        ps[k].id == id,
    ensures
        provider_with_id(ps, id),
        provider_index(ps, id) == k,
{
    assert(provider_with_id(ps, id));
    let i = provider_index(ps, id);
    assert(0 <= i < ps.len() && ps[i].id == id);
    if i != k {
        if i < k {
            assert(ps[i].id != ps[k].id);
        } else {
            assert(ps[k].id != ps[i].id);
        }
    }
}

/// With distinct zone ids, any position holding `id` is the one
/// `zone_index` denotes.
pub proof fn lemma_zone_index_agrees(zs: Seq<DeliveryZone>, k: int, id: i32)
    requires
        distinct_zone_ids(zs),
        0 <= k < zs.len(),
        zs[k].id == id,
    ensures
        zone_with_id(zs, id),
        zone_index(zs, id) == k,
{
    assert(zone_with_id(zs, id));
    let i = zone_index(zs, id);
    assert(0 <= i < zs.len() && zs[i].id == id);
    if i != k {
        if i < k {
            assert(zs[i].id != zs[k].id);
        } else {
            assert(zs[k].id != zs[i].id);
        }
    }
}

/// With distinct price ids, any position holding `id` is the one
/// `price_index` denotes.
pub proof fn lemma_price_index_agrees(ps: Seq<Price>, k: int, id: i32)
    requires
        distinct_price_ids(ps),
        0 <= k < ps.len(),
        ps[k].id == id,
    ensures
        price_with_id(ps, id),
        price_index(ps, id) == k,
{
    assert(price_with_id(ps, id));
    let i = price_index(ps, id);
    assert(0 <= i < ps.len() && ps[i].id == id);
    if i != k {
        if i < k {
            assert(ps[i].id != ps[k].id);
        } else {
            assert(ps[k].id != ps[i].id);
        }
    }
}

/// With distinct client ids, any position holding `cid` is the one
/// `user_index` denotes.
pub proof fn lemma_user_index_agrees(users: Seq<Credential>, k: int, cid: Seq<char>)
    requires
        distinct_client_ids(users),
        0 <= k < users.len(),
        users[k].client_id@ == cid,
    ensures
        user_with_id(users, cid),
        user_index(users, cid) == k,
{
    assert(user_with_id(users, cid));
    let i = user_index(users, cid);
    assert(0 <= i < users.len() && users[i].client_id@ == cid);
    if i != k {
        if i < k {
            assert(users[i].client_id@ != users[k].client_id@);
        } else {
            assert(users[k].client_id@ != users[i].client_id@);
        }
    }
}

/// Whether a provider row with this id exists.
pub fn provider_exists(id: i32, store: &Store) -> (r: bool)
    ensures
        r == provider_with_id(store.providers@, id),
{
    let n = store.providers.len();
    let mut i: usize = 0;
    while i < n
        invariant
            i <= n,
            n == store.providers@.len(),
            forall|j: int| 0 <= j < i ==> store.providers@[j].id != id,
        decreases n - i,
    {
        if store.providers[i].id == id {
            return true;
        }
        i += 1;
    }
    false
}

/// Whether a delivery-zone row with this id exists.
pub fn zone_exists(id: i32, store: &Store) -> (r: bool)
    ensures
        r == zone_with_id(store.zones@, id),
{
    let n = store.zones.len();
    let mut i: usize = 0;
    while i < n
        invariant
            i <= n,
            n == store.zones@.len(),
            forall|j: int| 0 <= j < i ==> store.zones@[j].id != id,
        decreases n - i,
    {
        if store.zones[i].id == id {
            return true;
        }
        i += 1;
    }
    false
}

/// The position of the provider row with this id, if any.
pub fn provider_position(store: &Store, id: i32) -> (r: Option<usize>)
    ensures
        (match r {
            Some(k) => k < store.providers@.len() && store.providers@[k as int].id == id,
            None => !provider_with_id(store.providers@, id),
        }),
{
    let n = store.providers.len();
    let mut i: usize = 0;
    while i < n
        invariant
            i <= n,
            n == store.providers@.len(),
            forall|j: int| 0 <= j < i ==> store.providers@[j].id != id,
        decreases n - i,
    {
        if store.providers[i].id == id {
            return Some(i);
        }
        i += 1;
    }
    None
}

/// The position of the zone row with this id, if any.
pub fn zone_position(store: &Store, id: i32) -> (r: Option<usize>)
    ensures
        (match r {
            Some(k) => k < store.zones@.len() && store.zones@[k as int].id == id,
            None => !zone_with_id(store.zones@, id),
        }),
{
    let n = store.zones.len();
    let mut i: usize = 0;
    while i < n
        invariant
            i <= n,
            n == store.zones@.len(),
            forall|j: int| 0 <= j < i ==> store.zones@[j].id != id,
        decreases n - i,
    {
        if store.zones[i].id == id {
            return Some(i);
        }
        i += 1;
    }
    None
}

/// The position of the price row with this id, if any.
pub fn price_position(store: &Store, id: i32) -> (r: Option<usize>)
    ensures
        (match r {
            Some(k) => k < store.prices@.len() && store.prices@[k as int].id == id,
            None => !price_with_id(store.prices@, id),
        }),
{
    let n = store.prices.len();
    let mut i: usize = 0;
    while i < n
        invariant
            i <= n,
            n == store.prices@.len(),
            forall|j: int| 0 <= j < i ==> store.prices@[j].id != id,
        decreases n - i,
    {
        if store.prices[i].id == id {
            return Some(i);
        }
        i += 1;
    }
    None
}

/// A field-by-field copy of a zone record.
pub fn clone_zone(z: &DeliveryZone) -> (r: DeliveryZone)
    ensures
        r == *z,
{
    DeliveryZone { id: z.id, name: z.name.clone(), description: z.description.clone() }
}

/// A field-by-field copy of a provider record.
pub fn clone_provider(p: &Provider) -> (r: Provider)
    ensures
        r == *p,
{
    Provider {
        id: p.id,
        name: p.name.clone(),
        url: p.url.clone(),
        html_element: p.html_element.clone(),
        created_at: p.created_at,
        last_updated: p.last_updated,
        last_accessed: p.last_accessed,
    }
}

/// The credential tables of the two stores agree.
pub open spec fn users_unchanged(a: Store, b: Store) -> bool {
    a.users@ == b.users@
}

/// The provider table and its id counter agree.
pub open spec fn providers_unchanged(a: Store, b: Store) -> bool {
    a.providers@ == b.providers@ && a.next_provider_id == b.next_provider_id
}

/// The zone table and its id counter agree.
pub open spec fn zones_unchanged(a: Store, b: Store) -> bool {
    a.zones@ == b.zones@ && a.next_zone_id == b.next_zone_id
}

/// The association tables agree.
pub open spec fn links_unchanged(a: Store, b: Store) -> bool {
    a.provider_zones@ == b.provider_zones@
}

/// The price table and its id counter agree.
pub open spec fn prices_unchanged(a: Store, b: Store) -> bool {
    a.prices@ == b.prices@ && a.next_price_id == b.next_price_id
}

/// The scraping-run tables and their id counter agree.
pub open spec fn runs_unchanged(a: Store, b: Store) -> bool {
    a.runs@ == b.runs@ && a.next_run_id == b.next_run_id
}

/// Nothing in the store differs.
pub open spec fn store_unchanged(a: Store, b: Store) -> bool {
    &&& users_unchanged(a, b)
    &&& providers_unchanged(a, b)
    &&& zones_unchanged(a, b)
    &&& links_unchanged(a, b)
    &&& prices_unchanged(a, b)
    &&& runs_unchanged(a, b)
}

} // verus!
