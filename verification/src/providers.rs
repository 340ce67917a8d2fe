//! Provider handlers: create, attach zones, list, fetch, update, delete.
//!
//! This is the heart of the resource-consistency layer.  Attaching
//! zones checks, zone by zone, that each referenced row exists before
//! its association row is inserted; the batch stops at the first
//! missing zone, and what was inserted before it stays (the baseline,
//! untransacted behaviour — the contract states it exactly).  Fetching
//! one provider also stamps its `last_accessed` with the caller's clock
//! reading, and a delete first confirms the row exists, removing its
//! associations with it.

use vstd::prelude::*;

use crate::delivery_zones::DeliveryZoneProviderAdd;
use crate::errors::{AppError, AppSuccess, Resource};
use crate::store::{clone_provider, clone_zone, distinct_provider_ids, links_unchanged,
    prices_unchanged, provider_exists, provider_index, provider_position, provider_with_id,
    providers_unchanged, runs_unchanged, store_unchanged, users_unchanged, zone_at, zone_exists,
    zone_position, zone_with_id, zones_unchanged, DeliveryZone, Provider, Store, ZoneLink};

verus! {

/// A provider-creation request.
#[derive(Debug)]
pub struct ProviderAdd {
    pub name: String,
    pub url: String,
    pub html_element: String,
}

/// A provider-update request: the row to rewrite and its new fields.
#[derive(Debug)]
pub struct ProviderUpdate {
    pub id: i32,
    pub name: String,
    pub url: String,
    pub html_element: String,
}

/// One row of the id listing: the provider id and when it was last
/// fetched.
#[derive(Clone, Copy, Debug, PartialEq, Eq, Structural)]
pub struct ProviderIds {
    pub id: i32,
    pub last_accessed: i64,
}

/// A provider together with its associated zones, as the aggregated
/// listing presents it.
#[derive(Debug)]
pub struct ProviderWithZones {
    pub id: i32,
    pub name: String,
    pub url: String,
    pub html_element: String,
    pub created_at: i64,
    pub last_updated: i64,
    pub last_accessed: i64,
    pub zones: Vec<DeliveryZone>,
}

/// The provider record as a fetch leaves it: `last_accessed` stamped
/// with the clock reading, everything else kept.
pub open spec fn touched(p: Provider, now: i64) -> Provider {
    Provider {
        id: p.id,
        name: p.name,
        url: p.url,
        html_element: p.html_element,
        created_at: p.created_at,
        last_updated: p.last_updated,
        last_accessed: now,
    }
}

/// The provider record as an update leaves it: the three mutable fields
/// replaced, the id and the timestamps kept.
pub open spec fn with_fields(p: Provider, u: ProviderUpdate) -> Provider {
    Provider {
        id: p.id,
        name: u.name,
        url: u.url,
        html_element: u.html_element,
        created_at: p.created_at,
        last_updated: p.last_updated,
        last_accessed: p.last_accessed,
    }
}

/// The association rows a batch insert of these zone ids appends for a
/// provider.
pub open spec fn links_for(provider_id: i32, zone_ids: Seq<i32>) -> Seq<ZoneLink> {
    zone_ids.map_values(|z: i32| ZoneLink { provider_id: provider_id, zone_id: z })
}

/// How many of these zone ids, from the front, exist in the zone table
/// before the first missing one (all of them, if none is missing).
pub open spec fn checked_prefix_len(zones: Seq<DeliveryZone>, zone_ids: Seq<i32>) -> int
    decreases zone_ids.len(),
{
    if zone_ids.len() == 0 {
        0
    } else if !zone_with_id(zones, zone_ids[0]) {
        0
    } else {
        1 + checked_prefix_len(zones, zone_ids.drop_first())
    }
}

/// `checked_prefix_len` is the position of the first missing zone id,
/// or the whole length when every id exists.
pub proof fn lemma_checked_prefix_len(zones: Seq<DeliveryZone>, zone_ids: Seq<i32>, k: int)
    requires
        0 <= k <= zone_ids.len(),
        forall|j: int| 0 <= j < k ==> zone_with_id(zones, zone_ids[j]),
        k < zone_ids.len() ==> !zone_with_id(zones, zone_ids[k]),
    ensures
        checked_prefix_len(zones, zone_ids) == k,
    decreases zone_ids.len(),
{
    if zone_ids.len() == 0 {
    } else if k == 0 {
    } else {
        assert(zone_with_id(zones, zone_ids[0]));
        lemma_checked_prefix_len(zones, zone_ids.drop_first(), k - 1);
    }
}

/// The association rows that remain once a provider is gone.
pub open spec fn links_without_provider(links: Seq<ZoneLink>, provider_id: i32) -> Seq<ZoneLink>
    decreases links.len(),
{
    if links.len() == 0 {
        Seq::empty()
    } else {
        let rest = links_without_provider(links.drop_last(), provider_id);
        if links.last().provider_id == provider_id {
            rest
        } else {
            rest.push(links.last())
        }
    }
}

/// Creates a provider under the next free id, with all three timestamps
/// set to the clock reading.  The only failure is an exhausted id
/// sequence.
pub fn create_provider(store: &mut Store, json: ProviderAdd, now: i64) -> (r: Result<
    AppSuccess,
    AppError,
>)
    requires
        old(store).wf(),
    ensures
        final(store).wf(),
        old(store).next_provider_id == i32::MAX ==> r == Err::<AppSuccess, AppError>(
            AppError::InsertError(Resource::Provider),
        ) && store_unchanged(*final(store), *old(store)),
        old(store).next_provider_id < i32::MAX ==> r == Ok::<AppSuccess, AppError>(
            AppSuccess::Created(Resource::Provider, old(store).next_provider_id),
        ) && final(store).providers@ == old(store).providers@.push(
            (Provider {
                id: old(store).next_provider_id,
                name: json.name,
                url: json.url,
                html_element: json.html_element,
                created_at: now,
                last_updated: now,
                last_accessed: now,
            }),
        ) && final(store).next_provider_id == old(store).next_provider_id + 1,
        users_unchanged(*final(store), *old(store)),
        zones_unchanged(*final(store), *old(store)),
        links_unchanged(*final(store), *old(store)),
        prices_unchanged(*final(store), *old(store)),
        runs_unchanged(*final(store), *old(store)),
{
    if store.next_provider_id == i32::MAX {
        return Err(AppError::InsertError(Resource::Provider));
    }
    let id = store.next_provider_id;
    let ghost old_providers = store.providers@;
    store.providers.push(
        Provider {
            id,
            name: json.name,
            url: json.url,
            html_element: json.html_element,
            created_at: now,
            last_updated: now,
            last_accessed: now,
        },
    );
    store.next_provider_id = id + 1;
    proof {
        assert forall|i: int|
            0 <= i < store.provider_zones@.len() implies provider_with_id(
            store.providers@,
            (#[trigger] store.provider_zones@[i]).provider_id,
        ) by {
            let pid = store.provider_zones@[i].provider_id;
            assert(provider_with_id(old_providers, pid));
            let w = choose|w: int| 0 <= w < old_providers.len() && old_providers[w].id == pid;
            assert(store.providers@[w].id == pid);
        }
    }
    Ok(AppSuccess::Created(Resource::Provider, id))
}

/// Attaches zones to a provider.  The provider must exist, or nothing
/// happens and the answer is `NotFound`.  Each zone id is checked
/// before its association row is inserted; the batch stops at the first
/// missing id with `NotFound`, and the rows inserted before it remain —
/// the contract states exactly which prefix was persisted.
pub fn add_delivery_zones_to_provider(
    store: &mut Store,
    id: i32,
    json: DeliveryZoneProviderAdd,
) -> (r: Result<AppSuccess, AppError>)
    requires
        old(store).wf(),
    ensures
        final(store).wf(),
        !provider_with_id(old(store).providers@, id) ==> r == Err::<AppSuccess, AppError>(
            AppError::NotFound(Resource::Provider),
        ) && store_unchanged(*final(store), *old(store)),
        provider_with_id(old(store).providers@, id) ==> ({
            let n = checked_prefix_len(old(store).zones@, json.zone_ids@);
            &&& final(store).provider_zones@ == old(store).provider_zones@ + links_for(
                id,
                json.zone_ids@.subrange(0, n),
            )
            &&& (n == json.zone_ids@.len() ==> r == Ok::<AppSuccess, AppError>(
                AppSuccess::Updated(Resource::Provider, id),
            ))
            &&& (n < json.zone_ids@.len() ==> r == Err::<AppSuccess, AppError>(
                AppError::NotFound(Resource::DeliveryZone),
            ))
        }),
        users_unchanged(*final(store), *old(store)),
        providers_unchanged(*final(store), *old(store)),
        zones_unchanged(*final(store), *old(store)),
        prices_unchanged(*final(store), *old(store)),
        runs_unchanged(*final(store), *old(store)),
{
    if !provider_exists(id, store) {
        return Err(AppError::NotFound(Resource::Provider));
    }
    let ghost old_links = store.provider_zones@;
    let ghost ids = json.zone_ids@;
    let n = json.zone_ids.len();
    let mut k: usize = 0;
    while k < n
        invariant
            k <= n,
            n == ids.len(),
            json.zone_ids@ == ids,
            old(store).wf(),
            store.wf(),
            provider_with_id(store.providers@, id),
            users_unchanged(*store, *old(store)),
            providers_unchanged(*store, *old(store)),
            zones_unchanged(*store, *old(store)),
            prices_unchanged(*store, *old(store)),
            runs_unchanged(*store, *old(store)),
            forall|j: int| 0 <= j < k ==> zone_with_id(old(store).zones@, ids[j]),
            store.provider_zones@ == old_links + links_for(id, ids.subrange(0, k as int)),
            old_links == old(store).provider_zones@,
        decreases n - k,
    {
        let zid = json.zone_ids[k];
        if !zone_exists(zid, store) {
            proof {
                lemma_checked_prefix_len(old(store).zones@, ids, k as int);
            }
            return Err(AppError::NotFound(Resource::DeliveryZone));
        }
        store.provider_zones.push(ZoneLink { provider_id: id, zone_id: zid });
        proof {
            assert(store.provider_zones@ =~= old_links + links_for(
                id,
                ids.subrange(0, k as int + 1),
            ));
        }
        k += 1;
    }
    proof {
        lemma_checked_prefix_len(old(store).zones@, ids, n as int);
        assert(ids.subrange(0, n as int) =~= ids);
    }
    Ok(AppSuccess::Updated(Resource::Provider, id))
}

/// Lists the id and `last_accessed` of every provider, in table order.
pub fn fetch_providers_ids(store: &Store) -> (r: Result<Vec<ProviderIds>, AppError>)
    ensures
        (r matches Ok(v) && v@.len() == store.providers@.len() && forall|i: int|
            0 <= i < v@.len() ==> #[trigger] v@[i] == (ProviderIds {
                id: store.providers@[i].id,
                last_accessed: store.providers@[i].last_accessed,
            })),
{
    let n = store.providers.len();
    let mut out: Vec<ProviderIds> = Vec::new();
    let mut i: usize = 0;
    while i < n
        invariant
            i <= n,
            n == store.providers@.len(),
            out@.len() == i,
            forall|j: int|
                0 <= j < i ==> #[trigger] out@[j] == (ProviderIds {
                    id: store.providers@[j].id,
                    last_accessed: store.providers@[j].last_accessed,
                }),
        decreases n - i,
    {
        out.push(
            ProviderIds { id: store.providers[i].id, last_accessed: store.providers[i].last_accessed },
        );
        i += 1;
    }
    Ok(out)
}

/// Fetches one provider by id and, as a side effect of the successful
/// lookup, stamps its `last_accessed` with the clock reading.  The
/// returned record is the row as the fetch leaves it.  A missing id is
/// `NotFound` and changes nothing.
pub fn fetch_provider(store: &mut Store, id: i32, now: i64) -> (r: Result<Provider, AppError>)
    requires
        old(store).wf(),
    ensures
        final(store).wf(),
        !provider_with_id(old(store).providers@, id) ==> r == Err::<Provider, AppError>(
            AppError::NotFound(Resource::Provider),
        ) && store_unchanged(*final(store), *old(store)),
        provider_with_id(old(store).providers@, id) ==> ({
            let j = provider_index(old(store).providers@, id);
            &&& r matches Ok(p) && p == touched(old(store).providers@[j], now)
            &&& final(store).providers@ == old(store).providers@.update(
                j,
                touched(old(store).providers@[j], now),
            )
            &&& final(store).next_provider_id == old(store).next_provider_id
        }),
        users_unchanged(*final(store), *old(store)),
        zones_unchanged(*final(store), *old(store)),
        links_unchanged(*final(store), *old(store)),
        prices_unchanged(*final(store), *old(store)),
        runs_unchanged(*final(store), *old(store)),
{
    let k = match provider_position(store, id) {
        Some(k) => k,
        None => {
            return Err(AppError::NotFound(Resource::Provider));
        },
    };
    proof {
        crate::store::lemma_provider_index_agrees(store.providers@, k as int, id);
    }
    let ghost old_providers = store.providers@;
    let row = &store.providers[k];
    let updated = Provider {
        id: row.id,
        name: row.name.clone(),
        url: row.url.clone(),
        html_element: row.html_element.clone(),
        created_at: row.created_at,
        last_updated: row.last_updated,
        last_accessed: now,
    };
    let result = clone_provider(&updated);
    store.providers.set(k, updated);
    proof {
        assert forall|i: int|
            0 <= i < store.providers@.len() implies (#[trigger] store.providers@[i]).id
            == old_providers[i].id by {}
        assert forall|i: int|
            0 <= i < store.provider_zones@.len() implies provider_with_id(
            store.providers@,
            (#[trigger] store.provider_zones@[i]).provider_id,
        ) by {
            let pid = store.provider_zones@[i].provider_id;
            let w = choose|w: int| 0 <= w < old_providers.len() && old_providers[w].id == pid;
            assert(store.providers@[w].id == pid);
        }
    }
    Ok(result)
}

/// Rewrites a provider's name, url and extraction selector.  A missing
/// id changes nothing; either way the answer is success, as an update
/// of zero rows is not an error.
pub fn update_provider(store: &mut Store, json: ProviderUpdate) -> (r: Result<(), AppError>)
    requires
        old(store).wf(),
    ensures
        final(store).wf(),
        r == Ok::<(), AppError>(()),
        !provider_with_id(old(store).providers@, json.id) ==> store_unchanged(
            *final(store),
            *old(store),
        ),
        provider_with_id(old(store).providers@, json.id) ==> ({
            let j = provider_index(old(store).providers@, json.id);
            &&& final(store).providers@ == old(store).providers@.update(
                j,
                with_fields(old(store).providers@[j], json),
            )
            &&& final(store).next_provider_id == old(store).next_provider_id
        }),
        users_unchanged(*final(store), *old(store)),
        zones_unchanged(*final(store), *old(store)),
        links_unchanged(*final(store), *old(store)),
        prices_unchanged(*final(store), *old(store)),
        runs_unchanged(*final(store), *old(store)),
{
    let k = match provider_position(store, json.id) {
        Some(k) => k,
        None => {
            return Ok(());
        },
    };
    proof {
        crate::store::lemma_provider_index_agrees(store.providers@, k as int, json.id);
    }
    let ghost old_providers = store.providers@;
    let row = &store.providers[k];
    let updated = Provider {
        id: row.id,
        name: json.name,
        url: json.url,
        html_element: json.html_element,
        created_at: row.created_at,
        last_updated: row.last_updated,
        last_accessed: row.last_accessed,
    };
    store.providers.set(k, updated);
    proof {
        assert forall|i: int|
            0 <= i < store.providers@.len() implies (#[trigger] store.providers@[i]).id
            == old_providers[i].id by {}
        assert forall|i: int|
            0 <= i < store.provider_zones@.len() implies provider_with_id(
            store.providers@,
            (#[trigger] store.provider_zones@[i]).provider_id,
        ) by {
            let pid = store.provider_zones@[i].provider_id;
            let w = choose|w: int| 0 <= w < old_providers.len() && old_providers[w].id == pid;
            assert(store.providers@[w].id == pid);
        }
    }
    Ok(())
}

/// The zone ids associated with a provider, in association-table order.
pub open spec fn zone_ids_for(links: Seq<ZoneLink>, provider_id: i32) -> Seq<i32>
    decreases links.len(),
{
    if links.len() == 0 {
        Seq::empty()
    } else {
        let rest = zone_ids_for(links.drop_last(), provider_id);
        if links.last().provider_id == provider_id {
            rest.push(links.last().zone_id)
        } else {
            rest
        }
    }
}

/// How one entry of the aggregated listing relates to the tables: the
/// provider's own fields, and its associated zone records in
/// association order.
pub open spec fn with_zones_entry(
    p: Provider,
    zones: Seq<DeliveryZone>,
    links: Seq<ZoneLink>,
    e: ProviderWithZones,
) -> bool {
    &&& e.id == p.id
    &&& e.name == p.name
    &&& e.url == p.url
    &&& e.html_element == p.html_element
    &&& e.created_at == p.created_at
    &&& e.last_updated == p.last_updated
    &&& e.last_accessed == p.last_accessed
    &&& e.zones@.len() == zone_ids_for(links, p.id).len()
    &&& forall|k: int|
        0 <= k < e.zones@.len() ==> #[trigger] e.zones@[k] == zone_at(
            zones,
            zone_ids_for(links, p.id)[k],
        )
}

/// The aggregated listing: every provider, in table order, each with
/// the zone records its associations reference, in association order.
/// A provider without zones appears with an empty list, not omitted.
pub fn fetch_providers_with_zones(store: &Store) -> (r: Result<Vec<ProviderWithZones>, AppError>)
    requires
        store.wf(),
    ensures
        (r matches Ok(v) && v@.len() == store.providers@.len() && forall|i: int|
            0 <= i < v@.len() ==> with_zones_entry(
                store.providers@[i],
                store.zones@,
                store.provider_zones@,
                #[trigger] v@[i],
            )),
{
    let n = store.providers.len();
    let mut out: Vec<ProviderWithZones> = Vec::new();
    let mut i: usize = 0;
    while i < n
        invariant
            i <= n,
            n == store.providers@.len(),
            store.wf(),
            out@.len() == i,
            forall|t: int|
                0 <= t < i ==> with_zones_entry(
                    store.providers@[t],
                    store.zones@,
                    store.provider_zones@,
                    #[trigger] out@[t],
                ),
        decreases n - i,
    {
        let pid = store.providers[i].id;
        let m = store.provider_zones.len();
        let mut zs: Vec<DeliveryZone> = Vec::new();
        let mut j: usize = 0;
        while j < m
            invariant
                j <= m,
                m == store.provider_zones@.len(),
                store.wf(),
                zs@.len() == zone_ids_for(store.provider_zones@.subrange(0, j as int), pid).len(),
                forall|q: int|
                    0 <= q < zs@.len() ==> #[trigger] zs@[q] == zone_at(
                        store.zones@,
                        zone_ids_for(store.provider_zones@.subrange(0, j as int), pid)[q],
                    ),
            decreases m - j,
        {
            let l = store.provider_zones[j];
            proof {
                assert(store.provider_zones@.subrange(0, j as int + 1).drop_last()
                    =~= store.provider_zones@.subrange(0, j as int));
                assert(store.provider_zones@.subrange(0, j as int + 1).last() == l);
            }
            if l.provider_id == pid {
                let zk = match zone_position(store, l.zone_id) {
                    Some(z) => z,
                    None => {
                        proof {
                            assert(false);
                        }
                        return Err(AppError::FetchError(Resource::Provider));
                    },
                };
                proof {
                    crate::store::lemma_zone_index_agrees(store.zones@, zk as int, l.zone_id);
                }
                zs.push(clone_zone(&store.zones[zk]));
            }
            j += 1;
        }
        proof {
            assert(store.provider_zones@.subrange(0, m as int) =~= store.provider_zones@);
        }
        let row = &store.providers[i];
        out.push(
            ProviderWithZones {
                id: row.id,
                name: row.name.clone(),
                url: row.url.clone(),
                html_element: row.html_element.clone(),
                created_at: row.created_at,
                last_updated: row.last_updated,
                last_accessed: row.last_accessed,
                zones: zs,
            },
        );
        i += 1;
    }
    Ok(out)
}

/// Stamps a provider's `last_accessed` with the clock reading.  An
/// update of zero rows is still a success, as in the store it models.
pub fn update_last_accessed(store: &mut Store, id: i32, now: i64) -> (r: Result<
    AppSuccess,
    AppError,
>)
    requires
        old(store).wf(),
    ensures
        final(store).wf(),
        r == Ok::<AppSuccess, AppError>(AppSuccess::Updated(Resource::Provider, id)),
        !provider_with_id(old(store).providers@, id) ==> store_unchanged(
            *final(store),
            *old(store),
        ),
        provider_with_id(old(store).providers@, id) ==> ({
            let j = provider_index(old(store).providers@, id);
            &&& final(store).providers@ == old(store).providers@.update(
                j,
                touched(old(store).providers@[j], now),
            )
            &&& final(store).next_provider_id == old(store).next_provider_id
        }),
        users_unchanged(*final(store), *old(store)),
        zones_unchanged(*final(store), *old(store)),
        links_unchanged(*final(store), *old(store)),
        prices_unchanged(*final(store), *old(store)),
        runs_unchanged(*final(store), *old(store)),
{
    let k = match provider_position(store, id) {
        Some(k) => k,
        None => {
            return Ok(AppSuccess::Updated(Resource::Provider, id));
        },
    };
    proof {
        crate::store::lemma_provider_index_agrees(store.providers@, k as int, id);
    }
    let ghost old_providers = store.providers@;
    let row = &store.providers[k];
    let updated = Provider {
        id: row.id,
        name: row.name.clone(),
        url: row.url.clone(),
        html_element: row.html_element.clone(),
        created_at: row.created_at,
        last_updated: row.last_updated,
        last_accessed: now,
    };
    store.providers.set(k, updated);
    proof {
        assert forall|i: int|
            0 <= i < store.providers@.len() implies (#[trigger] store.providers@[i]).id
            == old_providers[i].id by {}
        assert forall|i: int|
            0 <= i < store.provider_zones@.len() implies provider_with_id(
            store.providers@,
            (#[trigger] store.provider_zones@[i]).provider_id,
        ) by {
            let pid = store.provider_zones@[i].provider_id;
            let w = choose|w: int| 0 <= w < old_providers.len() && old_providers[w].id == pid;
            assert(store.providers@[w].id == pid);
        }
    }
    Ok(AppSuccess::Updated(Resource::Provider, id))
}

/// Deletes a provider.  A missing id is `NotFound`, not a silent
/// success; otherwise the row and every association referencing it are
/// removed.  Its prices stay (the price listing joins them away).
pub fn delete_provider(store: &mut Store, id: i32) -> (r: Result<AppSuccess, AppError>)
    requires
        old(store).wf(),
    ensures
        final(store).wf(),
        !provider_with_id(old(store).providers@, id) ==> r == Err::<AppSuccess, AppError>(
            AppError::NotFound(Resource::Provider),
        ) && store_unchanged(*final(store), *old(store)),
        provider_with_id(old(store).providers@, id) ==> r == Ok::<AppSuccess, AppError>(
            AppSuccess::Deleted(Resource::Provider, id),
        ) && final(store).providers@ == old(store).providers@.remove(
            provider_index(old(store).providers@, id),
        ) && final(store).provider_zones@ == links_without_provider(
            old(store).provider_zones@,
            id,
        ) && final(store).next_provider_id == old(store).next_provider_id,
        users_unchanged(*final(store), *old(store)),
        zones_unchanged(*final(store), *old(store)),
        prices_unchanged(*final(store), *old(store)),
        runs_unchanged(*final(store), *old(store)),
{
    let k = match provider_position(store, id) {
        Some(k) => k,
        None => {
            return Err(AppError::NotFound(Resource::Provider));
        },
    };
    proof {
        crate::store::lemma_provider_index_agrees(store.providers@, k as int, id);
    }
    let ghost old_providers = store.providers@;
    store.providers.remove(k);
    proof {
        old_providers.remove_ensures(k as int);
        assert(distinct_provider_ids(store.providers@));
    }
    let ghost old_links = store.provider_zones@;
    let n = store.provider_zones.len();
    let mut kept: Vec<ZoneLink> = Vec::new();
    let mut j: usize = 0;
    while j < n
        invariant
            j <= n,
            n == store.provider_zones@.len(),
            store.provider_zones@ == old_links,
            kept@ == links_without_provider(old_links.subrange(0, j as int), id),
            forall|t: int|
                0 <= t < kept@.len() ==> (#[trigger] kept@[t]).provider_id != id
                    && old_links.contains(kept@[t]),
        decreases n - j,
    {
        let l = store.provider_zones[j];
        proof {
            assert(old_links.subrange(0, j as int + 1).drop_last() =~= old_links.subrange(
                0,
                j as int,
            ));
            assert(old_links.subrange(0, j as int + 1).last() == l);
        }
        if l.provider_id != id {
            kept.push(l);
        }
        j += 1;
    }
    proof {
        assert(old_links.subrange(0, n as int) =~= old_links);
    }
    store.provider_zones = kept;
    proof {
        assert forall|t: int|
            0 <= t < store.provider_zones@.len() implies provider_with_id(
            store.providers@,
            (#[trigger] store.provider_zones@[t]).provider_id,
        ) && zone_with_id(store.zones@, store.provider_zones@[t].zone_id) by {
            let l = store.provider_zones@[t];
            let w = choose|w: int| 0 <= w < old_links.len() && old_links[w] == l;
            assert(provider_with_id(old_providers, l.provider_id));
            let p = choose|p: int|
                0 <= p < old_providers.len() && old_providers[p].id == l.provider_id;
            assert(p != k);
            if p < k {
                assert(store.providers@[p].id == l.provider_id);
            } else {
                assert(store.providers@[p - 1].id == l.provider_id);
            }
            assert(zone_with_id(store.zones@, l.zone_id));
        }
    }
    Ok(AppSuccess::Deleted(Resource::Provider, id))
}

/// Updating a provider is idempotent: rewriting a row with the same
/// fields twice leaves exactly the row one rewrite leaves.
pub proof fn lemma_update_provider_idempotent(p: Provider, u: ProviderUpdate)
    ensures
        with_fields(with_fields(p, u), u) == with_fields(p, u),
{
}

/// Fetching a provider twice in succession: the first fetch stamps the
/// row with the first clock reading, and the record the second fetch
/// returns carries the second reading, which is at or after the first.
pub proof fn lemma_second_fetch_sees_first(ps: Seq<Provider>, id: i32, t1: i64, t2: i64)
    requires
        distinct_provider_ids(ps),
        provider_with_id(ps, id),
        t1 <= t2,
    ensures
        ({
            let j1 = provider_index(ps, id);
            let after_first = ps.update(j1, touched(ps[j1], t1));
            let j2 = provider_index(after_first, id);
            &&& provider_with_id(after_first, id)
            &&& after_first[j2].last_accessed == t1
            &&& touched(after_first[j2], t2).last_accessed == t2
            &&& t2 >= t1
        }),
{
    let j1 = provider_index(ps, id);
    let after_first = ps.update(j1, touched(ps[j1], t1));
    assert forall|i: int, j: int| 0 <= i < j < after_first.len() implies after_first[i].id
        != after_first[j].id by {
        assert(after_first[i].id == ps[i].id);
        assert(after_first[j].id == ps[j].id);
    }
    assert(after_first[j1].id == id);
    crate::store::lemma_provider_index_agrees(after_first, j1, id);
}

} // verus!
