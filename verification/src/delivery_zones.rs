//! Delivery-zone handlers: create, list, delete.
//!
//! Zones are independent rows that providers reference through the
//! association table.  Deleting a zone first confirms the row exists
//! (a missing id is `NotFound`, not a silent success) and removes the
//! associations that reference it, so the store's referential
//! integrity survives.

use vstd::prelude::*;

use crate::errors::{AppError, AppSuccess, Resource};
use crate::store::{clone_zone, distinct_zone_ids, links_unchanged, prices_unchanged,
    providers_unchanged, runs_unchanged, store_unchanged, users_unchanged, zone_position,
    zone_with_id, zones_unchanged, DeliveryZone, Store, ZoneLink};

verus! {

/// A zone-creation request.
#[derive(Debug)]
pub struct DeliveryZoneAdd {
    pub name: String,
    pub description: String,
}

/// The body of a request attaching zones to a provider.
#[derive(Debug)]
pub struct DeliveryZoneProviderAdd {
    pub zone_ids: Vec<i32>,
}

/// The association rows that remain once a zone is gone.
pub open spec fn links_without_zone(links: Seq<ZoneLink>, zone_id: i32) -> Seq<ZoneLink>
    decreases links.len(),
{
    if links.len() == 0 {
        Seq::empty()
    } else {
        let rest = links_without_zone(links.drop_last(), zone_id);
        if links.last().zone_id == zone_id {
            rest
        } else {
            rest.push(links.last())
        }
    }
}

/// Creates a delivery zone under the next free id.  The only failure is
/// an exhausted id sequence.
pub fn create_delivery_zone(store: &mut Store, json: DeliveryZoneAdd) -> (r: Result<
    AppSuccess,
    AppError,
>)
    requires
        old(store).wf(),
    ensures
        final(store).wf(),
        old(store).next_zone_id == i32::MAX ==> r == Err::<AppSuccess, AppError>(
            AppError::InsertError(Resource::DeliveryZone),
        ) && store_unchanged(*final(store), *old(store)),
        old(store).next_zone_id < i32::MAX ==> r == Ok::<AppSuccess, AppError>(
            AppSuccess::Created(Resource::DeliveryZone, old(store).next_zone_id),
        ) && final(store).zones@ == old(store).zones@.push(
            (DeliveryZone {
                id: old(store).next_zone_id,
                name: json.name,
                description: json.description,
            }),
        ) && final(store).next_zone_id == old(store).next_zone_id + 1,
        users_unchanged(*final(store), *old(store)),
        providers_unchanged(*final(store), *old(store)),
        links_unchanged(*final(store), *old(store)),
        prices_unchanged(*final(store), *old(store)),
        runs_unchanged(*final(store), *old(store)),
{
    if store.next_zone_id == i32::MAX {
        return Err(AppError::InsertError(Resource::DeliveryZone));
    }
    let id = store.next_zone_id;
    let ghost old_zones = store.zones@;
    store.zones.push(DeliveryZone { id, name: json.name, description: json.description });
    store.next_zone_id = id + 1;
    proof {
        assert forall|i: int|
            0 <= i < store.provider_zones@.len() implies zone_with_id(
            store.zones@,
            (#[trigger] store.provider_zones@[i]).zone_id,
        ) by {
            let zid = store.provider_zones@[i].zone_id;
            assert(zone_with_id(old_zones, zid));
            let w = choose|w: int| 0 <= w < old_zones.len() && old_zones[w].id == zid;
            assert(store.zones@[w].id == zid);
        }
    }
    Ok(AppSuccess::Created(Resource::DeliveryZone, id))
}

/// Lists every delivery zone, in table order.
pub fn fetch_delivery_zones(store: &Store) -> (r: Result<Vec<DeliveryZone>, AppError>)
    ensures
        (r matches Ok(v) && v@ == store.zones@),
{
    let n = store.zones.len();
    let mut out: Vec<DeliveryZone> = Vec::new();
    let mut i: usize = 0;
    while i < n
        invariant
            i <= n,
            n == store.zones@.len(),
            out@ =~= store.zones@.subrange(0, i as int),
        decreases n - i,
    {
        out.push(clone_zone(&store.zones[i]));
        i += 1;
    }
    proof {
        assert(out@ =~= store.zones@);
    }
    Ok(out)
}

/// Deletes a delivery zone.  A missing id is `NotFound`; otherwise the
/// zone row and every association referencing it are removed.
pub fn delete_delivery_zone(store: &mut Store, id: i32) -> (r: Result<AppSuccess, AppError>)
    requires
        old(store).wf(),
    ensures
        final(store).wf(),
        !zone_with_id(old(store).zones@, id) ==> r == Err::<AppSuccess, AppError>(
            AppError::NotFound(Resource::DeliveryZone),
        ) && store_unchanged(*final(store), *old(store)),
        zone_with_id(old(store).zones@, id) ==> r == Ok::<AppSuccess, AppError>(
            AppSuccess::Deleted(Resource::DeliveryZone, id),
        ) && final(store).zones@ == old(store).zones@.remove(
            crate::store::zone_index(old(store).zones@, id),
        ) && final(store).provider_zones@ == links_without_zone(old(store).provider_zones@, id)
            && final(store).next_zone_id == old(store).next_zone_id,
        users_unchanged(*final(store), *old(store)),
        providers_unchanged(*final(store), *old(store)),
        prices_unchanged(*final(store), *old(store)),
        runs_unchanged(*final(store), *old(store)),
{
    let k = match zone_position(store, id) {
        Some(k) => k,
        None => {
            return Err(AppError::NotFound(Resource::DeliveryZone));
        },
    };
    proof {
        crate::store::lemma_zone_index_agrees(store.zones@, k as int, id);
    }
    let ghost old_zones = store.zones@;
    store.zones.remove(k);
    proof {
        old_zones.remove_ensures(k as int);
        assert(distinct_zone_ids(store.zones@));
    }
    let ghost old_links = store.provider_zones@;
    let n = store.provider_zones.len();
    let mut kept: Vec<ZoneLink> = Vec::new();
    let mut j: usize = 0;
    while j < n
        invariant
            j <= n,
            n == store.provider_zones@.len(),
            store.provider_zones@ == old_links,
            kept@ == links_without_zone(old_links.subrange(0, j as int), id),
            forall|t: int|
                0 <= t < kept@.len() ==> (#[trigger] kept@[t]).zone_id != id && old_links.contains(
                    kept@[t],
                ),
        decreases n - j,
    {
        let l = store.provider_zones[j];
        proof {
            assert(old_links.subrange(0, j as int + 1).drop_last() =~= old_links.subrange(
                0,
                j as int,
            ));
            assert(old_links.subrange(0, j as int + 1).last() == l);
        }
        if l.zone_id != id {
            kept.push(l);
        }
        j += 1;
    }
    proof {
        assert(old_links.subrange(0, n as int) =~= old_links);
    }
    store.provider_zones = kept;
    proof {
        assert forall|t: int|
            0 <= t < store.provider_zones@.len() implies crate::store::provider_with_id(
            store.providers@,
            (#[trigger] store.provider_zones@[t]).provider_id,
        ) && zone_with_id(store.zones@, store.provider_zones@[t].zone_id) by {
            let l = store.provider_zones@[t];
            let w = choose|w: int| 0 <= w < old_links.len() && old_links[w] == l;
            assert(crate::store::provider_with_id(store.providers@, l.provider_id));
            assert(zone_with_id(old_zones, l.zone_id));
            let z = choose|z: int| 0 <= z < old_zones.len() && old_zones[z].id == l.zone_id;
            assert(z != k);
            if z < k {
                assert(store.zones@[z].id == l.zone_id);
            } else {
                assert(store.zones@[z - 1].id == l.zone_id);
            }
        }
    }
    Ok(AppSuccess::Deleted(Resource::DeliveryZone, id))
}

} // verus!
