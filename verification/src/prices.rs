//! Price handlers: record, list, query by provider, delete.
//!
//! Prices are fixed-point amounts (thousandths) stamped with the
//! caller's clock reading.  The table is kept ordered by creation time
//! (the order every price query presents), so a new row is inserted
//! after the rows that do not postdate it.  The repository's weakest
//! variant records a price without re-validating the provider; the
//! listing joins orphaned rows away instead.

use vstd::prelude::*;

use crate::errors::{AppError, AppSuccess, Resource};
use crate::store::{distinct_price_ids, links_unchanged, price_index, price_position,
    price_with_id, prices_ordered, prices_unchanged, provider_with_id, providers_unchanged,
    runs_unchanged, store_unchanged, users_unchanged, zones_unchanged, Price, Provider, Store};

verus! {

/// A price-recording request for a provider.
#[derive(Clone, Copy, Debug)]
pub struct ProviderPriceAdd {
    pub price: i64,
}

/// One row of a provider's price history.
#[derive(Clone, Copy, Debug, PartialEq, Eq, Structural)]
pub struct PriceDetails {
    pub price: i64,
    pub created_at: i64,
}

/// Window and range parameters of a price query.  Absent `limit` and
/// `offset` default to 1000 and 0; `start` and `end` bound the creation
/// time strictly from below and above.
#[derive(Clone, Copy, Debug)]
pub struct PriceQueryParams {
    pub limit: Option<i64>,
    pub offset: Option<i64>,
    pub start: Option<i64>,
    pub end: Option<i64>,
}

/// The limit a query asks for, 1000 when absent.
pub open spec fn effective_limit(params: PriceQueryParams) -> i64 {
    match params.limit {
        Some(l) => l,
        None => 1000,
    }
}

/// The offset a query asks for, 0 when absent.
pub open spec fn effective_offset(params: PriceQueryParams) -> i64 {
    match params.offset {
        Some(o) => o,
        None => 0,
    }
}

/// Where a row created at `t` is inserted in an ordered price table:
/// after every row that does not postdate it.
pub open spec fn price_insert_pos(ps: Seq<Price>, t: i64) -> int
    decreases ps.len(),
{
    if ps.len() == 0 {
        0
    } else if ps[0].created_at > t {
        0
    } else {
        1 + price_insert_pos(ps.drop_first(), t)
    }
}

/// `price_insert_pos` is the position of the first row created after
/// `t`, or the whole length when there is none.
pub proof fn lemma_price_insert_pos(ps: Seq<Price>, t: i64, k: int)
    requires
        0 <= k <= ps.len(),
        forall|j: int| 0 <= j < k ==> ps[j].created_at <= t,
        k < ps.len() ==> ps[k].created_at > t,
    ensures
        price_insert_pos(ps, t) == k,
    decreases ps.len(),
{
    if ps.len() == 0 {
    } else if k == 0 {
    } else {
        assert(ps[0].created_at <= t);
        lemma_price_insert_pos(ps.drop_first(), t, k - 1);
    }
}

/// The price rows whose provider exists: the inner join the listing
/// performs, in table order.
pub open spec fn joined_prices(ps: Seq<Price>, providers: Seq<Provider>) -> Seq<Price>
    decreases ps.len(),
{
    if ps.len() == 0 {
        Seq::empty()
    } else {
        let rest = joined_prices(ps.drop_last(), providers);
        if provider_with_id(providers, ps.last().provider_id) {
            rest.push(ps.last())
        } else {
            rest
        }
    }
}

/// Whether a price row answers a query: right provider, creation time
/// strictly inside the requested range.
pub open spec fn price_matches(
    p: Price,
    provider_id: i32,
    start: Option<i64>,
    end: Option<i64>,
) -> bool {
    &&& p.provider_id == provider_id
    &&& (match start {
        Some(s) => p.created_at > s,
        None => true,
    })
    &&& (match end {
        Some(e) => p.created_at < e,
        None => true,
    })
}

/// The detail rows a provider query selects, before windowing, in table
/// order.
pub open spec fn selected_details(
    ps: Seq<Price>,
    provider_id: i32,
    start: Option<i64>,
    end: Option<i64>,
) -> Seq<PriceDetails>
    decreases ps.len(),
{
    if ps.len() == 0 {
        Seq::empty()
    } else {
        let rest = selected_details(ps.drop_last(), provider_id, start, end);
        if price_matches(ps.last(), provider_id, start, end) {
            rest.push(
                PriceDetails { price: ps.last().price, created_at: ps.last().created_at },
            )
        } else {
            rest
        }
    }
}

/// The page a window cuts out of the selected rows: at most `limit`
/// rows starting `offset` in, clamped to what is there.
pub open spec fn page(s: Seq<PriceDetails>, offset: int, limit: int) -> Seq<PriceDetails>
    recommends
        0 <= offset,
        0 <= limit,
{
    let lo = if offset <= s.len() {
        offset
    } else {
        s.len() as int
    };
    let hi = if offset + limit <= s.len() {
        offset + limit
    } else {
        s.len() as int
    };
    s.subrange(lo, hi)
}

/// Records a price for a provider under the next free id, stamped with
/// the clock reading and inserted in creation-time order.  Provider
/// existence is not re-validated here (the weakest repository variant);
/// the only failure is an exhausted id sequence.
pub fn create_price_for_provider(
    store: &mut Store,
    id: i32,
    json: ProviderPriceAdd,
    now: i64,
) -> (r: Result<AppSuccess, AppError>)
    requires
        old(store).wf(),
    ensures
        final(store).wf(),
        old(store).next_price_id == i32::MAX ==> r == Err::<AppSuccess, AppError>(
            AppError::InsertError(Resource::Price),
        ) && store_unchanged(*final(store), *old(store)),
        old(store).next_price_id < i32::MAX ==> r == Ok::<AppSuccess, AppError>(
            AppSuccess::Created(Resource::Price, old(store).next_price_id),
        ) && final(store).prices@ == old(store).prices@.insert(
            price_insert_pos(old(store).prices@, now),
            (Price {
                id: old(store).next_price_id,
                provider_id: id,
                price: json.price,
                created_at: now,
            }),
        ) && final(store).next_price_id == old(store).next_price_id + 1,
        users_unchanged(*final(store), *old(store)),
        providers_unchanged(*final(store), *old(store)),
        zones_unchanged(*final(store), *old(store)),
        links_unchanged(*final(store), *old(store)),
        runs_unchanged(*final(store), *old(store)),
{
    if store.next_price_id == i32::MAX {
        return Err(AppError::InsertError(Resource::Price));
    }
    let new_id = store.next_price_id;
    let row = Price { id: new_id, provider_id: id, price: json.price, created_at: now };
    let n = store.prices.len();
    let mut pos: usize = 0;
    while pos < n && store.prices[pos].created_at <= now
        invariant
            pos <= n,
            n == store.prices@.len(),
            forall|j: int| 0 <= j < pos ==> store.prices@[j].created_at <= now,
        decreases n - pos,
    {
        pos += 1;
    }
    proof {
        lemma_price_insert_pos(store.prices@, now, pos as int);
    }
    let ghost old_prices = store.prices@;
    store.prices.insert(pos, row);
    store.next_price_id = new_id + 1;
    proof {
        old_prices.insert_ensures(pos as int, row);
        assert(distinct_price_ids(store.prices@));
        assert(prices_ordered(store.prices@));
    }
    Ok(AppSuccess::Created(Resource::Price, new_id))
}

/// Lists every price whose provider still exists, in creation-time
/// order: the inner join of prices with providers.
pub fn fetch_prices(store: &Store) -> (r: Result<Vec<Price>, AppError>)
    ensures
        (r matches Ok(v) && v@ == joined_prices(store.prices@, store.providers@)),
{
    let n = store.prices.len();
    let mut out: Vec<Price> = Vec::new();
    let mut i: usize = 0;
    while i < n
        invariant
            i <= n,
            n == store.prices@.len(),
            out@ == joined_prices(store.prices@.subrange(0, i as int), store.providers@),
        decreases n - i,
    {
        let p = store.prices[i];
        proof {
            assert(store.prices@.subrange(0, i as int + 1).drop_last() =~= store.prices@.subrange(
                0,
                i as int,
            ));
            assert(store.prices@.subrange(0, i as int + 1).last() == p);
        }
        if crate::store::provider_exists(p.provider_id, store) {
            out.push(p);
        }
        i += 1;
    }
    proof {
        assert(store.prices@.subrange(0, n as int) =~= store.prices@);
    }
    Ok(out)
}

/// A provider's price history: the rows for that provider whose
/// creation time lies strictly inside the requested range, in
/// creation-time order, windowed by offset and limit.  A negative limit
/// or offset is refused, as the store it models refuses it.
pub fn fetch_prices_by_provider(store: &Store, id: i32, params: PriceQueryParams) -> (r: Result<
    Vec<PriceDetails>,
    AppError,
>)
    ensures
        (effective_limit(params) < 0 || effective_offset(params) < 0) ==> r == Err::<
            Vec<PriceDetails>,
            AppError,
        >(AppError::FetchError(Resource::Price)),
        (effective_limit(params) >= 0 && effective_offset(params) >= 0) ==> (r matches Ok(v)
            && v@ == page(
            selected_details(store.prices@, id, params.start, params.end),
            effective_offset(params) as int,
            effective_limit(params) as int,
        )),
{
    let limit: i64 = match params.limit {
        Some(l) => l,
        None => 1000,
    };
    let offset: i64 = match params.offset {
        Some(o) => o,
        None => 0,
    };
    if limit < 0 || offset < 0 {
        return Err(AppError::FetchError(Resource::Price));
    }
    let n = store.prices.len();
    let mut matching: Vec<PriceDetails> = Vec::new();
    let mut i: usize = 0;
    while i < n
        invariant
            i <= n,
            n == store.prices@.len(),
            matching@ == selected_details(
                store.prices@.subrange(0, i as int),
                id,
                params.start,
                params.end,
            ),
        decreases n - i,
    {
        let p = store.prices[i];
        proof {
            assert(store.prices@.subrange(0, i as int + 1).drop_last() =~= store.prices@.subrange(
                0,
                i as int,
            ));
            assert(store.prices@.subrange(0, i as int + 1).last() == p);
        }
        let in_range_low = match params.start {
            Some(s) => p.created_at > s,
            None => true,
        };
        let in_range_high = match params.end {
            Some(e) => p.created_at < e,
            None => true,
        };
        if p.provider_id == id && in_range_low && in_range_high {
            matching.push(PriceDetails { price: p.price, created_at: p.created_at });
        }
        i += 1;
    }
    proof {
        assert(store.prices@.subrange(0, n as int) =~= store.prices@);
    }
    let ghost selected = matching@;
    let m = matching.len();
    let mut out: Vec<PriceDetails> = Vec::new();
    let mut j: usize = 0;
    let mut skipped: i64 = 0;
    let mut taken: i64 = 0;
    while j < m && taken < limit
        invariant
            j <= m,
            m == selected.len(),
            matching@ == selected,
            0 <= offset,
            0 <= limit,
            0 <= skipped <= offset,
            0 <= taken <= limit,
            j as int <= offset ==> skipped == j && taken == 0 && out@ =~= Seq::<
                PriceDetails,
            >::empty(),
            j as int > offset ==> skipped == offset && taken == (if j - offset <= limit {
                j - offset
            } else {
                limit as int
            }) && out@ == selected.subrange(offset as int, offset + taken),
        decreases m - j,
    {
        if skipped < offset {
            skipped += 1;
        } else {
            out.push(matching[j]);
            taken += 1;
            proof {
                assert(out@ =~= selected.subrange(offset as int, offset + taken));
            }
        }
        j += 1;
    }
    proof {
        assert(out@ =~= page(selected, offset as int, limit as int));
    }
    Ok(out)
}

/// Deletes a price.  A missing id is `NotFound`, not a silent success;
/// otherwise the one row carrying it is removed.
pub fn delete_price(store: &mut Store, id: i32) -> (r: Result<AppSuccess, AppError>)
    requires
        old(store).wf(),
    ensures
        final(store).wf(),
        !price_with_id(old(store).prices@, id) ==> r == Err::<AppSuccess, AppError>(
            AppError::NotFound(Resource::Price),
        ) && store_unchanged(*final(store), *old(store)),
        price_with_id(old(store).prices@, id) ==> r == Ok::<AppSuccess, AppError>(
            AppSuccess::Deleted(Resource::Price, id),
        ) && final(store).prices@ == old(store).prices@.remove(
            price_index(old(store).prices@, id),
        ) && final(store).next_price_id == old(store).next_price_id,
        users_unchanged(*final(store), *old(store)),
        providers_unchanged(*final(store), *old(store)),
        zones_unchanged(*final(store), *old(store)),
        links_unchanged(*final(store), *old(store)),
        runs_unchanged(*final(store), *old(store)),
{
    let k = match price_position(store, id) {
        Some(k) => k,
        None => {
            return Err(AppError::NotFound(Resource::Price));
        },
    };
    proof {
        crate::store::lemma_price_index_agrees(store.prices@, k as int, id);
    }
    let ghost old_prices = store.prices@;
    store.prices.remove(k);
    proof {
        old_prices.remove_ensures(k as int);
        assert(distinct_price_ids(store.prices@));
        assert(prices_ordered(store.prices@));
    }
    Ok(AppSuccess::Deleted(Resource::Price, id))
}

} // verus!
