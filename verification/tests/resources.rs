//! Resource handlers: providers, zones, prices, scraping runs.

use fuel_api::delivery_zones::{
    create_delivery_zone, delete_delivery_zone, fetch_delivery_zones, DeliveryZoneAdd,
    DeliveryZoneProviderAdd,
};
use fuel_api::errors::{AppError, AppSuccess, Resource};
use fuel_api::prices::{
    create_price_for_provider, delete_price, fetch_prices, fetch_prices_by_provider,
    PriceQueryParams, ProviderPriceAdd,
};
use fuel_api::providers::{
    add_delivery_zones_to_provider, create_provider, delete_provider, fetch_provider,
    fetch_providers_ids, fetch_providers_with_zones, update_last_accessed, update_provider,
    ProviderAdd, ProviderUpdate,
};
use fuel_api::scraping_runs::{create_scraping_run, get_last_scraping_run_by_time};
use fuel_api::store::{ScrapingRun, Store, ZoneLink};

fn provider(name: &str) -> ProviderAdd {
    ProviderAdd {
        name: name.to_string(),
        url: format!("https://{name}.example"),
        html_element: ".price".to_string(),
    }
}

fn zone(name: &str) -> DeliveryZoneAdd {
    DeliveryZoneAdd { name: name.to_string(), description: format!("around {name}") }
}

#[test]
fn create_provider_assigns_sequential_ids() {
    let mut store = Store::new();
    assert_eq!(
        create_provider(&mut store, provider("north"), 10),
        Ok(AppSuccess::Created(Resource::Provider, 1))
    );
    assert_eq!(
        create_provider(&mut store, provider("south"), 11),
        Ok(AppSuccess::Created(Resource::Provider, 2))
    );
    assert_eq!(store.providers.len(), 2);
    assert_eq!(store.providers[0].name, "north");
    assert_eq!(store.providers[0].created_at, 10);
    assert_eq!(store.providers[0].last_updated, 10);
    assert_eq!(store.providers[0].last_accessed, 10);
}

#[test]
fn zone_batch_stops_at_missing_zone_but_keeps_earlier_inserts() {
    let mut store = Store::new();
    // Providers 1..=5 so the batch targets provider 5, zones 1 and 2 exist,
    // zone 999 does not.
    for n in ["a", "b", "c", "d", "e"] {
        create_provider(&mut store, provider(n), 0).unwrap();
    }
    create_delivery_zone(&mut store, zone("center")).unwrap();
    create_delivery_zone(&mut store, zone("edge")).unwrap();
    let r = add_delivery_zones_to_provider(
        &mut store,
        5,
        DeliveryZoneProviderAdd { zone_ids: vec![1, 2, 999] },
    );
    assert_eq!(r, Err(AppError::NotFound(Resource::DeliveryZone)));
    // The untransacted baseline: zones 1 and 2 ARE inserted despite the
    // overall failure.
    assert_eq!(
        store.provider_zones,
        vec![
            ZoneLink { provider_id: 5, zone_id: 1 },
            ZoneLink { provider_id: 5, zone_id: 2 },
        ]
    );
}

#[test]
fn zone_batch_for_missing_provider_changes_nothing() {
    let mut store = Store::new();
    create_delivery_zone(&mut store, zone("center")).unwrap();
    let r = add_delivery_zones_to_provider(
        &mut store,
        7,
        DeliveryZoneProviderAdd { zone_ids: vec![1] },
    );
    assert_eq!(r, Err(AppError::NotFound(Resource::Provider)));
    assert!(store.provider_zones.is_empty());
}

#[test]
fn second_fetch_sees_a_last_accessed_at_or_after_the_first() {
    let mut store = Store::new();
    create_provider(&mut store, provider("north"), 0).unwrap();
    let first = fetch_provider(&mut store, 1, 100).unwrap();
    assert_eq!(first.last_accessed, 100);
    let second = fetch_provider(&mut store, 1, 250).unwrap();
    assert_eq!(second.last_accessed, 250);
    assert!(second.last_accessed >= first.last_accessed);
    assert_eq!(store.providers[0].last_accessed, 250);
}

#[test]
fn fetch_provider_missing_id_is_not_found() {
    let mut store = Store::new();
    assert_eq!(
        fetch_provider(&mut store, 3, 0),
        Err(AppError::NotFound(Resource::Provider))
    );
}

#[test]
fn update_provider_rewrites_fields_and_keeps_timestamps() {
    let mut store = Store::new();
    create_provider(&mut store, provider("north"), 42).unwrap();
    let r = update_provider(
        &mut store,
        ProviderUpdate {
            id: 1,
            name: "renamed".to_string(),
            url: "https://renamed.example".to_string(),
            html_element: "#cost".to_string(),
        },
    );
    assert_eq!(r, Ok(()));
    assert_eq!(store.providers[0].name, "renamed");
    assert_eq!(store.providers[0].html_element, "#cost");
    assert_eq!(store.providers[0].created_at, 42);
    assert_eq!(store.providers[0].last_updated, 42);
    // An update of zero rows is still a success.
    let r = update_provider(
        &mut store,
        ProviderUpdate {
            id: 9,
            name: "ghost".to_string(),
            url: "u".to_string(),
            html_element: "e".to_string(),
        },
    );
    assert_eq!(r, Ok(()));
    assert_eq!(store.providers.len(), 1);
    assert_eq!(store.providers[0].name, "renamed");
}

#[test]
fn update_last_accessed_stamps_the_row() {
    let mut store = Store::new();
    create_provider(&mut store, provider("north"), 0).unwrap();
    assert_eq!(
        update_last_accessed(&mut store, 1, 77),
        Ok(AppSuccess::Updated(Resource::Provider, 1))
    );
    assert_eq!(store.providers[0].last_accessed, 77);
    // Same success for a missing id, as an update of zero rows.
    assert_eq!(
        update_last_accessed(&mut store, 9, 88),
        Ok(AppSuccess::Updated(Resource::Provider, 9))
    );
}

#[test]
fn fetch_providers_ids_lists_id_and_last_accessed() {
    let mut store = Store::new();
    create_provider(&mut store, provider("a"), 1).unwrap();
    create_provider(&mut store, provider("b"), 2).unwrap();
    update_last_accessed(&mut store, 2, 99).unwrap();
    let ids = fetch_providers_ids(&store).unwrap();
    assert_eq!(ids.len(), 2);
    assert_eq!((ids[0].id, ids[0].last_accessed), (1, 1));
    assert_eq!((ids[1].id, ids[1].last_accessed), (2, 99));
}

#[test]
fn aggregation_groups_zones_and_keeps_zoneless_providers() {
    let mut store = Store::new();
    create_provider(&mut store, provider("with-zones"), 0).unwrap();
    create_provider(&mut store, provider("without"), 0).unwrap();
    create_delivery_zone(&mut store, zone("center")).unwrap();
    create_delivery_zone(&mut store, zone("edge")).unwrap();
    add_delivery_zones_to_provider(
        &mut store,
        1,
        DeliveryZoneProviderAdd { zone_ids: vec![2, 1] },
    )
    .unwrap();
    let all = fetch_providers_with_zones(&store).unwrap();
    assert_eq!(all.len(), 2);
    assert_eq!(all[0].id, 1);
    assert_eq!(all[0].name, "with-zones");
    let zone_ids: Vec<i32> = all[0].zones.iter().map(|z| z.id).collect();
    assert_eq!(zone_ids, vec![2, 1]);
    assert_eq!(all[0].zones[0].name, "edge");
    // A provider with no zones appears once, with an empty list.
    assert_eq!(all[1].id, 2);
    assert!(all[1].zones.is_empty());
}

#[test]
fn deleting_a_nonexistent_provider_is_not_found() {
    let mut store = Store::new();
    assert_eq!(
        delete_provider(&mut store, 42),
        Err(AppError::NotFound(Resource::Provider))
    );
}

#[test]
fn deleting_a_provider_removes_its_associations() {
    let mut store = Store::new();
    create_provider(&mut store, provider("a"), 0).unwrap();
    create_provider(&mut store, provider("b"), 0).unwrap();
    create_delivery_zone(&mut store, zone("center")).unwrap();
    add_delivery_zones_to_provider(&mut store, 1, DeliveryZoneProviderAdd { zone_ids: vec![1] })
        .unwrap();
    add_delivery_zones_to_provider(&mut store, 2, DeliveryZoneProviderAdd { zone_ids: vec![1] })
        .unwrap();
    assert_eq!(
        delete_provider(&mut store, 1),
        Ok(AppSuccess::Deleted(Resource::Provider, 1))
    );
    assert_eq!(store.providers.len(), 1);
    assert_eq!(store.providers[0].id, 2);
    assert_eq!(store.provider_zones, vec![ZoneLink { provider_id: 2, zone_id: 1 }]);
}

#[test]
fn zone_lifecycle_create_list_delete() {
    let mut store = Store::new();
    assert_eq!(
        create_delivery_zone(&mut store, zone("center")),
        Ok(AppSuccess::Created(Resource::DeliveryZone, 1))
    );
    create_delivery_zone(&mut store, zone("edge")).unwrap();
    let zones = fetch_delivery_zones(&store).unwrap();
    assert_eq!(zones.len(), 2);
    assert_eq!(zones[0].name, "center");
    assert_eq!(zones[1].description, "around edge");
    assert_eq!(
        delete_delivery_zone(&mut store, 1),
        Ok(AppSuccess::Deleted(Resource::DeliveryZone, 1))
    );
    assert_eq!(
        delete_delivery_zone(&mut store, 1),
        Err(AppError::NotFound(Resource::DeliveryZone))
    );
    assert_eq!(fetch_delivery_zones(&store).unwrap().len(), 1);
}

#[test]
fn deleting_a_zone_removes_its_associations() {
    let mut store = Store::new();
    create_provider(&mut store, provider("a"), 0).unwrap();
    create_delivery_zone(&mut store, zone("center")).unwrap();
    create_delivery_zone(&mut store, zone("edge")).unwrap();
    add_delivery_zones_to_provider(
        &mut store,
        1,
        DeliveryZoneProviderAdd { zone_ids: vec![1, 2] },
    )
    .unwrap();
    delete_delivery_zone(&mut store, 1).unwrap();
    assert_eq!(store.provider_zones, vec![ZoneLink { provider_id: 1, zone_id: 2 }]);
    let all = fetch_providers_with_zones(&store).unwrap();
    assert_eq!(all[0].zones.len(), 1);
    assert_eq!(all[0].zones[0].id, 2);
}

#[test]
fn prices_list_in_creation_order_and_join_away_orphans() {
    let mut store = Store::new();
    create_provider(&mut store, provider("a"), 0).unwrap();
    create_provider(&mut store, provider("b"), 0).unwrap();
    // Recorded out of time order; the table keeps creation-time order.
    create_price_for_provider(&mut store, 1, ProviderPriceAdd { price: 1500 }, 300).unwrap();
    create_price_for_provider(&mut store, 2, ProviderPriceAdd { price: 1600 }, 100).unwrap();
    create_price_for_provider(&mut store, 1, ProviderPriceAdd { price: 1700 }, 200).unwrap();
    let all = fetch_prices(&store).unwrap();
    let stamps: Vec<i64> = all.iter().map(|p| p.created_at).collect();
    assert_eq!(stamps, vec![100, 200, 300]);
    // A price whose provider is gone drops out of the join.
    delete_provider(&mut store, 2).unwrap();
    let all = fetch_prices(&store).unwrap();
    assert_eq!(all.len(), 2);
    assert!(all.iter().all(|p| p.provider_id == 1));
}

#[test]
fn price_query_filters_strictly_and_windows() {
    let mut store = Store::new();
    create_provider(&mut store, provider("a"), 0).unwrap();
    create_provider(&mut store, provider("b"), 0).unwrap();
    for t in [100, 200, 300, 400] {
        create_price_for_provider(&mut store, 1, ProviderPriceAdd { price: 10 * t }, t).unwrap();
    }
    create_price_for_provider(&mut store, 2, ProviderPriceAdd { price: 1 }, 250).unwrap();
    let none = PriceQueryParams { limit: None, offset: None, start: None, end: None };
    let all = fetch_prices_by_provider(&store, 1, none).unwrap();
    assert_eq!(all.len(), 4);
    // The range bounds are strict on both sides.
    let ranged = fetch_prices_by_provider(
        &store,
        1,
        PriceQueryParams { limit: None, offset: None, start: Some(100), end: Some(400) },
    )
    .unwrap();
    let stamps: Vec<i64> = ranged.iter().map(|d| d.created_at).collect();
    assert_eq!(stamps, vec![200, 300]);
    // Offset and limit cut a window.
    let windowed = fetch_prices_by_provider(
        &store,
        1,
        PriceQueryParams { limit: Some(2), offset: Some(1), start: None, end: None },
    )
    .unwrap();
    let stamps: Vec<i64> = windowed.iter().map(|d| d.created_at).collect();
    assert_eq!(stamps, vec![200, 300]);
    // An offset past the end is an empty page.
    let past = fetch_prices_by_provider(
        &store,
        1,
        PriceQueryParams { limit: Some(5), offset: Some(10), start: None, end: None },
    )
    .unwrap();
    assert!(past.is_empty());
    // The store refuses a negative window.
    assert_eq!(
        fetch_prices_by_provider(
            &store,
            1,
            PriceQueryParams { limit: Some(-1), offset: None, start: None, end: None },
        ),
        Err(AppError::FetchError(Resource::Price))
    );
    assert_eq!(
        fetch_prices_by_provider(
            &store,
            1,
            PriceQueryParams { limit: None, offset: Some(-3), start: None, end: None },
        ),
        Err(AppError::FetchError(Resource::Price))
    );
}

#[test]
fn delete_price_requires_the_row() {
    let mut store = Store::new();
    create_provider(&mut store, provider("a"), 0).unwrap();
    create_price_for_provider(&mut store, 1, ProviderPriceAdd { price: 999 }, 10).unwrap();
    assert_eq!(
        delete_price(&mut store, 2),
        Err(AppError::NotFound(Resource::Price))
    );
    assert_eq!(
        delete_price(&mut store, 1),
        Ok(AppSuccess::Deleted(Resource::Price, 1))
    );
    assert!(store.prices.is_empty());
}

#[test]
fn last_scraping_run_has_the_maximum_end_time() {
    let mut store = Store::new();
    assert_eq!(
        get_last_scraping_run_by_time(&store),
        Err(AppError::FetchError(Resource::ScrapingRun))
    );
    for (s, e) in [(10, 500), (20, 900), (30, 700)] {
        create_scraping_run(&mut store, ScrapingRun { start_time: s, end_time: e }).unwrap();
    }
    let latest = get_last_scraping_run_by_time(&store).unwrap();
    assert_eq!(latest, ScrapingRun { start_time: 20, end_time: 900 });
}

#[test]
fn scraping_runs_get_sequential_ids() {
    let mut store = Store::new();
    assert_eq!(
        create_scraping_run(&mut store, ScrapingRun { start_time: 1, end_time: 2 }),
        Ok(AppSuccess::Created(Resource::ScrapingRun, 1))
    );
    assert_eq!(
        create_scraping_run(&mut store, ScrapingRun { start_time: 3, end_time: 4 }),
        Ok(AppSuccess::Created(Resource::ScrapingRun, 2))
    );
    assert_eq!(store.runs.len(), 2);
}

#[test]
fn updating_a_provider_twice_with_the_same_fields_changes_nothing_more() {
    let mut store = Store::new();
    create_provider(&mut store, provider("north"), 5).unwrap();
    let update = || ProviderUpdate {
        id: 1,
        name: "renamed".to_string(),
        url: "https://renamed.example".to_string(),
        html_element: "#cost".to_string(),
    };
    update_provider(&mut store, update()).unwrap();
    let once = (
        store.providers[0].id,
        store.providers[0].name.clone(),
        store.providers[0].url.clone(),
        store.providers[0].html_element.clone(),
        store.providers[0].created_at,
        store.providers[0].last_updated,
        store.providers[0].last_accessed,
    );
    update_provider(&mut store, update()).unwrap();
    let twice = (
        store.providers[0].id,
        store.providers[0].name.clone(),
        store.providers[0].url.clone(),
        store.providers[0].html_element.clone(),
        store.providers[0].created_at,
        store.providers[0].last_updated,
        store.providers[0].last_accessed,
    );
    assert_eq!(twice, once);
}

#[test]
fn messages_carry_operation_resource_and_id() {
    assert_eq!(
        AppSuccess::Created(Resource::Provider, 7).message(),
        "Created provider with id: 7"
    );
    assert_eq!(
        AppSuccess::Updated(Resource::Price, -12).message(),
        "Updated price with id: -12"
    );
    assert_eq!(
        AppSuccess::Deleted(Resource::DeliveryZone, i32::MIN).message(),
        "Deleted delivery zone with id: -2147483648"
    );
    assert_eq!(
        AppSuccess::Created(Resource::ScrapingRun, 1000).message(),
        "Created scraping run with id: 1000"
    );
    assert_eq!(AppError::NotFound(Resource::Provider).message(), "provider not found");
    assert_eq!(
        AppError::InsertError(Resource::Price).message(),
        "Error while inserting price"
    );
    assert_eq!(
        AppError::FetchError(Resource::ScrapingRun).message(),
        "Error while fetching scraping run"
    );
}

#[test]
fn exhausted_id_sequences_are_insert_errors() {
    let mut store = Store::new();
    store.next_provider_id = i32::MAX;
    assert_eq!(
        create_provider(&mut store, provider("late"), 0),
        Err(AppError::InsertError(Resource::Provider))
    );
    assert!(store.providers.is_empty());
    store.next_zone_id = i32::MAX;
    assert_eq!(
        create_delivery_zone(&mut store, zone("late")),
        Err(AppError::InsertError(Resource::DeliveryZone))
    );
    store.next_price_id = i32::MAX;
    assert_eq!(
        create_price_for_provider(&mut store, 1, ProviderPriceAdd { price: 1 }, 0),
        Err(AppError::InsertError(Resource::Price))
    );
    store.next_run_id = i32::MAX;
    assert_eq!(
        create_scraping_run(&mut store, ScrapingRun { start_time: 0, end_time: 0 }),
        Err(AppError::InsertError(Resource::ScrapingRun))
    );
}

#[test]
fn resource_statuses_match_the_http_contract() {
    assert_eq!(AppError::NotFound(Resource::Provider).status(), 404);
    assert_eq!(AppError::InsertError(Resource::Price).status(), 500);
    assert_eq!(AppError::FetchError(Resource::ScrapingRun).status(), 500);
    assert_eq!(AppError::UpdateError(Resource::DeliveryZone).status(), 500);
    assert_eq!(AppError::DeleteError(Resource::Provider).status(), 500);
    assert_eq!(AppSuccess::Created(Resource::Provider, 1).status(), 201);
    assert_eq!(AppSuccess::Updated(Resource::Provider, 1).status(), 200);
    assert_eq!(AppSuccess::Deleted(Resource::Provider, 1).status(), 200);
}
