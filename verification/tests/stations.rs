use meteostore::measurements::{fetch_condition_measurements, insert_measurements};
use meteostore::meteostations::{
    delete_one_station, fetch_meteostation, fetch_meteostations, fetch_sensor_meteostation,
    insert_meteostation, update_one_station,
};
use meteostore::meteostations_sensor::insert_meteostation_sensors_at;
use meteostore::models::{
    MeteostationRequest, MeteostationSensorCreate, MeteostationSensorCreateRequest,
    MeteostationUpdate, SensorRequest, StoreError,
};
use meteostore::sensors::insert_sensor;
use meteostore::store::Store;

fn station_request(name: &str, lon: &str, lat: &str) -> MeteostationRequest {
    MeteostationRequest {
        name: name.to_string(),
        longitude: lon.to_string(),
        latitude: lat.to_string(),
    }
}

fn binding(inv: &str, station_id: i32, sensor_id: i32, added_ts: Option<i64>) -> MeteostationSensorCreate {
    MeteostationSensorCreate {
        inventory_number: inv.to_string(),
        station_id,
        sensor_id,
        added_ts,
    }
}

#[test]
fn create_station_returns_submitted_fields() {
    let mut store = Store::new();
    let created = insert_meteostation(&mut store, &station_request("Alpha", "10.5", "20.25"))
        .unwrap();
    assert_eq!(created.id, 1);
    assert_eq!(created.name, "Alpha");
    assert_eq!(created.longitude, "10.5");
    assert_eq!(created.latitude, "20.25");

    let fetched = fetch_meteostation(&store, 1).unwrap();
    assert_eq!(fetched.id, 1);
    assert_eq!(fetched.name, "Alpha");
    assert_eq!(fetched.longitude, "10.5");
    assert_eq!(fetched.latitude, "20.25");
}

#[test]
fn list_stations_in_creation_order() {
    let mut store = Store::new();
    insert_meteostation(&mut store, &station_request("Alpha", "1", "2")).unwrap();
    insert_meteostation(&mut store, &station_request("Beta", "3", "4")).unwrap();
    let all = fetch_meteostations(&store).unwrap();
    assert_eq!(all.len(), 2);
    assert_eq!(all[0].name, "Alpha");
    assert_eq!(all[1].name, "Beta");
    assert_eq!(all[1].id, 2);
}

#[test]
fn get_station_not_found() {
    let store = Store::new();
    assert_eq!(fetch_meteostation(&store, 7), Err(StoreError::NotFound));
}

#[test]
fn update_station_coalesces_absent_fields() {
    let mut store = Store::new();
    insert_meteostation(&mut store, &station_request("Alpha", "10.5", "20.25")).unwrap();
    let updated = update_one_station(
        &mut store,
        1,
        &MeteostationUpdate { name: Some("Gamma".to_string()), longitude: None, latitude: None },
    )
    .unwrap();
    assert_eq!(updated.name, "Gamma");
    assert_eq!(updated.longitude, "10.5");
    assert_eq!(updated.latitude, "20.25");
    let fetched = fetch_meteostation(&store, 1).unwrap();
    assert_eq!(fetched.name, "Gamma");
    assert_eq!(fetched.latitude, "20.25");
}

#[test]
fn update_station_not_found() {
    let mut store = Store::new();
    let r = update_one_station(
        &mut store,
        5,
        &MeteostationUpdate { name: None, longitude: None, latitude: None },
    );
    assert_eq!(r, Err(StoreError::NotFound));
}

#[test]
fn delete_station_without_bindings_succeeds() {
    let mut store = Store::new();
    insert_meteostation(&mut store, &station_request("Alpha", "1", "2")).unwrap();
    assert_eq!(delete_one_station(&mut store, 1), Ok(()));
    assert_eq!(fetch_meteostation(&store, 1), Err(StoreError::NotFound));
    // An id that was never there deletes nothing and succeeds.
    assert_eq!(delete_one_station(&mut store, 9), Ok(()));
}

#[test]
fn delete_station_with_binding_is_conflict_and_mutates_nothing() {
    let mut store = Store::new();
    insert_meteostation(&mut store, &station_request("Alpha", "1", "2")).unwrap();
    insert_sensor(
        &mut store,
        &SensorRequest { sensor_name: "Probe".to_string(), sensors_measurements: vec![] },
    )
    .unwrap();
    insert_meteostation_sensors_at(
        &mut store,
        &MeteostationSensorCreateRequest {
            meteostations_sensors: vec![binding("INV-1", 1, 1, Some(100))],
        },
        50,
    )
    .unwrap();
    assert_eq!(delete_one_station(&mut store, 1), Err(StoreError::Conflict));
    let still_there = fetch_meteostation(&store, 1).unwrap();
    assert_eq!(still_there.name, "Alpha");
}

#[test]
fn station_sensors_distinct_and_ordered_by_id() {
    let mut store = Store::new();
    insert_meteostation(&mut store, &station_request("Alpha", "1", "2")).unwrap();
    for name in ["A", "B", "C"] {
        insert_sensor(
            &mut store,
            &SensorRequest { sensor_name: name.to_string(), sensors_measurements: vec![] },
        )
        .unwrap();
    }
    insert_meteostation_sensors_at(
        &mut store,
        &MeteostationSensorCreateRequest {
            meteostations_sensors: vec![
                binding("I-3", 1, 3, Some(10)),
                binding("I-3b", 1, 3, Some(20)),
                binding("I-1", 1, 1, Some(30)),
                binding("I-2-elsewhere", 2, 2, Some(40)),
            ],
        },
        5,
    )
    .unwrap();
    let sensors = fetch_sensor_meteostation(&store, 1).unwrap();
    let ids: Vec<i32> = sensors.iter().map(|s| s.id).collect();
    assert_eq!(ids, vec![1, 3]);
    assert_eq!(sensors[0].name, "A");
    assert_eq!(sensors[1].name, "C");
}

#[test]
fn filter_measurements_by_station_via_bindings() {
    let mut store = Store::new();
    insert_meteostation(&mut store, &station_request("Alpha", "1", "2")).unwrap();
    insert_meteostation(&mut store, &station_request("Beta", "3", "4")).unwrap();
    insert_sensor(
        &mut store,
        &SensorRequest { sensor_name: "Probe".to_string(), sensors_measurements: vec![] },
    )
    .unwrap();
    insert_meteostation_sensors_at(
        &mut store,
        &MeteostationSensorCreateRequest {
            meteostations_sensors: vec![
                binding("INV-A", 1, 1, Some(10)),
                binding("INV-B", 2, 1, Some(20)),
            ],
        },
        5,
    )
    .unwrap();
    insert_measurements(
        &mut store,
        &meteostore::models::MeasurementRequest {
            measurements: vec![
                meteostore::models::Measurement {
                    sensor_inventory_number: "INV-A".to_string(),
                    value: "1.5".to_string(),
                    ts: 100,
                    type_id: None,
                },
                meteostore::models::Measurement {
                    sensor_inventory_number: "INV-B".to_string(),
                    value: "2.5".to_string(),
                    ts: 200,
                    type_id: None,
                },
                meteostore::models::Measurement {
                    sensor_inventory_number: "INV-LOOSE".to_string(),
                    value: "3.5".to_string(),
                    ts: 300,
                    type_id: None,
                },
            ],
        },
    )
    .unwrap();
    let q = meteostore::models::MeasurementQuery { meteostation: Some(1), sensor: None };
    let rows = fetch_condition_measurements(&store, &q).unwrap();
    assert_eq!(rows.len(), 1);
    assert_eq!(rows[0].sensor_inventory_number, "INV-A");
    assert_eq!(rows[0].value, "1.5");

    // Without filters the join still excludes inventory numbers never bound.
    let all_bound = fetch_condition_measurements(
        &store,
        &meteostore::models::MeasurementQuery { meteostation: None, sensor: None },
    )
    .unwrap();
    let invs: Vec<&str> =
        all_bound.iter().map(|m| m.sensor_inventory_number.as_str()).collect();
    assert_eq!(invs, vec!["INV-A", "INV-B"]);
}
