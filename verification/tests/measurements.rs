use meteostore::measurements::{
    delete_measurement, fetch_all_measurements, fetch_condition_measurements, insert_measurements,
};
use meteostore::meteostations_sensor::insert_meteostation_sensors_at;
use meteostore::models::{
    Measurement, MeasurementQuery, MeasurementRequest, MeteostationSensorCreate,
    MeteostationSensorCreateRequest,
};
use meteostore::store::Store;

fn reading(inv: &str, value: &str, ts: i64, type_id: Option<i32>) -> Measurement {
    Measurement {
        sensor_inventory_number: inv.to_string(),
        value: value.to_string(),
        ts,
        type_id,
    }
}

#[test]
fn insert_batch_keeps_request_order() {
    let mut store = Store::new();
    insert_measurements(
        &mut store,
        &MeasurementRequest {
            measurements: vec![
                reading("A", "1.25", 100, Some(1)),
                reading("B", "2.5", 200, None),
                reading("A", "3.75", 300, None),
            ],
        },
    )
    .unwrap();
    let all = fetch_all_measurements(&store).unwrap();
    assert_eq!(all.len(), 3);
    assert_eq!(all[0].sensor_inventory_number, "A");
    assert_eq!(all[0].value, "1.25");
    assert_eq!(all[0].ts, 100);
    assert_eq!(all[0].type_id, Some(1));
    assert_eq!(all[1].sensor_inventory_number, "B");
    assert_eq!(all[2].ts, 300);
}

#[test]
fn round_trip_delete_by_inventory_number() {
    let mut store = Store::new();
    insert_measurements(
        &mut store,
        &MeasurementRequest { measurements: vec![reading("KEEP", "0.5", 1, None)] },
    )
    .unwrap();
    insert_measurements(
        &mut store,
        &MeasurementRequest {
            measurements: vec![
                reading("GONE", "1", 10, None),
                reading("KEEP", "2", 20, None),
                reading("GONE", "3", 30, None),
                reading("KEEP", "4", 40, None),
            ],
        },
    )
    .unwrap();
    delete_measurement(&mut store, "GONE".to_string()).unwrap();
    let left = fetch_all_measurements(&store).unwrap();
    assert_eq!(left.len(), 3);
    assert!(left.iter().all(|m| m.sensor_inventory_number == "KEEP"));
    assert_eq!(left[0].ts, 1);
    assert_eq!(left[1].ts, 20);
    assert_eq!(left[2].ts, 40);
}

#[test]
fn delete_with_no_matching_rows_succeeds() {
    let mut store = Store::new();
    insert_measurements(
        &mut store,
        &MeasurementRequest { measurements: vec![reading("A", "1", 1, None)] },
    )
    .unwrap();
    assert_eq!(delete_measurement(&mut store, "ABSENT".to_string()), Ok(()));
    assert_eq!(fetch_all_measurements(&store).unwrap().len(), 1);
}

#[test]
fn filter_by_sensor_and_both_filters() {
    let mut store = Store::new();
    insert_meteostation_sensors_at(
        &mut store,
        &MeteostationSensorCreateRequest {
            meteostations_sensors: vec![
                MeteostationSensorCreate {
                    inventory_number: "A".to_string(),
                    station_id: 1,
                    sensor_id: 10,
                    added_ts: Some(1),
                },
                MeteostationSensorCreate {
                    inventory_number: "B".to_string(),
                    station_id: 1,
                    sensor_id: 20,
                    added_ts: Some(2),
                },
                MeteostationSensorCreate {
                    inventory_number: "C".to_string(),
                    station_id: 2,
                    sensor_id: 10,
                    added_ts: Some(3),
                },
            ],
        },
        0,
    )
    .unwrap();
    insert_measurements(
        &mut store,
        &MeasurementRequest {
            measurements: vec![
                reading("A", "1", 10, None),
                reading("B", "2", 20, None),
                reading("C", "3", 30, None),
            ],
        },
    )
    .unwrap();

    let by_sensor = fetch_condition_measurements(
        &store,
        &MeasurementQuery { meteostation: None, sensor: Some(10) },
    )
    .unwrap();
    let invs: Vec<&str> = by_sensor.iter().map(|m| m.sensor_inventory_number.as_str()).collect();
    assert_eq!(invs, vec!["A", "C"]);

    let by_both = fetch_condition_measurements(
        &store,
        &MeasurementQuery { meteostation: Some(2), sensor: Some(10) },
    )
    .unwrap();
    assert_eq!(by_both.len(), 1);
    assert_eq!(by_both[0].sensor_inventory_number, "C");

    let none = fetch_condition_measurements(
        &store,
        &MeasurementQuery { meteostation: Some(9), sensor: None },
    )
    .unwrap();
    assert_eq!(none.len(), 0);
}
