use meteostore::measurement_type::insert_measurement_type;
use meteostore::meteostations::insert_meteostation;
use meteostore::meteostations_sensor::insert_meteostation_sensors_at;
use meteostore::models::{
    MeasurementTypeRequest, MeteostationRequest, MeteostationSensorCreate,
    MeteostationSensorCreateRequest, NewSensorMeasurementRequest, SensorRequest, StoreError,
};
use meteostore::sensors::{
    delete_one_sensor, fetch_sensor, fetch_sensor_types, fetch_sensors, insert_sensor,
    update_one_sensor,
};
use meteostore::store::Store;

fn temperature_catalog(store: &mut Store) {
    insert_measurement_type(
        store,
        &MeasurementTypeRequest { name: "Temperature".to_string(), units: "C".to_string() },
    )
    .unwrap();
}

#[test]
fn create_sensor_defaults_formula_to_value() {
    let mut store = Store::new();
    temperature_catalog(&mut store);
    let created = insert_sensor(
        &mut store,
        &SensorRequest {
            sensor_name: "TempProbe".to_string(),
            sensors_measurements: vec![NewSensorMeasurementRequest {
                type_id: 1,
                type_formula: None,
            }],
        },
    )
    .unwrap();
    assert_eq!(created.sensor_id, 1);
    assert_eq!(created.sensor_name, "TempProbe");
    assert_eq!(created.sensors_measurements.len(), 1);
    let b = &created.sensors_measurements[0];
    assert_eq!(b.type_id, 1);
    assert_eq!(b.type_label, "Temperature");
    assert_eq!(b.type_units, "C");
    assert_eq!(b.type_formula, "value");
}

#[test]
fn create_sensor_keeps_given_formula() {
    let mut store = Store::new();
    temperature_catalog(&mut store);
    let created = insert_sensor(
        &mut store,
        &SensorRequest {
            sensor_name: "Probe".to_string(),
            sensors_measurements: vec![NewSensorMeasurementRequest {
                type_id: 1,
                type_formula: Some("value * 2".to_string()),
            }],
        },
    )
    .unwrap();
    assert_eq!(created.sensors_measurements[0].type_formula, "value * 2");
}

#[test]
fn create_sensor_drops_unknown_type_from_response() {
    let mut store = Store::new();
    temperature_catalog(&mut store);
    let created = insert_sensor(
        &mut store,
        &SensorRequest {
            sensor_name: "Probe".to_string(),
            sensors_measurements: vec![
                NewSensorMeasurementRequest { type_id: 42, type_formula: None },
                NewSensorMeasurementRequest { type_id: 1, type_formula: None },
            ],
        },
    )
    .unwrap();
    // The unknown type is silently absent from the response body.
    assert_eq!(created.sensors_measurements.len(), 1);
    assert_eq!(created.sensors_measurements[0].type_id, 1);
    // The listing joins with the catalog the same way.
    let listed = fetch_sensor_types(&store, 1).unwrap();
    assert_eq!(listed.len(), 1);
    assert_eq!(listed[0].type_id, 1);
}

#[test]
fn fetch_sensor_not_found() {
    let store = Store::new();
    assert!(matches!(fetch_sensor(&store, 3), Err(StoreError::NotFound)));
}

#[test]
fn fetch_sensor_types_of_unknown_sensor_is_empty() {
    let store = Store::new();
    assert_eq!(fetch_sensor_types(&store, 3).unwrap().len(), 0);
}

#[test]
fn fetch_sensors_lists_each_with_bindings() {
    let mut store = Store::new();
    temperature_catalog(&mut store);
    insert_sensor(
        &mut store,
        &SensorRequest {
            sensor_name: "One".to_string(),
            sensors_measurements: vec![NewSensorMeasurementRequest {
                type_id: 1,
                type_formula: None,
            }],
        },
    )
    .unwrap();
    insert_sensor(
        &mut store,
        &SensorRequest { sensor_name: "Two".to_string(), sensors_measurements: vec![] },
    )
    .unwrap();
    let all = fetch_sensors(&store).unwrap();
    assert_eq!(all.len(), 2);
    assert_eq!(all[0].sensor_name, "One");
    assert_eq!(all[0].sensors_measurements.len(), 1);
    assert_eq!(all[1].sensor_name, "Two");
    assert_eq!(all[1].sensors_measurements.len(), 0);
}

#[test]
fn update_sensor_replaces_whole_binding_set() {
    let mut store = Store::new();
    temperature_catalog(&mut store);
    insert_measurement_type(
        &mut store,
        &MeasurementTypeRequest { name: "Humidity".to_string(), units: "%".to_string() },
    )
    .unwrap();
    insert_sensor(
        &mut store,
        &SensorRequest {
            sensor_name: "Probe".to_string(),
            sensors_measurements: vec![NewSensorMeasurementRequest {
                type_id: 1,
                type_formula: None,
            }],
        },
    )
    .unwrap();
    // An unrelated sensor whose bindings must survive the update.
    insert_sensor(
        &mut store,
        &SensorRequest {
            sensor_name: "Other".to_string(),
            sensors_measurements: vec![NewSensorMeasurementRequest {
                type_id: 1,
                type_formula: None,
            }],
        },
    )
    .unwrap();

    let updated = update_one_sensor(
        &mut store,
        1,
        &SensorRequest {
            sensor_name: "Renamed".to_string(),
            sensors_measurements: vec![NewSensorMeasurementRequest {
                type_id: 2,
                type_formula: Some("value / 10".to_string()),
            }],
        },
    )
    .unwrap();
    assert_eq!(updated.sensor_id, 1);
    assert_eq!(updated.sensor_name, "Renamed");
    assert_eq!(updated.sensors_measurements.len(), 1);
    assert_eq!(updated.sensors_measurements[0].type_id, 2);
    assert_eq!(updated.sensors_measurements[0].type_formula, "value / 10");

    let types = fetch_sensor_types(&store, 1).unwrap();
    assert_eq!(types.len(), 1);
    assert_eq!(types[0].type_id, 2);

    let untouched = fetch_sensor_types(&store, 2).unwrap();
    assert_eq!(untouched.len(), 1);
    assert_eq!(untouched[0].type_id, 1);
}

#[test]
fn update_sensor_not_found_changes_nothing() {
    let mut store = Store::new();
    temperature_catalog(&mut store);
    let r = update_one_sensor(
        &mut store,
        8,
        &SensorRequest {
            sensor_name: "Ghostly".to_string(),
            sensors_measurements: vec![NewSensorMeasurementRequest {
                type_id: 1,
                type_formula: None,
            }],
        },
    );
    assert!(matches!(r, Err(StoreError::NotFound)));
    // No binding rows appeared for the unknown sensor.
    assert_eq!(fetch_sensor_types(&store, 8).unwrap().len(), 0);
}

#[test]
fn delete_sensor_cascades_bindings() {
    let mut store = Store::new();
    temperature_catalog(&mut store);
    insert_sensor(
        &mut store,
        &SensorRequest {
            sensor_name: "Probe".to_string(),
            sensors_measurements: vec![NewSensorMeasurementRequest {
                type_id: 1,
                type_formula: None,
            }],
        },
    )
    .unwrap();
    assert_eq!(delete_one_sensor(&mut store, 1), Ok(()));
    assert!(matches!(fetch_sensor(&store, 1), Err(StoreError::NotFound)));
    assert_eq!(fetch_sensor_types(&store, 1).unwrap().len(), 0);
    // Deleting an absent sensor succeeds.
    assert_eq!(delete_one_sensor(&mut store, 1), Ok(()));
}

#[test]
fn delete_sensor_bound_to_station_is_conflict() {
    let mut store = Store::new();
    insert_meteostation(
        &mut store,
        &MeteostationRequest {
            name: "Alpha".to_string(),
            longitude: "1".to_string(),
            latitude: "2".to_string(),
        },
    )
    .unwrap();
    insert_sensor(
        &mut store,
        &SensorRequest { sensor_name: "Probe".to_string(), sensors_measurements: vec![] },
    )
    .unwrap();
    insert_meteostation_sensors_at(
        &mut store,
        &MeteostationSensorCreateRequest {
            meteostations_sensors: vec![MeteostationSensorCreate {
                inventory_number: "INV-1".to_string(),
                station_id: 1,
                sensor_id: 1,
                added_ts: Some(7),
            }],
        },
        7,
    )
    .unwrap();
    assert_eq!(delete_one_sensor(&mut store, 1), Err(StoreError::Conflict));
    assert!(fetch_sensor(&store, 1).is_ok());
}
