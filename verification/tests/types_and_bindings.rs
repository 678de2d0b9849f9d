use meteostore::measurement_type::{
    delete_one_measurement_type, fetch_measurement_types, insert_measurement_type,
    update_one_measurement_type,
};
use meteostore::meteostations::insert_meteostation;
use meteostore::meteostations_sensor::{
    fetch_meteostation_sensors, insert_meteostation_sensors_at, remove_meteostation_sensor,
    remove_meteostation_sensor_at,
};
use meteostore::models::{
    MeasurementTypeRequest, MeasurementTypeUpdate, MeteostationRequest, MeteostationSensorCreate,
    MeteostationSensorCreateRequest, MeteostationSensorRemove, NewSensorMeasurementRequest,
    SensorRequest, StoreError,
};
use meteostore::sensors::insert_sensor;
use meteostore::sensors_measurements::{
    delete_many_sensor_measurements, insert_sensor_measurements,
};
use meteostore::store::Store;

fn type_request(name: &str, units: &str) -> MeasurementTypeRequest {
    MeasurementTypeRequest { name: name.to_string(), units: units.to_string() }
}

#[test]
fn create_and_list_types() {
    let mut store = Store::new();
    let t = insert_measurement_type(&mut store, &type_request("Temperature", "C")).unwrap();
    assert_eq!(t.id, 1);
    assert_eq!(t.name, "Temperature");
    assert_eq!(t.units, "C");
    insert_measurement_type(&mut store, &type_request("Humidity", "%")).unwrap();
    let all = fetch_measurement_types(&store).unwrap();
    assert_eq!(all.len(), 2);
    assert_eq!(all[1].id, 2);
    assert_eq!(all[1].units, "%");
}

#[test]
fn update_type_coalesces_absent_fields() {
    let mut store = Store::new();
    insert_measurement_type(&mut store, &type_request("Temperature", "C")).unwrap();
    let updated = update_one_measurement_type(
        &mut store,
        1,
        &MeasurementTypeUpdate { name: None, units: Some("K".to_string()) },
    )
    .unwrap();
    assert_eq!(updated.name, "Temperature");
    assert_eq!(updated.units, "K");
}

#[test]
fn update_type_not_found() {
    let mut store = Store::new();
    let r = update_one_measurement_type(
        &mut store,
        3,
        &MeasurementTypeUpdate { name: None, units: None },
    );
    assert!(matches!(r, Err(StoreError::NotFound)));
}

#[test]
fn delete_type_guarded_by_sensor_bindings() {
    let mut store = Store::new();
    insert_measurement_type(&mut store, &type_request("Temperature", "C")).unwrap();
    insert_sensor(
        &mut store,
        &SensorRequest {
            sensor_name: "Probe".to_string(),
            sensors_measurements: vec![NewSensorMeasurementRequest {
                type_id: 1,
                type_formula: None,
            }],
        },
    )
    .unwrap();
    assert_eq!(delete_one_measurement_type(&mut store, 1), Err(StoreError::Conflict));
    assert_eq!(fetch_measurement_types(&store).unwrap().len(), 1);

    // Once the binding is gone, the delete goes through.
    delete_many_sensor_measurements(
        &mut store,
        1,
        &meteostore::models::SensorMeasurementsDelete { measurements_type: vec![1] },
    )
    .unwrap();
    assert_eq!(delete_one_measurement_type(&mut store, 1), Ok(()));
    assert_eq!(fetch_measurement_types(&store).unwrap().len(), 0);
    // Deleting an absent id succeeds.
    assert_eq!(delete_one_measurement_type(&mut store, 1), Ok(()));
}

#[test]
fn add_and_remove_sensor_type_bindings() {
    let mut store = Store::new();
    insert_measurement_type(&mut store, &type_request("Temperature", "C")).unwrap();
    insert_measurement_type(&mut store, &type_request("Humidity", "%")).unwrap();
    insert_sensor(
        &mut store,
        &SensorRequest { sensor_name: "Probe".to_string(), sensors_measurements: vec![] },
    )
    .unwrap();
    insert_sensor_measurements(
        &mut store,
        1,
        &meteostore::models::SensorMeasurementRequest {
            sensors_measurements: vec![
                meteostore::models::SensorMeasurementCreate {
                    type_id: 1,
                    measurement_formula: None,
                },
                meteostore::models::SensorMeasurementCreate {
                    type_id: 2,
                    measurement_formula: Some("value + 1".to_string()),
                },
            ],
        },
    )
    .unwrap();
    let types = meteostore::sensors::fetch_sensor_types(&store, 1).unwrap();
    assert_eq!(types.len(), 2);
    assert_eq!(types[0].type_formula, "value");
    assert_eq!(types[1].type_formula, "value + 1");

    // Removing one listed id and one that matches nothing: no error either way.
    delete_many_sensor_measurements(
        &mut store,
        1,
        &meteostore::models::SensorMeasurementsDelete { measurements_type: vec![2, 99] },
    )
    .unwrap();
    let left = meteostore::sensors::fetch_sensor_types(&store, 1).unwrap();
    assert_eq!(left.len(), 1);
    assert_eq!(left[0].type_id, 1);
}

#[test]
fn create_bindings_default_installation_time() {
    let mut store = Store::new();
    insert_meteostation_sensors_at(
        &mut store,
        &MeteostationSensorCreateRequest {
            meteostations_sensors: vec![
                MeteostationSensorCreate {
                    inventory_number: "A".to_string(),
                    station_id: 1,
                    sensor_id: 1,
                    added_ts: None,
                },
                MeteostationSensorCreate {
                    inventory_number: "B".to_string(),
                    station_id: 1,
                    sensor_id: 1,
                    added_ts: Some(777),
                },
            ],
        },
        1234,
    )
    .unwrap();
    assert_eq!(store.meteostations_sensors.len(), 2);
    assert_eq!(store.meteostations_sensors[0].added_ts, 1234);
    assert_eq!(store.meteostations_sensors[0].removed_ts, None);
    assert_eq!(store.meteostations_sensors[1].added_ts, 777);
}

#[test]
fn remove_binding_is_idempotent_and_overwrites() {
    let mut store = Store::new();
    insert_meteostation_sensors_at(
        &mut store,
        &MeteostationSensorCreateRequest {
            meteostations_sensors: vec![MeteostationSensorCreate {
                inventory_number: "INV-9".to_string(),
                station_id: 1,
                sensor_id: 1,
                added_ts: Some(10),
            }],
        },
        10,
    )
    .unwrap();
    let number = "INV-9".to_string();
    assert_eq!(remove_meteostation_sensor_at(&mut store, &number, 50), Ok(()));
    assert_eq!(store.meteostations_sensors[0].removed_ts, Some(50));
    // Removing again does not error and overwrites the timestamp.
    assert_eq!(remove_meteostation_sensor_at(&mut store, &number, 90), Ok(()));
    assert_eq!(store.meteostations_sensors[0].removed_ts, Some(90));
    // An unknown inventory number is a no-op, not an error.
    assert_eq!(remove_meteostation_sensor_at(&mut store, &"NOPE".to_string(), 5), Ok(()));
    assert_eq!(store.meteostations_sensors[0].removed_ts, Some(90));
    // The given timestamp also arrives through the request form.
    assert_eq!(
        remove_meteostation_sensor(
            &mut store,
            "INV-9".to_string(),
            &MeteostationSensorRemove { removed_ts: Some(123) },
        ),
        Ok(())
    );
    assert_eq!(store.meteostations_sensors[0].removed_ts, Some(123));
}

#[test]
fn create_and_remove_binding_with_clock_defaults() {
    let mut store = Store::new();
    meteostore::meteostations_sensor::insert_meteostation_sensors(
        &mut store,
        &MeteostationSensorCreateRequest {
            meteostations_sensors: vec![MeteostationSensorCreate {
                inventory_number: "NOW-1".to_string(),
                station_id: 1,
                sensor_id: 1,
                added_ts: None,
            }],
        },
    )
    .unwrap();
    assert_eq!(store.meteostations_sensors.len(), 1);
    let installed = store.meteostations_sensors[0].added_ts;
    assert_eq!(store.meteostations_sensors[0].removed_ts, None);
    remove_meteostation_sensor(
        &mut store,
        "NOW-1".to_string(),
        &MeteostationSensorRemove { removed_ts: None },
    )
    .unwrap();
    let removed = store.meteostations_sensors[0].removed_ts.unwrap();
    // The clock runs forward between the two readings.
    assert!(removed >= installed);
}

#[test]
fn bindings_listed_grouped_by_station() {
    let mut store = Store::new();
    insert_meteostation(
        &mut store,
        &MeteostationRequest {
            name: "Alpha".to_string(),
            longitude: "1".to_string(),
            latitude: "2".to_string(),
        },
    )
    .unwrap();
    insert_meteostation(
        &mut store,
        &MeteostationRequest {
            name: "Beta".to_string(),
            longitude: "3".to_string(),
            latitude: "4".to_string(),
        },
    )
    .unwrap();
    insert_sensor(
        &mut store,
        &SensorRequest { sensor_name: "Probe".to_string(), sensors_measurements: vec![] },
    )
    .unwrap();
    insert_meteostation_sensors_at(
        &mut store,
        &MeteostationSensorCreateRequest {
            meteostations_sensors: vec![
                MeteostationSensorCreate {
                    inventory_number: "A1".to_string(),
                    station_id: 1,
                    sensor_id: 1,
                    added_ts: Some(11),
                },
                MeteostationSensorCreate {
                    inventory_number: "A2".to_string(),
                    station_id: 1,
                    sensor_id: 1,
                    added_ts: Some(12),
                },
                // This one names a sensor that does not exist: the join
                // drops it from the listing.
                MeteostationSensorCreate {
                    inventory_number: "GHOST".to_string(),
                    station_id: 2,
                    sensor_id: 77,
                    added_ts: Some(13),
                },
            ],
        },
        9,
    )
    .unwrap();
    let groups = fetch_meteostation_sensors(&store).unwrap();
    // Beta's only binding joins no sensor, so only Alpha appears.
    assert_eq!(groups.len(), 1);
    assert_eq!(groups[0].station_id, 1);
    assert_eq!(groups[0].station_name, "Alpha");
    assert_eq!(groups[0].sensors.len(), 2);
    assert_eq!(groups[0].sensors[0].sensor_inventory_number, "A1");
    assert_eq!(groups[0].sensors[0].sensor_name, "Probe");
    assert_eq!(groups[0].sensors[0].sensor_added_ts, Some(11));
    assert_eq!(groups[0].sensors[0].sensor_remove_ts, None);
    assert_eq!(groups[0].sensors[1].sensor_inventory_number, "A2");
}
