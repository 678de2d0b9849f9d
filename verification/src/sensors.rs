//! The sensor registry: sensors enriched with their measurement-type
//! bindings, creation with per-binding type lookups, the full-replace
//! update, and the guarded two-step delete.

use vstd::prelude::*;

use crate::models::{
    formula_or_default, formula_or_value, MeasurementType, NewSensorMeasurementRequestV, Sensor,
    SensorMeasurement, SensorMeasurementResponse, SensorMeasurementResponseV, SensorMeasurementV,
    SensorRequest, SensorRequestV, SensorResponse, SensorResponseV, SensorV, StoreError,
};
use crate::store::{
    find_sensor, lemma_filter_keeps_increasing, lemma_filter_keeps_keys_below,
    lemma_filter_take_succ, lemma_seq_find_first, lemma_seq_find_none, sensor_key,
    sensor_referenced, sensor_with_id, seq_find, type_with_id, Store, StoreV,
};

verus! {

// ---------------------------------------------------------------------------
// The enriched listing
// ---------------------------------------------------------------------------

/// The listed form of one sensor-to-type binding: joined with the catalog
/// for the type's name and units; absent when the type id is unknown (the
/// join drops it). A missing formula is reported as the identity transform.
pub open spec fn sm_item(s: StoreV, b: SensorMeasurementV) -> Option<SensorMeasurementResponseV> {
    match seq_find(s.measurement_types, type_with_id(b.type_id)) {
        Some(t) => Some(
            SensorMeasurementResponseV {
                type_id: b.type_id,
                type_label: t.name,
                type_units: t.units,
                type_formula: formula_or_default(b.measurement_formula),
            },
        ),
        None => None,
    }
}

/// The listed form of one binding under a given sensor.
pub open spec fn sensor_item_at(s: StoreV, sensor_id: int) -> spec_fn(SensorMeasurementV) -> Option<
    SensorMeasurementResponseV,
> {
    |b: SensorMeasurementV|
        if b.sensor_id == sensor_id {
            sm_item(s, b)
        } else {
            None
        }
}

/// Every listed binding of one sensor, in binding-table order.
pub open spec fn spec_sensor_types(s: StoreV, sensor_id: int) -> Seq<SensorMeasurementResponseV> {
    s.sensors_measurements.filter_map(sensor_item_at(s, sensor_id))
}

/// One sensor with all its listed bindings.
pub open spec fn sensor_response(s: StoreV, sn: SensorV) -> SensorResponseV {
    SensorResponseV {
        sensor_id: sn.id,
        sensor_name: sn.name,
        sensors_measurements: spec_sensor_types(s, sn.id),
    }
}

/// The enriched listing of one sensor, as a function of the sensor row.
pub open spec fn sensor_response_at(s: StoreV) -> spec_fn(SensorV) -> SensorResponseV {
    |sn: SensorV| sensor_response(s, sn)
}

/// The whole sensor listing, in table order.
pub open spec fn spec_sensors(s: StoreV) -> Seq<SensorResponseV> {
    s.sensors.map_values(sensor_response_at(s))
}

// ---------------------------------------------------------------------------
// Transitions
// ---------------------------------------------------------------------------

/// The stored binding row one request entry yields for a sensor; a missing
/// formula is stored as the identity transform.
pub open spec fn binding_row_of_request(sensor_id: int) -> spec_fn(
    NewSensorMeasurementRequestV,
) -> SensorMeasurementV {
    |m: NewSensorMeasurementRequestV|
        SensorMeasurementV {
            sensor_id: sensor_id,
            type_id: m.type_id,
            measurement_formula: Some(formula_or_default(m.type_formula)),
        }
}

/// The store after a sensor create: the sensor row appended under the next
/// id, one binding row per request entry, the next id advanced.
pub open spec fn spec_insert_sensor(s: StoreV, req: SensorRequestV) -> StoreV {
    StoreV {
        sensors: s.sensors.push(SensorV { id: s.next_sensor_id, name: req.sensor_name }),
        sensors_measurements: s.sensors_measurements + req.sensors_measurements.map_values(
            binding_row_of_request(s.next_sensor_id),
        ),
        next_sensor_id: s.next_sensor_id + 1,
        ..s
    }
}

/// The response row a create reports for one request entry: a best-effort
/// re-lookup of the type; entries whose type is unknown are dropped from the
/// response, though their binding rows are stored.
pub open spec fn request_item_at(s: StoreV) -> spec_fn(NewSensorMeasurementRequestV) -> Option<
    SensorMeasurementResponseV,
> {
    |m: NewSensorMeasurementRequestV|
        match seq_find(s.measurement_types, type_with_id(m.type_id)) {
            Some(t) => Some(
                SensorMeasurementResponseV {
                    type_id: m.type_id,
                    type_label: t.name,
                    type_units: t.units,
                    type_formula: formula_or_default(m.type_formula),
                },
            ),
            None => None,
        }
}

/// The response a sensor create returns.
pub open spec fn spec_insert_sensor_response(s: StoreV, req: SensorRequestV) -> SensorResponseV {
    SensorResponseV {
        sensor_id: s.next_sensor_id,
        sensor_name: req.sensor_name,
        sensors_measurements: req.sensors_measurements.filter_map(request_item_at(s)),
    }
}

/// Renames the one sensor with the given id.
pub open spec fn rename_sensor_at(id: int, name: Seq<char>) -> spec_fn(SensorV) -> SensorV {
    |sn: SensorV|
        if sn.id == id {
            SensorV { id: sn.id, name: name }
        } else {
            sn
        }
}

/// Keeps every binding row not belonging to the given sensor.
pub open spec fn sm_not_sensor(id: int) -> spec_fn(SensorMeasurementV) -> bool {
    |b: SensorMeasurementV| b.sensor_id != id
}

/// The store after a sensor update: the sensor renamed, its old binding set
/// dropped wholesale, the requested set stored in its place.
pub open spec fn spec_update_sensor(s: StoreV, id: int, req: SensorRequestV) -> StoreV {
    StoreV {
        sensors: s.sensors.map_values(rename_sensor_at(id, req.sensor_name)),
        sensors_measurements: s.sensors_measurements.filter(sm_not_sensor(id))
            + req.sensors_measurements.map_values(binding_row_of_request(id)),
        ..s
    }
}

/// The response a sensor update returns: the sensor as freshly reloaded
/// from the updated store.
pub open spec fn spec_update_sensor_response(
    s_after: StoreV,
    id: int,
    name: Seq<char>,
) -> SensorResponseV {
    SensorResponseV {
        sensor_id: id,
        sensor_name: name,
        sensors_measurements: spec_sensor_types(s_after, id),
    }
}

/// Keeps every sensor but the one with the given id.
pub open spec fn sensor_without_id(id: int) -> spec_fn(SensorV) -> bool {
    |sn: SensorV| sn.id != id
}

/// The store after a sensor delete: its binding rows go first, then the
/// sensor row itself, as one step.
pub open spec fn spec_delete_sensor(s: StoreV, id: int) -> StoreV {
    StoreV {
        sensors: s.sensors.filter(sensor_without_id(id)),
        sensors_measurements: s.sensors_measurements.filter(sm_not_sensor(id)),
        ..s
    }
}

// ---------------------------------------------------------------------------
// Lookup helpers
// ---------------------------------------------------------------------------

/// Index of the sensor with this id, if any.
pub(crate) fn sensor_index(sensors: &Vec<Sensor>, sensor_id: i32) -> (r: Option<usize>)
    ensures
        match r {
            Some(i) => i < sensors.len() && seq_find(
                sensors.deep_view(),
                sensor_with_id(sensor_id as int),
            ) == Some(sensors.deep_view()[i as int]) && sensors.deep_view()[i as int].id
                == sensor_id as int,
            None => seq_find(sensors.deep_view(), sensor_with_id(sensor_id as int)) is None,
        },
{
    let ghost dv = sensors.deep_view();
    let mut i: usize = 0;
    while i < sensors.len()
        invariant
            i <= sensors.len(),
            dv == sensors.deep_view(),
            dv.len() == sensors.len(),
            forall|j: int| 0 <= j < i ==> #[trigger] dv[j].id != sensor_id as int,
        decreases sensors.len() - i,
    {
        if sensors[i].id == sensor_id {
            proof {
                lemma_seq_find_first(dv, sensor_with_id(sensor_id as int), i as int);
            }
            return Some(i);
        }
        i += 1;
    }
    proof {
        lemma_seq_find_none(dv, sensor_with_id(sensor_id as int));
    }
    None
}

/// The catalog row with this id, if any.
fn type_row_for(s: &Store, type_id: i32) -> (r: Option<MeasurementType>)
    ensures
        match seq_find(s@.measurement_types, type_with_id(type_id as int)) {
            Some(t) => r matches Some(row) && row@ == t,
            None => r is None,
        },
{
    let ghost dv = s@.measurement_types;
    let mut i: usize = 0;
    while i < s.measurement_types.len()
        invariant
            i <= s.measurement_types.len(),
            dv == s@.measurement_types,
            dv.len() == s.measurement_types.len(),
            forall|j: int| 0 <= j < i ==> #[trigger] dv[j].id != type_id as int,
        decreases s.measurement_types.len() - i,
    {
        if s.measurement_types[i].id == type_id {
            proof {
                lemma_seq_find_first(dv, type_with_id(type_id as int), i as int);
            }
            return Some(s.measurement_types[i].duplicate());
        }
        i += 1;
    }
    proof {
        lemma_seq_find_none(dv, type_with_id(type_id as int));
    }
    None
}

/// Whether some station binding references this sensor.
fn sensor_in_use(s: &Store, sensor_id: i32) -> (r: bool)
    ensures
        r == sensor_referenced(s@, sensor_id as int),
{
    let mut i: usize = 0;
    while i < s.meteostations_sensors.len()
        invariant
            i <= s.meteostations_sensors.len(),
            s@.meteostations_sensors.len() == s.meteostations_sensors.len(),
            forall|j: int|
                0 <= j < i ==> #[trigger] s@.meteostations_sensors[j].sensor_id != sensor_id as int,
        decreases s.meteostations_sensors.len() - i,
    {
        if s.meteostations_sensors[i].sensor_id == sensor_id {
            proof {
                assert(s@.meteostations_sensors[i as int].sensor_id == sensor_id as int);
            }
            return true;
        }
        i += 1;
    }
    false
}

// ---------------------------------------------------------------------------
// Operations
// ---------------------------------------------------------------------------

/// The listed bindings of this sensor; an unknown sensor id simply has none.
pub fn fetch_sensor_types(s: &Store, sensor_id: i32) -> (r: Result<
    Vec<SensorMeasurementResponse>,
    StoreError,
>)
    ensures
        r matches Ok(rows) && rows.deep_view() == spec_sensor_types(s@, sensor_id as int),
{
    let ghost dv = s@.sensors_measurements;
    let ghost h = sensor_item_at(s@, sensor_id as int);
    let mut rows: Vec<SensorMeasurementResponse> = Vec::new();
    let mut i: usize = 0;
    while i < s.sensors_measurements.len()
        invariant
            i <= s.sensors_measurements.len(),
            dv == s@.sensors_measurements,
            dv.len() == s.sensors_measurements.len(),
            h == sensor_item_at(s@, sensor_id as int),
            rows.deep_view() =~= dv.take(i as int).filter_map(h),
        decreases s.sensors_measurements.len() - i,
    {
        let b = &s.sensors_measurements[i];
        if b.sensor_id == sensor_id {
            match type_row_for(s, b.type_id) {
                Some(t) => {
                    let item = SensorMeasurementResponse {
                        type_id: b.type_id,
                        type_label: t.name,
                        type_units: t.units,
                        type_formula: formula_or_value(&b.measurement_formula),
                    };
                    proof {
                        assert(h(dv[i as int]) == Some(item@));
                    }
                    rows.push(item);
                },
                None => {
                    proof {
                        assert(h(dv[i as int]) is None);
                    }
                },
            }
        } else {
            proof {
                assert(h(dv[i as int]) is None);
            }
        }
        i += 1;
        proof {
            dv.lemma_filter_map_take_succ(h, i as int - 1);
            assert(rows.deep_view() =~= dv.take(i as int).filter_map(h));
        }
    }
    proof {
        assert(dv.take(dv.len() as int) =~= dv);
    }
    Ok(rows)
}

/// Lists every sensor, each with its listed bindings.
pub fn fetch_sensors(s: &Store) -> (r: Result<Vec<SensorResponse>, StoreError>)
    ensures
        r matches Ok(rows) && rows.deep_view() == spec_sensors(s@),
{
    let ghost dv = s@.sensors;
    let ghost f = sensor_response_at(s@);
    let mut rows: Vec<SensorResponse> = Vec::new();
    let mut i: usize = 0;
    while i < s.sensors.len()
        invariant
            i <= s.sensors.len(),
            dv == s@.sensors,
            dv.len() == s.sensors.len(),
            rows.len() == i,
            f == sensor_response_at(s@),
            rows.deep_view() =~= dv.take(i as int).map_values(f),
        decreases s.sensors.len() - i,
    {
        let sensor = &s.sensors[i];
        let types = match fetch_sensor_types(s, sensor.id) {
            Ok(t) => t,
            Err(e) => {
                return Err(e);
            },
        };
        let resp = SensorResponse {
            sensor_id: sensor.id,
            sensor_name: sensor.name.clone(),
            sensors_measurements: types,
        };
        proof {
            assert(resp@ == f(dv[i as int]));
        }
        rows.push(resp);
        i += 1;
        proof {
            assert(dv.take(i as int).map_values(f) =~= dv.take(i as int - 1).map_values(f).push(
                f(dv[i as int - 1]),
            ));
            assert(rows.deep_view() =~= dv.take(i as int).map_values(f));
        }
    }
    proof {
        assert(dv.take(dv.len() as int) =~= dv);
    }
    Ok(rows)
}

/// One sensor with its listed bindings; absent ids are reported.
pub fn fetch_sensor(s: &Store, sensor_id: i32) -> (r: Result<SensorResponse, StoreError>)
    ensures
        match find_sensor(s@, sensor_id as int) {
            Some(sn) => r matches Ok(resp) && resp@ == sensor_response(s@, sn),
            None => r == Err::<SensorResponse, StoreError>(StoreError::NotFound),
        },
{
    let idx = match sensor_index(&s.sensors, sensor_id) {
        None => {
            return Err(StoreError::NotFound);
        },
        Some(i) => i,
    };
    let sensor = &s.sensors[idx];
    let types = match fetch_sensor_types(s, sensor.id) {
        Ok(t) => t,
        Err(e) => {
            return Err(e);
        },
    };
    let resp = SensorResponse {
        sensor_id: sensor.id,
        sensor_name: sensor.name.clone(),
        sensors_measurements: types,
    };
    proof {
        assert(sensor@ == s@.sensors[idx as int]);
    }
    Ok(resp)
}

/// Creates a sensor and one binding row per request entry; the response
/// reports each entry whose type the catalog knows, formula defaulted.
pub fn insert_sensor(s: &mut Store, new_sensor: &SensorRequest) -> (r: Result<
    SensorResponse,
    StoreError,
>)
    requires
        old(s).wf(),
        old(s).next_sensor_id < i32::MAX,
    ensures
        final(s).wf(),
        final(s)@ == spec_insert_sensor(old(s)@, new_sensor@),
        r matches Ok(resp) && resp@ == spec_insert_sensor_response(old(s)@, new_sensor@),
{
    let sensor_id = s.next_sensor_id;
    let row = Sensor { id: sensor_id, name: new_sensor.sensor_name.clone() };
    s.sensors.push(row);
    s.next_sensor_id = s.next_sensor_id + 1;
    proof {
        assert(s@.sensors =~= old(s)@.sensors.push(
            SensorV { id: sensor_id as int, name: new_sensor@.sensor_name },
        ));
    }

    let ghost rv = new_sensor@.sensors_measurements;
    let ghost g = binding_row_of_request(sensor_id as int);
    let mut i: usize = 0;
    while i < new_sensor.sensors_measurements.len()
        invariant
            i <= new_sensor.sensors_measurements.len(),
            rv == new_sensor@.sensors_measurements,
            rv.len() == new_sensor.sensors_measurements.len(),
            g == binding_row_of_request(sensor_id as int),
            s.sensors_measurements.len() == old(s).sensors_measurements.len() + i,
            s@.sensors_measurements =~= old(s)@.sensors_measurements + rv.take(i as int).map_values(
                g,
            ),
            s@.sensors == old(s)@.sensors.push(
                SensorV { id: sensor_id as int, name: new_sensor@.sensor_name },
            ),
            s@.measurement_types == old(s)@.measurement_types,
            s@.meteostations == old(s)@.meteostations,
            s@.meteostations_sensors == old(s)@.meteostations_sensors,
            s@.measurements == old(s)@.measurements,
            s@.next_type_id == old(s)@.next_type_id,
            s@.next_station_id == old(s)@.next_station_id,
            s@.next_sensor_id == old(s)@.next_sensor_id + 1,
        decreases new_sensor.sensors_measurements.len() - i,
    {
        let m = &new_sensor.sensors_measurements[i];
        let sm = SensorMeasurement {
            sensor_id: sensor_id,
            type_id: m.type_id,
            measurement_formula: Some(formula_or_value(&m.type_formula)),
        };
        proof {
            assert(sm@ == g(rv[i as int]));
        }
        let ghost pre = s@.sensors_measurements;
        s.sensors_measurements.push(sm);
        i += 1;
        proof {
            assert(s@.sensors_measurements =~= pre.push(g(rv[i as int - 1])));
            assert(rv.take(i as int).map_values(g) =~= rv.take(i as int - 1).map_values(g).push(
                g(rv[i as int - 1]),
            ));
            assert(s@.sensors_measurements =~= old(s)@.sensors_measurements + rv.take(
                i as int,
            ).map_values(g));
        }
    }
    proof {
        assert(rv.take(rv.len() as int) =~= rv);
        assert(s@ =~= spec_insert_sensor(old(s)@, new_sensor@));
        assert forall|a: int, b: int| 0 <= a < b < s@.sensors.len() implies sensor_key()(
            s@.sensors[a],
        ) < sensor_key()(s@.sensors[b]) by {
            if b < s@.sensors.len() - 1 {
                assert(old(s)@.sensors[a] == s@.sensors[a]);
            }
        }
        assert forall|a: int| 0 <= a < s@.sensors.len() implies 1 <= sensor_key()(
            #[trigger] s@.sensors[a],
        ) && sensor_key()(s@.sensors[a]) < s@.next_sensor_id by {
            if a < s@.sensors.len() - 1 {
                assert(old(s)@.sensors[a] == s@.sensors[a]);
            }
        }
    }

    let ghost h = request_item_at(old(s)@);
    let mut items: Vec<SensorMeasurementResponse> = Vec::new();
    let mut j: usize = 0;
    while j < new_sensor.sensors_measurements.len()
        invariant
            j <= new_sensor.sensors_measurements.len(),
            rv == new_sensor@.sensors_measurements,
            rv.len() == new_sensor.sensors_measurements.len(),
            h == request_item_at(old(s)@),
            s@.measurement_types == old(s)@.measurement_types,
            items.deep_view() =~= rv.take(j as int).filter_map(h),
        decreases new_sensor.sensors_measurements.len() - j,
    {
        let m = &new_sensor.sensors_measurements[j];
        match type_row_for(s, m.type_id) {
            Some(t) => {
                let item = SensorMeasurementResponse {
                    type_id: m.type_id,
                    type_label: t.name,
                    type_units: t.units,
                    type_formula: formula_or_value(&m.type_formula),
                };
                proof {
                    assert(h(rv[j as int]) == Some(item@));
                }
                items.push(item);
            },
            None => {
                proof {
                    assert(h(rv[j as int]) is None);
                }
            },
        }
        j += 1;
        proof {
            rv.lemma_filter_map_take_succ(h, j as int - 1);
            assert(items.deep_view() =~= rv.take(j as int).filter_map(h));
        }
    }
    proof {
        assert(rv.take(rv.len() as int) =~= rv);
    }
    Ok(
        SensorResponse {
            sensor_id: sensor_id,
            sensor_name: new_sensor.sensor_name.clone(),
            sensors_measurements: items,
        },
    )
}

/// Renames the sensor and replaces its whole binding set with the request's;
/// the response is the sensor as reloaded after the update. An unknown id is
/// reported and nothing changes.
pub fn update_one_sensor(s: &mut Store, sensor_id: i32, update_sensor: &SensorRequest) -> (r:
    Result<SensorResponse, StoreError>)
    requires
        old(s).wf(),
    ensures
        final(s).wf(),
        match find_sensor(old(s)@, sensor_id as int) {
            None => r == Err::<SensorResponse, StoreError>(StoreError::NotFound) && final(s)@
                == old(s)@,
            Some(sn) => final(s)@ == spec_update_sensor(old(s)@, sensor_id as int, update_sensor@)
                && (r matches Ok(resp) && resp@ == spec_update_sensor_response(
                final(s)@,
                sensor_id as int,
                update_sensor@.sensor_name,
            )),
        },
{
    if let None = sensor_index(&s.sensors, sensor_id) {
        return Err(StoreError::NotFound);
    }

    // Rename the sensor.
    let ghost dvs = s@.sensors;
    let ghost rf = rename_sensor_at(sensor_id as int, update_sensor@.sensor_name);
    let mut new_sensors: Vec<Sensor> = Vec::new();
    let mut i: usize = 0;
    while i < s.sensors.len()
        invariant
            i <= s.sensors.len(),
            dvs == s@.sensors,
            dvs.len() == s.sensors.len(),
            new_sensors.len() == i,
            rf == rename_sensor_at(sensor_id as int, update_sensor@.sensor_name),
            new_sensors.deep_view() =~= dvs.take(i as int).map_values(rf),
        decreases s.sensors.len() - i,
    {
        let row = &s.sensors[i];
        let new_row = if row.id == sensor_id {
            Sensor { id: row.id, name: update_sensor.sensor_name.clone() }
        } else {
            row.duplicate()
        };
        proof {
            assert(new_row@ == rf(dvs[i as int]));
        }
        new_sensors.push(new_row);
        i += 1;
        proof {
            assert(dvs.take(i as int).map_values(rf) =~= dvs.take(i as int - 1).map_values(
                rf,
            ).push(rf(dvs[i as int - 1])));
            assert(new_sensors.deep_view() =~= dvs.take(i as int).map_values(rf));
        }
    }
    s.sensors = new_sensors;
    proof {
        assert(dvs.take(dvs.len() as int) =~= dvs);
        assert(s@.sensors =~= dvs.map_values(rf));
    }

    // Drop the sensor's whole binding set.
    let ghost dvb = s@.sensors_measurements;
    let ghost p = sm_not_sensor(sensor_id as int);
    let mut kept: Vec<SensorMeasurement> = Vec::new();
    let mut j: usize = 0;
    while j < s.sensors_measurements.len()
        invariant
            j <= s.sensors_measurements.len(),
            dvb == s@.sensors_measurements,
            dvb.len() == s.sensors_measurements.len(),
            p == sm_not_sensor(sensor_id as int),
            kept.deep_view() =~= dvb.take(j as int).filter(p),
        decreases s.sensors_measurements.len() - j,
    {
        let b = &s.sensors_measurements[j];
        if b.sensor_id != sensor_id {
            kept.push(b.duplicate());
        }
        j += 1;
        proof {
            lemma_filter_take_succ(dvb, p, j as int - 1);
            assert(kept.deep_view() =~= dvb.take(j as int).filter(p));
        }
    }
    s.sensors_measurements = kept;
    proof {
        assert(dvb.take(dvb.len() as int) =~= dvb);
        assert(s@.sensors_measurements =~= dvb.filter(p));
    }

    // Store the requested binding set.
    let ghost rv = update_sensor@.sensors_measurements;
    let ghost g = binding_row_of_request(sensor_id as int);
    let ghost base = s@.sensors_measurements;
    let mut k: usize = 0;
    while k < update_sensor.sensors_measurements.len()
        invariant
            k <= update_sensor.sensors_measurements.len(),
            rv == update_sensor@.sensors_measurements,
            rv.len() == update_sensor.sensors_measurements.len(),
            g == binding_row_of_request(sensor_id as int),
            s.sensors_measurements.len() == base.len() + k,
            s@.sensors_measurements =~= base + rv.take(k as int).map_values(g),
            s@.sensors == dvs.map_values(rf),
            s@.measurement_types == old(s)@.measurement_types,
            s@.meteostations == old(s)@.meteostations,
            s@.meteostations_sensors == old(s)@.meteostations_sensors,
            s@.measurements == old(s)@.measurements,
            s@.next_type_id == old(s)@.next_type_id,
            s@.next_station_id == old(s)@.next_station_id,
            s@.next_sensor_id == old(s)@.next_sensor_id,
        decreases update_sensor.sensors_measurements.len() - k,
    {
        let m = &update_sensor.sensors_measurements[k];
        let sm = SensorMeasurement {
            sensor_id: sensor_id,
            type_id: m.type_id,
            measurement_formula: Some(formula_or_value(&m.type_formula)),
        };
        proof {
            assert(sm@ == g(rv[k as int]));
        }
        let ghost pre = s@.sensors_measurements;
        s.sensors_measurements.push(sm);
        k += 1;
        proof {
            assert(s@.sensors_measurements =~= pre.push(g(rv[k as int - 1])));
            assert(rv.take(k as int).map_values(g) =~= rv.take(k as int - 1).map_values(g).push(
                g(rv[k as int - 1]),
            ));
            assert(s@.sensors_measurements =~= base + rv.take(k as int).map_values(g));
        }
    }
    proof {
        assert(rv.take(rv.len() as int) =~= rv);
        assert(s@ =~= spec_update_sensor(old(s)@, sensor_id as int, update_sensor@));
        assert forall|a: int| 0 <= a < s@.sensors.len() implies sensor_key()(
            #[trigger] s@.sensors[a],
        ) == sensor_key()(dvs[a]) by {
            assert(s@.sensors[a] == rf(dvs[a]));
        }
    }

    // Reload the sensor for the response.
    let types = match fetch_sensor_types(s, sensor_id) {
        Ok(t) => t,
        Err(e) => {
            return Err(e);
        },
    };
    Ok(
        SensorResponse {
            sensor_id: sensor_id,
            sensor_name: update_sensor.sensor_name.clone(),
            sensors_measurements: types,
        },
    )
}

/// Deletes the sensor and its binding set as one step, unless a station
/// binding still references it; an absent id deletes nothing and succeeds.
pub fn delete_one_sensor(s: &mut Store, sensor_id: i32) -> (r: Result<(), StoreError>)
    requires
        old(s).wf(),
    ensures
        final(s).wf(),
        sensor_referenced(old(s)@, sensor_id as int) ==> r == Err::<(), StoreError>(
            StoreError::Conflict,
        ) && final(s)@ == old(s)@,
        !sensor_referenced(old(s)@, sensor_id as int) ==> r == Ok::<(), StoreError>(())
            && final(s)@ == spec_delete_sensor(old(s)@, sensor_id as int),
{
    if sensor_in_use(s, sensor_id) {
        return Err(StoreError::Conflict);
    }

    // Drop the sensor's binding rows.
    let ghost dvb = s@.sensors_measurements;
    let ghost p = sm_not_sensor(sensor_id as int);
    let mut kept: Vec<SensorMeasurement> = Vec::new();
    let mut i: usize = 0;
    while i < s.sensors_measurements.len()
        invariant
            i <= s.sensors_measurements.len(),
            dvb == s@.sensors_measurements,
            dvb.len() == s.sensors_measurements.len(),
            p == sm_not_sensor(sensor_id as int),
            kept.deep_view() =~= dvb.take(i as int).filter(p),
        decreases s.sensors_measurements.len() - i,
    {
        let b = &s.sensors_measurements[i];
        if b.sensor_id != sensor_id {
            kept.push(b.duplicate());
        }
        i += 1;
        proof {
            lemma_filter_take_succ(dvb, p, i as int - 1);
            assert(kept.deep_view() =~= dvb.take(i as int).filter(p));
        }
    }
    s.sensors_measurements = kept;

    // Drop the sensor row.
    let ghost dvs = s@.sensors;
    let ghost q = sensor_without_id(sensor_id as int);
    let mut rows: Vec<Sensor> = Vec::new();
    let mut j: usize = 0;
    while j < s.sensors.len()
        invariant
            j <= s.sensors.len(),
            dvs == s@.sensors,
            dvs.len() == s.sensors.len(),
            q == sensor_without_id(sensor_id as int),
            rows.deep_view() =~= dvs.take(j as int).filter(q),
        decreases s.sensors.len() - j,
    {
        let row = &s.sensors[j];
        if row.id != sensor_id {
            rows.push(row.duplicate());
        }
        j += 1;
        proof {
            lemma_filter_take_succ(dvs, q, j as int - 1);
            assert(rows.deep_view() =~= dvs.take(j as int).filter(q));
        }
    }
    s.sensors = rows;
    proof {
        assert(dvb.take(dvb.len() as int) =~= dvb);
        assert(dvs.take(dvs.len() as int) =~= dvs);
        assert(s@ =~= spec_delete_sensor(old(s)@, sensor_id as int));
        lemma_filter_keeps_increasing(dvs, q, sensor_key());
        lemma_filter_keeps_keys_below(dvs, q, sensor_key(), old(s)@.next_sensor_id);
    }
    Ok(())
}

} // verus!
