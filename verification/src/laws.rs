//! Laws that relate several operations of the registry, stated over the
//! same transitions the operations' own contracts use, and proved here.

use vstd::prelude::*;

use crate::measurement_type::{spec_delete_type, type_without_id};
use crate::measurements::{
    matches_query, measurement_not_inv, measurement_selected, spec_condition_measurements,
    spec_delete_measurements, spec_insert_measurements,
};
use crate::meteostations::{
    spec_delete_station, spec_insert_station, spec_insert_station_row, station_without_id,
};
use crate::meteostations_sensor::{remove_stamp_at, spec_remove_binding};
use crate::models::{
    MeasurementQuery, MeasurementTypeV, MeasurementV, MeteostationRequestV, MeteostationV,
    SensorMeasurementV, SensorRequestV, SensorV,
};
use crate::sensors::{
    binding_row_of_request, sensor_without_id, sm_not_sensor, spec_delete_sensor,
    spec_update_sensor,
};
use crate::store::{
    find_sensor, find_station, find_type, lemma_filter_all, lemma_filter_none,
    lemma_filter_subsume, lemma_seq_find_none, lemma_seq_find_push, sensor_with_id, station_key,
    station_with_id, type_with_id, StoreV,
};

verus! {

/// Every binding row of one sensor, in stored order.
pub open spec fn sm_of_sensor(id: int) -> spec_fn(SensorMeasurementV) -> bool {
    |b: SensorMeasurementV| b.sensor_id == id
}

/// The (type, formula) rows bound to one sensor.
pub open spec fn bindings_of(s: StoreV, sensor_id: int) -> Seq<SensorMeasurementV> {
    s.sensors_measurements.filter(sm_of_sensor(sensor_id))
}

/// Creating a station stores exactly the submitted fields under the fresh
/// id, and a subsequent lookup of that id finds exactly that row.
pub proof fn lemma_create_station_then_get(s: StoreV, req: MeteostationRequestV)
    requires
        s.wf(),
    ensures
        spec_insert_station_row(s, req).name == req.name,
        spec_insert_station_row(s, req).longitude == req.longitude,
        spec_insert_station_row(s, req).latitude == req.latitude,
        find_station(spec_insert_station(s, req), spec_insert_station_row(s, req).id) == Some(
            spec_insert_station_row(s, req),
        ),
{
    let row = spec_insert_station_row(s, req);
    let p = station_with_id(row.id);
    assert forall|i: int| 0 <= i < s.meteostations.len() implies !p(
        #[trigger] s.meteostations[i],
    ) by {
        assert(station_key()(s.meteostations[i]) < s.next_station_id);
    }
    lemma_seq_find_none(s.meteostations, p);
    lemma_seq_find_push(s.meteostations, p, row);
}

/// Deleting a station removes exactly its row: afterwards the id finds
/// nothing, every other station survives, and no other table is touched.
pub proof fn lemma_delete_station_exact(s: StoreV, id: int)
    ensures
        find_station(spec_delete_station(s, id), id) is None,
        forall|st: MeteostationV|
            s.meteostations.contains(st) && st.id != id ==> spec_delete_station(
                s,
                id,
            ).meteostations.contains(st),
        spec_delete_station(s, id).sensors == s.sensors,
        spec_delete_station(s, id).measurement_types == s.measurement_types,
        spec_delete_station(s, id).sensors_measurements == s.sensors_measurements,
        spec_delete_station(s, id).meteostations_sensors == s.meteostations_sensors,
        spec_delete_station(s, id).measurements == s.measurements,
{
    let p = station_without_id(id);
    let f = s.meteostations.filter(p);
    assert forall|i: int| 0 <= i < f.len() implies !station_with_id(id)(
        #[trigger] f[i],
    ) by {
        s.meteostations.lemma_filter_pred(p, i);
    }
    lemma_seq_find_none(f, station_with_id(id));
    assert forall|st: MeteostationV| s.meteostations.contains(st) && st.id != id implies spec_delete_station(
        s,
        id,
    ).meteostations.contains(st) by {
        let k = choose|k: int| 0 <= k < s.meteostations.len() && s.meteostations[k] == st;
        s.meteostations.lemma_filter_contains(p, k);
    }
}

/// Deleting a sensor removes exactly its row and its whole binding set;
/// every other sensor and every other sensor's bindings survive.
pub proof fn lemma_delete_sensor_exact(s: StoreV, id: int)
    ensures
        find_sensor(spec_delete_sensor(s, id), id) is None,
        bindings_of(spec_delete_sensor(s, id), id) == Seq::<SensorMeasurementV>::empty(),
        forall|sn: SensorV|
            s.sensors.contains(sn) && sn.id != id ==> spec_delete_sensor(s, id).sensors.contains(
                sn,
            ),
        forall|other: int|
            other != id ==> bindings_of(spec_delete_sensor(s, id), other) == bindings_of(s, other),
        spec_delete_sensor(s, id).meteostations == s.meteostations,
        spec_delete_sensor(s, id).measurement_types == s.measurement_types,
        spec_delete_sensor(s, id).meteostations_sensors == s.meteostations_sensors,
        spec_delete_sensor(s, id).measurements == s.measurements,
{
    let q = sensor_without_id(id);
    let f = s.sensors.filter(q);
    assert forall|i: int| 0 <= i < f.len() implies !sensor_with_id(id)(
        #[trigger] f[i],
    ) by {
        s.sensors.lemma_filter_pred(q, i);
    }
    lemma_seq_find_none(f, sensor_with_id(id));
    assert forall|sn: SensorV| s.sensors.contains(sn) && sn.id != id implies spec_delete_sensor(
        s,
        id,
    ).sensors.contains(sn) by {
        let k = choose|k: int| 0 <= k < s.sensors.len() && s.sensors[k] == sn;
        s.sensors.lemma_filter_contains(q, k);
    }
    let kept = s.sensors_measurements.filter(sm_not_sensor(id));
    assert forall|i: int| 0 <= i < kept.len() implies !sm_of_sensor(id)(#[trigger] kept[i]) by {
        s.sensors_measurements.lemma_filter_pred(sm_not_sensor(id), i);
    }
    lemma_filter_none(kept, sm_of_sensor(id));
    assert forall|other: int| other != id implies bindings_of(spec_delete_sensor(s, id), other)
        == bindings_of(s, other) by {
        assert forall|b: SensorMeasurementV| #[trigger] sm_of_sensor(other)(b) implies sm_not_sensor(
            id,
        )(b) by {}
        lemma_filter_subsume(s.sensors_measurements, sm_not_sensor(id), sm_of_sensor(other));
    }
}

/// Deleting a measurement type removes exactly its row; every other type
/// survives, and no other table is touched.
pub proof fn lemma_delete_type_exact(s: StoreV, id: int)
    ensures
        find_type(spec_delete_type(s, id), id) is None,
        forall|t: MeasurementTypeV|
            s.measurement_types.contains(t) && t.id != id ==> spec_delete_type(
                s,
                id,
            ).measurement_types.contains(t),
        spec_delete_type(s, id).meteostations == s.meteostations,
        spec_delete_type(s, id).sensors == s.sensors,
        spec_delete_type(s, id).sensors_measurements == s.sensors_measurements,
        spec_delete_type(s, id).meteostations_sensors == s.meteostations_sensors,
        spec_delete_type(s, id).measurements == s.measurements,
{
    let p = type_without_id(id);
    let f = s.measurement_types.filter(p);
    assert forall|i: int| 0 <= i < f.len() implies !type_with_id(id)(
        #[trigger] f[i],
    ) by {
        s.measurement_types.lemma_filter_pred(p, i);
    }
    lemma_seq_find_none(f, type_with_id(id));
    assert forall|t: MeasurementTypeV| s.measurement_types.contains(t) && t.id
        != id implies spec_delete_type(s, id).measurement_types.contains(t) by {
        let k = choose|k: int| 0 <= k < s.measurement_types.len() && s.measurement_types[k] == t;
        s.measurement_types.lemma_filter_contains(p, k);
    }
}

/// Updating a sensor with binding set B makes B, formula-defaulted, exactly
/// the sensor's binding set, whatever overlapped before; the bindings of
/// every other sensor are untouched.
pub proof fn lemma_update_sensor_replaces_bindings(s: StoreV, id: int, req: SensorRequestV)
    ensures
        bindings_of(spec_update_sensor(s, id, req), id) == req.sensors_measurements.map_values(
            binding_row_of_request(id),
        ),
        forall|other: int|
            other != id ==> bindings_of(spec_update_sensor(s, id, req), other) == bindings_of(
                s,
                other,
            ),
{
    let dropped = s.sensors_measurements.filter(sm_not_sensor(id));
    let fresh = req.sensors_measurements.map_values(binding_row_of_request(id));
    Seq::filter_distributes_over_add(dropped, fresh, sm_of_sensor(id));
    assert forall|i: int| 0 <= i < dropped.len() implies !sm_of_sensor(id)(
        #[trigger] dropped[i],
    ) by {
        s.sensors_measurements.lemma_filter_pred(sm_not_sensor(id), i);
    }
    lemma_filter_none(dropped, sm_of_sensor(id));
    assert(forall|i: int| 0 <= i < fresh.len() ==> sm_of_sensor(id)(#[trigger] fresh[i]));
    lemma_filter_all(fresh, sm_of_sensor(id));
    assert(bindings_of(spec_update_sensor(s, id, req), id) =~= fresh);
    assert forall|other: int| other != id implies bindings_of(spec_update_sensor(s, id, req), other)
        == bindings_of(s, other) by {
        Seq::filter_distributes_over_add(dropped, fresh, sm_of_sensor(other));
        assert(forall|i: int| 0 <= i < fresh.len() ==> !sm_of_sensor(other)(#[trigger] fresh[i]));
        lemma_filter_none(fresh, sm_of_sensor(other));
        assert forall|b: SensorMeasurementV| #[trigger] sm_of_sensor(other)(b) implies sm_not_sensor(
            id,
        )(b) by {}
        lemma_filter_subsume(s.sensors_measurements, sm_not_sensor(id), sm_of_sensor(other));
        assert(bindings_of(spec_update_sensor(s, id, req), other) =~= bindings_of(s, other));
    }
}

/// Stamping a removal over an earlier removal neither errs nor compounds:
/// the later stamp alone decides the stored state.
pub proof fn lemma_remove_binding_overwrites(s: StoreV, inv: Seq<char>, t1: int, t2: int)
    ensures
        spec_remove_binding(spec_remove_binding(s, inv, t1), inv, t2) == spec_remove_binding(
            s,
            inv,
            t2,
        ),
{
    let f1 = remove_stamp_at(inv, t1);
    let f2 = remove_stamp_at(inv, t2);
    let once = s.meteostations_sensors.map_values(f2);
    let twice = s.meteostations_sensors.map_values(f1).map_values(f2);
    assert forall|i: int| 0 <= i < twice.len() implies twice[i] == once[i] by {
        let b = s.meteostations_sensors[i];
        assert(f2(f1(b)) == f2(b));
    }
    assert(twice =~= once);
    assert(spec_remove_binding(spec_remove_binding(s, inv, t1), inv, t2) =~= spec_remove_binding(
        s,
        inv,
        t2,
    ));
}

/// The filtered retrieval is exact: everything it returns is a stored
/// reading some acceptable binding joins, and every such reading is
/// returned; nothing with an unrelated inventory number appears.
pub proof fn lemma_condition_measurements_exact(s: StoreV, q: MeasurementQuery)
    ensures
        forall|m: MeasurementV|
            #[trigger] spec_condition_measurements(s, q).contains(m) ==> s.measurements.contains(m)
                && matches_query(s.meteostations_sensors, q, m),
        forall|m: MeasurementV|
            s.measurements.contains(m) && matches_query(s.meteostations_sensors, q, m)
                ==> spec_condition_measurements(s, q).contains(m),
{
    let p = measurement_selected(s.meteostations_sensors, q);
    let f = s.measurements.filter(p);
    assert forall|m: MeasurementV| #[trigger] f.contains(m) implies s.measurements.contains(m)
        && matches_query(s.meteostations_sensors, q, m) by {
        s.measurements.lemma_filter_contains_rev(p, m);
        let i = choose|i: int| 0 <= i < f.len() && f[i] == m;
        s.measurements.lemma_filter_pred(p, i);
    }
    assert forall|m: MeasurementV|
        s.measurements.contains(m) && matches_query(s.meteostations_sensors, q, m) implies f.contains(
        m,
    ) by {
        let k = choose|k: int| 0 <= k < s.measurements.len() && s.measurements[k] == m;
        s.measurements.lemma_filter_contains(p, k);
    }
}

/// Inserting a batch and then deleting one inventory number removes exactly
/// that number's readings, the batch's and any stored before, and leaves
/// every other reading in place and in order.
pub proof fn lemma_measurement_round_trip(s: StoreV, batch: Seq<MeasurementV>, inv: Seq<char>)
    ensures
        spec_delete_measurements(spec_insert_measurements(s, batch), inv).measurements
            == s.measurements.filter(measurement_not_inv(inv)) + batch.filter(
            measurement_not_inv(inv),
        ),
        (forall|i: int|
            0 <= i < s.measurements.len() ==> (#[trigger] s.measurements[i]).sensor_inventory_number
                != inv) ==> spec_delete_measurements(spec_insert_measurements(s, batch),
        inv).measurements == s.measurements + batch.filter(measurement_not_inv(inv)),
{
    Seq::filter_distributes_over_add(s.measurements, batch, measurement_not_inv(inv));
    if forall|i: int|
        0 <= i < s.measurements.len() ==> (#[trigger] s.measurements[i]).sensor_inventory_number
            != inv {
        assert forall|i: int| 0 <= i < s.measurements.len() implies measurement_not_inv(inv)(
            #[trigger] s.measurements[i],
        ) by {}
        lemma_filter_all(s.measurements, measurement_not_inv(inv));
    }
}

} // verus!
