//! Sensor-to-measurement-type bindings addressed directly: adding a batch to
//! one sensor, and removing the bindings of listed type ids. No duplicate
//! detection is attempted, and removals that match nothing are no errors.

use vstd::prelude::*;

use crate::models::{
    formula_or_default, formula_or_value, SensorMeasurement, SensorMeasurementCreateV,
    SensorMeasurementRequest, SensorMeasurementV, SensorMeasurementsDelete, StoreError,
};
use crate::store::{lemma_filter_take_succ, Store, StoreV};

verus! {

// ---------------------------------------------------------------------------
// Transitions
// ---------------------------------------------------------------------------

/// The stored binding row one create entry yields for a sensor; a missing
/// formula is stored as the identity transform.
pub open spec fn binding_row_of_create(sensor_id: int) -> spec_fn(
    SensorMeasurementCreateV,
) -> SensorMeasurementV {
    |m: SensorMeasurementCreateV|
        SensorMeasurementV {
            sensor_id: sensor_id,
            type_id: m.type_id,
            measurement_formula: Some(formula_or_default(m.measurement_formula)),
        }
}

/// The store after adding a batch of bindings to one sensor, in order.
pub open spec fn spec_add_sensor_measurements(
    s: StoreV,
    sensor_id: int,
    items: Seq<SensorMeasurementCreateV>,
) -> StoreV {
    StoreV {
        sensors_measurements: s.sensors_measurements + items.map_values(
            binding_row_of_create(sensor_id),
        ),
        ..s
    }
}

/// Whether an id stands in the request's list of type ids.
pub open spec fn id_listed(type_ids: Seq<i32>, id: int) -> bool {
    exists|k: int| 0 <= k < type_ids.len() && type_ids[k] as int == id
}

/// Keeps a binding row unless it belongs to the sensor and its type is
/// listed for removal.
pub open spec fn sm_kept(sensor_id: int, type_ids: Seq<i32>) -> spec_fn(SensorMeasurementV) -> bool {
    |b: SensorMeasurementV| b.sensor_id != sensor_id || !id_listed(type_ids, b.type_id)
}

/// The store after removing the listed bindings of one sensor; rows that
/// were never there are silently ignored.
pub open spec fn spec_delete_sensor_measurements(
    s: StoreV,
    sensor_id: int,
    type_ids: Seq<i32>,
) -> StoreV {
    StoreV {
        sensors_measurements: s.sensors_measurements.filter(sm_kept(sensor_id, type_ids)),
        ..s
    }
}

// ---------------------------------------------------------------------------
// Lookup helper
// ---------------------------------------------------------------------------

/// Whether the list holds this id.
fn id_in_list(type_ids: &Vec<i32>, id: i32) -> (r: bool)
    ensures
        r == id_listed(type_ids@, id as int),
{
    let mut i: usize = 0;
    while i < type_ids.len()
        invariant
            i <= type_ids.len(),
            forall|j: int| 0 <= j < i ==> #[trigger] type_ids@[j] != id,
        decreases type_ids.len() - i,
    {
        if type_ids[i] == id {
            return true;
        }
        i += 1;
    }
    false
}

// ---------------------------------------------------------------------------
// Operations
// ---------------------------------------------------------------------------

/// Adds one binding row per request entry to the sensor, in request order;
/// nothing rejects a pair that is already bound.
pub fn insert_sensor_measurements(
    s: &mut Store,
    sensor_id: i32,
    item: &SensorMeasurementRequest,
) -> (r: Result<(), StoreError>)
    requires
        old(s).wf(),
    ensures
        final(s).wf(),
        r == Ok::<(), StoreError>(()),
        final(s)@ == spec_add_sensor_measurements(old(s)@, sensor_id as int, item@),
{
    let ghost dv = item@;
    let ghost f = binding_row_of_create(sensor_id as int);
    let mut i: usize = 0;
    while i < item.sensors_measurements.len()
        invariant
            i <= item.sensors_measurements.len(),
            dv == item@,
            dv.len() == item.sensors_measurements.len(),
            f == binding_row_of_create(sensor_id as int),
            s.sensors_measurements.len() == old(s).sensors_measurements.len() + i,
            s@ =~= spec_add_sensor_measurements(old(s)@, sensor_id as int, dv.take(i as int)),
        decreases item.sensors_measurements.len() - i,
    {
        let m = &item.sensors_measurements[i];
        let row = SensorMeasurement {
            sensor_id: sensor_id,
            type_id: m.type_id,
            measurement_formula: Some(formula_or_value(&m.measurement_formula)),
        };
        proof {
            assert(row@ == f(dv[i as int]));
        }
        let ghost pre = s@.sensors_measurements;
        s.sensors_measurements.push(row);
        i += 1;
        proof {
            assert(s@.sensors_measurements =~= pre.push(f(dv[i as int - 1])));
            assert(dv.take(i as int).map_values(f) =~= dv.take(i as int - 1).map_values(f).push(
                f(dv[i as int - 1]),
            ));
            assert(old(s)@.sensors_measurements + dv.take(i as int).map_values(f) =~= pre.push(
                f(dv[i as int - 1]),
            ));
            assert(s@ =~= spec_add_sensor_measurements(old(s)@, sensor_id as int, dv.take(
                i as int,
            )));
        }
    }
    proof {
        assert(dv.take(dv.len() as int) =~= dv);
        assert(s@ =~= spec_add_sensor_measurements(old(s)@, sensor_id as int, dv));
    }
    Ok(())
}

/// Removes the sensor's bindings whose type ids are listed; ids that match
/// nothing are silently ignored.
pub fn delete_many_sensor_measurements(
    s: &mut Store,
    sensor_id: i32,
    item: &SensorMeasurementsDelete,
) -> (r: Result<(), StoreError>)
    requires
        old(s).wf(),
    ensures
        final(s).wf(),
        r == Ok::<(), StoreError>(()),
        final(s)@ == spec_delete_sensor_measurements(old(s)@, sensor_id as int, item@),
{
    let ghost dv = s@.sensors_measurements;
    let ghost p = sm_kept(sensor_id as int, item@);
    let mut rows: Vec<SensorMeasurement> = Vec::new();
    let mut i: usize = 0;
    while i < s.sensors_measurements.len()
        invariant
            i <= s.sensors_measurements.len(),
            dv == s@.sensors_measurements,
            dv.len() == s.sensors_measurements.len(),
            p == sm_kept(sensor_id as int, item@),
            item@ == item.measurements_type@,
            rows.deep_view() =~= dv.take(i as int).filter(p),
        decreases s.sensors_measurements.len() - i,
    {
        let b = &s.sensors_measurements[i];
        if b.sensor_id != sensor_id || !id_in_list(&item.measurements_type, b.type_id) {
            proof {
                assert(p(dv[i as int]));
            }
            rows.push(b.duplicate());
        } else {
            proof {
                assert(!p(dv[i as int]));
            }
        }
        i += 1;
        proof {
            lemma_filter_take_succ(dv, p, i as int - 1);
            assert(rows.deep_view() =~= dv.take(i as int).filter(p));
        }
    }
    s.sensors_measurements = rows;
    proof {
        assert(dv.take(dv.len() as int) =~= dv);
        assert(s@ =~= spec_delete_sensor_measurements(old(s)@, sensor_id as int, item@));
    }
    Ok(())
}

} // verus!
