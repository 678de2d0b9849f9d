//! The measurement store: append-only ingestion of readings, retrieval of
//! all of them or of those reaching a station or sensor through the binding
//! table, and bulk deletion by inventory number.

use vstd::prelude::*;

use crate::models::{
    Measurement, MeasurementQuery, MeasurementRequest, MeasurementV, MeteostationSensorV,
    StoreError,
};
use crate::store::{lemma_filter_take_succ, Store, StoreV};

verus! {

// ---------------------------------------------------------------------------
// Transitions
// ---------------------------------------------------------------------------

/// The store after a batch of readings is appended, in request order, as
/// one step.
pub open spec fn spec_insert_measurements(s: StoreV, items: Seq<MeasurementV>) -> StoreV {
    StoreV { measurements: s.measurements + items, ..s }
}

/// Keeps every reading of other inventory numbers.
pub open spec fn measurement_not_inv(inv: Seq<char>) -> spec_fn(MeasurementV) -> bool {
    |m: MeasurementV| m.sensor_inventory_number != inv
}

/// The store after deleting every reading of one inventory number; deleting
/// where none match succeeds and changes nothing.
pub open spec fn spec_delete_measurements(s: StoreV, inv: Seq<char>) -> StoreV {
    StoreV { measurements: s.measurements.filter(measurement_not_inv(inv)), ..s }
}

// ---------------------------------------------------------------------------
// The filtered retrieval
// ---------------------------------------------------------------------------

/// Whether an optional id filter accepts a value; an absent filter accepts
/// everything.
pub open spec fn opt_id_matches(q: Option<i32>, v: int) -> bool {
    match q {
        Some(x) => v == x as int,
        None => true,
    }
}

/// Whether some binding joins this reading's inventory number to a station
/// and sensor the query accepts.
pub open spec fn matches_query(
    bindings: Seq<MeteostationSensorV>,
    q: MeasurementQuery,
    m: MeasurementV,
) -> bool {
    exists|k: int|
        0 <= k < bindings.len() && bindings[k].inventory_number == m.sensor_inventory_number
            && opt_id_matches(q.meteostation, bindings[k].station_id) && opt_id_matches(
            q.sensor,
            bindings[k].sensor_id,
        )
}

/// The same acceptance, as a predicate on readings.
pub open spec fn measurement_selected(bindings: Seq<MeteostationSensorV>, q: MeasurementQuery) -> spec_fn(
    MeasurementV,
) -> bool {
    |m: MeasurementV| matches_query(bindings, q, m)
}

/// The readings the filtered retrieval returns: those joined by some
/// binding the query accepts, each once, in stored order.
pub open spec fn spec_condition_measurements(s: StoreV, q: MeasurementQuery) -> Seq<MeasurementV> {
    s.measurements.filter(measurement_selected(s.meteostations_sensors, q))
}

// ---------------------------------------------------------------------------
// Lookup helper
// ---------------------------------------------------------------------------

/// Whether some binding of this inventory number passes the query's
/// station and sensor filters.
fn inventory_selected(s: &Store, inv: &String, query: &MeasurementQuery) -> (r: bool)
    ensures
        r == exists|k: int|
            0 <= k < s@.meteostations_sensors.len()
                && s@.meteostations_sensors[k].inventory_number == inv@ && opt_id_matches(
                query.meteostation,
                s@.meteostations_sensors[k].station_id,
            ) && opt_id_matches(query.sensor, s@.meteostations_sensors[k].sensor_id),
{
    let mut i: usize = 0;
    while i < s.meteostations_sensors.len()
        invariant
            i <= s.meteostations_sensors.len(),
            s@.meteostations_sensors.len() == s.meteostations_sensors.len(),
            forall|j: int|
                0 <= j < i ==> !(#[trigger] s@.meteostations_sensors[j].inventory_number == inv@
                    && opt_id_matches(query.meteostation, s@.meteostations_sensors[j].station_id)
                    && opt_id_matches(query.sensor, s@.meteostations_sensors[j].sensor_id)),
        decreases s.meteostations_sensors.len() - i,
    {
        let b = &s.meteostations_sensors[i];
        let station_ok = match query.meteostation {
            Some(sid) => b.station_id == sid,
            None => true,
        };
        let sensor_ok = match query.sensor {
            Some(sid) => b.sensor_id == sid,
            None => true,
        };
        if station_ok && sensor_ok && b.inventory_number == *inv {
            proof {
                assert(s@.meteostations_sensors[i as int].inventory_number == inv@
                    && opt_id_matches(query.meteostation, s@.meteostations_sensors[i as int].station_id)
                    && opt_id_matches(query.sensor, s@.meteostations_sensors[i as int].sensor_id));
            }
            return true;
        }
        i += 1;
    }
    false
}

// ---------------------------------------------------------------------------
// Operations
// ---------------------------------------------------------------------------

/// Lists every reading in stored order.
pub fn fetch_all_measurements(s: &Store) -> (r: Result<Vec<Measurement>, StoreError>)
    ensures
        r matches Ok(rows) && rows.deep_view() == s@.measurements,
{
    let mut rows: Vec<Measurement> = Vec::new();
    let mut i: usize = 0;
    while i < s.measurements.len()
        invariant
            i <= s.measurements.len(),
            rows.len() == i,
            s@.measurements.len() == s.measurements.len(),
            rows.deep_view() =~= s@.measurements.take(i as int),
        decreases s.measurements.len() - i,
    {
        rows.push(s.measurements[i].duplicate());
        i += 1;
        proof {
            assert(rows.deep_view() =~= s@.measurements.take(i as int));
        }
    }
    proof {
        assert(s@.measurements.take(s.measurements.len() as int) =~= s@.measurements);
    }
    Ok(rows)
}

/// Lists the readings whose inventory number some binding joins to a
/// station and sensor the query accepts; a reading of an inventory number
/// never bound, or bound elsewhere only, is never returned.
pub fn fetch_condition_measurements(s: &Store, query: &MeasurementQuery) -> (r: Result<
    Vec<Measurement>,
    StoreError,
>)
    ensures
        r matches Ok(rows) && rows.deep_view() == spec_condition_measurements(s@, *query),
{
    let ghost dv = s@.measurements;
    let ghost p = measurement_selected(s@.meteostations_sensors, *query);
    let mut rows: Vec<Measurement> = Vec::new();
    let mut i: usize = 0;
    while i < s.measurements.len()
        invariant
            i <= s.measurements.len(),
            dv == s@.measurements,
            dv.len() == s.measurements.len(),
            p == measurement_selected(s@.meteostations_sensors, *query),
            rows.deep_view() =~= dv.take(i as int).filter(p),
        decreases s.measurements.len() - i,
    {
        let m = &s.measurements[i];
        if inventory_selected(s, &m.sensor_inventory_number, query) {
            proof {
                assert(p(dv[i as int]));
            }
            rows.push(m.duplicate());
        } else {
            proof {
                assert(!p(dv[i as int]));
            }
        }
        i += 1;
        proof {
            lemma_filter_take_succ(dv, p, i as int - 1);
            assert(rows.deep_view() =~= dv.take(i as int).filter(p));
        }
    }
    proof {
        assert(dv.take(dv.len() as int) =~= dv);
    }
    Ok(rows)
}

/// Appends the batch's readings in request order, as one step; a later
/// failure cannot leave part of the batch behind.
pub fn insert_measurements(s: &mut Store, item: &MeasurementRequest) -> (r: Result<(), StoreError>)
    requires
        old(s).wf(),
    ensures
        final(s).wf(),
        r == Ok::<(), StoreError>(()),
        final(s)@ == spec_insert_measurements(old(s)@, item@),
{
    let ghost dv = item@;
    let mut i: usize = 0;
    while i < item.measurements.len()
        invariant
            i <= item.measurements.len(),
            dv == item@,
            dv.len() == item.measurements.len(),
            s.measurements.len() == old(s).measurements.len() + i,
            s@ =~= spec_insert_measurements(old(s)@, dv.take(i as int)),
        decreases item.measurements.len() - i,
    {
        let row = item.measurements[i].duplicate();
        proof {
            assert(row@ == dv[i as int]);
        }
        let ghost pre = s@.measurements;
        s.measurements.push(row);
        i += 1;
        proof {
            assert(s@.measurements =~= pre.push(dv[i as int - 1]));
            assert(dv.take(i as int) =~= dv.take(i as int - 1).push(dv[i as int - 1]));
            assert(old(s)@.measurements + dv.take(i as int) =~= pre.push(dv[i as int - 1]));
            assert(s@ =~= spec_insert_measurements(old(s)@, dv.take(i as int)));
        }
    }
    proof {
        assert(dv.take(dv.len() as int) =~= dv);
        assert(s@ =~= spec_insert_measurements(old(s)@, dv));
    }
    Ok(())
}

/// Deletes every reading of this inventory number; none matching is no
/// error.
pub fn delete_measurement(s: &mut Store, number: String) -> (r: Result<(), StoreError>)
    requires
        old(s).wf(),
    ensures
        final(s).wf(),
        r == Ok::<(), StoreError>(()),
        final(s)@ == spec_delete_measurements(old(s)@, number@),
{
    let ghost dv = s@.measurements;
    let ghost p = measurement_not_inv(number@);
    let mut rows: Vec<Measurement> = Vec::new();
    let mut i: usize = 0;
    while i < s.measurements.len()
        invariant
            i <= s.measurements.len(),
            dv == s@.measurements,
            dv.len() == s.measurements.len(),
            p == measurement_not_inv(number@),
            rows.deep_view() =~= dv.take(i as int).filter(p),
        decreases s.measurements.len() - i,
    {
        let m = &s.measurements[i];
        if !(m.sensor_inventory_number == number) {
            proof {
                assert(p(dv[i as int]));
            }
            rows.push(m.duplicate());
        } else {
            proof {
                assert(!p(dv[i as int]));
            }
        }
        i += 1;
        proof {
            lemma_filter_take_succ(dv, p, i as int - 1);
            assert(rows.deep_view() =~= dv.take(i as int).filter(p));
        }
    }
    s.measurements = rows;
    proof {
        assert(dv.take(dv.len() as int) =~= dv);
        assert(s@ =~= spec_delete_measurements(old(s)@, number@));
    }
    Ok(())
}

} // verus!
