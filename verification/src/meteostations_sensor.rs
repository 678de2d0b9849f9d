//! Station-to-sensor bindings: listing them grouped by station, creating
//! them in batches (with the installation time defaulting to now), and
//! stamping a removal time by inventory number.

use vstd::prelude::*;

use crate::clock::current_unix_time;
use crate::models::{
    MeteostationResponse, MeteostationResponseV, MeteostationSensor, MeteostationSensorCreateV,
    MeteostationSensorCreateRequest, MeteostationSensorRemove, MeteostationSensorResponse,
    MeteostationSensorResponseV, MeteostationSensorV, MeteostationV, StoreError,
};
use crate::store::{lemma_seq_find_first, lemma_seq_find_none, sensor_with_id, seq_find, Store, StoreV};

verus! {

// ---------------------------------------------------------------------------
// Transitions
// ---------------------------------------------------------------------------

/// The stored binding a create entry yields: the given installation time, or
/// `now` when none was given; never removed yet.
pub open spec fn binding_of_create(c: MeteostationSensorCreateV, now: int) -> MeteostationSensorV {
    MeteostationSensorV {
        inventory_number: c.inventory_number,
        station_id: c.station_id,
        sensor_id: c.sensor_id,
        added_ts: match c.added_ts {
            Some(t) => t,
            None => now,
        },
        removed_ts: None,
    }
}

/// Creation of one binding, with `now` fixed.
pub open spec fn create_binding_at(now: int) -> spec_fn(
    MeteostationSensorCreateV,
) -> MeteostationSensorV {
    |c: MeteostationSensorCreateV| binding_of_create(c, now)
}

/// The store after a batch of binding creations, in request order.
pub open spec fn spec_insert_bindings(
    s: StoreV,
    items: Seq<MeteostationSensorCreateV>,
    now: int,
) -> StoreV {
    StoreV {
        meteostations_sensors: s.meteostations_sensors + items.map_values(create_binding_at(now)),
        ..s
    }
}

/// Stamps one binding row with a removal time if its inventory number
/// matches; any earlier removal time is overwritten.
pub open spec fn remove_stamp_at(inv: Seq<char>, t: int) -> spec_fn(
    MeteostationSensorV,
) -> MeteostationSensorV {
    |b: MeteostationSensorV|
        if b.inventory_number == inv {
            MeteostationSensorV { removed_ts: Some(t), ..b }
        } else {
            b
        }
}

/// The store after a removal: every binding of the inventory number carries
/// the removal time; nothing else changes, and no row is required to match.
pub open spec fn spec_remove_binding(s: StoreV, inv: Seq<char>, t: int) -> StoreV {
    StoreV {
        meteostations_sensors: s.meteostations_sensors.map_values(remove_stamp_at(inv, t)),
        ..s
    }
}

// ---------------------------------------------------------------------------
// The grouped listing
// ---------------------------------------------------------------------------

/// The listed form of one binding row: joined with the sensor table for the
/// sensor's name; absent when the sensor id is unknown (the join drops it).
pub open spec fn binding_item(s: StoreV, b: MeteostationSensorV) -> Option<
    MeteostationSensorResponseV,
> {
    match seq_find(s.sensors, sensor_with_id(b.sensor_id)) {
        Some(sn) => Some(
            MeteostationSensorResponseV {
                sensor_inventory_number: b.inventory_number,
                sensor_id: b.sensor_id,
                sensor_name: sn.name,
                sensor_added_ts: Some(b.added_ts),
                sensor_remove_ts: b.removed_ts,
            },
        ),
        None => None,
    }
}

/// The listed form of one binding row under a given station, if it belongs
/// to that station and its sensor exists.
pub open spec fn station_item_at(s: StoreV, station_id: int) -> spec_fn(MeteostationSensorV) -> Option<
    MeteostationSensorResponseV,
> {
    |b: MeteostationSensorV|
        if b.station_id == station_id {
            binding_item(s, b)
        } else {
            None
        }
}

/// Every listed binding of one station, in binding-table order.
pub open spec fn station_binding_items(s: StoreV, station_id: int) -> Seq<
    MeteostationSensorResponseV,
> {
    s.meteostations_sensors.filter_map(station_item_at(s, station_id))
}

/// One station's entry in the grouped listing: its fields and its listed
/// bindings; stations with no listed binding do not appear.
pub open spec fn station_group(s: StoreV) -> spec_fn(MeteostationV) -> Option<
    MeteostationResponseV,
> {
    |st: MeteostationV|
        if station_binding_items(s, st.id).len() > 0 {
            Some(
                MeteostationResponseV {
                    station_id: st.id,
                    station_name: st.name,
                    station_longitude: st.longitude,
                    station_latitude: st.latitude,
                    sensors: station_binding_items(s, st.id),
                },
            )
        } else {
            None
        }
}

/// The whole grouped listing, stations in table order.
pub open spec fn spec_meteostation_sensors(s: StoreV) -> Seq<MeteostationResponseV> {
    s.meteostations.filter_map(station_group(s))
}

// ---------------------------------------------------------------------------
// Lookup helper
// ---------------------------------------------------------------------------

/// The name of the sensor with this id, if the sensor exists.
fn sensor_name_for(s: &Store, sensor_id: i32) -> (r: Option<String>)
    ensures
        match seq_find(s@.sensors, sensor_with_id(sensor_id as int)) {
            Some(sn) => r matches Some(name) && name@ == sn.name,
            None => r is None,
        },
{
    let ghost dv = s@.sensors;
    let mut i: usize = 0;
    while i < s.sensors.len()
        invariant
            i <= s.sensors.len(),
            dv == s@.sensors,
            dv.len() == s.sensors.len(),
            forall|j: int| 0 <= j < i ==> #[trigger] dv[j].id != sensor_id as int,
        decreases s.sensors.len() - i,
    {
        if s.sensors[i].id == sensor_id {
            proof {
                lemma_seq_find_first(dv, sensor_with_id(sensor_id as int), i as int);
            }
            return Some(s.sensors[i].name.clone());
        }
        i += 1;
    }
    proof {
        lemma_seq_find_none(dv, sensor_with_id(sensor_id as int));
    }
    None
}

// ---------------------------------------------------------------------------
// Operations
// ---------------------------------------------------------------------------

/// Lists every binding, grouped under its station; each group carries the
/// station's fields and its bindings in stored order.
pub fn fetch_meteostation_sensors(s: &Store) -> (r: Result<Vec<MeteostationResponse>, StoreError>)
    ensures
        r matches Ok(rows) && rows.deep_view() == spec_meteostation_sensors(s@),
{
    let ghost dvst = s@.meteostations;
    let ghost dvb = s@.meteostations_sensors;
    let ghost g = station_group(s@);
    let mut rows: Vec<MeteostationResponse> = Vec::new();
    let mut i: usize = 0;
    while i < s.meteostations.len()
        invariant
            i <= s.meteostations.len(),
            dvst == s@.meteostations,
            dvst.len() == s.meteostations.len(),
            dvb == s@.meteostations_sensors,
            dvb.len() == s.meteostations_sensors.len(),
            g == station_group(s@),
            rows.deep_view() =~= dvst.take(i as int).filter_map(g),
        decreases s.meteostations.len() - i,
    {
        let st = &s.meteostations[i];
        let ghost h = station_item_at(s@, dvst[i as int].id);
        let mut items: Vec<MeteostationSensorResponse> = Vec::new();
        let mut j: usize = 0;
        while j < s.meteostations_sensors.len()
            invariant
                j <= s.meteostations_sensors.len(),
                dvb == s@.meteostations_sensors,
                dvb.len() == s.meteostations_sensors.len(),
                dvst == s@.meteostations,
                i < dvst.len(),
                h == station_item_at(s@, dvst[i as int].id),
                st@ == dvst[i as int],
                items.deep_view() =~= dvb.take(j as int).filter_map(h),
            decreases s.meteostations_sensors.len() - j,
        {
            let b = &s.meteostations_sensors[j];
            if b.station_id == st.id {
                match sensor_name_for(s, b.sensor_id) {
                    Some(name) => {
                        let item = MeteostationSensorResponse {
                            sensor_inventory_number: b.inventory_number.clone(),
                            sensor_id: b.sensor_id,
                            sensor_name: name,
                            sensor_added_ts: Some(b.added_ts),
                            sensor_remove_ts: b.removed_ts,
                        };
                        proof {
                            assert(h(dvb[j as int]) == Some(item@));
                        }
                        items.push(item);
                    },
                    None => {
                        proof {
                            assert(h(dvb[j as int]) is None);
                        }
                    },
                }
            } else {
                proof {
                    assert(h(dvb[j as int]) is None);
                }
            }
            j += 1;
            proof {
                dvb.lemma_filter_map_take_succ(h, j as int - 1);
                assert(items.deep_view() =~= dvb.take(j as int).filter_map(h));
            }
        }
        proof {
            assert(dvb.take(dvb.len() as int) =~= dvb);
            assert(items.deep_view() =~= station_binding_items(s@, dvst[i as int].id));
        }
        if items.len() > 0 {
            let group = MeteostationResponse {
                station_id: st.id,
                station_name: st.name.clone(),
                station_longitude: st.longitude.clone(),
                station_latitude: st.latitude.clone(),
                sensors: items,
            };
            proof {
                assert(station_binding_items(s@, dvst[i as int].id).len() > 0);
                assert(g(dvst[i as int]) == Some(group@));
            }
            rows.push(group);
        } else {
            proof {
                assert(station_binding_items(s@, dvst[i as int].id).len() == 0);
                assert(g(dvst[i as int]) is None);
            }
        }
        i += 1;
        proof {
            dvst.lemma_filter_map_take_succ(g, i as int - 1);
            assert(rows.deep_view() =~= dvst.take(i as int).filter_map(g));
        }
    }
    proof {
        assert(dvst.take(dvst.len() as int) =~= dvst);
    }
    Ok(rows)
}

/// Creates the requested bindings in order, installing each at its given
/// time or at `now`.
pub fn insert_meteostation_sensors_at(
    s: &mut Store,
    item: &MeteostationSensorCreateRequest,
    now: i64,
) -> (r: Result<(), StoreError>)
    requires
        old(s).wf(),
    ensures
        final(s).wf(),
        r == Ok::<(), StoreError>(()),
        final(s)@ == spec_insert_bindings(old(s)@, item@, now as int),
{
    let ghost dv = item@;
    let ghost f = create_binding_at(now as int);
    let mut i: usize = 0;
    while i < item.meteostations_sensors.len()
        invariant
            i <= item.meteostations_sensors.len(),
            dv == item@,
            dv.len() == item.meteostations_sensors.len(),
            f == create_binding_at(now as int),
            s.meteostations_sensors.len() == old(s).meteostations_sensors.len() + i,
            s@ =~= spec_insert_bindings(old(s)@, dv.take(i as int), now as int),
            s.next_type_id == old(s).next_type_id,
            s.next_station_id == old(s).next_station_id,
            s.next_sensor_id == old(s).next_sensor_id,
        decreases item.meteostations_sensors.len() - i,
    {
        let c = &item.meteostations_sensors[i];
        let row = MeteostationSensor {
            inventory_number: c.inventory_number.clone(),
            station_id: c.station_id,
            sensor_id: c.sensor_id,
            added_ts: match c.added_ts {
                Some(t) => t,
                None => now,
            },
            removed_ts: None,
        };
        proof {
            assert(row@ == f(dv[i as int]));
        }
        let ghost pre = s@.meteostations_sensors;
        s.meteostations_sensors.push(row);
        i += 1;
        proof {
            assert(s@.meteostations_sensors =~= pre.push(f(dv[i as int - 1])));
            assert(dv.take(i as int).map_values(f) =~= dv.take(i as int - 1).map_values(f).push(
                f(dv[i as int - 1]),
            ));
            assert(old(s)@.meteostations_sensors + dv.take(i as int).map_values(f) =~= pre.push(
                f(dv[i as int - 1]),
            ));
            assert(s@ =~= spec_insert_bindings(old(s)@, dv.take(i as int), now as int));
        }
    }
    proof {
        assert(dv.take(dv.len() as int) =~= dv);
        assert(s@ =~= spec_insert_bindings(old(s)@, dv, now as int));
    }
    Ok(())
}

/// Creates the requested bindings, reading the clock for entries without an
/// installation time; some reading of the clock governs the whole batch.
pub fn insert_meteostation_sensors(s: &mut Store, item: &MeteostationSensorCreateRequest) -> (r:
    Result<(), StoreError>)
    requires
        old(s).wf(),
    ensures
        final(s).wf(),
        r == Ok::<(), StoreError>(()),
        exists|now: int| final(s)@ == spec_insert_bindings(old(s)@, item@, now),
{
    let now = current_unix_time();
    let r = insert_meteostation_sensors_at(s, item, now);
    proof {
        assert(s@ == spec_insert_bindings(old(s)@, item@, now as int));
    }
    r
}

/// Stamps every binding of this inventory number with the removal time;
/// already-removed and unknown inventory numbers are no errors.
pub fn remove_meteostation_sensor_at(s: &mut Store, number: &String, removed_ts: i64) -> (r: Result<
    (),
    StoreError,
>)
    requires
        old(s).wf(),
    ensures
        final(s).wf(),
        r == Ok::<(), StoreError>(()),
        final(s)@ == spec_remove_binding(old(s)@, number@, removed_ts as int),
{
    let ghost dv = s@.meteostations_sensors;
    let ghost f = remove_stamp_at(number@, removed_ts as int);
    let mut rows: Vec<MeteostationSensor> = Vec::new();
    let mut i: usize = 0;
    while i < s.meteostations_sensors.len()
        invariant
            i <= s.meteostations_sensors.len(),
            dv == s@.meteostations_sensors,
            dv.len() == s.meteostations_sensors.len(),
            rows.len() == i,
            f == remove_stamp_at(number@, removed_ts as int),
            rows.deep_view() =~= dv.take(i as int).map_values(f),
        decreases s.meteostations_sensors.len() - i,
    {
        let row = &s.meteostations_sensors[i];
        let new_row = if row.inventory_number == *number {
            MeteostationSensor {
                inventory_number: row.inventory_number.clone(),
                station_id: row.station_id,
                sensor_id: row.sensor_id,
                added_ts: row.added_ts,
                removed_ts: Some(removed_ts),
            }
        } else {
            row.duplicate()
        };
        proof {
            assert(new_row@ == f(dv[i as int]));
        }
        rows.push(new_row);
        i += 1;
        proof {
            assert(dv.take(i as int).map_values(f) =~= dv.take(i as int - 1).map_values(f).push(
                f(dv[i as int - 1]),
            ));
            assert(rows.deep_view() =~= dv.take(i as int).map_values(f));
        }
    }
    s.meteostations_sensors = rows;
    proof {
        assert(dv.take(dv.len() as int) =~= dv);
        assert(s@ =~= spec_remove_binding(old(s)@, number@, removed_ts as int));
    }
    Ok(())
}

/// Stamps every binding of this inventory number with the given removal
/// time, or with the current time when none is given.
pub fn remove_meteostation_sensor(
    s: &mut Store,
    number: String,
    item: &MeteostationSensorRemove,
) -> (r: Result<(), StoreError>)
    requires
        old(s).wf(),
    ensures
        final(s).wf(),
        r == Ok::<(), StoreError>(()),
        match item@ {
            Some(t) => final(s)@ == spec_remove_binding(old(s)@, number@, t),
            None => exists|now: int| final(s)@ == spec_remove_binding(old(s)@, number@, now),
        },
{
    let removed_ts = match item.removed_ts {
        Some(t) => t,
        None => current_unix_time(),
    };
    let r = remove_meteostation_sensor_at(s, &number, removed_ts);
    proof {
        assert(s@ == spec_remove_binding(old(s)@, number@, removed_ts as int));
    }
    r
}

} // verus!
