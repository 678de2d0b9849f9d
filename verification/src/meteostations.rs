//! The station registry: weather stations, their coalescing updates, the
//! guarded delete, and the listing of all sensors ever bound to a station.

use vstd::prelude::*;

use crate::models::{
    Meteostation, MeteostationRequest, MeteostationRequestV, MeteostationSensorV,
    MeteostationUpdate, MeteostationUpdateV, MeteostationV, Sensor, SensorV, StoreError,
};
use crate::store::{
    find_station, lemma_filter_keeps_increasing, lemma_filter_keeps_keys_below,
    lemma_filter_take_succ, lemma_seq_find_first, lemma_seq_find_none, sensor_key, seq_find,
    station_key, station_referenced, station_with_id, strictly_increasing_by, Store, StoreV,
};

verus! {

// ---------------------------------------------------------------------------
// Transitions
// ---------------------------------------------------------------------------

/// The row a create request stores, under the next station id.
pub open spec fn spec_insert_station_row(s: StoreV, req: MeteostationRequestV) -> MeteostationV {
    MeteostationV {
        id: s.next_station_id,
        name: req.name,
        longitude: req.longitude,
        latitude: req.latitude,
    }
}

/// The store after a create: the new station appended, the next id advanced.
pub open spec fn spec_insert_station(s: StoreV, req: MeteostationRequestV) -> StoreV {
    StoreV {
        meteostations: s.meteostations.push(spec_insert_station_row(s, req)),
        next_station_id: s.next_station_id + 1,
        ..s
    }
}

/// A station after a coalescing update: a given field replaces, an absent one
/// leaves the stored value.
pub open spec fn coalesce_station(t: MeteostationV, u: MeteostationUpdateV) -> MeteostationV {
    MeteostationV {
        id: t.id,
        name: match u.name {
            Some(n) => n,
            None => t.name,
        },
        longitude: match u.longitude {
            Some(x) => x,
            None => t.longitude,
        },
        latitude: match u.latitude {
            Some(x) => x,
            None => t.latitude,
        },
    }
}

/// The update applied to the one station with the given id.
pub open spec fn station_coalesce_at(id: int, u: MeteostationUpdateV) -> spec_fn(
    MeteostationV,
) -> MeteostationV {
    |t: MeteostationV|
        if t.id == id {
            coalesce_station(t, u)
        } else {
            t
        }
}

/// The store after a coalescing update of one station.
pub open spec fn spec_update_station(s: StoreV, id: int, u: MeteostationUpdateV) -> StoreV {
    StoreV { meteostations: s.meteostations.map_values(station_coalesce_at(id, u)), ..s }
}

/// Keeps every station but the one with the given id.
pub open spec fn station_without_id(id: int) -> spec_fn(MeteostationV) -> bool {
    |t: MeteostationV| t.id != id
}

/// The store after deleting one station.
pub open spec fn spec_delete_station(s: StoreV, id: int) -> StoreV {
    StoreV { meteostations: s.meteostations.filter(station_without_id(id)), ..s }
}

/// Whether some binding ever attached this sensor to this station.
pub open spec fn sensor_on_station(bindings: Seq<MeteostationSensorV>, station_id: int) -> spec_fn(
    SensorV,
) -> bool {
    |sn: SensorV|
        exists|k: int|
            0 <= k < bindings.len() && bindings[k].sensor_id == sn.id && bindings[k].station_id
                == station_id
}

/// The distinct sensors ever bound to a station, in sensor-id order (the
/// sensor table is kept in id order).
pub open spec fn spec_station_sensors(s: StoreV, station_id: int) -> Seq<SensorV> {
    s.sensors.filter(sensor_on_station(s.meteostations_sensors, station_id))
}

// ---------------------------------------------------------------------------
// Lookup helpers
// ---------------------------------------------------------------------------

/// Index of the station with this id, if any.
fn station_index(stations: &Vec<Meteostation>, station_id: i32) -> (r: Option<usize>)
    ensures
        match r {
            Some(i) => i < stations.len() && seq_find(
                stations.deep_view(),
                station_with_id(station_id as int),
            ) == Some(stations.deep_view()[i as int]) && stations.deep_view()[i as int].id
                == station_id as int,
            None => seq_find(stations.deep_view(), station_with_id(station_id as int)) is None,
        },
{
    let ghost dv = stations.deep_view();
    let mut i: usize = 0;
    while i < stations.len()
        invariant
            i <= stations.len(),
            dv == stations.deep_view(),
            dv.len() == stations.len(),
            forall|j: int| 0 <= j < i ==> #[trigger] dv[j].id != station_id as int,
        decreases stations.len() - i,
    {
        if stations[i].id == station_id {
            proof {
                lemma_seq_find_first(dv, station_with_id(station_id as int), i as int);
            }
            return Some(i);
        }
        i += 1;
    }
    proof {
        lemma_seq_find_none(dv, station_with_id(station_id as int));
    }
    None
}

/// Whether some binding references this station.
fn station_in_use(s: &Store, station_id: i32) -> (r: bool)
    ensures
        r == station_referenced(s@, station_id as int),
{
    let mut i: usize = 0;
    while i < s.meteostations_sensors.len()
        invariant
            i <= s.meteostations_sensors.len(),
            s@.meteostations_sensors.len() == s.meteostations_sensors.len(),
            forall|j: int|
                0 <= j < i ==> #[trigger] s@.meteostations_sensors[j].station_id
                    != station_id as int,
        decreases s.meteostations_sensors.len() - i,
    {
        if s.meteostations_sensors[i].station_id == station_id {
            proof {
                assert(s@.meteostations_sensors[i as int].station_id == station_id as int);
            }
            return true;
        }
        i += 1;
    }
    false
}

/// Whether some binding attaches this sensor to this station.
fn sensor_bound_to_station(s: &Store, sensor_id: i32, station_id: i32) -> (r: bool)
    ensures
        r == exists|k: int|
            0 <= k < s@.meteostations_sensors.len() && s@.meteostations_sensors[k].sensor_id
                == sensor_id as int && s@.meteostations_sensors[k].station_id == station_id as int,
{
    let mut i: usize = 0;
    while i < s.meteostations_sensors.len()
        invariant
            i <= s.meteostations_sensors.len(),
            s@.meteostations_sensors.len() == s.meteostations_sensors.len(),
            forall|j: int|
                0 <= j < i ==> !(#[trigger] s@.meteostations_sensors[j].sensor_id
                    == sensor_id as int && s@.meteostations_sensors[j].station_id
                    == station_id as int),
        decreases s.meteostations_sensors.len() - i,
    {
        let b = &s.meteostations_sensors[i];
        if b.sensor_id == sensor_id && b.station_id == station_id {
            proof {
                assert(s@.meteostations_sensors[i as int].sensor_id == sensor_id as int
                    && s@.meteostations_sensors[i as int].station_id == station_id as int);
            }
            return true;
        }
        i += 1;
    }
    false
}

// ---------------------------------------------------------------------------
// Operations
// ---------------------------------------------------------------------------

/// Lists every station in stored order.
pub fn fetch_meteostations(s: &Store) -> (r: Result<Vec<Meteostation>, StoreError>)
    ensures
        r matches Ok(rows) && rows.deep_view() == s@.meteostations,
{
    let mut rows: Vec<Meteostation> = Vec::new();
    let mut i: usize = 0;
    while i < s.meteostations.len()
        invariant
            i <= s.meteostations.len(),
            rows.len() == i,
            s@.meteostations.len() == s.meteostations.len(),
            rows.deep_view() =~= s@.meteostations.take(i as int),
        decreases s.meteostations.len() - i,
    {
        rows.push(s.meteostations[i].duplicate());
        i += 1;
        proof {
            assert(rows.deep_view() =~= s@.meteostations.take(i as int));
        }
    }
    proof {
        assert(s@.meteostations.take(s.meteostations.len() as int) =~= s@.meteostations);
    }
    Ok(rows)
}

/// The station with this id; absent ids are reported, not invented.
pub fn fetch_meteostation(s: &Store, station_id: i32) -> (r: Result<Meteostation, StoreError>)
    ensures
        match find_station(s@, station_id as int) {
            Some(st) => r matches Ok(row) && row@ == st,
            None => r == Err::<Meteostation, StoreError>(StoreError::NotFound),
        },
{
    match station_index(&s.meteostations, station_id) {
        Some(i) => {
            let row = s.meteostations[i].duplicate();
            proof {
                assert(row@ == s@.meteostations[i as int]);
            }
            Ok(row)
        },
        None => Err(StoreError::NotFound),
    }
}

/// The distinct sensors ever bound to this station, in sensor-id order.
pub fn fetch_sensor_meteostation(s: &Store, station_id: i32) -> (r: Result<Vec<Sensor>, StoreError>)
    ensures
        r matches Ok(rows) && rows.deep_view() == spec_station_sensors(s@, station_id as int),
        s.wf() ==> (r matches Ok(rows) && strictly_increasing_by(rows.deep_view(), sensor_key())),
{
    let ghost dv = s@.sensors;
    let ghost p = sensor_on_station(s@.meteostations_sensors, station_id as int);
    let mut rows: Vec<Sensor> = Vec::new();
    let mut i: usize = 0;
    while i < s.sensors.len()
        invariant
            i <= s.sensors.len(),
            dv == s@.sensors,
            dv.len() == s.sensors.len(),
            p == sensor_on_station(s@.meteostations_sensors, station_id as int),
            rows.deep_view() =~= dv.take(i as int).filter(p),
        decreases s.sensors.len() - i,
    {
        let sensor = &s.sensors[i];
        if sensor_bound_to_station(s, sensor.id, station_id) {
            proof {
                assert(p(dv[i as int]));
            }
            rows.push(sensor.duplicate());
        } else {
            proof {
                assert(!p(dv[i as int]));
            }
        }
        i += 1;
        proof {
            lemma_filter_take_succ(dv, p, i as int - 1);
            assert(rows.deep_view() =~= dv.take(i as int).filter(p));
        }
    }
    proof {
        assert(dv.take(dv.len() as int) =~= dv);
        if s.wf() {
            lemma_filter_keeps_increasing(dv, p, sensor_key());
        }
    }
    Ok(rows)
}

/// Creates a station; the returned row carries the generated id and the
/// submitted name and coordinates.
pub fn insert_meteostation(s: &mut Store, station: &MeteostationRequest) -> (r: Result<
    Meteostation,
    StoreError,
>)
    requires
        old(s).wf(),
        old(s).next_station_id < i32::MAX,
    ensures
        final(s).wf(),
        final(s)@ == spec_insert_station(old(s)@, station@),
        r matches Ok(row) && row@ == spec_insert_station_row(old(s)@, station@),
{
    let row = Meteostation {
        id: s.next_station_id,
        name: station.name.clone(),
        longitude: station.longitude.clone(),
        latitude: station.latitude.clone(),
    };
    let copy = row.duplicate();
    s.meteostations.push(row);
    s.next_station_id = s.next_station_id + 1;
    proof {
        assert(s@ =~= spec_insert_station(old(s)@, station@));
        assert forall|i: int, j: int| 0 <= i < j < s@.meteostations.len() implies station_key()(
            s@.meteostations[i],
        ) < station_key()(s@.meteostations[j]) by {
            if j < s@.meteostations.len() - 1 {
                assert(old(s)@.meteostations[i] == s@.meteostations[i]);
            }
        }
        assert forall|i: int| 0 <= i < s@.meteostations.len() implies 1 <= station_key()(
            #[trigger] s@.meteostations[i],
        ) && station_key()(s@.meteostations[i]) < s@.next_station_id by {
            if i < s@.meteostations.len() - 1 {
                assert(old(s)@.meteostations[i] == s@.meteostations[i]);
            }
        }
    }
    Ok(copy)
}

/// Coalescing update of the station with this id; absent when the id is
/// unknown, and then nothing changes.
pub fn update_one_station(s: &mut Store, station_id: i32, station: &MeteostationUpdate) -> (r:
    Result<Meteostation, StoreError>)
    requires
        old(s).wf(),
    ensures
        final(s).wf(),
        match find_station(old(s)@, station_id as int) {
            None => r == Err::<Meteostation, StoreError>(StoreError::NotFound)
                && final(s)@ == old(s)@,
            Some(t) => final(s)@ == spec_update_station(old(s)@, station_id as int, station@) && (
            r matches Ok(row) && row@ == coalesce_station(t, station@)),
        },
{
    let idx = match station_index(&s.meteostations, station_id) {
        None => {
            return Err(StoreError::NotFound);
        },
        Some(i) => i,
    };
    let ghost dv = s@.meteostations;
    let ghost f = station_coalesce_at(station_id as int, station@);
    let mut rows: Vec<Meteostation> = Vec::new();
    let mut i: usize = 0;
    while i < s.meteostations.len()
        invariant
            i <= s.meteostations.len(),
            dv == s@.meteostations,
            dv.len() == s.meteostations.len(),
            rows.len() == i,
            f == station_coalesce_at(station_id as int, station@),
            rows.deep_view() =~= dv.take(i as int).map_values(f),
        decreases s.meteostations.len() - i,
    {
        let row = &s.meteostations[i];
        let new_row = if row.id == station_id {
            Meteostation {
                id: row.id,
                name: match &station.name {
                    Some(n) => n.clone(),
                    None => row.name.clone(),
                },
                longitude: match &station.longitude {
                    Some(x) => x.clone(),
                    None => row.longitude.clone(),
                },
                latitude: match &station.latitude {
                    Some(x) => x.clone(),
                    None => row.latitude.clone(),
                },
            }
        } else {
            row.duplicate()
        };
        proof {
            assert(new_row@ == f(dv[i as int]));
        }
        rows.push(new_row);
        i += 1;
        proof {
            assert(dv.take(i as int).map_values(f) =~= dv.take(i as int - 1).map_values(f).push(
                f(dv[i as int - 1]),
            ));
            assert(rows.deep_view() =~= dv.take(i as int).map_values(f));
        }
    }
    s.meteostations = rows;
    proof {
        assert(dv.take(dv.len() as int) =~= dv);
        assert(s@ =~= spec_update_station(old(s)@, station_id as int, station@));
        assert forall|a: int| 0 <= a < s@.meteostations.len() implies station_key()(
            #[trigger] s@.meteostations[a],
        ) == station_key()(dv[a]) by {
            assert(s@.meteostations[a] == f(dv[a]));
        }
        assert(s@.meteostations.len() == dv.len());
        assert(s@.meteostations[idx as int] == f(dv[idx as int]));
        assert(f(dv[idx as int]) == coalesce_station(dv[idx as int], station@));
    }
    let updated = s.meteostations[idx].duplicate();
    proof {
        assert(updated@ == s@.meteostations[idx as int]);
    }
    Ok(updated)
}

/// Deletes the station with this id, unless a binding still references it;
/// deleting an absent id succeeds and changes nothing.
pub fn delete_one_station(s: &mut Store, station_id: i32) -> (r: Result<(), StoreError>)
    requires
        old(s).wf(),
    ensures
        final(s).wf(),
        station_referenced(old(s)@, station_id as int) ==> r == Err::<(), StoreError>(
            StoreError::Conflict,
        ) && final(s)@ == old(s)@,
        !station_referenced(old(s)@, station_id as int) ==> r == Ok::<(), StoreError>(())
            && final(s)@ == spec_delete_station(old(s)@, station_id as int),
{
    if station_in_use(s, station_id) {
        return Err(StoreError::Conflict);
    }
    let ghost dv = s@.meteostations;
    let ghost p = station_without_id(station_id as int);
    let mut rows: Vec<Meteostation> = Vec::new();
    let mut i: usize = 0;
    while i < s.meteostations.len()
        invariant
            i <= s.meteostations.len(),
            dv == s@.meteostations,
            dv.len() == s.meteostations.len(),
            p == station_without_id(station_id as int),
            rows.deep_view() =~= dv.take(i as int).filter(p),
        decreases s.meteostations.len() - i,
    {
        let row = &s.meteostations[i];
        if row.id != station_id {
            rows.push(row.duplicate());
        }
        i += 1;
        proof {
            lemma_filter_take_succ(dv, p, i as int - 1);
            assert(rows.deep_view() =~= dv.take(i as int).filter(p));
        }
    }
    s.meteostations = rows;
    proof {
        assert(dv.take(dv.len() as int) =~= dv);
        assert(s@ =~= spec_delete_station(old(s)@, station_id as int));
        lemma_filter_keeps_increasing(dv, p, station_key());
        lemma_filter_keeps_keys_below(dv, p, station_key(), old(s)@.next_station_id);
    }
    Ok(())
}

} // verus!
