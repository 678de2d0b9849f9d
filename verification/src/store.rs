//! The store itself: one value holding every table of the registry, with its
//! well-formedness invariant, plus the generic first-match search that the
//! lookup operations and their proofs share.

use vstd::prelude::*;

use crate::models::{
    Measurement, MeasurementType, MeasurementTypeV, MeasurementV, Meteostation, MeteostationSensor,
    MeteostationSensorV, MeteostationV, Sensor, SensorMeasurement, SensorMeasurementV, SensorV,
};

verus! {

// ---------------------------------------------------------------------------
// Generic first-match search over a sequence
// ---------------------------------------------------------------------------

/// The first element of `s` satisfying `p`, if any.
pub open spec fn seq_find<T>(s: Seq<T>, p: spec_fn(T) -> bool) -> Option<T>
    decreases s.len(),
{
    if s.len() == 0 {
        None
    } else if p(s[0]) {
        Some(s[0])
    } else {
        seq_find(s.drop_first(), p)
    }
}

/// `seq_find` misses exactly when no element matches.
pub proof fn lemma_seq_find_none<T>(s: Seq<T>, p: spec_fn(T) -> bool)
    ensures
        seq_find(s, p) is None <==> (forall|i: int| 0 <= i < s.len() ==> !p(s[i])),
    decreases s.len(),
{
    if s.len() > 0 && !p(s[0]) {
        lemma_seq_find_none(s.drop_first(), p);
        assert forall|i: int| 0 <= i < s.len() && seq_find(s, p) is None implies !p(s[i]) by {
            if i > 0 {
                assert(s.drop_first()[i - 1] == s[i]);
            }
        }
        if forall|i: int| 0 <= i < s.len() ==> !p(s[i]) {
            assert forall|i: int| 0 <= i < s.drop_first().len() implies !p(
                #[trigger] s.drop_first()[i],
            ) by {
                assert(s.drop_first()[i] == s[i + 1]);
            }
        }
    }
}

/// `seq_find` returns the match at the least index.
pub proof fn lemma_seq_find_first<T>(s: Seq<T>, p: spec_fn(T) -> bool, i: int)
    requires
        0 <= i < s.len(),
        p(s[i]),
        forall|j: int| 0 <= j < i ==> !p(s[j]),
    ensures
        seq_find(s, p) == Some(s[i]),
    decreases i,
{
    if i > 0 {
        assert(!p(s[0]));
        lemma_seq_find_first(s.drop_first(), p, i - 1);
        assert(s.drop_first()[i - 1] == s[i]);
        assert forall|j: int| 0 <= j < i - 1 implies !p(#[trigger] s.drop_first()[j]) by {
            assert(s.drop_first()[j] == s[j + 1]);
        }
    }
}

/// Appending to a sequence extends its first match on the right.
pub proof fn lemma_seq_find_push<T>(s: Seq<T>, p: spec_fn(T) -> bool, x: T)
    ensures
        seq_find(s.push(x), p) == (match seq_find(s, p) {
            Some(y) => Some(y),
            None => if p(x) {
                Some(x)
            } else {
                None
            },
        }),
    decreases s.len(),
{
    if s.len() == 0 {
        assert(seq_find(s, p) is None);
        assert(s.push(x)[0] == x);
        assert(s.push(x).drop_first() =~= Seq::<T>::empty());
        if !p(x) {
            assert(seq_find(s.push(x).drop_first(), p) is None);
        }
    } else {
        assert(s.push(x)[0] == s[0]);
        if !p(s[0]) {
            lemma_seq_find_push(s.drop_first(), p, x);
            assert(s.push(x).drop_first() =~= s.drop_first().push(x));
        }
    }
}

// ---------------------------------------------------------------------------
// Filtering a sequence, one element at a time
// ---------------------------------------------------------------------------

/// Filtering one element keeps or drops just that element.
pub proof fn lemma_filter_singleton<T>(x: T, p: spec_fn(T) -> bool)
    ensures
        seq![x].filter(p) == (if p(x) {
            seq![x]
        } else {
            Seq::<T>::empty()
        }),
{
    reveal_with_fuel(Seq::filter, 2);
    assert(seq![x].drop_last() =~= Seq::<T>::empty());
    if p(x) {
        assert(seq![x].filter(p) =~= seq![x]);
    } else {
        assert(seq![x].filter(p) =~= Seq::<T>::empty());
    }
}

/// Extending the filtered prefix by one input element.
pub proof fn lemma_filter_take_succ<T>(s: Seq<T>, p: spec_fn(T) -> bool, i: int)
    requires
        0 <= i < s.len(),
    ensures
        s.take(i + 1).filter(p) == s.take(i).filter(p) + (if p(s[i]) {
            seq![s[i]]
        } else {
            Seq::<T>::empty()
        }),
{
    assert(s.take(i + 1) =~= s.take(i) + seq![s[i]]);
    Seq::filter_distributes_over_add(s.take(i), seq![s[i]], p);
    lemma_filter_singleton(s[i], p);
    if !p(s[i]) {
        assert(s.take(i).filter(p) + Seq::<T>::empty() =~= s.take(i).filter(p));
    }
}

/// Filtering with a predicate no element satisfies leaves nothing.
pub proof fn lemma_filter_none<T>(s: Seq<T>, p: spec_fn(T) -> bool)
    requires
        forall|i: int| 0 <= i < s.len() ==> !p(#[trigger] s[i]),
    ensures
        s.filter(p) == Seq::<T>::empty(),
    decreases s.len(),
{
    reveal(Seq::filter);
    if s.len() > 0 {
        assert(!p(s.last()));
        lemma_filter_none(s.drop_last(), p);
    }
}

/// Filtering with a predicate every element satisfies keeps everything.
pub proof fn lemma_filter_all<T>(s: Seq<T>, p: spec_fn(T) -> bool)
    requires
        forall|i: int| 0 <= i < s.len() ==> p(#[trigger] s[i]),
    ensures
        s.filter(p) == s,
    decreases s.len(),
{
    reveal(Seq::filter);
    if s.len() == 0 {
        assert(s.filter(p) =~= s);
    } else {
        assert(p(s.last()));
        lemma_filter_all(s.drop_last(), p);
        assert(s.filter(p) =~= s);
    }
}

/// A filter by `q` is unchanged by an earlier filter by a weaker `p`.
pub proof fn lemma_filter_subsume<T>(s: Seq<T>, p: spec_fn(T) -> bool, q: spec_fn(T) -> bool)
    requires
        forall|x: T| #[trigger] q(x) ==> p(x),
    ensures
        s.filter(p).filter(q) == s.filter(q),
    decreases s.len(),
{
    reveal(Seq::filter);
    if s.len() > 0 {
        lemma_filter_subsume(s.drop_last(), p, q);
        if p(s.last()) {
            assert(s.filter(p) == s.drop_last().filter(p).push(s.last()));
            assert(s.filter(p).drop_last() == s.drop_last().filter(p));
            assert(s.filter(p).last() == s.last());
        } else {
            assert(!q(s.last()));
        }
    }
}

/// Filtering keeps a strictly increasing key strictly increasing.
pub proof fn lemma_filter_keeps_increasing<T>(s: Seq<T>, p: spec_fn(T) -> bool, key: spec_fn(T) -> int)
    requires
        strictly_increasing_by(s, key),
    ensures
        strictly_increasing_by(s.filter(p), key),
    decreases s.len(),
{
    reveal(Seq::filter);
    if s.len() > 0 {
        let rest = s.drop_last();
        assert(strictly_increasing_by(rest, key));
        lemma_filter_keeps_increasing(rest, p, key);
        if p(s.last()) {
            let f = rest.filter(p);
            let g = f.push(s.last());
            assert forall|i: int, j: int| 0 <= i < j < g.len() implies key(g[i]) < key(g[j]) by {
                if j == g.len() - 1 {
                    assert(f.contains(f[i]));
                    rest.lemma_filter_contains_rev(p, f[i]);
                    let k = choose|k: int| 0 <= k < rest.len() && rest[k] == f[i];
                    assert(s[k] == f[i]);
                    assert(key(s[k]) < key(s[s.len() - 1]));
                }
            }
        }
    }
}

/// Filtering keeps every key inside its bound.
pub proof fn lemma_filter_keeps_keys_below<T>(
    s: Seq<T>,
    p: spec_fn(T) -> bool,
    key: spec_fn(T) -> int,
    bound: int,
)
    requires
        keys_below(s, key, bound),
    ensures
        keys_below(s.filter(p), key, bound),
{
    let f = s.filter(p);
    assert forall|i: int| 0 <= i < f.len() implies 1 <= key(#[trigger] f[i]) && key(f[i])
        < bound by {
        assert(f.contains(f[i]));
        s.lemma_filter_contains_rev(p, f[i]);
        let k = choose|k: int| 0 <= k < s.len() && s[k] == f[i];
        assert(1 <= key(s[k]) && key(s[k]) < bound);
    }
}

// ---------------------------------------------------------------------------
// Keyed tables
// ---------------------------------------------------------------------------

/// Holds when `key` is strictly increasing along `s`; the generated ids of a
/// table are, so each id appears at most once.
pub open spec fn strictly_increasing_by<T>(s: Seq<T>, key: spec_fn(T) -> int) -> bool {
    forall|i: int, j: int| 0 <= i < j < s.len() ==> key(s[i]) < key(s[j])
}

/// Holds when every key along `s` lies in `1 ..= bound`.
pub open spec fn keys_below<T>(s: Seq<T>, key: spec_fn(T) -> int, bound: int) -> bool {
    forall|i: int| 0 <= i < s.len() ==> 1 <= key(#[trigger] s[i]) && key(s[i]) < bound
}

/// The id of a measurement type, as a key function.
pub open spec fn type_key() -> spec_fn(MeasurementTypeV) -> int {
    |t: MeasurementTypeV| t.id
}

/// The id of a station, as a key function.
pub open spec fn station_key() -> spec_fn(MeteostationV) -> int {
    |t: MeteostationV| t.id
}

/// The id of a sensor, as a key function.
pub open spec fn sensor_key() -> spec_fn(SensorV) -> int {
    |t: SensorV| t.id
}

/// Matches a measurement type by id.
pub open spec fn type_with_id(id: int) -> spec_fn(MeasurementTypeV) -> bool {
    |t: MeasurementTypeV| t.id == id
}

/// Matches a station by id.
pub open spec fn station_with_id(id: int) -> spec_fn(MeteostationV) -> bool {
    |t: MeteostationV| t.id == id
}

/// Matches a sensor by id.
pub open spec fn sensor_with_id(id: int) -> spec_fn(SensorV) -> bool {
    |t: SensorV| t.id == id
}

/// The measurement type of the catalog with this id, if any.
pub open spec fn find_type(s: StoreV, id: int) -> Option<MeasurementTypeV> {
    seq_find(s.measurement_types, type_with_id(id))
}

/// The station with this id, if any.
pub open spec fn find_station(s: StoreV, id: int) -> Option<MeteostationV> {
    seq_find(s.meteostations, station_with_id(id))
}

/// The sensor with this id, if any.
pub open spec fn find_sensor(s: StoreV, id: int) -> Option<SensorV> {
    seq_find(s.sensors, sensor_with_id(id))
}

// ---------------------------------------------------------------------------
// Referential guards
// ---------------------------------------------------------------------------

/// Some sensor-to-type binding references this measurement type.
pub open spec fn type_referenced(s: StoreV, id: int) -> bool {
    exists|k: int|
        0 <= k < s.sensors_measurements.len() && s.sensors_measurements[k].type_id == id
}

/// Some station-to-sensor binding references this station.
pub open spec fn station_referenced(s: StoreV, id: int) -> bool {
    exists|k: int|
        0 <= k < s.meteostations_sensors.len() && s.meteostations_sensors[k].station_id == id
}

/// Some station-to-sensor binding references this sensor.
pub open spec fn sensor_referenced(s: StoreV, id: int) -> bool {
    exists|k: int|
        0 <= k < s.meteostations_sensors.len() && s.meteostations_sensors[k].sensor_id == id
}

// ---------------------------------------------------------------------------
// The store
// ---------------------------------------------------------------------------

/// Mathematical state of the whole registry: the six tables and the next id
/// each id-generating table will assign.
#[verifier::ext_equal]
pub ghost struct StoreV {
    pub measurement_types: Seq<MeasurementTypeV>,
    pub meteostations: Seq<MeteostationV>,
    pub sensors: Seq<SensorV>,
    pub sensors_measurements: Seq<SensorMeasurementV>,
    pub meteostations_sensors: Seq<MeteostationSensorV>,
    pub measurements: Seq<MeasurementV>,
    pub next_type_id: int,
    pub next_station_id: int,
    pub next_sensor_id: int,
}

impl StoreV {
    /// Well-formedness: generated ids grow along each entity table (so ids
    /// are unique) and stay below the table's next id.
    pub open spec fn wf(self) -> bool {
        &&& strictly_increasing_by(self.measurement_types, type_key())
        &&& keys_below(self.measurement_types, type_key(), self.next_type_id)
        &&& strictly_increasing_by(self.meteostations, station_key())
        &&& keys_below(self.meteostations, station_key(), self.next_station_id)
        &&& strictly_increasing_by(self.sensors, sensor_key())
        &&& keys_below(self.sensors, sensor_key(), self.next_sensor_id)
        &&& 1 <= self.next_type_id <= i32::MAX as int + 1
        &&& 1 <= self.next_station_id <= i32::MAX as int + 1
        &&& 1 <= self.next_sensor_id <= i32::MAX as int + 1
    }
}

/// The state of a store that holds nothing yet.
pub open spec fn initial_store() -> StoreV {
    StoreV {
        measurement_types: Seq::empty(),
        meteostations: Seq::empty(),
        sensors: Seq::empty(),
        sensors_measurements: Seq::empty(),
        meteostations_sensors: Seq::empty(),
        measurements: Seq::empty(),
        next_type_id: 1,
        next_station_id: 1,
        next_sensor_id: 1,
    }
}

/// The relational state of the registry: every table the operations read and
/// write, together with the id each entity table assigns next.
pub struct Store {
    pub measurement_types: Vec<MeasurementType>,
    pub meteostations: Vec<Meteostation>,
    pub sensors: Vec<Sensor>,
    pub sensors_measurements: Vec<SensorMeasurement>,
    pub meteostations_sensors: Vec<MeteostationSensor>,
    pub measurements: Vec<Measurement>,
    pub next_type_id: i32,
    pub next_station_id: i32,
    pub next_sensor_id: i32,
}

impl View for Store {
    type V = StoreV;

    open spec fn view(&self) -> StoreV {
        StoreV {
            measurement_types: self.measurement_types.deep_view(),
            meteostations: self.meteostations.deep_view(),
            sensors: self.sensors.deep_view(),
            sensors_measurements: self.sensors_measurements.deep_view(),
            meteostations_sensors: self.meteostations_sensors.deep_view(),
            measurements: self.measurements.deep_view(),
            next_type_id: self.next_type_id as int,
            next_station_id: self.next_station_id as int,
            next_sensor_id: self.next_sensor_id as int,
        }
    }
}

impl Store {
    /// Well-formedness of the store is that of its mathematical state.
    pub open spec fn wf(&self) -> bool {
        self@.wf()
    }

    /// Creates an empty store.
    pub fn new() -> (s: Store)
        ensures
            s.wf(),
            s@ == initial_store(),
    {
        let s = Store {
            measurement_types: Vec::new(),
            meteostations: Vec::new(),
            sensors: Vec::new(),
            sensors_measurements: Vec::new(),
            meteostations_sensors: Vec::new(),
            measurements: Vec::new(),
            next_type_id: 1,
            next_station_id: 1,
            next_sensor_id: 1,
        };
        proof {
            assert(s@ =~= initial_store());
        }
        s
    }
}

} // verus!
