//! Record and request/response types, together with their mathematical views.
//!
//! Every executable type has a ghost counterpart (the `...V` structs) over
//! `int`, `Seq<char>` and `Option`, reached through `View`/`DeepView`; all
//! contracts in this crate are stated over those views. Decimal quantities
//! (coordinates, measured values) are carried as their literal decimal text,
//! and timestamps as seconds of Unix time.

use vstd::prelude::*;

verus! {

/// Why a store operation was refused: the key was absent, or a referential
/// guard found dependent rows.
#[derive(Clone, Copy, Debug, PartialEq, Eq, Structural)]
pub enum StoreError {
    NotFound,
    Conflict,
}

// ---------------------------------------------------------------------------
// Stored rows
// ---------------------------------------------------------------------------

/// A sensor definition (a model of sensor, not a physical unit).
#[derive(Clone, Debug, PartialEq)]
pub struct Sensor {
    pub id: i32,
    pub name: String,
}

#[verifier::ext_equal]
pub ghost struct SensorV {
    pub id: int,
    pub name: Seq<char>,
}

impl View for Sensor {
    type V = SensorV;

    open spec fn view(&self) -> SensorV {
        SensorV { id: self.id as int, name: self.name@ }
    }
}

impl DeepView for Sensor {
    type V = SensorV;

    open spec fn deep_view(&self) -> SensorV {
        self.view()
    }
}

/// A measurable quantity in the catalog.
#[derive(Clone, Debug, PartialEq)]
pub struct MeasurementType {
    pub id: i32,
    pub name: String,
    pub units: String,
}

#[verifier::ext_equal]
pub ghost struct MeasurementTypeV {
    pub id: int,
    pub name: Seq<char>,
    pub units: Seq<char>,
}

impl View for MeasurementType {
    type V = MeasurementTypeV;

    open spec fn view(&self) -> MeasurementTypeV {
        MeasurementTypeV { id: self.id as int, name: self.name@, units: self.units@ }
    }
}

impl DeepView for MeasurementType {
    type V = MeasurementTypeV;

    open spec fn deep_view(&self) -> MeasurementTypeV {
        self.view()
    }
}

/// A weather station; coordinates are decimal text.
#[derive(Clone, Debug, PartialEq)]
pub struct Meteostation {
    pub id: i32,
    pub name: String,
    pub longitude: String,
    pub latitude: String,
}

#[verifier::ext_equal]
pub ghost struct MeteostationV {
    pub id: int,
    pub name: Seq<char>,
    pub longitude: Seq<char>,
    pub latitude: Seq<char>,
}

impl View for Meteostation {
    type V = MeteostationV;

    open spec fn view(&self) -> MeteostationV {
        MeteostationV {
            id: self.id as int,
            name: self.name@,
            longitude: self.longitude@,
            latitude: self.latitude@,
        }
    }
}

impl DeepView for Meteostation {
    type V = MeteostationV;

    open spec fn deep_view(&self) -> MeteostationV {
        self.view()
    }
}

/// A sensor-to-measurement-type binding with its optional transform formula.
#[derive(Clone, Debug, PartialEq)]
pub struct SensorMeasurement {
    pub sensor_id: i32,
    pub type_id: i32,
    pub measurement_formula: Option<String>,
}

#[verifier::ext_equal]
pub ghost struct SensorMeasurementV {
    pub sensor_id: int,
    pub type_id: int,
    pub measurement_formula: Option<Seq<char>>,
}

impl View for SensorMeasurement {
    type V = SensorMeasurementV;

    open spec fn view(&self) -> SensorMeasurementV {
        SensorMeasurementV {
            sensor_id: self.sensor_id as int,
            type_id: self.type_id as int,
            measurement_formula: self.measurement_formula.deep_view(),
        }
    }
}

impl DeepView for SensorMeasurement {
    type V = SensorMeasurementV;

    open spec fn deep_view(&self) -> SensorMeasurementV {
        self.view()
    }
}

/// A station-to-sensor binding: one physical unit, named by its inventory
/// number, installed at a station from `added_ts` until `removed_ts`.
#[derive(Clone, Debug, PartialEq)]
pub struct MeteostationSensor {
    pub inventory_number: String,
    pub station_id: i32,
    pub sensor_id: i32,
    pub added_ts: i64,
    pub removed_ts: Option<i64>,
}

#[verifier::ext_equal]
pub ghost struct MeteostationSensorV {
    pub inventory_number: Seq<char>,
    pub station_id: int,
    pub sensor_id: int,
    pub added_ts: int,
    pub removed_ts: Option<int>,
}

impl View for MeteostationSensor {
    type V = MeteostationSensorV;

    open spec fn view(&self) -> MeteostationSensorV {
        MeteostationSensorV {
            inventory_number: self.inventory_number@,
            station_id: self.station_id as int,
            sensor_id: self.sensor_id as int,
            added_ts: self.added_ts as int,
            removed_ts: match self.removed_ts {
                Some(t) => Some(t as int),
                None => None,
            },
        }
    }
}

impl DeepView for MeteostationSensor {
    type V = MeteostationSensorV;

    open spec fn deep_view(&self) -> MeteostationSensorV {
        self.view()
    }
}

/// One reading: a decimal value for an inventory number at a timestamp,
/// optionally tagged with the measurement type it reports.
#[derive(Clone, Debug, PartialEq)]
pub struct Measurement {
    pub sensor_inventory_number: String,
    pub value: String,
    pub ts: i64,
    pub type_id: Option<i32>,
}

#[verifier::ext_equal]
pub ghost struct MeasurementV {
    pub sensor_inventory_number: Seq<char>,
    pub value: Seq<char>,
    pub ts: int,
    pub type_id: Option<int>,
}

impl View for Measurement {
    type V = MeasurementV;

    open spec fn view(&self) -> MeasurementV {
        MeasurementV {
            sensor_inventory_number: self.sensor_inventory_number@,
            value: self.value@,
            ts: self.ts as int,
            type_id: match self.type_id {
                Some(t) => Some(t as int),
                None => None,
            },
        }
    }
}

impl DeepView for Measurement {
    type V = MeasurementV;

    open spec fn deep_view(&self) -> MeasurementV {
        self.view()
    }
}

// ---------------------------------------------------------------------------
// Requests
// ---------------------------------------------------------------------------

/// Payload for creating a station.
#[derive(Clone, Debug, PartialEq)]
pub struct MeteostationRequest {
    pub name: String,
    pub longitude: String,
    pub latitude: String,
}

#[verifier::ext_equal]
pub ghost struct MeteostationRequestV {
    pub name: Seq<char>,
    pub longitude: Seq<char>,
    pub latitude: Seq<char>,
}

impl View for MeteostationRequest {
    type V = MeteostationRequestV;

    open spec fn view(&self) -> MeteostationRequestV {
        MeteostationRequestV {
            name: self.name@,
            longitude: self.longitude@,
            latitude: self.latitude@,
        }
    }
}

impl DeepView for MeteostationRequest {
    type V = MeteostationRequestV;

    open spec fn deep_view(&self) -> MeteostationRequestV {
        self.view()
    }
}

/// Partial station update: an absent field leaves the stored value unchanged.
#[derive(Clone, Debug, PartialEq)]
pub struct MeteostationUpdate {
    pub name: Option<String>,
    pub longitude: Option<String>,
    pub latitude: Option<String>,
}

#[verifier::ext_equal]
pub ghost struct MeteostationUpdateV {
    pub name: Option<Seq<char>>,
    pub longitude: Option<Seq<char>>,
    pub latitude: Option<Seq<char>>,
}

impl View for MeteostationUpdate {
    type V = MeteostationUpdateV;

    open spec fn view(&self) -> MeteostationUpdateV {
        MeteostationUpdateV {
            name: self.name.deep_view(),
            longitude: self.longitude.deep_view(),
            latitude: self.latitude.deep_view(),
        }
    }
}

impl DeepView for MeteostationUpdate {
    type V = MeteostationUpdateV;

    open spec fn deep_view(&self) -> MeteostationUpdateV {
        self.view()
    }
}

/// Payload for creating a measurement type.
#[derive(Clone, Debug, PartialEq)]
pub struct MeasurementTypeRequest {
    pub name: String,
    pub units: String,
}

#[verifier::ext_equal]
pub ghost struct MeasurementTypeRequestV {
    pub name: Seq<char>,
    pub units: Seq<char>,
}

impl View for MeasurementTypeRequest {
    type V = MeasurementTypeRequestV;

    open spec fn view(&self) -> MeasurementTypeRequestV {
        MeasurementTypeRequestV { name: self.name@, units: self.units@ }
    }
}

impl DeepView for MeasurementTypeRequest {
    type V = MeasurementTypeRequestV;

    open spec fn deep_view(&self) -> MeasurementTypeRequestV {
        self.view()
    }
}

/// Partial measurement-type update with the same coalescing rule as
/// [`MeteostationUpdate`].
#[derive(Clone, Debug, PartialEq)]
pub struct MeasurementTypeUpdate {
    pub name: Option<String>,
    pub units: Option<String>,
}

#[verifier::ext_equal]
pub ghost struct MeasurementTypeUpdateV {
    pub name: Option<Seq<char>>,
    pub units: Option<Seq<char>>,
}

impl View for MeasurementTypeUpdate {
    type V = MeasurementTypeUpdateV;

    open spec fn view(&self) -> MeasurementTypeUpdateV {
        MeasurementTypeUpdateV { name: self.name.deep_view(), units: self.units.deep_view() }
    }
}

impl DeepView for MeasurementTypeUpdate {
    type V = MeasurementTypeUpdateV;

    open spec fn deep_view(&self) -> MeasurementTypeUpdateV {
        self.view()
    }
}

/// One requested sensor-to-type binding inside a sensor create or update.
#[derive(Clone, Debug, PartialEq)]
pub struct NewSensorMeasurementRequest {
    pub type_id: i32,
    pub type_formula: Option<String>,
}

#[verifier::ext_equal]
pub ghost struct NewSensorMeasurementRequestV {
    pub type_id: int,
    pub type_formula: Option<Seq<char>>,
}

impl View for NewSensorMeasurementRequest {
    type V = NewSensorMeasurementRequestV;

    open spec fn view(&self) -> NewSensorMeasurementRequestV {
        NewSensorMeasurementRequestV {
            type_id: self.type_id as int,
            type_formula: self.type_formula.deep_view(),
        }
    }
}

impl DeepView for NewSensorMeasurementRequest {
    type V = NewSensorMeasurementRequestV;

    open spec fn deep_view(&self) -> NewSensorMeasurementRequestV {
        self.view()
    }
}

/// Payload for creating a sensor, or for replacing one wholesale.
#[derive(Clone, Debug, PartialEq)]
pub struct SensorRequest {
    pub sensor_name: String,
    pub sensors_measurements: Vec<NewSensorMeasurementRequest>,
}

#[verifier::ext_equal]
pub ghost struct SensorRequestV {
    pub sensor_name: Seq<char>,
    pub sensors_measurements: Seq<NewSensorMeasurementRequestV>,
}

impl View for SensorRequest {
    type V = SensorRequestV;

    open spec fn view(&self) -> SensorRequestV {
        SensorRequestV {
            sensor_name: self.sensor_name@,
            sensors_measurements: self.sensors_measurements.deep_view(),
        }
    }
}

impl DeepView for SensorRequest {
    type V = SensorRequestV;

    open spec fn deep_view(&self) -> SensorRequestV {
        self.view()
    }
}

/// One requested binding for adding types to an existing sensor.
#[derive(Clone, Debug, PartialEq)]
pub struct SensorMeasurementCreate {
    pub type_id: i32,
    pub measurement_formula: Option<String>,
}

#[verifier::ext_equal]
pub ghost struct SensorMeasurementCreateV {
    pub type_id: int,
    pub measurement_formula: Option<Seq<char>>,
}

impl View for SensorMeasurementCreate {
    type V = SensorMeasurementCreateV;

    open spec fn view(&self) -> SensorMeasurementCreateV {
        SensorMeasurementCreateV {
            type_id: self.type_id as int,
            measurement_formula: self.measurement_formula.deep_view(),
        }
    }
}

impl DeepView for SensorMeasurementCreate {
    type V = SensorMeasurementCreateV;

    open spec fn deep_view(&self) -> SensorMeasurementCreateV {
        self.view()
    }
}

/// Batch of bindings to add to one sensor.
#[derive(Clone, Debug, PartialEq)]
pub struct SensorMeasurementRequest {
    pub sensors_measurements: Vec<SensorMeasurementCreate>,
}

impl View for SensorMeasurementRequest {
    type V = Seq<SensorMeasurementCreateV>;

    open spec fn view(&self) -> Seq<SensorMeasurementCreateV> {
        self.sensors_measurements.deep_view()
    }
}

impl DeepView for SensorMeasurementRequest {
    type V = Seq<SensorMeasurementCreateV>;

    open spec fn deep_view(&self) -> Seq<SensorMeasurementCreateV> {
        self.view()
    }
}

/// Type ids whose bindings to one sensor are to be removed.
#[derive(Clone, Debug, PartialEq)]
pub struct SensorMeasurementsDelete {
    pub measurements_type: Vec<i32>,
}

impl View for SensorMeasurementsDelete {
    type V = Seq<i32>;

    open spec fn view(&self) -> Seq<i32> {
        self.measurements_type@
    }
}

impl DeepView for SensorMeasurementsDelete {
    type V = Seq<i32>;

    open spec fn deep_view(&self) -> Seq<i32> {
        self.view()
    }
}

/// One station-to-sensor binding to create; an absent `added_ts` defaults to
/// the current time.
#[derive(Clone, Debug, PartialEq)]
pub struct MeteostationSensorCreate {
    pub inventory_number: String,
    pub station_id: i32,
    pub sensor_id: i32,
    pub added_ts: Option<i64>,
}

#[verifier::ext_equal]
pub ghost struct MeteostationSensorCreateV {
    pub inventory_number: Seq<char>,
    pub station_id: int,
    pub sensor_id: int,
    pub added_ts: Option<int>,
}

impl View for MeteostationSensorCreate {
    type V = MeteostationSensorCreateV;

    open spec fn view(&self) -> MeteostationSensorCreateV {
        MeteostationSensorCreateV {
            inventory_number: self.inventory_number@,
            station_id: self.station_id as int,
            sensor_id: self.sensor_id as int,
            added_ts: match self.added_ts {
                Some(t) => Some(t as int),
                None => None,
            },
        }
    }
}

impl DeepView for MeteostationSensorCreate {
    type V = MeteostationSensorCreateV;

    open spec fn deep_view(&self) -> MeteostationSensorCreateV {
        self.view()
    }
}

/// Batch of station-to-sensor bindings to create.
#[derive(Clone, Debug, PartialEq)]
pub struct MeteostationSensorCreateRequest {
    pub meteostations_sensors: Vec<MeteostationSensorCreate>,
}

impl View for MeteostationSensorCreateRequest {
    type V = Seq<MeteostationSensorCreateV>;

    open spec fn view(&self) -> Seq<MeteostationSensorCreateV> {
        self.meteostations_sensors.deep_view()
    }
}

impl DeepView for MeteostationSensorCreateRequest {
    type V = Seq<MeteostationSensorCreateV>;

    open spec fn deep_view(&self) -> Seq<MeteostationSensorCreateV> {
        self.view()
    }
}

/// Removal timestamp for a station-to-sensor binding; absent means now.
#[derive(Clone, Debug, PartialEq)]
pub struct MeteostationSensorRemove {
    pub removed_ts: Option<i64>,
}

impl View for MeteostationSensorRemove {
    type V = Option<int>;

    open spec fn view(&self) -> Option<int> {
        match self.removed_ts {
            Some(t) => Some(t as int),
            None => None,
        }
    }
}

impl DeepView for MeteostationSensorRemove {
    type V = Option<int>;

    open spec fn deep_view(&self) -> Option<int> {
        self.view()
    }
}

/// Batch of measurements to append.
#[derive(Clone, Debug, PartialEq)]
pub struct MeasurementRequest {
    pub measurements: Vec<Measurement>,
}

impl View for MeasurementRequest {
    type V = Seq<MeasurementV>;

    open spec fn view(&self) -> Seq<MeasurementV> {
        self.measurements.deep_view()
    }
}

impl DeepView for MeasurementRequest {
    type V = Seq<MeasurementV>;

    open spec fn deep_view(&self) -> Seq<MeasurementV> {
        self.view()
    }
}

/// Optional station and sensor filters for measurement retrieval.
#[derive(Clone, Copy, Debug, PartialEq)]
pub struct MeasurementQuery {
    pub meteostation: Option<i32>,
    pub sensor: Option<i32>,
}

// ---------------------------------------------------------------------------
// Responses
// ---------------------------------------------------------------------------

/// One binding of a sensor, enriched with the type's name and units.
#[derive(Clone, Debug, PartialEq)]
pub struct SensorMeasurementResponse {
    pub type_id: i32,
    pub type_label: String,
    pub type_units: String,
    pub type_formula: String,
}

#[verifier::ext_equal]
pub ghost struct SensorMeasurementResponseV {
    pub type_id: int,
    pub type_label: Seq<char>,
    pub type_units: Seq<char>,
    pub type_formula: Seq<char>,
}

impl View for SensorMeasurementResponse {
    type V = SensorMeasurementResponseV;

    open spec fn view(&self) -> SensorMeasurementResponseV {
        SensorMeasurementResponseV {
            type_id: self.type_id as int,
            type_label: self.type_label@,
            type_units: self.type_units@,
            type_formula: self.type_formula@,
        }
    }
}

impl DeepView for SensorMeasurementResponse {
    type V = SensorMeasurementResponseV;

    open spec fn deep_view(&self) -> SensorMeasurementResponseV {
        self.view()
    }
}

/// A sensor together with all its enriched bindings.
#[derive(Clone, Debug, PartialEq)]
pub struct SensorResponse {
    pub sensor_id: i32,
    pub sensor_name: String,
    pub sensors_measurements: Vec<SensorMeasurementResponse>,
}

#[verifier::ext_equal]
pub ghost struct SensorResponseV {
    pub sensor_id: int,
    pub sensor_name: Seq<char>,
    pub sensors_measurements: Seq<SensorMeasurementResponseV>,
}

impl View for SensorResponse {
    type V = SensorResponseV;

    open spec fn view(&self) -> SensorResponseV {
        SensorResponseV {
            sensor_id: self.sensor_id as int,
            sensor_name: self.sensor_name@,
            sensors_measurements: self.sensors_measurements.deep_view(),
        }
    }
}

impl DeepView for SensorResponse {
    type V = SensorResponseV;

    open spec fn deep_view(&self) -> SensorResponseV {
        self.view()
    }
}

/// One station-to-sensor binding as listed under its station.
#[derive(Clone, Debug, PartialEq)]
pub struct MeteostationSensorResponse {
    pub sensor_inventory_number: String,
    pub sensor_id: i32,
    pub sensor_name: String,
    pub sensor_added_ts: Option<i64>,
    pub sensor_remove_ts: Option<i64>,
}

#[verifier::ext_equal]
pub ghost struct MeteostationSensorResponseV {
    pub sensor_inventory_number: Seq<char>,
    pub sensor_id: int,
    pub sensor_name: Seq<char>,
    pub sensor_added_ts: Option<int>,
    pub sensor_remove_ts: Option<int>,
}

impl View for MeteostationSensorResponse {
    type V = MeteostationSensorResponseV;

    open spec fn view(&self) -> MeteostationSensorResponseV {
        MeteostationSensorResponseV {
            sensor_inventory_number: self.sensor_inventory_number@,
            sensor_id: self.sensor_id as int,
            sensor_name: self.sensor_name@,
            sensor_added_ts: match self.sensor_added_ts {
                Some(t) => Some(t as int),
                None => None,
            },
            sensor_remove_ts: match self.sensor_remove_ts {
                Some(t) => Some(t as int),
                None => None,
            },
        }
    }
}

impl DeepView for MeteostationSensorResponse {
    type V = MeteostationSensorResponseV;

    open spec fn deep_view(&self) -> MeteostationSensorResponseV {
        self.view()
    }
}

/// A station together with every binding that references it.
#[derive(Clone, Debug, PartialEq)]
pub struct MeteostationResponse {
    pub station_id: i32,
    pub station_name: String,
    pub station_longitude: String,
    pub station_latitude: String,
    pub sensors: Vec<MeteostationSensorResponse>,
}

#[verifier::ext_equal]
pub ghost struct MeteostationResponseV {
    pub station_id: int,
    pub station_name: Seq<char>,
    pub station_longitude: Seq<char>,
    pub station_latitude: Seq<char>,
    pub sensors: Seq<MeteostationSensorResponseV>,
}

impl View for MeteostationResponse {
    type V = MeteostationResponseV;

    open spec fn view(&self) -> MeteostationResponseV {
        MeteostationResponseV {
            station_id: self.station_id as int,
            station_name: self.station_name@,
            station_longitude: self.station_longitude@,
            station_latitude: self.station_latitude@,
            sensors: self.sensors.deep_view(),
        }
    }
}

impl DeepView for MeteostationResponse {
    type V = MeteostationResponseV;

    open spec fn deep_view(&self) -> MeteostationResponseV {
        self.view()
    }
}

// ---------------------------------------------------------------------------
// Row copies with a known view
// ---------------------------------------------------------------------------

impl MeasurementType {
    /// A copy of the row with the same view.
    pub fn duplicate(&self) -> (r: MeasurementType)
        ensures
            r@ == self@,
    {
        MeasurementType { id: self.id, name: self.name.clone(), units: self.units.clone() }
    }
}

impl Meteostation {
    /// A copy of the row with the same view.
    pub fn duplicate(&self) -> (r: Meteostation)
        ensures
            r@ == self@,
    {
        Meteostation {
            id: self.id,
            name: self.name.clone(),
            longitude: self.longitude.clone(),
            latitude: self.latitude.clone(),
        }
    }
}

impl Sensor {
    /// A copy of the row with the same view.
    pub fn duplicate(&self) -> (r: Sensor)
        ensures
            r@ == self@,
    {
        Sensor { id: self.id, name: self.name.clone() }
    }
}

impl SensorMeasurement {
    /// A copy of the row with the same view.
    pub fn duplicate(&self) -> (r: SensorMeasurement)
        ensures
            r@ == self@,
    {
        SensorMeasurement {
            sensor_id: self.sensor_id,
            type_id: self.type_id,
            measurement_formula: match &self.measurement_formula {
                Some(f) => Some(f.clone()),
                None => None,
            },
        }
    }
}

impl MeteostationSensor {
    /// A copy of the row with the same view.
    pub fn duplicate(&self) -> (r: MeteostationSensor)
        ensures
            r@ == self@,
    {
        MeteostationSensor {
            inventory_number: self.inventory_number.clone(),
            station_id: self.station_id,
            sensor_id: self.sensor_id,
            added_ts: self.added_ts,
            removed_ts: self.removed_ts,
        }
    }
}

impl Measurement {
    /// A copy of the row with the same view.
    pub fn duplicate(&self) -> (r: Measurement)
        ensures
            r@ == self@,
    {
        Measurement {
            sensor_inventory_number: self.sensor_inventory_number.clone(),
            value: self.value.clone(),
            ts: self.ts,
            type_id: self.type_id,
        }
    }
}

// ---------------------------------------------------------------------------
// The default transform formula
// ---------------------------------------------------------------------------

/// The identity transform stored when a binding gives no formula.
pub open spec fn default_formula() -> Seq<char> {
    "value"@
}

/// The formula a binding reports: its own, or the identity transform.
pub open spec fn formula_or_default(f: Option<Seq<char>>) -> Seq<char> {
    match f {
        Some(s) => s,
        None => default_formula(),
    }
}

/// Resolves an optional formula to the text that is stored and reported.
pub fn formula_or_value(f: &Option<String>) -> (r: String)
    ensures
        r@ == formula_or_default(f.deep_view()),
{
    match f {
        Some(s) => s.clone(),
        None => "value".to_owned(),
    }
}

} // verus!
