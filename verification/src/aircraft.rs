//! One aircraft: its identity and engine data, its envelope chart and its
//! loading sheet, with the loading operations and the classification of its
//! present loading.

use crate::chart::{BalanceChart, Classification};
use crate::envelope::BalanceCat;
use crate::error::{BalanceError, ParseError};
use crate::record::{is_amount, is_litres, read_amount, read_litres};
use crate::fuel::Fuel;
use crate::loading::{has_station, moment_sum, weight_sum, with_weight, BalanceSheet, StationView};
use vstd::prelude::*;

verus! {

/// A loading in one line: what it weighs, where it acts, and its moment.
#[derive(Debug, Clone, Copy, PartialEq, Eq)]
pub struct Balance {
    /// Grams.
    pub weigth: u128,
    /// Millimetres from the datum, rounded down to a whole one.
    pub arm: i32,
    /// Gram millimetres.
    pub moment: i128,
}

/// An aircraft of the catalogue with its present loading.
#[derive(Debug)]
pub struct Aircraft {
    pub immatriculation: String,
    pub aircraft_type: String,
    pub horse_power: i32,
    /// Thousandths of the catalogue's unit of speed.
    pub cruise_speed: u32,
    pub fuel: Fuel,
    /// Millilitres per hour.
    pub consomatation: u32,
    pub nb_tank: i32,
    /// What all tanks hold together, in millilitres.
    pub total_tank: u32,
    /// Grams.
    pub empty_weight: u32,
    pub balance_chart: BalanceChart,
    pub loading: BalanceSheet,
}

/// An aircraft as contracts see it.
pub struct AircraftView {
    pub immatriculation: Seq<char>,
    pub aircraft_type: Seq<char>,
    pub horse_power: i32,
    pub cruise_speed: u32,
    pub fuel: Fuel,
    pub consomatation: u32,
    pub nb_tank: i32,
    pub total_tank: u32,
    pub empty_weight: u32,
    pub balance_chart: BalanceChart,
    pub loading: Seq<StationView>,
}

impl View for Aircraft {
    type V = AircraftView;

    open spec fn view(&self) -> AircraftView {
        AircraftView {
            immatriculation: self.immatriculation@,
            aircraft_type: self.aircraft_type@,
            horse_power: self.horse_power,
            cruise_speed: self.cruise_speed,
            fuel: self.fuel,
            consomatation: self.consomatation,
            nb_tank: self.nb_tank,
            total_tank: self.total_tank,
            empty_weight: self.empty_weight,
            balance_chart: self.balance_chart,
            loading: self.loading@,
        }
    }
}

/// What `quantity` millilitres of a fuel weigh, in grams, rounded down.
pub open spec fn fuel_weight(quantity: int, fuel: Fuel) -> int {
    (quantity * fuel.spec_density()) / 1000
}

impl AircraftView {
    /// The aircraft with `weight` grams at the station called `name`.
    pub open spec fn loaded(self, name: Seq<char>, weight: u32) -> AircraftView {
        AircraftView { loading: with_weight(self.loading, name, weight), ..self }
    }

    /// How the present loading stands against the chart: its total weight
    /// at its exact centre of gravity, total moment by total weight, with no
    /// rounding of the quotient. A sheet that carries no weight has no
    /// centre of gravity and is outside all envelopes.
    pub open spec fn classification(self) -> Classification {
        self.balance_chart.spec_classify_loading(
            weight_sum(self.loading),
            moment_sum(self.loading),
        )
    }
}

impl Aircraft {
    /// An aircraft from its parts, each taken as it is given.
    pub fn new(
        immatriculation: String,
        aircraft_type: String,
        horse_power: i32,
        cruise_speed: u32,
        fuel: Fuel,
        consomatation: u32,
        nb_tank: i32,
        total_tank: u32,
        empty_weight: u32,
        balance_chart: BalanceChart,
        loading: BalanceSheet,
    ) -> (aircraft: Aircraft)
        ensures
            aircraft@ == (AircraftView {
                immatriculation: immatriculation@,
                aircraft_type: aircraft_type@,
                horse_power,
                cruise_speed,
                fuel,
                consomatation,
                nb_tank,
                total_tank,
                empty_weight,
                balance_chart,
                loading: loading@,
            }),
    {
        Aircraft {
            immatriculation,
            aircraft_type,
            horse_power,
            cruise_speed,
            fuel,
            consomatation,
            nb_tank,
            total_tank,
            empty_weight,
            balance_chart,
            loading,
        }
    }

    /// Sets the weight at one station of the sheet, or refuses a station
    /// that the sheet does not have and changes nothing.
    fn load_station(&mut self, name: &str, weight: u32) -> (result: Result<(), BalanceError>)
        ensures
            result is Ok <==> has_station(old(self)@.loading, name@),
            result is Ok ==> final(self)@ == old(self)@.loaded(name@, weight),
            result is Err ==> final(self)@ == old(self)@,
            result matches Err(e) ==> (e matches BalanceError::not_in_balance(n) && n@ == name@),
    {
        self.loading.load(name.to_owned(), weight)
    }

    /// Fills the tanks with `quantity` millilitres of the aircraft's fuel.
    ///
    /// More than the tanks hold is refused, and so is an aircraft whose
    /// sheet has no station "tank"; either way nothing changes. Otherwise
    /// the station "tank" carries what the fuel weighs.
    pub fn load_fuel(&mut self, quantity: u32) -> (result: Result<(), BalanceError>)
        ensures
            quantity > old(self).total_tank ==> result == Err::<(), BalanceError>(
                BalanceError::tank_capacity_exceeded(old(self).total_tank),
            ),
            quantity <= old(self).total_tank && !has_station(old(self)@.loading, "tank"@)
                ==> (result matches Err(BalanceError::not_in_balance(n)) && n@ == "tank"@),
            result is Ok <==> quantity <= old(self).total_tank && has_station(
                old(self)@.loading,
                "tank"@,
            ),
            result is Ok ==> final(self)@ == old(self)@.loaded(
                "tank"@,
                fuel_weight(quantity as int, old(self).fuel) as u32,
            ),
            result is Ok ==> 0 <= fuel_weight(quantity as int, old(self).fuel) <= quantity,
            result is Err ==> final(self)@ == old(self)@,
    {
        if quantity > self.total_tank {
            return Err(BalanceError::tank_capacity_exceeded(self.total_tank));
        }
        let density = self.fuel.density();
        assert(0 <= quantity * density <= quantity * 1000) by (nonlinear_arith)
            requires
                0 <= quantity,
                0 < density <= 820,
        ;
        let product: u64 = quantity as u64 * density as u64;
        let weight: u64 = product / 1000;
        self.load_station("tank", weight as u32)
    }

    /// Sets the weight of the crew, in grams, at the station "PIL".
    pub fn load_crew(&mut self, weight: u32) -> (result: Result<(), BalanceError>)
        ensures
            result is Ok <==> has_station(old(self)@.loading, "PIL"@),
            result is Ok ==> final(self)@ == old(self)@.loaded("PIL"@, weight),
            result is Err ==> final(self)@ == old(self)@,
            result matches Err(e) ==> (e matches BalanceError::not_in_balance(n) && n@ == "PIL"@),
    {
        self.load_station("PIL", weight)
    }

    /// Sets the weight of the passengers, in grams, at the station "PAX".
    pub fn load_passengers(&mut self, weight: u32) -> (result: Result<(), BalanceError>)
        ensures
            result is Ok <==> has_station(old(self)@.loading, "PAX"@),
            result is Ok ==> final(self)@ == old(self)@.loaded("PAX"@, weight),
            result is Err ==> final(self)@ == old(self)@,
            result matches Err(e) ==> (e matches BalanceError::not_in_balance(n) && n@ == "PAX"@),
    {
        self.load_station("PAX", weight)
    }

    /// Sets the weight of the luggage, in grams, at the station "cargo".
    pub fn load_lugguage(&mut self, weight: u32) -> (result: Result<(), BalanceError>)
        ensures
            result is Ok <==> has_station(old(self)@.loading, "cargo"@),
            result is Ok ==> final(self)@ == old(self)@.loaded("cargo"@, weight),
            result is Err ==> final(self)@ == old(self)@,
            result matches Err(e) ==> (e matches BalanceError::not_in_balance(n) && n@ == "cargo"@),
    {
        self.load_station("cargo", weight)
    }

    /// Classifies the present loading against the aircraft's chart: its
    /// total weight at its exact centre of gravity, which is not rounded to
    /// a whole millimetre first. Without weight the loading is outside all
    /// envelopes.
    pub fn current_classification(&self) -> (class: Classification)
        ensures
            class == self@.classification(),
            weight_sum(self@.loading) == 0 ==> class == Classification::OutsideAllEnvelopes,
    {
        let weight = self.loading.total_weight();
        let moment = self.loading.total_moment();
        self.balance_chart.classify_loading(weight, moment)
    }
}

/// One record of the aircraft catalogue, column by column. Speed,
/// consumption and empty weight are whole thousandths of the catalogue's
/// units; the tank capacity is in whole litres.
#[derive(Debug, Clone, PartialEq, Eq)]
pub struct AircraftRecord {
    pub immatriculation: String,
    pub aircraft_type: String,
    pub horse_power: i32,
    pub cruise_speed: i64,
    /// The tag of the fuel grade.
    pub fuel: String,
    pub consomatation: i64,
    pub nb_tank: i32,
    pub total_tank: i32,
    pub empty_weight: i64,
}

/// What an aircraft record gives: the aircraft with the fuel that the tag
/// stands for, a chart with every limit at zero and a sheet without
/// stations; `wrong_format` where speed, consumption, tank capacity or
/// empty weight cannot be the amount that the field holds.
pub open spec fn aircraft_of_record(record: AircraftRecord) -> Result<AircraftView, ParseError> {
    if !(is_amount(record.cruise_speed) && is_amount(record.consomatation) && is_litres(
        record.total_tank,
    ) && is_amount(record.empty_weight)) {
        Err(ParseError::wrong_format)
    } else {
        Ok(
            AircraftView {
                immatriculation: record.immatriculation@,
                aircraft_type: record.aircraft_type@,
                horse_power: record.horse_power,
                cruise_speed: record.cruise_speed as u32,
                fuel: Fuel::spec_from_tag(record.fuel@),
                consomatation: record.consomatation as u32,
                nb_tank: record.nb_tank,
                total_tank: (record.total_tank * 1000) as u32,
                empty_weight: record.empty_weight as u32,
                balance_chart: BalanceChart {
                    catN: BalanceCat::spec_new(),
                    catU: BalanceCat::spec_new(),
                    catA: BalanceCat::spec_new(),
                },
                loading: Seq::empty(),
            },
        )
    }
}

/// What the records found for one registration give. Of several records
/// the last one counts. Without an aircraft record there is no aircraft.
/// A sheet record replaces the sheet and its station "Empty" gets the
/// aircraft's empty weight; a sheet without that station is refused. A
/// chart record replaces the chart. Where either is missing the aircraft
/// keeps what its own record gave.
pub open spec fn assembled(
    plane: Option<AircraftView>,
    chart: Option<BalanceChart>,
    sheet: Option<Seq<StationView>>,
) -> Result<AircraftView, ParseError> {
    match plane {
        None => Err(ParseError::record_not_found),
        Some(plane) => {
            if sheet matches Some(stations) && !has_station(stations, "Empty"@) {
                Err(ParseError::field_not_found)
            } else {
                Ok(
                    AircraftView {
                        loading: match sheet {
                            Some(stations) => with_weight(stations, "Empty"@, plane.empty_weight),
                            None => plane.loading,
                        },
                        balance_chart: match chart {
                            Some(chart) => chart,
                            None => plane.balance_chart,
                        },
                        ..plane
                    },
                )
            }
        },
    }
}

/// The last element of a sequence, if it has one.
pub open spec fn last_of<T>(items: Seq<T>) -> Option<T> {
    if items.len() == 0 {
        None
    } else {
        Some(items.last())
    }
}

impl Aircraft {
    /// The present loading in one line. A sheet that carries no weight has
    /// no centre of gravity and so no balance.
    pub fn balance(&self) -> (result: Result<Balance, BalanceError>)
        ensures
            result is Err <==> weight_sum(self@.loading) == 0,
            result matches Err(e) ==> e == BalanceError::undefined_center_of_gravity,
            result matches Ok(b) ==> b.weigth == weight_sum(self@.loading) && b.moment
                == moment_sum(self@.loading) && b.arm == moment_sum(self@.loading) / weight_sum(
                self@.loading,
            ),
    {
        match self.loading.center_of_gravity() {
            Ok(arm) => Ok(
                Balance {
                    weigth: self.loading.total_weight(),
                    arm,
                    moment: self.loading.total_moment(),
                },
            ),
            Err(e) => Err(e),
        }
    }

    /// Reads an aircraft from one record of the catalogue.
    pub fn aircraft_mapper(record: &AircraftRecord) -> (result: Result<Aircraft, ParseError>)
        ensures
            result is Ok <==> aircraft_of_record(*record) is Ok,
            result matches Ok(aircraft) ==> aircraft_of_record(*record) == Ok::<
                AircraftView,
                ParseError,
            >(aircraft@),
            result matches Err(e) ==> aircraft_of_record(*record) == Err::<
                AircraftView,
                ParseError,
            >(e),
    {
        let cruise_speed = read_amount(record.cruise_speed);
        let consomatation = read_amount(record.consomatation);
        let total_tank = read_litres(record.total_tank);
        let empty_weight = read_amount(record.empty_weight);
        match (cruise_speed, consomatation, total_tank, empty_weight) {
            (Some(cruise_speed), Some(consomatation), Some(total_tank), Some(empty_weight)) => Ok(
                Aircraft {
                    immatriculation: record.immatriculation.clone(),
                    aircraft_type: record.aircraft_type.clone(),
                    horse_power: record.horse_power,
                    cruise_speed,
                    fuel: Fuel::from_tag(record.fuel.as_str()),
                    consomatation,
                    nb_tank: record.nb_tank,
                    total_tank,
                    empty_weight,
                    balance_chart: BalanceChart::new(),
                    loading: BalanceSheet::new(),
                },
            ),
            _ => Err(ParseError::wrong_format),
        }
    }

    /// Reads the aircraft that a catalogue holds for one registration,
    /// record by record. The first record that gives no aircraft decides
    /// the error.
    pub fn from_database(records: &Vec<AircraftRecord>) -> (result: Result<
        Vec<Aircraft>,
        ParseError,
    >)
        ensures
            result is Ok <==> forall|i: int|
                #![trigger records@[i]]
                0 <= i < records@.len() ==> aircraft_of_record(records@[i]) is Ok,
            result matches Ok(planes) ==> planes@.len() == records@.len() && forall|i: int|
                #![trigger records@[i]]
                #![trigger planes@[i]]
                0 <= i < records@.len() ==> aircraft_of_record(records@[i]) == Ok::<
                    AircraftView,
                    ParseError,
                >(planes@[i]@),
            result matches Err(e) ==> exists|i: int|
                #![trigger records@[i]]
                0 <= i < records@.len() && aircraft_of_record(records@[i]) == Err::<
                    AircraftView,
                    ParseError,
                >(e) && forall|j: int|
                    #![trigger records@[j]]
                    0 <= j < i ==> aircraft_of_record(records@[j]) is Ok,
    {
        let mut planes: Vec<Aircraft> = Vec::new();
        let mut i: usize = 0;
        while i < records.len()
            invariant
                i <= records@.len(),
                planes@.len() == i,
                forall|j: int|
                    #![trigger records@[j]]
                    #![trigger planes@[j]]
                    0 <= j < i ==> aircraft_of_record(records@[j]) == Ok::<
                        AircraftView,
                        ParseError,
                    >(planes@[j]@),
            decreases records@.len() - i,
        {
            match Aircraft::aircraft_mapper(&records[i]) {
                Ok(plane) => {
                    planes.push(plane);
                },
                Err(e) => {
                    return Err(e);
                },
            }
            i = i + 1;
        }
        Ok(planes)
    }

    /// Puts together the aircraft of one registration from the records that
    /// the catalogue holds for it: its own, its charts and its sheets.
    pub fn import(
        planes: Vec<Aircraft>,
        charts: Vec<BalanceChart>,
        sheets: Vec<BalanceSheet>,
    ) -> (result: Result<Aircraft, ParseError>)
        ensures
            result is Ok <==> assembled(
                last_of(planes@.map_values(|a: Aircraft| a@)),
                last_of(charts@),
                last_of(sheets@.map_values(|s: BalanceSheet| s@)),
            ) is Ok,
            result matches Ok(aircraft) ==> assembled(
                last_of(planes@.map_values(|a: Aircraft| a@)),
                last_of(charts@),
                last_of(sheets@.map_values(|s: BalanceSheet| s@)),
            ) == Ok::<AircraftView, ParseError>(aircraft@),
            result matches Err(e) ==> assembled(
                last_of(planes@.map_values(|a: Aircraft| a@)),
                last_of(charts@),
                last_of(sheets@.map_values(|s: BalanceSheet| s@)),
            ) == Err::<AircraftView, ParseError>(e),
    {
        let mut planes = planes;
        let mut charts = charts;
        let mut sheets = sheets;
        let mut plane = match planes.pop() {
            Some(plane) => plane,
            None => {
                return Err(ParseError::record_not_found);
            },
        };
        match sheets.pop() {
            Some(sheet) => {
                plane.loading = sheet;
                let seeded = plane.loading.load("Empty".to_owned(), plane.empty_weight);
                if seeded.is_err() {
                    return Err(ParseError::field_not_found);
                }
            },
            None => {},
        }
        match charts.pop() {
            Some(chart) => {
                plane.balance_chart = chart;
            },
            None => {},
        }
        Ok(plane)
    }
}

} // verus!
