//! Airports of the catalogue.

use crate::error::ParseError;
use crate::text::same_text;
use vstd::prelude::*;

verus! {

/// The kinds of airport that the catalogue tells apart.
#[allow(non_camel_case_types)]
#[derive(Debug, Clone, Copy, PartialEq, Eq, Structural)]
pub enum AirportType {
    small_airport,
    medium_airport,
    large_airport,
    helliport,
    closed,
    unknown,
}

impl AirportType {
    /// The kind that a catalogue tag stands for. A tag that names no kind
    /// stands for `unknown`.
    pub open spec fn spec_from_tag(tag: Seq<char>) -> AirportType {
        if tag == "small_airport"@ {
            AirportType::small_airport
        } else if tag == "medium_airport"@ {
            AirportType::medium_airport
        } else if tag == "large_airport"@ {
            AirportType::large_airport
        } else if tag == "helliport"@ {
            AirportType::helliport
        } else if tag == "closed"@ {
            AirportType::closed
        } else {
            AirportType::unknown
        }
    }

    /// Reads the kind from the tag a catalogue record holds.
    pub fn from_tag(tag: &str) -> (kind: AirportType)
        ensures
            kind == Self::spec_from_tag(tag@),
    {
        if same_text(tag, "small_airport") {
            AirportType::small_airport
        } else if same_text(tag, "medium_airport") {
            AirportType::medium_airport
        } else if same_text(tag, "large_airport") {
            AirportType::large_airport
        } else if same_text(tag, "helliport") {
            AirportType::helliport
        } else if same_text(tag, "closed") {
            AirportType::closed
        } else {
            AirportType::unknown
        }
    }
}

/// An airport. Latitude and longitude are in millionths of a degree.
#[derive(Debug)]
pub struct Airport {
    pub oaci_code: String,
    pub name: String,
    pub airport_type: AirportType,
    pub latitude: i32,
    pub longitude: i32,
}

/// An airport as contracts see it.
pub struct AirportView {
    pub oaci_code: Seq<char>,
    pub name: Seq<char>,
    pub airport_type: AirportType,
    pub latitude: i32,
    pub longitude: i32,
}

impl View for Airport {
    type V = AirportView;

    open spec fn view(&self) -> AirportView {
        AirportView {
            oaci_code: self.oaci_code@,
            name: self.name@,
            airport_type: self.airport_type,
            latitude: self.latitude,
            longitude: self.longitude,
        }
    }
}

/// One record of the airport catalogue, column by column. Latitude and
/// longitude are whole millionths of a degree.
#[derive(Debug, Clone, PartialEq, Eq)]
pub struct AirportRecord {
    pub oaci_code: String,
    pub name: String,
    /// The tag of the airport's kind.
    pub airport_type: String,
    pub latitude: i64,
    pub longitude: i64,
}

/// Whether a column can be a coordinate: a whole number of millionths of a
/// degree that the coordinate type holds.
pub open spec fn is_coordinate(column: i64) -> bool {
    i32::MIN <= column <= i32::MAX
}

/// What an airport record gives: the airport with the kind that the tag
/// stands for; `wrong_format` where latitude or longitude cannot be a
/// coordinate.
pub open spec fn airport_of_record(record: AirportRecord) -> Result<AirportView, ParseError> {
    if !(is_coordinate(record.latitude) && is_coordinate(record.longitude)) {
        Err(ParseError::wrong_format)
    } else {
        Ok(
            AirportView {
                oaci_code: record.oaci_code@,
                name: record.name@,
                airport_type: AirportType::spec_from_tag(record.airport_type@),
                latitude: record.latitude as i32,
                longitude: record.longitude as i32,
            },
        )
    }
}

/// The coordinate that a column holds, if it can be one.
fn read_coordinate(column: i64) -> (coordinate: Option<i32>)
    ensures
        coordinate is Some <==> is_coordinate(column),
        coordinate matches Some(c) ==> c == column,
{
    if -0x8000_0000 <= column && column <= 0x7fff_ffff {
        Some(column as i32)
    } else {
        None
    }
}

impl Airport {
    /// An airport from its parts, each taken as it is given.
    pub fn new(
        oaci_code: String,
        name: String,
        airport_type: AirportType,
        latitude: i32,
        longitude: i32,
    ) -> (airport: Airport)
        ensures
            airport@ == (AirportView {
                oaci_code: oaci_code@,
                name: name@,
                airport_type,
                latitude,
                longitude,
            }),
    {
        Airport { oaci_code, name, airport_type, latitude, longitude }
    }

    /// Reads an airport from one record of the catalogue.
    pub fn airport_mapper(record: &AirportRecord) -> (result: Result<Airport, ParseError>)
        ensures
            result is Ok <==> airport_of_record(*record) is Ok,
            result matches Ok(airport) ==> airport_of_record(*record) == Ok::<
                AirportView,
                ParseError,
            >(airport@),
            result matches Err(e) ==> airport_of_record(*record) == Err::<AirportView, ParseError>(
                e,
            ),
    {
        match (read_coordinate(record.latitude), read_coordinate(record.longitude)) {
            (Some(latitude), Some(longitude)) => Ok(
                Airport {
                    oaci_code: record.oaci_code.clone(),
                    name: record.name.clone(),
                    airport_type: AirportType::from_tag(record.airport_type.as_str()),
                    latitude,
                    longitude,
                },
            ),
            _ => Err(ParseError::wrong_format),
        }
    }

    /// Reads the airports that a catalogue holds for one code, record by
    /// record. The first record that gives no airport decides the error.
    pub fn from_db(records: &Vec<AirportRecord>) -> (result: Result<Vec<Airport>, ParseError>)
        ensures
            result is Ok <==> forall|i: int|
                #![trigger records@[i]]
                0 <= i < records@.len() ==> airport_of_record(records@[i]) is Ok,
            result matches Ok(airports) ==> airports@.len() == records@.len() && forall|i: int|
                #![trigger records@[i]]
                #![trigger airports@[i]]
                0 <= i < records@.len() ==> airport_of_record(records@[i]) == Ok::<
                    AirportView,
                    ParseError,
                >(airports@[i]@),
            result matches Err(e) ==> exists|i: int|
                #![trigger records@[i]]
                0 <= i < records@.len() && airport_of_record(records@[i]) == Err::<
                    AirportView,
                    ParseError,
                >(e) && forall|j: int|
                    #![trigger records@[j]]
                    0 <= j < i ==> airport_of_record(records@[j]) is Ok,
    {
        let mut airports: Vec<Airport> = Vec::new();
        let mut i: usize = 0;
        while i < records.len()
            invariant
                i <= records@.len(),
                airports@.len() == i,
                forall|j: int|
                    #![trigger records@[j]]
                    #![trigger airports@[j]]
                    0 <= j < i ==> airport_of_record(records@[j]) == Ok::<
                        AirportView,
                        ParseError,
                    >(airports@[j]@),
            decreases records@.len() - i,
        {
            match Airport::airport_mapper(&records[i]) {
                Ok(airport) => {
                    airports.push(airport);
                },
                Err(e) => {
                    return Err(e);
                },
            }
            i = i + 1;
        }
        Ok(airports)
    }

    /// The airport of one code among the records that the catalogue holds
    /// for it: the last one that reads, `record_not_found` where there is
    /// no record, and the error of the first record that does not read.
    pub fn from_oaci_code(records: &Vec<AirportRecord>) -> (result: Result<Airport, ParseError>)
        ensures
            records@.len() == 0 ==> result == Err::<Airport, ParseError>(
                ParseError::record_not_found,
            ),
            result is Ok <==> records@.len() > 0 && forall|i: int|
                #![trigger records@[i]]
                0 <= i < records@.len() ==> airport_of_record(records@[i]) is Ok,
            result matches Ok(airport) ==> airport_of_record(records@.last()) == Ok::<
                AirportView,
                ParseError,
            >(airport@),
            result matches Err(e) ==> (records@.len() == 0 && e == ParseError::record_not_found)
                || exists|i: int|
                #![trigger records@[i]]
                0 <= i < records@.len() && airport_of_record(records@[i]) == Err::<
                    AirportView,
                    ParseError,
                >(e) && forall|j: int|
                    #![trigger records@[j]]
                    0 <= j < i ==> airport_of_record(records@[j]) is Ok,
    {
        let mut airports = match Airport::from_db(records) {
            Ok(airports) => airports,
            Err(e) => {
                return Err(e);
            },
        };
        match airports.pop() {
            Some(airport) => Ok(airport),
            None => Err(ParseError::record_not_found),
        }
    }
}

} // verus!
