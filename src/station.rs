use vstd::prelude::*;
use crate::json::{i32_field, num_field, str_field, JsonNumber, JsonValue};

verus! {

/// A weather station that contributed to a query's data.
pub struct Station {
    pub distance: Option<JsonNumber>,
    pub latitude: Option<JsonNumber>,
    pub longitude: Option<JsonNumber>,
    pub use_count: Option<i32>,
    pub id: Option<String>,
    pub name: Option<String>,
    pub quality: Option<i32>,
    pub contribution: Option<JsonNumber>,
}

impl Station {
    /// A station with nothing known of it.
    pub fn new() -> (r: Station)
        ensures
            r.distance is None,
            r.latitude is None,
            r.longitude is None,
            r.use_count is None,
            r.id is None,
            r.name is None,
            r.quality is None,
            r.contribution is None,
    {
        Station {
            distance: None,
            latitude: None,
            longitude: None,
            use_count: None,
            id: None,
            name: None,
            quality: None,
            contribution: None,
        }
    }

    pub fn distance(&self) -> (r: &Option<JsonNumber>)
        ensures
            *r == self.distance,
    {
        &self.distance
    }

    pub fn latitude(&self) -> (r: &Option<JsonNumber>)
        ensures
            *r == self.latitude,
    {
        &self.latitude
    }

    pub fn longitude(&self) -> (r: &Option<JsonNumber>)
        ensures
            *r == self.longitude,
    {
        &self.longitude
    }

    pub fn use_count(&self) -> (r: Option<i32>)
        ensures
            r == self.use_count,
    {
        self.use_count
    }

    pub fn id(&self) -> (r: &Option<String>)
        ensures
            *r == self.id,
    {
        &self.id
    }

    pub fn name(&self) -> (r: &Option<String>)
        ensures
            *r == self.name,
    {
        &self.name
    }

    pub fn quality(&self) -> (r: Option<i32>)
        ensures
            r == self.quality,
    {
        self.quality
    }

    pub fn contribution(&self) -> (r: &Option<JsonNumber>)
        ensures
            *r == self.contribution,
    {
        &self.contribution
    }
}

/// `s` holds exactly what the station object `v` says.
pub open spec fn station_matches(s: Station, v: JsonValue) -> bool {
    &&& s.distance == num_field(v, "distance"@)
    &&& s.latitude == num_field(v, "latitude"@)
    &&& s.longitude == num_field(v, "longitude"@)
    &&& s.use_count == i32_field(v, "useCount"@)
    &&& s.id == str_field(v, "id"@)
    &&& s.name == str_field(v, "name"@)
    &&& s.quality == i32_field(v, "quality"@)
    &&& s.contribution == num_field(v, "contribution"@)
}

} // verus!
