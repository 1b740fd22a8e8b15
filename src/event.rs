use vstd::prelude::*;
use crate::calendar::{date_field, CalendarDate};
use crate::json::{num_field, str_field, u64_field, JsonNumber, JsonValue};

verus! {

/// A historical weather event (hail, a tornado, ...) reported for a day.
pub struct Event {
    pub datetime: CalendarDate,
    pub datetime_epoch: Option<u64>,
    pub event_type: Option<String>,
    pub latitude: Option<JsonNumber>,
    pub longitude: Option<JsonNumber>,
    pub distance: Option<JsonNumber>,
    pub description: Option<String>,
    pub size: Option<JsonNumber>,
}

impl Event {
    /// An event on that day with nothing else known.
    pub fn new(datetime: CalendarDate) -> (r: Event)
        ensures
            r.datetime == datetime,
            r.datetime_epoch is None,
            r.event_type is None,
            r.latitude is None,
            r.longitude is None,
            r.distance is None,
            r.description is None,
            r.size is None,
    {
        Event {
            datetime,
            datetime_epoch: None,
            event_type: None,
            latitude: None,
            longitude: None,
            distance: None,
            description: None,
            size: None,
        }
    }

    pub fn datetime(&self) -> (r: CalendarDate)
        ensures
            r == self.datetime,
    {
        self.datetime
    }

    pub fn datetime_epoch(&self) -> (r: Option<u64>)
        ensures
            r == self.datetime_epoch,
    {
        self.datetime_epoch
    }

    pub fn event_type(&self) -> (r: &Option<String>)
        ensures
            *r == self.event_type,
    {
        &self.event_type
    }

    pub fn latitude(&self) -> (r: &Option<JsonNumber>)
        ensures
            *r == self.latitude,
    {
        &self.latitude
    }

    pub fn longitude(&self) -> (r: &Option<JsonNumber>)
        ensures
            *r == self.longitude,
    {
        &self.longitude
    }

    pub fn distance(&self) -> (r: &Option<JsonNumber>)
        ensures
            *r == self.distance,
    {
        &self.distance
    }

    pub fn description(&self) -> (r: &Option<String>)
        ensures
            *r == self.description,
    {
        &self.description
    }

    pub fn size(&self) -> (r: &Option<JsonNumber>)
        ensures
            *r == self.size,
    {
        &self.size
    }
}

/// An event object can be read when its `datetime` is a calendar date.
pub open spec fn event_ok(v: JsonValue) -> bool {
    date_field(v, "datetime"@) is Some
}

/// `e` holds exactly what the event object `v` says.
pub open spec fn event_matches(e: Event, v: JsonValue) -> bool {
    &&& date_field(v, "datetime"@) == Some(e.datetime)
    &&& e.datetime_epoch == u64_field(v, "datetimeEpoch"@)
    &&& e.event_type == str_field(v, "type"@)
    &&& e.latitude == num_field(v, "latitude"@)
    &&& e.longitude == num_field(v, "longitude"@)
    &&& e.distance == num_field(v, "distance"@)
    &&& e.description == str_field(v, "description"@)
    &&& e.size == num_field(v, "size"@)
}

} // verus!
