use vstd::prelude::*;
use crate::calendar::{date_field, CalendarDate};
use crate::error::ParseError;
use crate::event::{event_matches, event_ok, Event};
use crate::json::{
    absent_or_array, field, lemma_list_unique, list_matches, num_field, str_field, str_list_ok,
    strings_view, u64_field, JsonNumber, JsonValue,
};
use crate::weather_hourly_data::{
    hour_error, hour_matches, lemma_hour_round_trip, same_hour, WeatherHourlyData,
};

verus! {

/// The weather of one calendar day at the queried location.
pub struct WeatherDailyData {
    pub datetime: CalendarDate,
    pub datetime_epoch: Option<u64>,
    pub temp_max: Option<JsonNumber>,
    pub temp_min: Option<JsonNumber>,
    pub temp: Option<JsonNumber>,
    pub feels_like_max: Option<JsonNumber>,
    pub feels_like_min: Option<JsonNumber>,
    pub feels_like: Option<JsonNumber>,
    pub dew: Option<JsonNumber>,
    pub humidity: Option<JsonNumber>,
    pub precip: Option<JsonNumber>,
    pub precip_prob: Option<JsonNumber>,
    pub precip_cover: Option<JsonNumber>,
    pub precip_type: Option<Vec<String>>,
    pub snow: Option<JsonNumber>,
    pub snow_depth: Option<JsonNumber>,
    pub wind_gust: Option<JsonNumber>,
    pub wind_speed: Option<JsonNumber>,
    pub wind_dir: Option<JsonNumber>,
    pub pressure: Option<JsonNumber>,
    pub cloud_cover: Option<JsonNumber>,
    pub visibility: Option<JsonNumber>,
    pub solar_radiation: Option<JsonNumber>,
    pub solar_energy: Option<JsonNumber>,
    pub uv_index: Option<JsonNumber>,
    pub sunrise: Option<String>,
    pub sunrise_epoch: Option<u64>,
    pub sunset: Option<String>,
    pub sunset_epoch: Option<u64>,
    pub moon_phase: Option<JsonNumber>,
    pub conditions: Option<String>,
    pub description: Option<String>,
    pub icon: Option<String>,
    pub stations: Option<Vec<String>>,
    pub source: Option<String>,
    pub events: Option<Vec<Event>>,
    pub weather_hourly_data: Option<Vec<WeatherHourlyData>>,
}

impl WeatherDailyData {
    /// A record of that day with nothing else known.
    pub fn new(datetime: CalendarDate) -> (r: WeatherDailyData)
        ensures
            r.datetime == datetime,
            r.datetime_epoch is None,
            r.temp_max is None,
            r.temp_min is None,
            r.temp is None,
            r.feels_like_max is None,
            r.feels_like_min is None,
            r.feels_like is None,
            r.dew is None,
            r.humidity is None,
            r.precip is None,
            r.precip_prob is None,
            r.precip_cover is None,
            r.precip_type is None,
            r.snow is None,
            r.snow_depth is None,
            r.wind_gust is None,
            r.wind_speed is None,
            r.wind_dir is None,
            r.pressure is None,
            r.cloud_cover is None,
            r.visibility is None,
            r.solar_radiation is None,
            r.solar_energy is None,
            r.uv_index is None,
            r.sunrise is None,
            r.sunrise_epoch is None,
            r.sunset is None,
            r.sunset_epoch is None,
            r.moon_phase is None,
            r.conditions is None,
            r.description is None,
            r.icon is None,
            r.stations is None,
            r.source is None,
            r.events is None,
            r.weather_hourly_data is None,
    {
        WeatherDailyData {
            datetime,
            datetime_epoch: None,
            temp_max: None,
            temp_min: None,
            temp: None,
            feels_like_max: None,
            feels_like_min: None,
            feels_like: None,
            dew: None,
            humidity: None,
            precip: None,
            precip_prob: None,
            precip_cover: None,
            precip_type: None,
            snow: None,
            snow_depth: None,
            wind_gust: None,
            wind_speed: None,
            wind_dir: None,
            pressure: None,
            cloud_cover: None,
            visibility: None,
            solar_radiation: None,
            solar_energy: None,
            uv_index: None,
            sunrise: None,
            sunrise_epoch: None,
            sunset: None,
            sunset_epoch: None,
            moon_phase: None,
            conditions: None,
            description: None,
            icon: None,
            stations: None,
            source: None,
            events: None,
            weather_hourly_data: None,
        }
    }

    pub fn datetime(&self) -> (r: CalendarDate)
        ensures
            r == self.datetime,
    {
        self.datetime
    }

    pub fn datetime_epoch(&self) -> (r: Option<u64>)
        ensures
            r == self.datetime_epoch,
    {
        self.datetime_epoch
    }

    pub fn temp_max(&self) -> (r: &Option<JsonNumber>)
        ensures
            *r == self.temp_max,
    {
        &self.temp_max
    }

    pub fn temp_min(&self) -> (r: &Option<JsonNumber>)
        ensures
            *r == self.temp_min,
    {
        &self.temp_min
    }

    pub fn temp(&self) -> (r: &Option<JsonNumber>)
        ensures
            *r == self.temp,
    {
        &self.temp
    }

    pub fn feels_like_max(&self) -> (r: &Option<JsonNumber>)
        ensures
            *r == self.feels_like_max,
    {
        &self.feels_like_max
    }

    pub fn feels_like_min(&self) -> (r: &Option<JsonNumber>)
        ensures
            *r == self.feels_like_min,
    {
        &self.feels_like_min
    }

    pub fn feels_like(&self) -> (r: &Option<JsonNumber>)
        ensures
            *r == self.feels_like,
    {
        &self.feels_like
    }

    pub fn dew(&self) -> (r: &Option<JsonNumber>)
        ensures
            *r == self.dew,
    {
        &self.dew
    }

    pub fn humidity(&self) -> (r: &Option<JsonNumber>)
        ensures
            *r == self.humidity,
    {
        &self.humidity
    }

    pub fn precip(&self) -> (r: &Option<JsonNumber>)
        ensures
            *r == self.precip,
    {
        &self.precip
    }

    pub fn precip_prob(&self) -> (r: &Option<JsonNumber>)
        ensures
            *r == self.precip_prob,
    {
        &self.precip_prob
    }

    pub fn precip_cover(&self) -> (r: &Option<JsonNumber>)
        ensures
            *r == self.precip_cover,
    {
        &self.precip_cover
    }

    pub fn precip_type(&self) -> (r: &Option<Vec<String>>)
        ensures
            *r == self.precip_type,
    {
        &self.precip_type
    }

    pub fn snow(&self) -> (r: &Option<JsonNumber>)
        ensures
            *r == self.snow,
    {
        &self.snow
    }

    pub fn snow_depth(&self) -> (r: &Option<JsonNumber>)
        ensures
            *r == self.snow_depth,
    {
        &self.snow_depth
    }

    pub fn wind_gust(&self) -> (r: &Option<JsonNumber>)
        ensures
            *r == self.wind_gust,
    {
        &self.wind_gust
    }

    pub fn wind_speed(&self) -> (r: &Option<JsonNumber>)
        ensures
            *r == self.wind_speed,
    {
        &self.wind_speed
    }

    pub fn wind_dir(&self) -> (r: &Option<JsonNumber>)
        ensures
            *r == self.wind_dir,
    {
        &self.wind_dir
    }

    pub fn pressure(&self) -> (r: &Option<JsonNumber>)
        ensures
            *r == self.pressure,
    {
        &self.pressure
    }

    pub fn cloud_cover(&self) -> (r: &Option<JsonNumber>)
        ensures
            *r == self.cloud_cover,
    {
        &self.cloud_cover
    }

    pub fn visibility(&self) -> (r: &Option<JsonNumber>)
        ensures
            *r == self.visibility,
    {
        &self.visibility
    }

    pub fn solar_radiation(&self) -> (r: &Option<JsonNumber>)
        ensures
            *r == self.solar_radiation,
    {
        &self.solar_radiation
    }

    pub fn solar_energy(&self) -> (r: &Option<JsonNumber>)
        ensures
            *r == self.solar_energy,
    {
        &self.solar_energy
    }

    pub fn uv_index(&self) -> (r: &Option<JsonNumber>)
        ensures
            *r == self.uv_index,
    {
        &self.uv_index
    }

    pub fn sunrise(&self) -> (r: &Option<String>)
        ensures
            *r == self.sunrise,
    {
        &self.sunrise
    }

    pub fn sunrise_epoch(&self) -> (r: Option<u64>)
        ensures
            r == self.sunrise_epoch,
    {
        self.sunrise_epoch
    }

    pub fn sunset(&self) -> (r: &Option<String>)
        ensures
            *r == self.sunset,
    {
        &self.sunset
    }

    pub fn sunset_epoch(&self) -> (r: Option<u64>)
        ensures
            r == self.sunset_epoch,
    {
        self.sunset_epoch
    }

    pub fn moon_phase(&self) -> (r: &Option<JsonNumber>)
        ensures
            *r == self.moon_phase,
    {
        &self.moon_phase
    }

    pub fn conditions(&self) -> (r: &Option<String>)
        ensures
            *r == self.conditions,
    {
        &self.conditions
    }

    pub fn description(&self) -> (r: &Option<String>)
        ensures
            *r == self.description,
    {
        &self.description
    }

    pub fn icon(&self) -> (r: &Option<String>)
        ensures
            *r == self.icon,
    {
        &self.icon
    }

    pub fn stations(&self) -> (r: &Option<Vec<String>>)
        ensures
            *r == self.stations,
    {
        &self.stations
    }

    pub fn source(&self) -> (r: &Option<String>)
        ensures
            *r == self.source,
    {
        &self.source
    }

    pub fn events(&self) -> (r: &Option<Vec<Event>>)
        ensures
            *r == self.events,
    {
        &self.events
    }

    pub fn weather_hourly_data(&self) -> (r: &Option<Vec<WeatherHourlyData>>)
        ensures
            *r == self.weather_hourly_data,
    {
        &self.weather_hourly_data
    }
}

pub open spec fn all_events_ok(items: Seq<JsonValue>) -> bool {
    forall|i: int| 0 <= i < items.len() ==> event_ok(#[trigger] items[i])
}

/// Why the `events` member of the day object `v` cannot be read, if it cannot.
pub open spec fn events_error(v: JsonValue) -> Option<ParseError> {
    match field(v, "events"@) {
        Some(JsonValue::Array(items)) => if all_events_ok(items@) {
            None
        } else {
            Some(ParseError::InvalidDate)
        },
        Some(JsonValue::Null) => None,
        None => None,
        Some(_) => Some(ParseError::InvalidList),
    }
}

/// Why the `hours` member of the day object `v` cannot be read, if it cannot:
/// a bad hour makes the error of the first one.
pub open spec fn hours_error(v: JsonValue) -> Option<ParseError> {
    match field(v, "hours"@) {
        Some(JsonValue::Array(items)) => first_hour_error(items@),
        Some(JsonValue::Null) => None,
        None => None,
        Some(_) => Some(ParseError::InvalidList),
    }
}

pub open spec fn first_hour_error(items: Seq<JsonValue>) -> Option<ParseError>
    decreases items.len(),
{
    if items.len() == 0 {
        None
    } else if hour_error(items[0]) is Some {
        hour_error(items[0])
    } else {
        first_hour_error(items.drop_first())
    }
}

/// Why the day object `v` cannot be read, if it cannot. Checked in order: its
/// `datetime`, its lists of strings, its events, its hours.
pub open spec fn day_error(v: JsonValue) -> Option<ParseError> {
    if date_field(v, "datetime"@) is None {
        Some(ParseError::InvalidDate)
    } else if !str_list_ok(v, "preciptype"@) || !str_list_ok(v, "stations"@) {
        Some(ParseError::InvalidList)
    } else if events_error(v) is Some {
        events_error(v)
    } else {
        hours_error(v)
    }
}

pub open spec fn events_match(r: Option<Vec<Event>>, v: JsonValue) -> bool {
    match field(v, "events"@) {
        Some(JsonValue::Array(items)) => r matches Some(out) && out@.len() == items@.len()
            && forall|i: int| 0 <= i < items@.len() ==> event_matches(#[trigger] out@[i], items@[i]),
        _ => r is None,
    }
}

pub open spec fn hours_match(r: Option<Vec<WeatherHourlyData>>, v: JsonValue) -> bool {
    match field(v, "hours"@) {
        Some(JsonValue::Array(items)) => r matches Some(out) && out@.len() == items@.len()
            && forall|i: int| 0 <= i < items@.len() ==> hour_matches(#[trigger] out@[i], items@[i]),
        _ => r is None,
    }
}

/// `d` holds exactly what the day object `v` says.
pub open spec fn day_matches(d: WeatherDailyData, v: JsonValue) -> bool {
    &&& date_field(v, "datetime"@) == Some(d.datetime)
    &&& d.datetime_epoch == u64_field(v, "datetimeEpoch"@)
    &&& d.temp_max == num_field(v, "tempmax"@)
    &&& d.temp_min == num_field(v, "tempmin"@)
    &&& d.temp == num_field(v, "temp"@)
    &&& d.feels_like_max == num_field(v, "feelslikemax"@)
    &&& d.feels_like_min == num_field(v, "feelslikemin"@)
    &&& d.feels_like == num_field(v, "feelslike"@)
    &&& d.dew == num_field(v, "dew"@)
    &&& d.humidity == num_field(v, "humidity"@)
    &&& d.precip == num_field(v, "precip"@)
    &&& d.precip_prob == num_field(v, "precipprob"@)
    &&& d.precip_cover == num_field(v, "precipcover"@)
    &&& list_matches(d.precip_type, v, "preciptype"@)
    &&& d.snow == num_field(v, "snow"@)
    &&& d.snow_depth == num_field(v, "snowdepth"@)
    &&& d.wind_gust == num_field(v, "windgust"@)
    &&& d.wind_speed == num_field(v, "windspeed"@)
    &&& d.wind_dir == num_field(v, "winddir"@)
    &&& d.pressure == num_field(v, "pressure"@)
    &&& d.cloud_cover == num_field(v, "cloudcover"@)
    &&& d.visibility == num_field(v, "visibility"@)
    &&& d.solar_radiation == num_field(v, "solarradiation"@)
    &&& d.solar_energy == num_field(v, "solarenergy"@)
    &&& d.uv_index == num_field(v, "uvindex"@)
    &&& d.sunrise == str_field(v, "sunrise"@)
    &&& d.sunrise_epoch == u64_field(v, "sunriseEpoch"@)
    &&& d.sunset == str_field(v, "sunset"@)
    &&& d.sunset_epoch == u64_field(v, "sunsetEpoch"@)
    &&& d.moon_phase == num_field(v, "moonphase"@)
    &&& d.conditions == str_field(v, "conditions"@)
    &&& d.description == str_field(v, "description"@)
    &&& d.icon == str_field(v, "icon"@)
    &&& list_matches(d.stations, v, "stations"@)
    &&& d.source == str_field(v, "source"@)
    &&& events_match(d.events, v)
    &&& hours_match(d.weather_hourly_data, v)
}

pub open spec fn events_view(l: Option<Vec<Event>>) -> Option<Seq<Event>> {
    match l {
        Some(v) => Some(v@),
        None => None,
    }
}

/// Both lists of hours are absent, or both hold hours that agree one by one.
pub open spec fn same_hours(a: Option<Vec<WeatherHourlyData>>, b: Option<Vec<WeatherHourlyData>>) -> bool {
    match (a, b) {
        (Some(x), Some(y)) => x@.len() == y@.len() && forall|i: int|
            0 <= i < x@.len() ==> same_hour(#[trigger] x@[i], y@[i]),
        (None, None) => true,
        _ => false,
    }
}

/// `a` and `b` agree field for field, down to their hours and events.
pub open spec fn same_day(a: WeatherDailyData, b: WeatherDailyData) -> bool {
    &&& a.datetime == b.datetime
    &&& a.datetime_epoch == b.datetime_epoch
    &&& a.temp_max == b.temp_max
    &&& a.temp_min == b.temp_min
    &&& a.temp == b.temp
    &&& a.feels_like_max == b.feels_like_max
    &&& a.feels_like_min == b.feels_like_min
    &&& a.feels_like == b.feels_like
    &&& a.dew == b.dew
    &&& a.humidity == b.humidity
    &&& a.precip == b.precip
    &&& a.precip_prob == b.precip_prob
    &&& a.precip_cover == b.precip_cover
    &&& strings_view(a.precip_type) == strings_view(b.precip_type)
    &&& a.snow == b.snow
    &&& a.snow_depth == b.snow_depth
    &&& a.wind_gust == b.wind_gust
    &&& a.wind_speed == b.wind_speed
    &&& a.wind_dir == b.wind_dir
    &&& a.pressure == b.pressure
    &&& a.cloud_cover == b.cloud_cover
    &&& a.visibility == b.visibility
    &&& a.solar_radiation == b.solar_radiation
    &&& a.solar_energy == b.solar_energy
    &&& a.uv_index == b.uv_index
    &&& a.sunrise == b.sunrise
    &&& a.sunrise_epoch == b.sunrise_epoch
    &&& a.sunset == b.sunset
    &&& a.sunset_epoch == b.sunset_epoch
    &&& a.moon_phase == b.moon_phase
    &&& a.conditions == b.conditions
    &&& a.description == b.description
    &&& a.icon == b.icon
    &&& strings_view(a.stations) == strings_view(b.stations)
    &&& a.source == b.source
    &&& events_view(a.events) == events_view(b.events)
    &&& same_hours(a.weather_hourly_data, b.weather_hourly_data)
}

/// `v` is a day object that carries the fields of `d`: each present field as
/// its member, each absent one missing or `null`, lists as arrays (of strings
/// where they hold text), hours and events as objects that carry theirs, and
/// every `datetime` as text that reads back as the record's date or time.
pub open spec fn day_encodes(v: JsonValue, d: WeatherDailyData) -> bool {
    &&& day_matches(d, v)
    &&& str_list_ok(v, "preciptype"@)
    &&& str_list_ok(v, "stations"@)
    &&& absent_or_array(v, "events"@)
    &&& absent_or_array(v, "hours"@)
    &&& field(v, "hours"@) matches Some(JsonValue::Array(items)) ==> forall|i: int|
        0 <= i < items@.len() ==> str_list_ok(#[trigger] items@[i], "preciptype"@) && str_list_ok(
            items@[i],
            "stations"@,
        )
}

proof fn lemma_no_hour_error(items: Seq<JsonValue>)
    requires
        forall|i: int| 0 <= i < items.len() ==> hour_error(#[trigger] items[i]) is None,
    ensures
        first_hour_error(items) is None,
    decreases items.len(),
{
    if items.len() > 0 {
        assert(hour_error(items[0]) is None);
        let rest = items.drop_first();
        assert forall|i: int| 0 <= i < rest.len() implies hour_error(#[trigger] rest[i]) is None by {
            assert(rest[i] == items[i + 1]);
        }
        lemma_no_hour_error(rest);
    }
}

/// Reading back a day object that carries the fields of a daily record
/// succeeds and gives a record equal to it field for field.
pub proof fn lemma_daily_round_trip(v: JsonValue, d: WeatherDailyData)
    requires
        day_encodes(v, d),
    ensures
        day_error(v) is None,
        forall|d2: WeatherDailyData| #[trigger] day_matches(d2, v) ==> same_day(d2, d),
{
    if let Some(JsonValue::Array(items)) = field(v, "events"@) {
        let out = d.events.unwrap();
        assert forall|i: int| 0 <= i < items@.len() implies event_ok(#[trigger] items@[i]) by {
            assert(event_matches(out@[i], items@[i]));
        }
        assert(all_events_ok(items@));
    }
    if let Some(JsonValue::Array(items)) = field(v, "hours"@) {
        let out = d.weather_hourly_data.unwrap();
        assert forall|i: int| 0 <= i < items@.len() implies hour_error(#[trigger] items@[i]) is None by {
            assert(hour_matches(out@[i], items@[i]));
        }
        lemma_no_hour_error(items@);
    }
    assert forall|d2: WeatherDailyData| #[trigger] day_matches(d2, v) implies same_day(d2, d) by {
        lemma_list_unique(d2.precip_type, d.precip_type, v, "preciptype"@);
        lemma_list_unique(d2.stations, d.stations, v, "stations"@);
        if let Some(JsonValue::Array(items)) = field(v, "events"@) {
            let x = d2.events.unwrap();
            let y = d.events.unwrap();
            assert forall|i: int| 0 <= i < items@.len() implies x@[i] == y@[i] by {
                assert(event_matches(x@[i], items@[i]));
                assert(event_matches(y@[i], items@[i]));
            }
            assert(x@ =~= y@);
        }
        if let Some(JsonValue::Array(items)) = field(v, "hours"@) {
            let x = d2.weather_hourly_data.unwrap();
            let y = d.weather_hourly_data.unwrap();
            assert forall|i: int| 0 <= i < x@.len() implies same_hour(#[trigger] x@[i], y@[i]) by {
                assert(hour_matches(y@[i], items@[i]));
                lemma_hour_round_trip(items@[i], y@[i]);
                assert(hour_matches(x@[i], items@[i]));
            }
        }
    }
}

} // verus!
