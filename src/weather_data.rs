use vstd::prelude::*;
use vstd::string::StringExecFns;
use crate::calendar::{parse_date, parse_time, DATE_FORMAT, TIME_FORMAT};
use crate::error::{ParseError, WeatherError};
use crate::event::{event_matches, event_ok, Event};
use crate::json::{
    all_strings, field, i32_field, json_document, list_matches, num_field, parse_json, str_field,
    str_list_ok, string_of, u64_field, JsonNumber, JsonValue,
};
use crate::station::{station_matches, Station};
use crate::weather_daily_data::{
    all_events_ok, day_error, day_matches, events_error, events_match, first_hour_error,
    hours_error, hours_match, WeatherDailyData,
};
use crate::weather_hourly_data::{hour_error, hour_matches, WeatherHourlyData};

verus! {

/// The service endpoint that every request starts with.
pub const BASE_URL: &'static str = "https://weather.visualcrossing.com/VisualCrossingWebServices/rest/services/timeline/";

/// A client of the weather service: its API key, the endpoint, and the
/// result of the last successful fetch.
pub struct WeatherData {
    pub api_key: String,
    pub base_url: String,
    pub query_cost: Option<u64>,
    pub latitude: Option<JsonNumber>,
    pub longitude: Option<JsonNumber>,
    pub resolved_address: Option<String>,
    pub address: Option<String>,
    pub timezone: Option<String>,
    pub tz_offset: Option<JsonNumber>,
    pub weather_daily_data: Option<Vec<WeatherDailyData>>,
    pub stations: Option<Vec<(String, Station)>>,
}

/// The error of the first day object that cannot be read.
pub open spec fn first_day_error(days: Seq<JsonValue>) -> Option<ParseError>
    decreases days.len(),
{
    if days.len() == 0 {
        None
    } else if day_error(days[0]) is Some {
        day_error(days[0])
    } else {
        first_day_error(days.drop_first())
    }
}

/// Every member of a `stations` object, when there is one, is an object.
pub open spec fn stations_ok(obj: JsonValue) -> bool {
    match field(obj, "stations"@) {
        Some(JsonValue::Object(entries)) => forall|i: int|
            0 <= i < entries@.len() ==> (#[trigger] entries@[i]).1 is Object,
        _ => true,
    }
}

/// Why the response `obj` cannot be read, if it cannot: `days` must be an
/// array of readable days, then `stations`, when an object, must hold objects.
pub open spec fn response_error(obj: JsonValue) -> Option<ParseError> {
    match field(obj, "days"@) {
        Some(JsonValue::Array(days)) => if first_day_error(days@) is Some {
            first_day_error(days@)
        } else if !stations_ok(obj) {
            Some(ParseError::InvalidStations)
        } else {
            None
        },
        _ => Some(ParseError::MissingDays),
    }
}

/// `r` holds one daily record per element of `days`, in order.
pub open spec fn days_match(r: Seq<WeatherDailyData>, days: Seq<JsonValue>) -> bool {
    r.len() == days.len() && forall|i: int| 0 <= i < days.len() ==> day_matches(#[trigger] r[i], days[i])
}

/// `r` holds one station per member of the response's `stations` object, in
/// order and under the member's name; none when there is no such object.
pub open spec fn stations_match(r: Seq<(String, Station)>, obj: JsonValue) -> bool {
    match field(obj, "stations"@) {
        Some(JsonValue::Object(entries)) => r.len() == entries@.len() && forall|i: int|
            0 <= i < entries@.len() ==> (#[trigger] r[i]).0 == entries@[i].0 && station_matches(
                r[i].1,
                entries@[i].1,
            ),
        _ => r.len() == 0,
    }
}

/// No two members of an object share a name.
pub open spec fn names_distinct(entries: Seq<(String, JsonValue)>) -> bool {
    forall|i: int, j: int|
        0 <= i < entries.len() && 0 <= j < entries.len() && i != j ==> (#[trigger] entries[i]).0@
            != (#[trigger] entries[j]).0@
}

/// No two stations share a name, so the list is a mapping from name to station.
pub open spec fn station_names_distinct(stations: Seq<(String, Station)>) -> bool {
    forall|i: int, j: int|
        0 <= i < stations.len() && 0 <= j < stations.len() && i != j ==> (#[trigger] stations[i]).0@
            != (#[trigger] stations[j]).0@
}

impl WeatherData {
    /// Reads member `key` of `value` as text; absent on a missing member, `null`,
    /// or a value of another JSON type.
    pub fn get_string_or_null(value: &JsonValue, key: &str) -> (r: Option<String>)
        ensures
            r == str_field(*value, key@),
            field(*value, key@) is None ==> r is None,
            field(*value, key@) == Some(JsonValue::Null) ==> r is None,
            (field(*value, key@) matches Some(x) && !(x is String)) ==> r is None,
    {
        match value.get(key) {
            Some(JsonValue::String(s)) => Some(s.clone()),
            _ => None,
        }
    }

    /// Reads member `key` of `value` as a number of any kind; absent on a missing
    /// member, `null`, or a value of another JSON type.
    pub fn get_double_or_null(value: &JsonValue, key: &str) -> (r: Option<JsonNumber>)
        ensures
            r == num_field(*value, key@),
            field(*value, key@) is None ==> r is None,
            field(*value, key@) == Some(JsonValue::Null) ==> r is None,
            (field(*value, key@) matches Some(x) && !(x is Number)) ==> r is None,
    {
        match value.get(key) {
            Some(JsonValue::Number(n)) => Some(n.copy()),
            _ => None,
        }
    }

    /// Reads member `key` of `value` as a non-negative integer; absent on a missing
    /// member, `null`, or any other value.
    pub fn get_long_or_null(value: &JsonValue, key: &str) -> (r: Option<u64>)
        ensures
            r == u64_field(*value, key@),
            field(*value, key@) is None ==> r is None,
            field(*value, key@) == Some(JsonValue::Null) ==> r is None,
            (field(*value, key@) matches Some(x) && !(x is Number)) ==> r is None,
    {
        match value.get(key) {
            Some(JsonValue::Number(n)) => n.as_u64(),
            _ => None,
        }
    }

    /// Reads member `key` of `value` as an integer that fits in 32 bits; absent
    /// on a missing member, `null`, an integer out of range, or any other value.
    pub fn get_int_or_null(value: &JsonValue, key: &str) -> (r: Option<i32>)
        ensures
            r == i32_field(*value, key@),
            field(*value, key@) is None ==> r is None,
            field(*value, key@) == Some(JsonValue::Null) ==> r is None,
            (field(*value, key@) matches Some(x) && !(x is Number)) ==> r is None,
    {
        match value.get(key) {
            Some(JsonValue::Number(n)) => match n.as_i64() {
                Some(i) => if i32::MIN as i64 <= i && i <= i32::MAX as i64 {
                Some(i as i32)
            } else {
                None
            },
                None => None,
            },
            _ => None,
        }
    }

    /// Reads member `key` of `value` as a list of strings: absent when the member
    /// is missing or `null`, an error when it is anything but an array of strings.
    pub fn get_string_list(value: &JsonValue, key: &str) -> (r: Result<Option<Vec<String>>, ParseError>)
        ensures
            r is Ok <==> str_list_ok(*value, key@),
            r is Err ==> r == Err::<Option<Vec<String>>, ParseError>(ParseError::InvalidList),
            r matches Ok(l) ==> list_matches(l, *value, key@),
    {
        match value.get(key) {
            None => Ok(None),
            Some(JsonValue::Null) => Ok(None),
            Some(JsonValue::Array(items)) => {
                let mut out: Vec<String> = Vec::new();
                let mut i: usize = 0;
                while i < items.len()
                    invariant
                        0 <= i <= items@.len(),
                        field(*value, key@) == Some(JsonValue::Array(*items)),
                        out@.len() == i,
                        forall|j: int| 0 <= j < i ==> (#[trigger] items@[j]) is String,
                        forall|j: int| 0 <= j < i ==> (#[trigger] out@[j])@ == string_of(items@[j]),
                    decreases items@.len() - i,
                {
                    match &items[i] {
                        JsonValue::String(s) => out.push(s.clone()),
                        _ => {
                            assert(!all_strings(items@));
                            return Err(ParseError::InvalidList);
                        },
                    }
                    i = i + 1;
                }
                assert(all_strings(items@));
                Ok(Some(out))
            },
            Some(_) => Err(ParseError::InvalidList),
        }
    }

    /// Builds an event from its JSON object; its `datetime` must be a calendar date.
    pub fn create_event(v: &JsonValue) -> (r: Result<Event, ParseError>)
        ensures
            r is Ok <==> event_ok(*v),
            r is Err ==> r == Err::<Event, ParseError>(ParseError::InvalidDate),
            r matches Ok(e) ==> event_matches(e, *v),
    {
        let date = match Self::get_string_or_null(v, "datetime") {
            Some(s) => parse_date(s.as_str(), DATE_FORMAT),
            None => None,
        };
        match date {
            None => Err(ParseError::InvalidDate),
            Some(d) => Ok(Event {
                datetime: d,
                datetime_epoch: Self::get_long_or_null(v, "datetimeEpoch"),
                event_type: Self::get_string_or_null(v, "type"),
                latitude: Self::get_double_or_null(v, "latitude"),
                longitude: Self::get_double_or_null(v, "longitude"),
                distance: Self::get_double_or_null(v, "distance"),
                description: Self::get_string_or_null(v, "description"),
                size: Self::get_double_or_null(v, "size"),
            }),
        }
    }

    /// Builds an hourly record from its JSON object; its `datetime` must be a time
    /// of day and its lists must hold strings.
    pub fn create_hourly_data(v: &JsonValue) -> (r: Result<WeatherHourlyData, ParseError>)
        ensures
            r is Err <==> hour_error(*v) is Some,
            r matches Err(e) ==> hour_error(*v) == Some(e),
            r matches Ok(h) ==> hour_matches(h, *v),
    {
        let time = match Self::get_string_or_null(v, "datetime") {
            Some(s) => parse_time(s.as_str(), TIME_FORMAT),
            None => None,
        };
        let t = match time {
            None => return Err(ParseError::InvalidTime),
            Some(t) => t,
        };
        let precip_type = Self::get_string_list(v, "preciptype")?;
        let stations = Self::get_string_list(v, "stations")?;
        Ok(WeatherHourlyData {
            datetime: t,
            datetime_epoch: Self::get_long_or_null(v, "datetimeEpoch"),
            temp: Self::get_double_or_null(v, "temp"),
            feels_like: Self::get_double_or_null(v, "feelslike"),
            humidity: Self::get_double_or_null(v, "humidity"),
            dew: Self::get_double_or_null(v, "dew"),
            precip: Self::get_double_or_null(v, "precip"),
            precip_prob: Self::get_double_or_null(v, "precipprob"),
            snow: Self::get_double_or_null(v, "snow"),
            snow_depth: Self::get_double_or_null(v, "snowdepth"),
            precip_type,
            wind_gust: Self::get_double_or_null(v, "windgust"),
            wind_speed: Self::get_double_or_null(v, "windspeed"),
            wind_dir: Self::get_double_or_null(v, "winddir"),
            pressure: Self::get_double_or_null(v, "pressure"),
            visibility: Self::get_double_or_null(v, "visibility"),
            cloud_cover: Self::get_double_or_null(v, "cloudcover"),
            solar_radiation: Self::get_double_or_null(v, "solarradiation"),
            solar_energy: Self::get_double_or_null(v, "solarenergy"),
            uv_index: Self::get_double_or_null(v, "uvindex"),
            conditions: Self::get_string_or_null(v, "conditions"),
            icon: Self::get_string_or_null(v, "icon"),
            stations,
            source: Self::get_string_or_null(v, "source"),
        })
    }

    /// Builds the events of a day object: absent when `events` is missing or
    /// `null`; otherwise it must be an array of readable events.
    fn create_events(v: &JsonValue) -> (r: Result<Option<Vec<Event>>, ParseError>)
        ensures
            r is Err <==> events_error(*v) is Some,
            r matches Err(e) ==> events_error(*v) == Some(e),
            r matches Ok(out) ==> events_match(out, *v),
    {
        match v.get("events") {
            None => Ok(None),
            Some(JsonValue::Null) => Ok(None),
            Some(JsonValue::Array(items)) => {
                let mut out: Vec<Event> = Vec::new();
                let mut i: usize = 0;
                while i < items.len()
                    invariant
                        0 <= i <= items@.len(),
                        field(*v, "events"@) == Some(JsonValue::Array(*items)),
                        out@.len() == i,
                        forall|j: int| 0 <= j < i ==> event_ok(#[trigger] items@[j]),
                        forall|j: int| 0 <= j < i ==> event_matches(#[trigger] out@[j], items@[j]),
                    decreases items@.len() - i,
                {
                    match Self::create_event(&items[i]) {
                        Ok(e) => out.push(e),
                        Err(e) => {
                            assert(!event_ok(items@[i as int]));
                            assert(!all_events_ok(items@));
                            return Err(e);
                        },
                    }
                    i = i + 1;
                }
                Ok(Some(out))
            },
            Some(_) => Err(ParseError::InvalidList),
        }
    }

    /// Builds the hours of a day object: absent when `hours` is missing or `null`;
    /// otherwise it must be an array of readable hours, and the first bad one
    /// gives the error.
    fn create_hours(v: &JsonValue) -> (r: Result<Option<Vec<WeatherHourlyData>>, ParseError>)
        ensures
            r is Err <==> hours_error(*v) is Some,
            r matches Err(e) ==> hours_error(*v) == Some(e),
            r matches Ok(out) ==> hours_match(out, *v),
    {
        match v.get("hours") {
            None => Ok(None),
            Some(JsonValue::Null) => Ok(None),
            Some(JsonValue::Array(items)) => {
                let mut out: Vec<WeatherHourlyData> = Vec::new();
                let mut i: usize = 0;
                assert(items@.subrange(0, items@.len() as int) =~= items@);
                while i < items.len()
                    invariant
                        0 <= i <= items@.len(),
                        field(*v, "hours"@) == Some(JsonValue::Array(*items)),
                        first_hour_error(items@) == first_hour_error(items@.subrange(i as int, items@.len() as int)),
                        out@.len() == i,
                        forall|j: int| 0 <= j < i ==> hour_matches(#[trigger] out@[j], items@[j]),
                    decreases items@.len() - i,
                {
                    let ghost rest = items@.subrange(i as int, items@.len() as int);
                    assert(rest.drop_first() =~= items@.subrange(i + 1, items@.len() as int));
                    assert(rest[0] == items@[i as int]);
                    match Self::create_hourly_data(&items[i]) {
                        Ok(h) => out.push(h),
                        Err(e) => {
                            return Err(e);
                        },
                    }
                    i = i + 1;
                }
                assert(items@.subrange(i as int, items@.len() as int).len() == 0);
                Ok(Some(out))
            },
            Some(_) => Err(ParseError::InvalidList),
        }
    }

    /// Builds a daily record from its JSON object. Checked in order: its
    /// `datetime`, its lists of strings, its events, its hours; the first failure
    /// is the error.
    pub fn create_weather_daily_data(v: &JsonValue) -> (r: Result<WeatherDailyData, ParseError>)
        ensures
            r is Err <==> day_error(*v) is Some,
            r matches Err(e) ==> day_error(*v) == Some(e),
            r matches Ok(d) ==> day_matches(d, *v),
    {
        let date = match Self::get_string_or_null(v, "datetime") {
            Some(s) => parse_date(s.as_str(), DATE_FORMAT),
            None => None,
        };
        let d = match date {
            None => return Err(ParseError::InvalidDate),
            Some(d) => d,
        };
        let precip_type = Self::get_string_list(v, "preciptype")?;
        let stations = Self::get_string_list(v, "stations")?;
        let events = Self::create_events(v)?;
        let weather_hourly_data = Self::create_hours(v)?;
        Ok(WeatherDailyData {
            datetime: d,
            datetime_epoch: Self::get_long_or_null(v, "datetimeEpoch"),
            temp_max: Self::get_double_or_null(v, "tempmax"),
            temp_min: Self::get_double_or_null(v, "tempmin"),
            temp: Self::get_double_or_null(v, "temp"),
            feels_like_max: Self::get_double_or_null(v, "feelslikemax"),
            feels_like_min: Self::get_double_or_null(v, "feelslikemin"),
            feels_like: Self::get_double_or_null(v, "feelslike"),
            dew: Self::get_double_or_null(v, "dew"),
            humidity: Self::get_double_or_null(v, "humidity"),
            precip: Self::get_double_or_null(v, "precip"),
            precip_prob: Self::get_double_or_null(v, "precipprob"),
            precip_cover: Self::get_double_or_null(v, "precipcover"),
            precip_type,
            snow: Self::get_double_or_null(v, "snow"),
            snow_depth: Self::get_double_or_null(v, "snowdepth"),
            wind_gust: Self::get_double_or_null(v, "windgust"),
            wind_speed: Self::get_double_or_null(v, "windspeed"),
            wind_dir: Self::get_double_or_null(v, "winddir"),
            pressure: Self::get_double_or_null(v, "pressure"),
            cloud_cover: Self::get_double_or_null(v, "cloudcover"),
            visibility: Self::get_double_or_null(v, "visibility"),
            solar_radiation: Self::get_double_or_null(v, "solarradiation"),
            solar_energy: Self::get_double_or_null(v, "solarenergy"),
            uv_index: Self::get_double_or_null(v, "uvindex"),
            sunrise: Self::get_string_or_null(v, "sunrise"),
            sunrise_epoch: Self::get_long_or_null(v, "sunriseEpoch"),
            sunset: Self::get_string_or_null(v, "sunset"),
            sunset_epoch: Self::get_long_or_null(v, "sunsetEpoch"),
            moon_phase: Self::get_double_or_null(v, "moonphase"),
            conditions: Self::get_string_or_null(v, "conditions"),
            description: Self::get_string_or_null(v, "description"),
            icon: Self::get_string_or_null(v, "icon"),
            stations,
            source: Self::get_string_or_null(v, "source"),
            events,
            weather_hourly_data,
        })
    }

    /// Builds a station from its JSON object.
    pub fn create_station(v: &JsonValue) -> (r: Station)
        ensures
            station_matches(r, *v),
    {
        Station {
            distance: Self::get_double_or_null(v, "distance"),
            latitude: Self::get_double_or_null(v, "latitude"),
            longitude: Self::get_double_or_null(v, "longitude"),
            use_count: Self::get_int_or_null(v, "useCount"),
            id: Self::get_string_or_null(v, "id"),
            name: Self::get_string_or_null(v, "name"),
            quality: Self::get_int_or_null(v, "quality"),
            contribution: Self::get_double_or_null(v, "contribution"),
        }
    }

    /// Builds the daily records of a response, or gives the error of the first
    /// day that cannot be read.
    pub fn create_days(days: &Vec<JsonValue>) -> (r: Result<Vec<WeatherDailyData>, ParseError>)
        ensures
            r is Err <==> first_day_error(days@) is Some,
            r matches Err(e) ==> first_day_error(days@) == Some(e),
            r matches Ok(out) ==> days_match(out@, days@),
    {
        let mut out: Vec<WeatherDailyData> = Vec::new();
        let mut i: usize = 0;
        assert(days@.subrange(0, days@.len() as int) =~= days@);
        while i < days.len()
            invariant
                0 <= i <= days@.len(),
                first_day_error(days@) == first_day_error(days@.subrange(i as int, days@.len() as int)),
                out@.len() == i,
                forall|j: int| 0 <= j < i ==> day_matches(#[trigger] out@[j], days@[j]),
            decreases days@.len() - i,
        {
            let ghost rest = days@.subrange(i as int, days@.len() as int);
            assert(rest.drop_first() =~= days@.subrange(i + 1, days@.len() as int));
            assert(rest[0] == days@[i as int]);
            match Self::create_weather_daily_data(&days[i]) {
                Ok(d) => out.push(d),
                Err(e) => {
                    return Err(e);
                },
            }
            i = i + 1;
        }
        assert(days@.subrange(i as int, days@.len() as int).len() == 0);
        Ok(out)
    }

    /// Builds the station mapping of a response: empty when `stations` is not an
    /// object; an error when one of its members is not an object.
    pub fn create_stations(obj: &JsonValue) -> (r: Result<Vec<(String, Station)>, ParseError>)
        ensures
            r is Ok <==> stations_ok(*obj),
            r is Err ==> r == Err::<Vec<(String, Station)>, ParseError>(ParseError::InvalidStations),
            r matches Ok(out) ==> stations_match(out@, *obj),
    {
        let mut out: Vec<(String, Station)> = Vec::new();
        match obj.get("stations") {
            Some(JsonValue::Object(entries)) => {
                let mut i: usize = 0;
                while i < entries.len()
                    invariant
                        0 <= i <= entries@.len(),
                        field(*obj, "stations"@) == Some(JsonValue::Object(*entries)),
                        out@.len() == i,
                        forall|j: int| 0 <= j < i ==> (#[trigger] entries@[j]).1 is Object,
                        forall|j: int|
                            0 <= j < i ==> (#[trigger] out@[j]).0 == entries@[j].0 && station_matches(
                                out@[j].1,
                                entries@[j].1,
                            ),
                    decreases entries@.len() - i,
                {
                    let entry = &entries[i];
                    match &entry.1 {
                        JsonValue::Object(_) => {
                            out.push((entry.0.clone(), Self::create_station(&entry.1)));
                        },
                        _ => {
                            assert(!((*entries)@[i as int].1 is Object));
                            return Err(ParseError::InvalidStations);
                        },
                    }
                    i = i + 1;
                }
                Ok(out)
            },
            _ => Ok(out),
        }
    }
}

pub open spec fn opt_str(o: Option<&str>) -> Option<Seq<char>> {
    match o {
        Some(s) => Some(s@),
        None => None,
    }
}

/// `name` followed by the value, or nothing when there is no value.
pub open spec fn query_param(name: Seq<char>, value: Option<Seq<char>>) -> Seq<char> {
    match value {
        Some(v) => name + v,
        None => Seq::empty(),
    }
}

/// The path part that selects dates: `/from/to`, with an empty `to` when it
/// is not given, and nothing without `from`.
pub open spec fn date_path(from: Option<Seq<char>>, to: Option<Seq<char>>) -> Seq<char> {
    match from {
        Some(f) => "/"@ + f + "/"@ + match to {
            Some(t) => t,
            None => Seq::empty(),
        },
        None => Seq::empty(),
    }
}

/// The request for `location`: the endpoint, the location, the date path, then
/// the key and each optional parameter that is given, in that order. Values are
/// taken as they are, without encoding.
pub open spec fn request_url_of(
    base: Seq<char>,
    key: Seq<char>,
    location: Seq<char>,
    from: Option<Seq<char>>,
    to: Option<Seq<char>>,
    unit_group: Option<Seq<char>>,
    sections: Option<Seq<char>>,
    elements: Option<Seq<char>>,
) -> Seq<char> {
    base + location + date_path(from, to) + "?key="@ + key + query_param("&unitGroup="@, unit_group)
        + query_param("&include="@, sections) + query_param("&elements="@, elements)
}

/// `new` is the client `old` after taking in the response `obj`: the key and
/// endpoint stay, every other field comes from the response.
pub open spec fn result_matches(new: WeatherData, old: WeatherData, obj: JsonValue) -> bool {
    &&& new.api_key == old.api_key
    &&& new.base_url == old.base_url
    &&& new.query_cost == u64_field(obj, "queryCost"@)
    &&& new.latitude == num_field(obj, "latitude"@)
    &&& new.longitude == num_field(obj, "longitude"@)
    &&& new.resolved_address == str_field(obj, "resolvedAddress"@)
    &&& new.address == str_field(obj, "address"@)
    &&& new.timezone == str_field(obj, "timezone"@)
    &&& new.tz_offset == num_field(obj, "tzoffset"@)
    &&& field(obj, "days"@) matches Some(JsonValue::Array(days))
    &&& new.weather_daily_data matches Some(out) && days_match(out@, days@)
    &&& new.stations matches Some(st) && stations_match(st@, obj)
}

impl WeatherData {
    /// A client with the given key and no result yet.
    pub fn new(key: String) -> (r: WeatherData)
        ensures
            r.api_key == key,
            r.base_url@ == BASE_URL@,
            r.query_cost is None,
            r.latitude is None,
            r.longitude is None,
            r.resolved_address is None,
            r.address is None,
            r.timezone is None,
            r.tz_offset is None,
            r.weather_daily_data is None,
            r.stations is None,
    {
        WeatherData {
            api_key: key,
            base_url: String::from_str(BASE_URL),
            query_cost: None,
            latitude: None,
            longitude: None,
            resolved_address: None,
            address: None,
            timezone: None,
            tz_offset: None,
            weather_daily_data: None,
            stations: None,
        }
    }

    pub fn api_key(&self) -> (r: &String)
        ensures
            *r == self.api_key,
    {
        &self.api_key
    }

    pub fn base_url(&self) -> (r: &str)
        ensures
            r@ == self.base_url@,
    {
        self.base_url.as_str()
    }

    pub fn query_cost(&self) -> (r: Option<u64>)
        ensures
            r == self.query_cost,
    {
        self.query_cost
    }

    pub fn latitude(&self) -> (r: &Option<JsonNumber>)
        ensures
            *r == self.latitude,
    {
        &self.latitude
    }

    pub fn longitude(&self) -> (r: &Option<JsonNumber>)
        ensures
            *r == self.longitude,
    {
        &self.longitude
    }

    pub fn resolved_address(&self) -> (r: &Option<String>)
        ensures
            *r == self.resolved_address,
    {
        &self.resolved_address
    }

    pub fn address(&self) -> (r: &Option<String>)
        ensures
            *r == self.address,
    {
        &self.address
    }

    pub fn timezone(&self) -> (r: &Option<String>)
        ensures
            *r == self.timezone,
    {
        &self.timezone
    }

    pub fn tz_offset(&self) -> (r: &Option<JsonNumber>)
        ensures
            *r == self.tz_offset,
    {
        &self.tz_offset
    }

    pub fn weather_daily_data(&self) -> (r: &Option<Vec<WeatherDailyData>>)
        ensures
            *r == self.weather_daily_data,
    {
        &self.weather_daily_data
    }

    pub fn stations(&self) -> (r: &Option<Vec<(String, Station)>>)
        ensures
            *r == self.stations,
    {
        &self.stations
    }

    /// Sets the key that later fetches send; nothing else changes.
    pub fn set_api_key(&mut self, api_key: String)
        ensures
            final(self).api_key == api_key,
            final(self).base_url == old(self).base_url,
            final(self).query_cost == old(self).query_cost,
            final(self).latitude == old(self).latitude,
            final(self).longitude == old(self).longitude,
            final(self).resolved_address == old(self).resolved_address,
            final(self).address == old(self).address,
            final(self).timezone == old(self).timezone,
            final(self).tz_offset == old(self).tz_offset,
            final(self).weather_daily_data == old(self).weather_daily_data,
            final(self).stations == old(self).stations,
    {
        self.api_key = api_key;
    }

    /// The request that a fetch with these parameters sends, or
    /// `Configuration` when no API key is set.
    pub fn request_url(
        &self,
        location: &str,
        from: Option<&str>,
        to: Option<&str>,
        unit_group: Option<&str>,
        sections: Option<&str>,
        elements: Option<&str>,
    ) -> (r: Result<String, WeatherError>)
        ensures
            r is Err <==> self.api_key@.len() == 0,
            r is Err ==> r == Err::<String, WeatherError>(WeatherError::Configuration),
            r matches Ok(url) ==> url@ == request_url_of(
                self.base_url@,
                self.api_key@,
                location@,
                opt_str(from),
                opt_str(to),
                opt_str(unit_group),
                opt_str(sections),
                opt_str(elements),
            ),
    {
        if self.api_key.as_str().is_empty() {
            return Err(WeatherError::Configuration);
        }
        let mut url = self.base_url.clone();
        url.append(location);
        let ghost head = url@;
        match from {
            Some(f) => {
                url.append("/");
                url.append(f);
                url.append("/");
                match to {
                    Some(t) => url.append(t),
                    None => {},
                }
            },
            None => {},
        }
        assert(url@ =~= head + date_path(opt_str(from), opt_str(to)));
        let ghost head = url@;
        url.append("?key=");
        url.append(self.api_key.as_str());
        assert(url@ =~= head + "?key="@ + self.api_key@);
        let ghost head = url@;
        match unit_group {
            Some(u) => {
                url.append("&unitGroup=");
                url.append(u);
            },
            None => {},
        }
        assert(url@ =~= head + query_param("&unitGroup="@, opt_str(unit_group)));
        let ghost head = url@;
        match sections {
            Some(i) => {
                url.append("&include=");
                url.append(i);
            },
            None => {},
        }
        assert(url@ =~= head + query_param("&include="@, opt_str(sections)));
        let ghost head = url@;
        match elements {
            Some(e) => {
                url.append("&elements=");
                url.append(e);
            },
            None => {},
        }
        assert(url@ =~= head + query_param("&elements="@, opt_str(elements)));
        Ok(url)
    }

    /// Replaces the stored result with what the response `obj` holds. When it
    /// cannot be read, nothing changes and the error says why.
    pub fn apply_response(&mut self, obj: &JsonValue) -> (r: Result<(), ParseError>)
        ensures
            r is Err <==> response_error(*obj) is Some,
            r matches Err(e) ==> response_error(*obj) == Some(e),
            r is Err ==> *final(self) == *old(self),
            r is Ok ==> result_matches(*final(self), *old(self), *obj),
            !(field(*obj, "days"@) matches Some(JsonValue::Array(_))) ==> r == Err::<(), ParseError>(
                ParseError::MissingDays,
            ),
            (field(*obj, "days"@) matches Some(JsonValue::Array(days)) && first_day_error(days@) is None
                && !stations_ok(*obj)) ==> r == Err::<(), ParseError>(ParseError::InvalidStations),
    {
        let days = match obj.get("days") {
            Some(JsonValue::Array(days)) => Self::create_days(days)?,
            _ => return Err(ParseError::MissingDays),
        };
        let stations = Self::create_stations(obj)?;
        self.query_cost = Self::get_long_or_null(obj, "queryCost");
        self.latitude = Self::get_double_or_null(obj, "latitude");
        self.longitude = Self::get_double_or_null(obj, "longitude");
        self.resolved_address = Self::get_string_or_null(obj, "resolvedAddress");
        self.address = Self::get_string_or_null(obj, "address");
        self.timezone = Self::get_string_or_null(obj, "timezone");
        self.tz_offset = Self::get_double_or_null(obj, "tzoffset");
        self.weather_daily_data = Some(days);
        self.stations = Some(stations);
        Ok(())
    }

    /// Reads the response body `json_string` and takes in what it holds. On
    /// any failure nothing changes.
    pub fn handle_weather_data(&mut self, json_string: &str) -> (r: Result<(), ParseError>)
        ensures
            r is Err ==> *final(self) == *old(self),
            json_document(json_string@) is None ==> r == Err::<(), ParseError>(ParseError::InvalidJson),
            json_document(json_string@) matches Some(obj) ==> {
                &&& r is Err <==> response_error(obj) is Some
                &&& r matches Err(e) ==> response_error(obj) == Some(e)
                &&& r is Ok ==> result_matches(*final(self), *old(self), obj)
            },
    {
        let obj = parse_json(json_string)?;
        self.apply_response(&obj)
    }

    /// Completes a fetch with what the transport gave back: the response body,
    /// or a description of its failure, which is passed on as it is. Nothing
    /// changes unless the whole body could be taken in.
    pub fn finish_fetch(&mut self, response: Result<String, String>) -> (r: Result<(), WeatherError>)
        ensures
            r is Err ==> *final(self) == *old(self),
            response matches Err(m) ==> r == Err::<(), WeatherError>(WeatherError::Transport(m)),
            response matches Ok(b) ==> {
                &&& json_document(b@) is None ==> r == Err::<(), WeatherError>(
                    WeatherError::Parse(ParseError::InvalidJson),
                )
                &&& json_document(b@) matches Some(obj) ==> {
                    &&& r is Err <==> response_error(obj) is Some
                    &&& r matches Err(e) ==> Some(e) == match response_error(obj) {
                        Some(pe) => Some(WeatherError::Parse(pe)),
                        None => None,
                    }
                    &&& r is Ok ==> result_matches(*final(self), *old(self), obj)
                }
            },
    {
        match response {
            Err(m) => Err(WeatherError::Transport(m)),
            Ok(body) => match self.handle_weather_data(body.as_str()) {
                Ok(()) => Ok(()),
                Err(e) => Err(WeatherError::Parse(e)),
            },
        }
    }
}

} // verus!
