use vstd::prelude::*;
use crate::calendar::{time_field, TimeOfDay};
use crate::error::ParseError;
use crate::json::{
    lemma_list_unique, list_matches, num_field, str_field, str_list_ok, strings_view, u64_field,
    JsonNumber, JsonValue,
};

verus! {

/// The weather of one hour within a day.
pub struct WeatherHourlyData {
    pub datetime: TimeOfDay,
    pub datetime_epoch: Option<u64>,
    pub temp: Option<JsonNumber>,
    pub feels_like: Option<JsonNumber>,
    pub humidity: Option<JsonNumber>,
    pub dew: Option<JsonNumber>,
    pub precip: Option<JsonNumber>,
    pub precip_prob: Option<JsonNumber>,
    pub snow: Option<JsonNumber>,
    pub snow_depth: Option<JsonNumber>,
    pub precip_type: Option<Vec<String>>,
    pub wind_gust: Option<JsonNumber>,
    pub wind_speed: Option<JsonNumber>,
    pub wind_dir: Option<JsonNumber>,
    pub pressure: Option<JsonNumber>,
    pub visibility: Option<JsonNumber>,
    pub cloud_cover: Option<JsonNumber>,
    pub solar_radiation: Option<JsonNumber>,
    pub solar_energy: Option<JsonNumber>,
    pub uv_index: Option<JsonNumber>,
    pub conditions: Option<String>,
    pub icon: Option<String>,
    pub stations: Option<Vec<String>>,
    pub source: Option<String>,
}

impl WeatherHourlyData {
    /// A record of that hour with nothing else known.
    pub fn new(datetime: TimeOfDay) -> (r: WeatherHourlyData)
        ensures
            r.datetime == datetime,
            r.datetime_epoch is None,
            r.temp is None,
            r.feels_like is None,
            r.humidity is None,
            r.dew is None,
            r.precip is None,
            r.precip_prob is None,
            r.snow is None,
            r.snow_depth is None,
            r.precip_type is None,
            r.wind_gust is None,
            r.wind_speed is None,
            r.wind_dir is None,
            r.pressure is None,
            r.visibility is None,
            r.cloud_cover is None,
            r.solar_radiation is None,
            r.solar_energy is None,
            r.uv_index is None,
            r.conditions is None,
            r.icon is None,
            r.stations is None,
            r.source is None,
    {
        WeatherHourlyData {
            datetime,
            datetime_epoch: None,
            temp: None,
            feels_like: None,
            humidity: None,
            dew: None,
            precip: None,
            precip_prob: None,
            snow: None,
            snow_depth: None,
            precip_type: None,
            wind_gust: None,
            wind_speed: None,
            wind_dir: None,
            pressure: None,
            visibility: None,
            cloud_cover: None,
            solar_radiation: None,
            solar_energy: None,
            uv_index: None,
            conditions: None,
            icon: None,
            stations: None,
            source: None,
        }
    }

    pub fn datetime(&self) -> (r: TimeOfDay)
        ensures
            r == self.datetime,
    {
        self.datetime
    }

    pub fn datetime_epoch(&self) -> (r: Option<u64>)
        ensures
            r == self.datetime_epoch,
    {
        self.datetime_epoch
    }

    pub fn temp(&self) -> (r: &Option<JsonNumber>)
        ensures
            *r == self.temp,
    {
        &self.temp
    }

    pub fn feels_like(&self) -> (r: &Option<JsonNumber>)
        ensures
            *r == self.feels_like,
    {
        &self.feels_like
    }

    pub fn humidity(&self) -> (r: &Option<JsonNumber>)
        ensures
            *r == self.humidity,
    {
        &self.humidity
    }

    pub fn dew(&self) -> (r: &Option<JsonNumber>)
        ensures
            *r == self.dew,
    {
        &self.dew
    }

    pub fn precip(&self) -> (r: &Option<JsonNumber>)
        ensures
            *r == self.precip,
    {
        &self.precip
    }

    pub fn precip_prob(&self) -> (r: &Option<JsonNumber>)
        ensures
            *r == self.precip_prob,
    {
        &self.precip_prob
    }

    pub fn snow(&self) -> (r: &Option<JsonNumber>)
        ensures
            *r == self.snow,
    {
        &self.snow
    }

    pub fn snow_depth(&self) -> (r: &Option<JsonNumber>)
        ensures
            *r == self.snow_depth,
    {
        &self.snow_depth
    }

    pub fn precip_type(&self) -> (r: &Option<Vec<String>>)
        ensures
            *r == self.precip_type,
    {
        &self.precip_type
    }

    pub fn wind_gust(&self) -> (r: &Option<JsonNumber>)
        ensures
            *r == self.wind_gust,
    {
        &self.wind_gust
    }

    pub fn wind_speed(&self) -> (r: &Option<JsonNumber>)
        ensures
            *r == self.wind_speed,
    {
        &self.wind_speed
    }

    pub fn wind_dir(&self) -> (r: &Option<JsonNumber>)
        ensures
            *r == self.wind_dir,
    {
        &self.wind_dir
    }

    pub fn pressure(&self) -> (r: &Option<JsonNumber>)
        ensures
            *r == self.pressure,
    {
        &self.pressure
    }

    pub fn visibility(&self) -> (r: &Option<JsonNumber>)
        ensures
            *r == self.visibility,
    {
        &self.visibility
    }

    pub fn cloud_cover(&self) -> (r: &Option<JsonNumber>)
        ensures
            *r == self.cloud_cover,
    {
        &self.cloud_cover
    }

    pub fn solar_radiation(&self) -> (r: &Option<JsonNumber>)
        ensures
            *r == self.solar_radiation,
    {
        &self.solar_radiation
    }

    pub fn solar_energy(&self) -> (r: &Option<JsonNumber>)
        ensures
            *r == self.solar_energy,
    {
        &self.solar_energy
    }

    pub fn uv_index(&self) -> (r: &Option<JsonNumber>)
        ensures
            *r == self.uv_index,
    {
        &self.uv_index
    }

    pub fn conditions(&self) -> (r: &Option<String>)
        ensures
            *r == self.conditions,
    {
        &self.conditions
    }

    pub fn icon(&self) -> (r: &Option<String>)
        ensures
            *r == self.icon,
    {
        &self.icon
    }

    pub fn stations(&self) -> (r: &Option<Vec<String>>)
        ensures
            *r == self.stations,
    {
        &self.stations
    }

    pub fn source(&self) -> (r: &Option<String>)
        ensures
            *r == self.source,
    {
        &self.source
    }
}

/// Why the hour object `v` cannot be read, if it cannot: its `datetime` is
/// checked first, then its lists.
pub open spec fn hour_error(v: JsonValue) -> Option<ParseError> {
    if time_field(v, "datetime"@) is None {
        Some(ParseError::InvalidTime)
    } else if !str_list_ok(v, "preciptype"@) || !str_list_ok(v, "stations"@) {
        Some(ParseError::InvalidList)
    } else {
        None
    }
}

/// `h` holds exactly what the hour object `v` says.
pub open spec fn hour_matches(h: WeatherHourlyData, v: JsonValue) -> bool {
    &&& time_field(v, "datetime"@) == Some(h.datetime)
    &&& h.datetime_epoch == u64_field(v, "datetimeEpoch"@)
    &&& h.temp == num_field(v, "temp"@)
    &&& h.feels_like == num_field(v, "feelslike"@)
    &&& h.humidity == num_field(v, "humidity"@)
    &&& h.dew == num_field(v, "dew"@)
    &&& h.precip == num_field(v, "precip"@)
    &&& h.precip_prob == num_field(v, "precipprob"@)
    &&& h.snow == num_field(v, "snow"@)
    &&& h.snow_depth == num_field(v, "snowdepth"@)
    &&& list_matches(h.precip_type, v, "preciptype"@)
    &&& h.wind_gust == num_field(v, "windgust"@)
    &&& h.wind_speed == num_field(v, "windspeed"@)
    &&& h.wind_dir == num_field(v, "winddir"@)
    &&& h.pressure == num_field(v, "pressure"@)
    &&& h.visibility == num_field(v, "visibility"@)
    &&& h.cloud_cover == num_field(v, "cloudcover"@)
    &&& h.solar_radiation == num_field(v, "solarradiation"@)
    &&& h.solar_energy == num_field(v, "solarenergy"@)
    &&& h.uv_index == num_field(v, "uvindex"@)
    &&& h.conditions == str_field(v, "conditions"@)
    &&& h.icon == str_field(v, "icon"@)
    &&& list_matches(h.stations, v, "stations"@)
    &&& h.source == str_field(v, "source"@)
}

/// `a` and `b` agree field for field.
pub open spec fn same_hour(a: WeatherHourlyData, b: WeatherHourlyData) -> bool {
    &&& a.datetime == b.datetime
    &&& a.datetime_epoch == b.datetime_epoch
    &&& a.temp == b.temp
    &&& a.feels_like == b.feels_like
    &&& a.humidity == b.humidity
    &&& a.dew == b.dew
    &&& a.precip == b.precip
    &&& a.precip_prob == b.precip_prob
    &&& a.snow == b.snow
    &&& a.snow_depth == b.snow_depth
    &&& strings_view(a.precip_type) == strings_view(b.precip_type)
    &&& a.wind_gust == b.wind_gust
    &&& a.wind_speed == b.wind_speed
    &&& a.wind_dir == b.wind_dir
    &&& a.pressure == b.pressure
    &&& a.visibility == b.visibility
    &&& a.cloud_cover == b.cloud_cover
    &&& a.solar_radiation == b.solar_radiation
    &&& a.solar_energy == b.solar_energy
    &&& a.uv_index == b.uv_index
    &&& a.conditions == b.conditions
    &&& a.icon == b.icon
    &&& strings_view(a.stations) == strings_view(b.stations)
    &&& a.source == b.source
}

/// `v` is an hour object that carries the fields of `h`: each present field
/// as its member, each absent one missing or `null`, the lists as arrays of
/// strings, and a `datetime` whose text reads back as `h`'s time of day.
pub open spec fn hour_encodes(v: JsonValue, h: WeatherHourlyData) -> bool {
    &&& hour_matches(h, v)
    &&& str_list_ok(v, "preciptype"@)
    &&& str_list_ok(v, "stations"@)
}

/// Reading back an hour object that carries the fields of a record succeeds
/// and gives a record equal to it field for field.
pub proof fn lemma_hour_round_trip(v: JsonValue, h: WeatherHourlyData)
    requires
        hour_encodes(v, h),
    ensures
        hour_error(v) is None,
        forall|g: WeatherHourlyData| #[trigger] hour_matches(g, v) ==> same_hour(g, h),
{
    assert forall|g: WeatherHourlyData| #[trigger] hour_matches(g, v) implies same_hour(g, h) by {
        lemma_list_unique(g.precip_type, h.precip_type, v, "preciptype"@);
        lemma_list_unique(g.stations, h.stations, v, "stations"@);
    }
}

} // verus!
