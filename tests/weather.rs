use weather_timeline::calendar::{CalendarDate, TimeOfDay};
use weather_timeline::event::Event;
use weather_timeline::station::Station;
use weather_timeline::weather_daily_data::WeatherDailyData;
use weather_timeline::weather_hourly_data::WeatherHourlyData;
use weather_timeline::error::{ParseError, WeatherError};
use weather_timeline::json::{parse_json, JsonNumber, JsonValue};
use weather_timeline::weather_data::{WeatherData, BASE_URL};

fn client() -> WeatherData {
    WeatherData::new("K".to_string())
}

fn float_of(n: &Option<JsonNumber>) -> Option<f64> {
    match n {
        Some(JsonNumber::Float(x)) => x.as_f64(),
        Some(JsonNumber::PosInt(u)) => Some(*u as f64),
        Some(JsonNumber::NegInt(i)) => Some(*i as f64),
        None => None,
    }
}

#[test]
fn request_url_has_every_part_in_order() {
    let w = client();
    let url = w
        .request_url("38.96,-96.02", Some("2020-7-10"), Some("2020-7-12"), Some("us"), Some("events,hours"), Some(""))
        .unwrap();
    let expected = format!(
        "{}38.96,-96.02/2020-7-10/2020-7-12?key=K&unitGroup=us&include=events,hours&elements=",
        BASE_URL
    );
    assert_eq!(url, expected);
}

#[test]
fn request_url_without_dates_or_options() {
    let w = client();
    let url = w.request_url("K2A1W1", None, None, None, None, None).unwrap();
    assert_eq!(url, format!("{}K2A1W1?key=K", BASE_URL));
}

#[test]
fn request_url_with_from_and_no_to() {
    let w = client();
    let url = w.request_url("Paris", Some("2021-10-19"), None, None, None, None).unwrap();
    assert_eq!(url, format!("{}Paris/2021-10-19/?key=K", BASE_URL));
}

#[test]
fn empty_key_is_a_configuration_error() {
    let w = WeatherData::new(String::new());
    let r = w.request_url("38.96,-96.02", Some("2020-7-10"), Some("2020-7-12"), Some("us"), None, None);
    assert_eq!(r, Err(WeatherError::Configuration));
}

#[test]
fn new_client_has_no_result() {
    let w = client();
    assert_eq!(w.base_url, BASE_URL);
    assert!(w.weather_daily_data.is_none());
    assert!(w.stations.is_none());
    assert!(w.query_cost.is_none());
}

#[test]
fn missing_days_fails_and_keeps_state() {
    let mut w = client();
    w.handle_weather_data(r#"{"queryCost": 3, "days": [], "address": "first"}"#).unwrap();
    let r = w.handle_weather_data(r#"{"queryCost": 7, "address": "second"}"#);
    assert_eq!(r, Err(ParseError::MissingDays));
    assert_eq!(w.query_cost, Some(3));
    assert_eq!(w.address, Some("first".to_string()));
    assert_eq!(w.weather_daily_data.as_ref().map(|d| d.len()), Some(0));
}

#[test]
fn days_that_is_not_an_array_is_missing() {
    let mut w = client();
    assert_eq!(w.handle_weather_data(r#"{"days": {}}"#), Err(ParseError::MissingDays));
}

#[test]
fn empty_days_and_no_stations() {
    let mut w = client();
    w.handle_weather_data(r#"{"days": []}"#).unwrap();
    assert_eq!(w.weather_daily_data.as_ref().map(|d| d.len()), Some(0));
    assert_eq!(w.stations.as_ref().map(|s| s.len()), Some(0));
}

#[test]
fn day_and_hour_times_are_read() {
    let mut w = client();
    w.handle_weather_data(
        r#"{"days": [{"datetime": "2020-07-10", "hours": [{"datetime": "05:00:00", "temp": 71.3}]}]}"#,
    )
    .unwrap();
    let days = w.weather_daily_data.as_ref().unwrap();
    assert_eq!(days[0].datetime, CalendarDate { year: 2020, month: 7, day: 10 });
    let hours = days[0].weather_hourly_data.as_ref().unwrap();
    assert_eq!(hours[0].datetime, TimeOfDay { hour: 5, minute: 0, second: 0, nanosecond: 0 });
    assert_eq!(float_of(&hours[0].temp), Some(71.3));
}

#[test]
fn station_that_is_an_array_is_refused() {
    let mut w = client();
    let r = w.handle_weather_data(r#"{"days": [], "stations": {"KTOP": [1, 2]}}"#);
    assert_eq!(r, Err(ParseError::InvalidStations));
    assert!(w.stations.is_none());
}

#[test]
fn stations_are_read_by_name() {
    let mut w = client();
    w.handle_weather_data(
        r#"{"days": [], "stations": {"KTOP": {"distance": 12.5, "useCount": 4, "id": "KTOP", "name": "Topeka", "quality": 50, "contribution": 0}}}"#,
    )
    .unwrap();
    let st = w.stations.as_ref().unwrap();
    assert_eq!(st.len(), 1);
    assert_eq!(st[0].0, "KTOP");
    let s = &st[0].1;
    assert_eq!(float_of(&s.distance), Some(12.5));
    assert_eq!(s.use_count, Some(4));
    assert_eq!(s.id, Some("KTOP".to_string()));
    assert_eq!(s.name, Some("Topeka".to_string()));
    assert_eq!(s.quality, Some(50));
    assert_eq!(float_of(&s.contribution), Some(0.0));
    assert!(s.latitude.is_none());
}

#[test]
fn invalid_json_is_refused() {
    let mut w = client();
    assert_eq!(w.handle_weather_data("{\"days\": ["), Err(ParseError::InvalidJson));
    assert!(parse_json("not json").is_err());
}

#[test]
fn bad_day_date_is_a_parse_error() {
    let mut w = client();
    assert_eq!(w.handle_weather_data(r#"{"days": [{"datetime": "2020-13-40"}]}"#), Err(ParseError::InvalidDate));
    assert_eq!(w.handle_weather_data(r#"{"days": [{"tempmax": 3}]}"#), Err(ParseError::InvalidDate));
}

#[test]
fn bad_hour_time_is_a_parse_error() {
    let mut w = client();
    let r = w.handle_weather_data(r#"{"days": [{"datetime": "2020-07-10", "hours": [{"datetime": "25:00:00"}]}]}"#);
    assert_eq!(r, Err(ParseError::InvalidTime));
}

#[test]
fn bad_event_date_is_a_parse_error() {
    let mut w = client();
    let r = w.handle_weather_data(r#"{"days": [{"datetime": "2020-07-10", "events": [{"type": "hail"}]}]}"#);
    assert_eq!(r, Err(ParseError::InvalidDate));
}

#[test]
fn lists_must_hold_strings() {
    let mut w = client();
    let r = w.handle_weather_data(r#"{"days": [{"datetime": "2020-07-10", "preciptype": ["rain", 3]}]}"#);
    assert_eq!(r, Err(ParseError::InvalidList));
    let r = w.handle_weather_data(r#"{"days": [{"datetime": "2020-07-10", "events": 5}]}"#);
    assert_eq!(r, Err(ParseError::InvalidList));
}

#[test]
fn scalar_extraction_is_total() {
    let v = parse_json(r#"{"n": null, "s": "text", "i": 42, "neg": -7, "f": 2.5, "big": 4294967297, "count": 3000000000, "low": -2147483648}"#).unwrap();
    assert_eq!(WeatherData::get_string_or_null(&v, "missing"), None);
    assert_eq!(WeatherData::get_string_or_null(&v, "n"), None);
    assert_eq!(WeatherData::get_string_or_null(&v, "i"), None);
    assert_eq!(WeatherData::get_string_or_null(&v, "s"), Some("text".to_string()));
    assert!(WeatherData::get_double_or_null(&v, "s").is_none());
    assert!(WeatherData::get_double_or_null(&v, "n").is_none());
    assert_eq!(float_of(&WeatherData::get_double_or_null(&v, "f")), Some(2.5));
    assert_eq!(float_of(&WeatherData::get_double_or_null(&v, "i")), Some(42.0));
    assert_eq!(WeatherData::get_long_or_null(&v, "i"), Some(42));
    assert_eq!(WeatherData::get_long_or_null(&v, "neg"), None);
    assert_eq!(WeatherData::get_long_or_null(&v, "f"), None);
    assert_eq!(WeatherData::get_int_or_null(&v, "neg"), Some(-7));
    assert_eq!(WeatherData::get_int_or_null(&v, "big"), None);
    assert_eq!(WeatherData::get_int_or_null(&v, "count"), None);
    assert_eq!(WeatherData::get_int_or_null(&v, "low"), Some(i32::MIN));
    assert_eq!(WeatherData::get_int_or_null(&v, "f"), None);
    assert_eq!(WeatherData::get_int_or_null(&v, "s"), None);
}

#[test]
fn string_lists_absent_or_read() {
    let v = parse_json(r#"{"a": ["rain", "snow"], "n": null, "x": "rain"}"#).unwrap();
    assert_eq!(WeatherData::get_string_list(&v, "a"), Ok(Some(vec!["rain".to_string(), "snow".to_string()])));
    assert_eq!(WeatherData::get_string_list(&v, "n"), Ok(None));
    assert_eq!(WeatherData::get_string_list(&v, "missing"), Ok(None));
    assert_eq!(WeatherData::get_string_list(&v, "x"), Err(ParseError::InvalidList));
}

#[test]
fn daily_record_reads_back_its_fields() {
    let v = parse_json(
        r#"{"datetime": "2020-07-11", "datetimeEpoch": 1594443600, "tempmax": 91.2, "tempmin": 70,
            "preciptype": ["rain"], "stations": ["KTOP", "KMHK"], "sunrise": "06:10:05",
            "sunriseEpoch": 1594465805, "moonphase": 0.7, "conditions": "Clear", "source": "obs",
            "events": [{"datetime": "2020-07-11", "type": "hail", "size": 1.25, "datetimeEpoch": 1594480000}],
            "hours": [{"datetime": "00:00:00", "precipprob": 10, "icon": "clear-night", "stations": null}]}"#,
    )
    .unwrap();
    let d = WeatherData::create_weather_daily_data(&v).unwrap();
    assert_eq!(d.datetime, CalendarDate { year: 2020, month: 7, day: 11 });
    assert_eq!(d.datetime_epoch, Some(1594443600));
    assert_eq!(float_of(&d.temp_max), Some(91.2));
    assert_eq!(float_of(&d.temp_min), Some(70.0));
    assert!(d.temp.is_none());
    assert_eq!(d.precip_type, Some(vec!["rain".to_string()]));
    assert_eq!(d.stations, Some(vec!["KTOP".to_string(), "KMHK".to_string()]));
    assert_eq!(d.sunrise, Some("06:10:05".to_string()));
    assert_eq!(d.sunrise_epoch, Some(1594465805));
    assert!(d.sunset.is_none());
    assert_eq!(float_of(&d.moon_phase), Some(0.7));
    assert_eq!(d.conditions, Some("Clear".to_string()));
    assert_eq!(d.source, Some("obs".to_string()));
    let events = d.events.as_ref().unwrap();
    assert_eq!(events.len(), 1);
    assert_eq!(events[0].event_type, Some("hail".to_string()));
    assert_eq!(float_of(&events[0].size), Some(1.25));
    assert_eq!(events[0].datetime_epoch, Some(1594480000));
    let hours = d.weather_hourly_data.as_ref().unwrap();
    assert_eq!(hours.len(), 1);
    assert_eq!(float_of(&hours[0].precip_prob), Some(10.0));
    assert_eq!(hours[0].icon, Some("clear-night".to_string()));
    assert!(hours[0].stations.is_none());
}

#[test]
fn top_level_fields_are_read() {
    let mut w = client();
    w.handle_weather_data(
        r#"{"queryCost": 1, "latitude": 38.96, "longitude": -96.02, "resolvedAddress": "38.96,-96.02",
            "address": "38.96,-96.02", "timezone": "America/Chicago", "tzoffset": -5, "days": []}"#,
    )
    .unwrap();
    assert_eq!(w.query_cost, Some(1));
    assert_eq!(float_of(&w.latitude), Some(38.96));
    assert_eq!(float_of(&w.longitude), Some(-96.02));
    assert_eq!(w.resolved_address, Some("38.96,-96.02".to_string()));
    assert_eq!(w.timezone, Some("America/Chicago".to_string()));
    assert_eq!(float_of(&w.tz_offset), Some(-5.0));
    assert_eq!(w.api_key, "K");
}

#[test]
fn transport_failure_is_passed_on() {
    let mut w = client();
    let r = w.finish_fetch(Err("connection refused".to_string()));
    assert_eq!(r, Err(WeatherError::Transport("connection refused".to_string())));
    assert!(w.weather_daily_data.is_none());
}

#[test]
fn finish_fetch_reads_the_body() {
    let mut w = client();
    assert_eq!(w.finish_fetch(Ok(r#"{"days": []}"#.to_string())), Ok(()));
    assert_eq!(w.weather_daily_data.as_ref().map(|d| d.len()), Some(0));
    assert_eq!(w.finish_fetch(Ok("{}".to_string())), Err(WeatherError::Parse(ParseError::MissingDays)));
}

fn event_date(text: &str) -> Option<CalendarDate> {
    let v = parse_json(&format!("{{\"datetime\": \"{}\"}}", text)).unwrap();
    WeatherData::create_event(&v).ok().map(|e| e.datetime)
}

fn hour_time(text: &str) -> Option<TimeOfDay> {
    let v = parse_json(&format!("{{\"datetime\": \"{}\"}}", text)).unwrap();
    WeatherData::create_hourly_data(&v).ok().map(|h| h.datetime)
}

#[test]
fn dates_and_times_parse_with_their_layouts() {
    assert_eq!(event_date("2020-07-10"), Some(CalendarDate { year: 2020, month: 7, day: 10 }));
    assert_eq!(event_date("2020-7-12"), Some(CalendarDate { year: 2020, month: 7, day: 12 }));
    assert_eq!(event_date("2021-02-29"), None);
    assert_eq!(event_date("10/07/2020"), None);
    assert_eq!(hour_time("23:59:58"), Some(TimeOfDay { hour: 23, minute: 59, second: 58, nanosecond: 0 }));
    assert_eq!(hour_time("12:00"), None);
}

#[test]
fn event_fields_are_read() {
    let v = parse_json(
        r#"{"datetime": "2020-07-10", "datetimeEpoch": 1594357200, "type": "tornado", "latitude": 39.1,
            "longitude": -95.6, "distance": 14, "description": "EF1", "size": null}"#,
    )
    .unwrap();
    let e = WeatherData::create_event(&v).unwrap();
    assert_eq!(e.datetime(), CalendarDate { year: 2020, month: 7, day: 10 });
    assert_eq!(e.datetime_epoch(), Some(1594357200));
    assert_eq!(e.event_type(), &Some("tornado".to_string()));
    assert_eq!(float_of(e.latitude()), Some(39.1));
    assert_eq!(float_of(e.longitude()), Some(-95.6));
    assert_eq!(float_of(e.distance()), Some(14.0));
    assert_eq!(e.description(), &Some("EF1".to_string()));
    assert!(e.size().is_none());
}

#[test]
fn new_records_know_only_their_time() {
    let d = WeatherDailyData::new(CalendarDate { year: 2021, month: 10, day: 19 });
    assert_eq!(d.datetime, CalendarDate { year: 2021, month: 10, day: 19 });
    assert!(d.temp_max.is_none() && d.events.is_none() && d.weather_hourly_data.is_none());
    let h = WeatherHourlyData::new(TimeOfDay { hour: 5, minute: 0, second: 0, nanosecond: 0 });
    assert!(h.temp.is_none() && h.precip_type.is_none());
    let e = Event::new(CalendarDate { year: 2021, month: 10, day: 19 });
    assert!(e.event_type.is_none());
    let s = Station::new();
    assert!(s.id.is_none() && s.use_count.is_none());
}

#[test]
fn api_key_can_be_set_later() {
    let mut w = WeatherData::new(String::new());
    assert_eq!(w.request_url("K2A1W1", None, None, None, None, None), Err(WeatherError::Configuration));
    w.set_api_key("K".to_string());
    assert_eq!(w.api_key(), "K");
    assert_eq!(w.request_url("K2A1W1", None, None, None, None, None), Ok(format!("{}K2A1W1?key=K", BASE_URL)));
}

#[test]
fn numbers_keep_their_kind() {
    let v = parse_json("[18446744073709551615, -9223372036854775808, 1.5]").unwrap();
    match v {
        JsonValue::Array(items) => {
            assert!(matches!(items[0], JsonValue::Number(JsonNumber::PosInt(18446744073709551615))));
            assert!(matches!(items[1], JsonValue::Number(JsonNumber::NegInt(-9223372036854775808))));
            assert!(matches!(&items[2], JsonValue::Number(JsonNumber::Float(_))));
        }
        _ => panic!("not an array"),
    }
}
