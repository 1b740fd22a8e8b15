pub mod calendar;
pub mod error;
pub mod event;
pub mod json;
pub mod station;
pub mod weather_hourly_data;
pub mod weather_daily_data;
pub mod weather_data;
