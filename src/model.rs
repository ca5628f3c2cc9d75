//! The weather snapshot handed to callers, cached, and read from the provider.
use crate::measure::Measure;
use vstd::prelude::*;

verus! {

/// Current conditions for one location.
#[derive(Clone, Debug)]
pub struct WeatherResponse {
    pub main: Main,
    /// Condition entries; the first one carries the icon hint.
    pub weather: Vec<Weather>,
    pub wind: Wind,
    /// Location name as the provider spells it.
    pub name: String,
}

/// Temperature in degrees Celsius, humidity in percent, pressure in hPa.
#[derive(Clone, Copy, Debug, PartialEq, Eq)]
pub struct Main {
    pub temp: Measure,
    pub humidity: u8,
    pub pressure: u16,
}

/// One weather condition: a description and an icon name.
#[derive(Clone, Debug)]
pub struct Weather {
    pub description: String,
    pub icon: String,
}

/// Wind speed in metres per second.
#[derive(Clone, Copy, Debug, PartialEq, Eq)]
pub struct Wind {
    pub speed: Measure,
}

} // verus!
