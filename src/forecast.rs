use vstd::prelude::*;

verus! {

/// The provider's answer to a forecast request. Only the first entry and its
/// first weather descriptor are shown.
pub struct ResponseRoot {
    pub cod: String,
    pub message: u32,
    pub cnt: u32,
    pub list: Vec<ListElement>,
}

/// One timestamped forecast entry.
pub struct ListElement {
    pub dt: u32,
    pub main: WeatherMain,
    pub weather: Vec<WeatherInfo>,
    pub clouds: CloudInfo,
    pub wind: WindInfo,
    pub visibility: u32,
    /// Probability of precipitation, in hundredths.
    pub pop: i32,
    pub rain: Option<RainInfo>,
    pub sys: SysInfo,
    pub dt_txt: String,
}

/// Main metrics of an entry. Temperatures are in hundredths of a kelvin.
pub struct WeatherMain {
    pub temp: i32,
    pub feels_like: i32,
    pub temp_min: i32,
    pub temp_max: i32,
    pub pressure: u16,
    pub sea_level: u16,
    pub grnd_level: u16,
    pub humidity: u16,
    pub temp_kf: i32,
}

/// One weather condition: its id, category, description and icon code.
pub struct WeatherInfo {
    pub id: u16,
    pub main: String,
    pub description: String,
    pub icon: String,
}

/// Cloudiness, in percent.
pub struct CloudInfo {
    pub all: u16,
}

/// Wind speed and gust in hundredths of a metre per second, direction in degrees.
pub struct WindInfo {
    pub speed: i32,
    pub deg: u16,
    pub gust: i32,
}

/// Rain volume over the last three hours, in hundredths of a millimetre.
pub struct RainInfo {
    pub three_hour: i32,
}

/// Part of day: `d` or `n`.
pub struct SysInfo {
    pub pod: String,
}

} // verus!
