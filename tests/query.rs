use weathrs::config::Config;
use weathrs::forecast::{
    CloudInfo, ListElement, ResponseRoot, SysInfo, WeatherInfo, WeatherMain, WindInfo,
};
use weathrs::query::{query_url, render_forecast, QueryError};

fn entry(icon: &str, description: &str, temp: i32, conditions: usize) -> ListElement {
    let mut weather = Vec::new();
    for _ in 0..conditions {
        weather.push(WeatherInfo {
            id: 800,
            main: "Clear".to_string(),
            description: description.to_string(),
            icon: icon.to_string(),
        });
    }
    ListElement {
        dt: 1_700_000_000,
        main: WeatherMain {
            temp,
            feels_like: temp,
            temp_min: temp,
            temp_max: temp,
            pressure: 1013,
            sea_level: 1013,
            grnd_level: 1000,
            humidity: 40,
            temp_kf: 0,
        },
        weather,
        clouds: CloudInfo { all: 0 },
        wind: WindInfo { speed: 350, deg: 180, gust: 500 },
        visibility: 10000,
        pop: 0,
        rain: None,
        sys: SysInfo { pod: "d".to_string() },
        dt_txt: "2023-11-14 22:00:00".to_string(),
    }
}

fn response(list: Vec<ListElement>) -> ResponseRoot {
    ResponseRoot { cod: "200".to_string(), message: 0, cnt: list.len() as u32, list }
}

fn configured(unit: &str) -> Config {
    let mut c = Config::default();
    c.set_api_key("abc".to_string());
    c.set_location_name("London".to_string());
    c.set_temperature_format(unit.to_string());
    c
}

#[test]
fn empty_api_key_is_refused() {
    let mut c = Config::default();
    c.set_location_name("London".to_string());
    assert_eq!(query_url(&c), Err(QueryError::MissingApiKey));
    assert_eq!(query_url(&Config::default()), Err(QueryError::MissingApiKey));
}

#[test]
fn empty_location_is_refused() {
    let mut c = Config::default();
    c.set_api_key("abc".to_string());
    assert_eq!(query_url(&c), Err(QueryError::MissingLocation));
}

#[test]
fn url_names_location_and_key() {
    assert_eq!(
        query_url(&configured("celsius")).unwrap(),
        "https://api.openweathermap.org/data/2.5/forecast?q=London&appid=abc"
    );
}

#[test]
fn error_messages_name_the_command() {
    assert_eq!(QueryError::MissingApiKey.message(), "Set the api key with \"weathrs key $key\"");
    assert_eq!(
        QueryError::MissingLocation.message(),
        "Set the location id with \"weathrs location $locationid\""
    );
    assert_eq!(QueryError::EmptyForecast.message(), "The forecast holds no entry");
}

#[test]
fn clear_sky_line_in_celsius() {
    let r = response(vec![entry("01d", "clear sky", 29515, 1)]);
    assert_eq!(render_forecast(&configured("celsius"), &r).unwrap(), "\u{f0599} 22°C Clear Sky");
}

#[test]
fn line_in_fahrenheit_and_kelvin() {
    let r = response(vec![entry("10n", "light rain", 29515, 1)]);
    assert_eq!(render_forecast(&configured("fahrenheit"), &r).unwrap(), "\u{f0596} 72°F Light Rain");
    assert_eq!(render_forecast(&configured("kelvin"), &r).unwrap(), "\u{f0596} 295.15K Light Rain");
}

#[test]
fn only_the_first_entry_is_shown() {
    let r = response(vec![entry("01d", "clear sky", 29515, 2), entry("13n", "snow", 26015, 1)]);
    assert_eq!(render_forecast(&configured("celsius"), &r).unwrap(), "\u{f0599} 22°C Clear Sky");
}

#[test]
fn unknown_icon_shows_no_glyph() {
    let r = response(vec![entry("77x", "odd weather", 27315, 1)]);
    assert_eq!(render_forecast(&configured("bogus"), &r).unwrap(), "0°C Odd Weather");
}

#[test]
fn empty_forecast_is_refused() {
    assert_eq!(render_forecast(&configured("celsius"), &response(vec![])), Err(QueryError::EmptyForecast));
    let r = response(vec![entry("01d", "clear sky", 29515, 0)]);
    assert_eq!(render_forecast(&configured("celsius"), &r), Err(QueryError::EmptyForecast));
}
