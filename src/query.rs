use vstd::prelude::*;
use vstd::string::*;
use crate::config::{Config, format_of, icon_lookup};
use crate::converter::{
    convert_temperature,
    converted,
    format_hundredths,
    hundredths_text,
    titlecase,
    to_titlecase,
    unit_suffix,
};
use crate::forecast::ResponseRoot;

verus! {

/// Why a forecast cannot be asked for or shown.
#[derive(Clone, Copy, Debug, PartialEq, Eq, Structural)]
pub enum QueryError {
    /// No API key is set.
    MissingApiKey,
    /// No location is set.
    MissingLocation,
    /// The answer holds no forecast entry, or its first entry no weather descriptor.
    EmptyForecast,
}

/// The text shown for an error.
pub open spec fn error_text(e: QueryError) -> Seq<char> {
    match e {
        QueryError::MissingApiKey => "Set the api key with \"weathrs key $key\""@,
        QueryError::MissingLocation => "Set the location id with \"weathrs location $locationid\""@,
        QueryError::EmptyForecast => "The forecast holds no entry"@,
    }
}

impl QueryError {
    /// The text shown for this error.
    pub fn message(&self) -> (r: String)
        ensures
            r@ == error_text(*self),
    {
        match self {
            QueryError::MissingApiKey => String::from_str("Set the api key with \"weathrs key $key\""),
            QueryError::MissingLocation => String::from_str(
                "Set the location id with \"weathrs location $locationid\"",
            ),
            QueryError::EmptyForecast => String::from_str("The forecast holds no entry"),
        }
    }
}

/// The forecast request for a location and an API key.
pub open spec fn forecast_url(location: Seq<char>, api_key: Seq<char>) -> Seq<char> {
    "https://api.openweathermap.org/data/2.5/forecast?q="@ + location + "&appid="@ + api_key
}

/// The request to send for the configured location, or the setting that is missing.
pub fn query_url(config: &Config) -> (r: Result<String, QueryError>)
    ensures
        config.api_key@.len() == 0 ==> r == Err::<String, QueryError>(QueryError::MissingApiKey),
        config.api_key@.len() > 0 && config.location_name@.len() == 0 ==> r == Err::<
            String,
            QueryError,
        >(QueryError::MissingLocation),
        config.api_key@.len() > 0 && config.location_name@.len() > 0 ==> r is Ok && r->Ok_0@
            == forecast_url(config.location_name@, config.api_key@),
{
    if config.api_key.as_str().is_empty() {
        return Err(QueryError::MissingApiKey);
    }
    if config.location_name.as_str().is_empty() {
        return Err(QueryError::MissingLocation);
    }
    let mut url = String::from_str("https://api.openweathermap.org/data/2.5/forecast?q=");
    url.append(config.location_name.as_str());
    url.append("&appid=");
    url.append(config.api_key.as_str());
    Ok(url)
}

/// The line shown for a forecast: the icon's glyph, the temperature and its
/// unit, a space, and the description in title case.
pub open spec fn forecast_line(
    icons: Seq<(Seq<char>, Seq<char>)>,
    unit_name: Seq<char>,
    icon: Seq<char>,
    description: Seq<char>,
    kelvin: int,
) -> Seq<char> {
    let format = format_of(unit_name);
    icon_lookup(icons, icon) + hundredths_text(converted(kelvin, format)) + unit_suffix(format)
        + " "@ + titlecase(description)
}

/// Renders the first entry of a forecast as one line, in the configured unit.
pub fn render_forecast(config: &Config, response: &ResponseRoot) -> (r: Result<String, QueryError>)
    ensures
        response.list@.len() == 0 || response.list@[0].weather@.len() == 0 ==> r == Err::<
            String,
            QueryError,
        >(QueryError::EmptyForecast),
        response.list@.len() > 0 && response.list@[0].weather@.len() > 0 ==> r is Ok && r->Ok_0@
            == forecast_line(
            config.icons(),
            config.temperature_format@,
            response.list@[0].weather@[0].icon@,
            response.list@[0].weather@[0].description@,
            response.list@[0].main.temp as int,
        ),
{
    if response.list.len() == 0 {
        return Err(QueryError::EmptyForecast);
    }
    let entry = &response.list[0];
    if entry.weather.len() == 0 {
        return Err(QueryError::EmptyForecast);
    }
    let info = &entry.weather[0];
    let format = config.get_temp_format();
    let mut line = config.get_icon(info.icon.as_str());
    let (temp, unit) = convert_temperature(entry.main.temp, format);
    let temp_text = format_hundredths(temp);
    line.append(temp_text.as_str());
    line.append(unit.as_str());
    line.append(" ");
    let description = to_titlecase(info.description.as_str());
    line.append(description.as_str());
    proof {
        reveal_strlit(" ");
    }
    Ok(line)
}

} // verus!
