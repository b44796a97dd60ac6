use vstd::prelude::*;
use vstd::string::*;
use crate::converter::TemperatureFormat;

verus! {

/// The user's settings: the provider's API key, the location to ask about,
/// the unit to show temperatures in, and the glyph shown for each icon code.
pub struct Config {
    pub api_key: String,
    pub location_name: String,
    pub temperature_format: String,
    /// Pairs of icon code and glyph; a code's first pair is the one used.
    pub condition_icons: Vec<(String, String)>,
}

/// The icon pairs as text.
pub open spec fn icon_entries(v: Seq<(String, String)>) -> Seq<(Seq<char>, Seq<char>)> {
    v.map_values(|p: (String, String)| (p.0@, p.1@))
}

/// The glyph of the first pair whose code is `code`, or nothing when no pair has it.
pub open spec fn icon_lookup(t: Seq<(Seq<char>, Seq<char>)>, code: Seq<char>) -> Seq<char>
    decreases t.len(),
{
    if t.len() == 0 {
        Seq::empty()
    } else if t[0].0 == code {
        t[0].1
    } else {
        icon_lookup(t.drop_first(), code)
    }
}

/// The glyphs for the eighteen icon codes of OpenWeatherMap.
pub open spec fn default_icon_table() -> Seq<(Seq<char>, Seq<char>)> {
    seq![
        ("01d"@, "\u{f0599} "@),
        ("01n"@, "\u{f0594} "@),
        ("02d"@, "\u{f0595} "@),
        ("02n"@, "\u{f0f31} "@),
        ("03d"@, "\u{ebaa} "@),
        ("03n"@, "\u{ebaa} "@),
        ("04d"@, "\u{ebaa} "@),
        ("04n"@, "\u{ebaa} "@),
        ("09d"@, "\u{f0597} "@),
        ("09n"@, "\u{f0597} "@),
        ("10d"@, "\u{f0596} "@),
        ("10n"@, "\u{f0596} "@),
        ("11d"@, "\u{f067e} "@),
        ("11n"@, "\u{f067e} "@),
        ("13d"@, "\u{f0598} "@),
        ("13n"@, "\u{f0598} "@),
        ("50d"@, "\u{f0591} "@),
        ("50n"@, "\u{f0591} "@),
    ]
}

/// The unit that a stored unit name selects: any name but the three known
/// ones selects Celsius.
pub open spec fn format_of(name: Seq<char>) -> TemperatureFormat {
    if name == "fahrenheit"@ {
        TemperatureFormat::Fahrenheit
    } else if name == "kelvin"@ {
        TemperatureFormat::Kelvin
    } else {
        TemperatureFormat::Celsius
    }
}

/// A code that no pair holds has no glyph.
pub proof fn lemma_unmapped_icon_is_empty(t: Seq<(Seq<char>, Seq<char>)>, code: Seq<char>)
    requires
        forall|i: int| 0 <= i < t.len() ==> #[trigger] t[i].0 != code,
    ensures
        icon_lookup(t, code) == Seq::<char>::empty(),
    decreases t.len(),
{
    if t.len() > 0 {
        assert(t[0].0 != code);
        assert forall|i: int| 0 <= i < t.drop_first().len() implies #[trigger] t.drop_first()[i].0
            != code by {
            assert(t[i + 1].0 != code);
        }
        lemma_unmapped_icon_is_empty(t.drop_first(), code);
    }
}

impl Config {
    /// The icon pairs of this configuration, as text.
    pub open spec fn icons(&self) -> Seq<(Seq<char>, Seq<char>)> {
        icon_entries(self.condition_icons@)
    }

    /// The glyph for an icon code; empty when the code has none.
    pub fn get_icon(&self, code: &str) -> (r: String)
        ensures
            r@ == icon_lookup(self.icons(), code@),
    {
        let key = code.to_owned();
        let ghost t = self.icons();
        let mut i: usize = 0;
        assert(t.skip(0) =~= t);
        while i < self.condition_icons.len()
            invariant
                t == self.icons(),
                key@ == code@,
                i <= t.len(),
                icon_lookup(t, code@) == icon_lookup(t.skip(i as int), code@),
            decreases t.len() - i,
        {
            assert(t.skip(i as int)[0] == t[i as int]);
            assert(t.skip(i as int).drop_first() =~= t.skip(i + 1));
            if self.condition_icons[i].0 == key {
                return self.condition_icons[i].1.clone();
            }
            i = i + 1;
        }
        assert(t.skip(i as int) =~= Seq::<(Seq<char>, Seq<char>)>::empty());
        String::new()
    }

    /// Sets the API key; the other settings stay as they were.
    pub fn set_api_key(&mut self, api_key: String)
        ensures
            final(self).api_key == api_key,
            final(self).location_name == old(self).location_name,
            final(self).temperature_format == old(self).temperature_format,
            final(self).condition_icons == old(self).condition_icons,
    {
        self.api_key = api_key;
    }

    /// Sets the location name; the other settings stay as they were.
    pub fn set_location_name(&mut self, location_name: String)
        ensures
            final(self).api_key == old(self).api_key,
            final(self).location_name == location_name,
            final(self).temperature_format == old(self).temperature_format,
            final(self).condition_icons == old(self).condition_icons,
    {
        self.location_name = location_name;
    }

    /// Sets the unit name as given, with no check; it is read by
    /// `get_temp_format`. The other settings stay as they were.
    pub fn set_temperature_format(&mut self, temperature_format: String)
        ensures
            final(self).api_key == old(self).api_key,
            final(self).location_name == old(self).location_name,
            final(self).temperature_format == temperature_format,
            final(self).condition_icons == old(self).condition_icons,
    {
        self.temperature_format = temperature_format;
    }

    /// The unit that the stored unit name selects; Celsius for an unknown name.
    pub fn get_temp_format(&self) -> (r: TemperatureFormat)
        ensures
            r == format_of(self.temperature_format@),
    {
        if self.temperature_format == String::from_str("fahrenheit") {
            TemperatureFormat::Fahrenheit
        } else if self.temperature_format == String::from_str("kelvin") {
            TemperatureFormat::Kelvin
        } else {
            TemperatureFormat::Celsius
        }
    }
}

impl Default for Config {
    /// No API key, no location, Celsius, and the full icon table.
    fn default() -> (r: Self)
        ensures
            r.api_key@ == Seq::<char>::empty(),
            r.location_name@ == Seq::<char>::empty(),
            r.temperature_format@ == "celsius"@,
            r.icons() == default_icon_table(),
    {
        let mut icons: Vec<(String, String)> = Vec::new();
        icons.push((String::from_str("01d"), String::from_str("\u{f0599} "))); // clear sky, day
        icons.push((String::from_str("01n"), String::from_str("\u{f0594} "))); // clear sky, night
        icons.push((String::from_str("02d"), String::from_str("\u{f0595} "))); // few clouds, day
        icons.push((String::from_str("02n"), String::from_str("\u{f0f31} "))); // few clouds, night
        icons.push((String::from_str("03d"), String::from_str("\u{ebaa} "))); // scattered clouds, day
        icons.push((String::from_str("03n"), String::from_str("\u{ebaa} "))); // scattered clouds, night
        icons.push((String::from_str("04d"), String::from_str("\u{ebaa} "))); // broken clouds, day
        icons.push((String::from_str("04n"), String::from_str("\u{ebaa} "))); // broken clouds, night
        icons.push((String::from_str("09d"), String::from_str("\u{f0597} "))); // shower rain, day
        icons.push((String::from_str("09n"), String::from_str("\u{f0597} "))); // shower rain, night
        icons.push((String::from_str("10d"), String::from_str("\u{f0596} "))); // rain, day
        icons.push((String::from_str("10n"), String::from_str("\u{f0596} "))); // rain, night
        icons.push((String::from_str("11d"), String::from_str("\u{f067e} "))); // thunderstorm, day
        icons.push((String::from_str("11n"), String::from_str("\u{f067e} "))); // thunderstorm, night
        icons.push((String::from_str("13d"), String::from_str("\u{f0598} "))); // snow, day
        icons.push((String::from_str("13n"), String::from_str("\u{f0598} "))); // snow, night
        icons.push((String::from_str("50d"), String::from_str("\u{f0591} "))); // mist, day
        icons.push((String::from_str("50n"), String::from_str("\u{f0591} "))); // mist, night
        assert(icon_entries(icons@) =~= default_icon_table());
        Config {
            api_key: String::new(),
            location_name: String::new(),
            temperature_format: String::from_str("celsius"),
            condition_icons: icons,
        }
    }
}

} // verus!
