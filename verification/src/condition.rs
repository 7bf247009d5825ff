//! The closed set of weather-condition labels that the upstream API may
//! return, and the total mapping from each label to its display glyph.

use vstd::prelude::*;
use crate::text::{chars_of, chars_eq, string_of};

verus! {

/// One of the fixed condition labels of the weather API.
#[derive(Clone, Copy, PartialEq, Eq, Structural, Debug)]
pub enum WeatherCondition {
    Sunny,
    PartlyCloudy,
    Cloudy,
    Overcast,
    Mist,
    PatchyRainPossible,
    PatchySnowPossible,
    PatchySleetPossible,
    PatchyFreezingDrizzlePossible,
    ThunderyOutbreaksPossible,
    BlowingSnow,
    Blizzard,
    Fog,
    FreezingFog,
    PatchyLightDrizzle,
    LightDrizzle,
    FreezingDrizzle,
    HeavyFreezingDrizzle,
    PatchyLightRain,
    LightRain,
    ModerateRainAtTimes,
    ModerateRain,
    HeavyRainAtTimes,
    HeavyRain,
    LightFreezingRain,
    ModerateOrHeavyFreezingRain,
    LightSleet,
    ModerateOrHeavySleet,
    PatchyLightSnow,
    LightSnow,
    PatchyModerateSnow,
    ModerateSnow,
    PatchyHeavySnow,
    HeavySnow,
    IcePellets,
    LightRainShower,
    ModerateOrHeavyRainShower,
    TorrentialRainShower,
    LightSleetShowers,
    ModerateOrHeavySleetShowers,
    LightSnowShowers,
    ModerateOrHeavySnowShowers,
    LightShowersOfIcePellets,
    ModerateOrHeavyShowersOfIcePellets,
    PatchyLightRainWithThunder,
    ModerateOrHeavyRainWithThunder,
    PatchyLightSnowWithThunder,
    ModerateOrHeavySnowWithThunder,
}

/// The label text of each condition, as the API sends it.
pub open spec fn label_seq(c: WeatherCondition) -> Seq<char> {
    match c {
        WeatherCondition::Sunny => "Sunny"@,
        WeatherCondition::PartlyCloudy => "Partly cloudy"@,
        WeatherCondition::Cloudy => "Cloudy"@,
        WeatherCondition::Overcast => "Overcast"@,
        WeatherCondition::Mist => "Mist"@,
        WeatherCondition::PatchyRainPossible => "Patchy rain possible"@,
        WeatherCondition::PatchySnowPossible => "Patchy snow possible"@,
        WeatherCondition::PatchySleetPossible => "Patchy sleet possible"@,
        WeatherCondition::PatchyFreezingDrizzlePossible => "Patchy freezing drizzle possible"@,
        WeatherCondition::ThunderyOutbreaksPossible => "Thundery outbreaks possible"@,
        WeatherCondition::BlowingSnow => "Blowing snow"@,
        WeatherCondition::Blizzard => "Blizzard"@,
        WeatherCondition::Fog => "Fog"@,
        WeatherCondition::FreezingFog => "Freezing fog"@,
        WeatherCondition::PatchyLightDrizzle => "Patchy light drizzle"@,
        WeatherCondition::LightDrizzle => "Light drizzle"@,
        WeatherCondition::FreezingDrizzle => "Freezing drizzle"@,
        WeatherCondition::HeavyFreezingDrizzle => "Heavy freezing drizzle"@,
        WeatherCondition::PatchyLightRain => "Patchy light rain"@,
        WeatherCondition::LightRain => "Light rain"@,
        WeatherCondition::ModerateRainAtTimes => "Moderate rain at times"@,
        WeatherCondition::ModerateRain => "Moderate rain"@,
        WeatherCondition::HeavyRainAtTimes => "Heavy rain at times"@,
        WeatherCondition::HeavyRain => "Heavy rain"@,
        WeatherCondition::LightFreezingRain => "Light freezing rain"@,
        WeatherCondition::ModerateOrHeavyFreezingRain => "Moderate or heavy freezing rain"@,
        WeatherCondition::LightSleet => "Light sleet"@,
        WeatherCondition::ModerateOrHeavySleet => "Moderate or heavy sleet"@,
        WeatherCondition::PatchyLightSnow => "Patchy light snow"@,
        WeatherCondition::LightSnow => "Light snow"@,
        WeatherCondition::PatchyModerateSnow => "Patchy moderate snow"@,
        WeatherCondition::ModerateSnow => "Moderate snow"@,
        WeatherCondition::PatchyHeavySnow => "Patchy heavy snow"@,
        WeatherCondition::HeavySnow => "Heavy snow"@,
        WeatherCondition::IcePellets => "Ice pellets"@,
        WeatherCondition::LightRainShower => "Light rain shower"@,
        WeatherCondition::ModerateOrHeavyRainShower => "Moderate or heavy rain shower"@,
        WeatherCondition::TorrentialRainShower => "Torrential rain shower"@,
        WeatherCondition::LightSleetShowers => "Light sleet showers"@,
        WeatherCondition::ModerateOrHeavySleetShowers => "Moderate or heavy sleet showers"@,
        WeatherCondition::LightSnowShowers => "Light snow showers"@,
        WeatherCondition::ModerateOrHeavySnowShowers => "Moderate or heavy snow showers"@,
        WeatherCondition::LightShowersOfIcePellets => "Light showers of ice pellets"@,
        WeatherCondition::ModerateOrHeavyShowersOfIcePellets => "Moderate or heavy showers of ice pellets"@,
        WeatherCondition::PatchyLightRainWithThunder => "Patchy light rain with thunder"@,
        WeatherCondition::ModerateOrHeavyRainWithThunder => "Moderate or heavy rain with thunder"@,
        WeatherCondition::PatchyLightSnowWithThunder => "Patchy light snow with thunder"@,
        WeatherCondition::ModerateOrHeavySnowWithThunder => "Moderate or heavy snow with thunder"@,
    }
}

/// The display glyph of each condition.
pub open spec fn glyph_seq(c: WeatherCondition) -> Seq<char> {
    match c {
        WeatherCondition::Sunny => ""@,
        WeatherCondition::PartlyCloudy => ""@,
        WeatherCondition::Cloudy => ""@,
        WeatherCondition::Overcast => ""@,
        WeatherCondition::Mist => "󰖑"@,
        WeatherCondition::PatchyRainPossible => ""@,
        WeatherCondition::PatchySnowPossible => ""@,
        WeatherCondition::PatchySleetPossible => ""@,
        WeatherCondition::PatchyFreezingDrizzlePossible => ""@,
        WeatherCondition::ThunderyOutbreaksPossible => ""@,
        WeatherCondition::BlowingSnow => ""@,
        WeatherCondition::Blizzard => ""@,
        WeatherCondition::Fog => "󰖑"@,
        WeatherCondition::FreezingFog => "󰖑"@,
        WeatherCondition::PatchyLightDrizzle => ""@,
        WeatherCondition::LightDrizzle => ""@,
        WeatherCondition::FreezingDrizzle => ""@,
        WeatherCondition::HeavyFreezingDrizzle => ""@,
        WeatherCondition::PatchyLightRain => ""@,
        WeatherCondition::LightRain => ""@,
        WeatherCondition::ModerateRainAtTimes => ""@,
        WeatherCondition::ModerateRain => ""@,
        WeatherCondition::HeavyRainAtTimes => ""@,
        WeatherCondition::HeavyRain => ""@,
        WeatherCondition::LightFreezingRain => ""@,
        WeatherCondition::ModerateOrHeavyFreezingRain => ""@,
        WeatherCondition::LightSleet => ""@,
        WeatherCondition::ModerateOrHeavySleet => ""@,
        WeatherCondition::PatchyLightSnow => ""@,
        WeatherCondition::LightSnow => ""@,
        WeatherCondition::PatchyModerateSnow => ""@,
        WeatherCondition::ModerateSnow => ""@,
        WeatherCondition::PatchyHeavySnow => ""@,
        WeatherCondition::HeavySnow => ""@,
        WeatherCondition::IcePellets => ""@,
        WeatherCondition::LightRainShower => ""@,
        WeatherCondition::ModerateOrHeavyRainShower => ""@,
        WeatherCondition::TorrentialRainShower => ""@,
        WeatherCondition::LightSleetShowers => ""@,
        WeatherCondition::ModerateOrHeavySleetShowers => ""@,
        WeatherCondition::LightSnowShowers => ""@,
        WeatherCondition::ModerateOrHeavySnowShowers => ""@,
        WeatherCondition::LightShowersOfIcePellets => ""@,
        WeatherCondition::ModerateOrHeavyShowersOfIcePellets => ""@,
        WeatherCondition::PatchyLightRainWithThunder => ""@,
        WeatherCondition::ModerateOrHeavyRainWithThunder => ""@,
        WeatherCondition::PatchyLightSnowWithThunder => ""@,
        WeatherCondition::ModerateOrHeavySnowWithThunder => ""@,
    }
}

/// The condition named by a label, if the label is one of the fixed set.
pub open spec fn condition_of_label(s: Seq<char>) -> Option<WeatherCondition> {
    if s == "Sunny"@ {
        Some(WeatherCondition::Sunny)
    } else if s == "Partly cloudy"@ {
        Some(WeatherCondition::PartlyCloudy)
    } else if s == "Cloudy"@ {
        Some(WeatherCondition::Cloudy)
    } else if s == "Overcast"@ {
        Some(WeatherCondition::Overcast)
    } else if s == "Mist"@ {
        Some(WeatherCondition::Mist)
    } else if s == "Patchy rain possible"@ {
        Some(WeatherCondition::PatchyRainPossible)
    } else if s == "Patchy snow possible"@ {
        Some(WeatherCondition::PatchySnowPossible)
    } else if s == "Patchy sleet possible"@ {
        Some(WeatherCondition::PatchySleetPossible)
    } else if s == "Patchy freezing drizzle possible"@ {
        Some(WeatherCondition::PatchyFreezingDrizzlePossible)
    } else if s == "Thundery outbreaks possible"@ {
        Some(WeatherCondition::ThunderyOutbreaksPossible)
    } else if s == "Blowing snow"@ {
        Some(WeatherCondition::BlowingSnow)
    } else if s == "Blizzard"@ {
        Some(WeatherCondition::Blizzard)
    } else if s == "Fog"@ {
        Some(WeatherCondition::Fog)
    } else if s == "Freezing fog"@ {
        Some(WeatherCondition::FreezingFog)
    } else if s == "Patchy light drizzle"@ {
        Some(WeatherCondition::PatchyLightDrizzle)
    } else if s == "Light drizzle"@ {
        Some(WeatherCondition::LightDrizzle)
    } else if s == "Freezing drizzle"@ {
        Some(WeatherCondition::FreezingDrizzle)
    } else if s == "Heavy freezing drizzle"@ {
        Some(WeatherCondition::HeavyFreezingDrizzle)
    } else if s == "Patchy light rain"@ {
        Some(WeatherCondition::PatchyLightRain)
    } else if s == "Light rain"@ {
        Some(WeatherCondition::LightRain)
    } else if s == "Moderate rain at times"@ {
        Some(WeatherCondition::ModerateRainAtTimes)
    } else if s == "Moderate rain"@ {
        Some(WeatherCondition::ModerateRain)
    } else if s == "Heavy rain at times"@ {
        Some(WeatherCondition::HeavyRainAtTimes)
    } else if s == "Heavy rain"@ {
        Some(WeatherCondition::HeavyRain)
    } else if s == "Light freezing rain"@ {
        Some(WeatherCondition::LightFreezingRain)
    } else if s == "Moderate or heavy freezing rain"@ {
        Some(WeatherCondition::ModerateOrHeavyFreezingRain)
    } else if s == "Light sleet"@ {
        Some(WeatherCondition::LightSleet)
    } else if s == "Moderate or heavy sleet"@ {
        Some(WeatherCondition::ModerateOrHeavySleet)
    } else if s == "Patchy light snow"@ {
        Some(WeatherCondition::PatchyLightSnow)
    } else if s == "Light snow"@ {
        Some(WeatherCondition::LightSnow)
    } else if s == "Patchy moderate snow"@ {
        Some(WeatherCondition::PatchyModerateSnow)
    } else if s == "Moderate snow"@ {
        Some(WeatherCondition::ModerateSnow)
    } else if s == "Patchy heavy snow"@ {
        Some(WeatherCondition::PatchyHeavySnow)
    } else if s == "Heavy snow"@ {
        Some(WeatherCondition::HeavySnow)
    } else if s == "Ice pellets"@ {
        Some(WeatherCondition::IcePellets)
    } else if s == "Light rain shower"@ {
        Some(WeatherCondition::LightRainShower)
    } else if s == "Moderate or heavy rain shower"@ {
        Some(WeatherCondition::ModerateOrHeavyRainShower)
    } else if s == "Torrential rain shower"@ {
        Some(WeatherCondition::TorrentialRainShower)
    } else if s == "Light sleet showers"@ {
        Some(WeatherCondition::LightSleetShowers)
    } else if s == "Moderate or heavy sleet showers"@ {
        Some(WeatherCondition::ModerateOrHeavySleetShowers)
    } else if s == "Light snow showers"@ {
        Some(WeatherCondition::LightSnowShowers)
    } else if s == "Moderate or heavy snow showers"@ {
        Some(WeatherCondition::ModerateOrHeavySnowShowers)
    } else if s == "Light showers of ice pellets"@ {
        Some(WeatherCondition::LightShowersOfIcePellets)
    } else if s == "Moderate or heavy showers of ice pellets"@ {
        Some(WeatherCondition::ModerateOrHeavyShowersOfIcePellets)
    } else if s == "Patchy light rain with thunder"@ {
        Some(WeatherCondition::PatchyLightRainWithThunder)
    } else if s == "Moderate or heavy rain with thunder"@ {
        Some(WeatherCondition::ModerateOrHeavyRainWithThunder)
    } else if s == "Patchy light snow with thunder"@ {
        Some(WeatherCondition::PatchyLightSnowWithThunder)
    } else if s == "Moderate or heavy snow with thunder"@ {
        Some(WeatherCondition::ModerateOrHeavySnowWithThunder)
    } else {
        None
    }
}

impl WeatherCondition {
    /// Looks a label up in the fixed set, as `condition_of_label` says.
    pub fn from_label(v: &Vec<char>) -> (r: Option<WeatherCondition>)
        ensures
            r == condition_of_label(v@),
    {
        if chars_eq(v, &chars_of("Sunny")) {
            Some(WeatherCondition::Sunny)
        } else if chars_eq(v, &chars_of("Partly cloudy")) {
            Some(WeatherCondition::PartlyCloudy)
        } else if chars_eq(v, &chars_of("Cloudy")) {
            Some(WeatherCondition::Cloudy)
        } else if chars_eq(v, &chars_of("Overcast")) {
            Some(WeatherCondition::Overcast)
        } else if chars_eq(v, &chars_of("Mist")) {
            Some(WeatherCondition::Mist)
        } else if chars_eq(v, &chars_of("Patchy rain possible")) {
            Some(WeatherCondition::PatchyRainPossible)
        } else if chars_eq(v, &chars_of("Patchy snow possible")) {
            Some(WeatherCondition::PatchySnowPossible)
        } else if chars_eq(v, &chars_of("Patchy sleet possible")) {
            Some(WeatherCondition::PatchySleetPossible)
        } else if chars_eq(v, &chars_of("Patchy freezing drizzle possible")) {
            Some(WeatherCondition::PatchyFreezingDrizzlePossible)
        } else if chars_eq(v, &chars_of("Thundery outbreaks possible")) {
            Some(WeatherCondition::ThunderyOutbreaksPossible)
        } else if chars_eq(v, &chars_of("Blowing snow")) {
            Some(WeatherCondition::BlowingSnow)
        } else if chars_eq(v, &chars_of("Blizzard")) {
            Some(WeatherCondition::Blizzard)
        } else if chars_eq(v, &chars_of("Fog")) {
            Some(WeatherCondition::Fog)
        } else if chars_eq(v, &chars_of("Freezing fog")) {
            Some(WeatherCondition::FreezingFog)
        } else if chars_eq(v, &chars_of("Patchy light drizzle")) {
            Some(WeatherCondition::PatchyLightDrizzle)
        } else if chars_eq(v, &chars_of("Light drizzle")) {
            Some(WeatherCondition::LightDrizzle)
        } else if chars_eq(v, &chars_of("Freezing drizzle")) {
            Some(WeatherCondition::FreezingDrizzle)
        } else if chars_eq(v, &chars_of("Heavy freezing drizzle")) {
            Some(WeatherCondition::HeavyFreezingDrizzle)
        } else if chars_eq(v, &chars_of("Patchy light rain")) {
            Some(WeatherCondition::PatchyLightRain)
        } else if chars_eq(v, &chars_of("Light rain")) {
            Some(WeatherCondition::LightRain)
        } else if chars_eq(v, &chars_of("Moderate rain at times")) {
            Some(WeatherCondition::ModerateRainAtTimes)
        } else if chars_eq(v, &chars_of("Moderate rain")) {
            Some(WeatherCondition::ModerateRain)
        } else if chars_eq(v, &chars_of("Heavy rain at times")) {
            Some(WeatherCondition::HeavyRainAtTimes)
        } else if chars_eq(v, &chars_of("Heavy rain")) {
            Some(WeatherCondition::HeavyRain)
        } else if chars_eq(v, &chars_of("Light freezing rain")) {
            Some(WeatherCondition::LightFreezingRain)
        } else if chars_eq(v, &chars_of("Moderate or heavy freezing rain")) {
            Some(WeatherCondition::ModerateOrHeavyFreezingRain)
        } else if chars_eq(v, &chars_of("Light sleet")) {
            Some(WeatherCondition::LightSleet)
        } else if chars_eq(v, &chars_of("Moderate or heavy sleet")) {
            Some(WeatherCondition::ModerateOrHeavySleet)
        } else if chars_eq(v, &chars_of("Patchy light snow")) {
            Some(WeatherCondition::PatchyLightSnow)
        } else if chars_eq(v, &chars_of("Light snow")) {
            Some(WeatherCondition::LightSnow)
        } else if chars_eq(v, &chars_of("Patchy moderate snow")) {
            Some(WeatherCondition::PatchyModerateSnow)
        } else if chars_eq(v, &chars_of("Moderate snow")) {
            Some(WeatherCondition::ModerateSnow)
        } else if chars_eq(v, &chars_of("Patchy heavy snow")) {
            Some(WeatherCondition::PatchyHeavySnow)
        } else if chars_eq(v, &chars_of("Heavy snow")) {
            Some(WeatherCondition::HeavySnow)
        } else if chars_eq(v, &chars_of("Ice pellets")) {
            Some(WeatherCondition::IcePellets)
        } else if chars_eq(v, &chars_of("Light rain shower")) {
            Some(WeatherCondition::LightRainShower)
        } else if chars_eq(v, &chars_of("Moderate or heavy rain shower")) {
            Some(WeatherCondition::ModerateOrHeavyRainShower)
        } else if chars_eq(v, &chars_of("Torrential rain shower")) {
            Some(WeatherCondition::TorrentialRainShower)
        } else if chars_eq(v, &chars_of("Light sleet showers")) {
            Some(WeatherCondition::LightSleetShowers)
        } else if chars_eq(v, &chars_of("Moderate or heavy sleet showers")) {
            Some(WeatherCondition::ModerateOrHeavySleetShowers)
        } else if chars_eq(v, &chars_of("Light snow showers")) {
            Some(WeatherCondition::LightSnowShowers)
        } else if chars_eq(v, &chars_of("Moderate or heavy snow showers")) {
            Some(WeatherCondition::ModerateOrHeavySnowShowers)
        } else if chars_eq(v, &chars_of("Light showers of ice pellets")) {
            Some(WeatherCondition::LightShowersOfIcePellets)
        } else if chars_eq(v, &chars_of("Moderate or heavy showers of ice pellets")) {
            Some(WeatherCondition::ModerateOrHeavyShowersOfIcePellets)
        } else if chars_eq(v, &chars_of("Patchy light rain with thunder")) {
            Some(WeatherCondition::PatchyLightRainWithThunder)
        } else if chars_eq(v, &chars_of("Moderate or heavy rain with thunder")) {
            Some(WeatherCondition::ModerateOrHeavyRainWithThunder)
        } else if chars_eq(v, &chars_of("Patchy light snow with thunder")) {
            Some(WeatherCondition::PatchyLightSnowWithThunder)
        } else if chars_eq(v, &chars_of("Moderate or heavy snow with thunder")) {
            Some(WeatherCondition::ModerateOrHeavySnowWithThunder)
        } else {
            None
        }
    }

    /// The condition's display glyph, as `glyph_seq` says.
    pub fn glyph(&self) -> (r: String)
        ensures
            r@ == glyph_seq(*self),
    {
        match self {
            WeatherCondition::Sunny => string_of(&chars_of("")),
            WeatherCondition::PartlyCloudy => string_of(&chars_of("")),
            WeatherCondition::Cloudy => string_of(&chars_of("")),
            WeatherCondition::Overcast => string_of(&chars_of("")),
            WeatherCondition::Mist => string_of(&chars_of("󰖑")),
            WeatherCondition::PatchyRainPossible => string_of(&chars_of("")),
            WeatherCondition::PatchySnowPossible => string_of(&chars_of("")),
            WeatherCondition::PatchySleetPossible => string_of(&chars_of("")),
            WeatherCondition::PatchyFreezingDrizzlePossible => string_of(&chars_of("")),
            WeatherCondition::ThunderyOutbreaksPossible => string_of(&chars_of("")),
            WeatherCondition::BlowingSnow => string_of(&chars_of("")),
            WeatherCondition::Blizzard => string_of(&chars_of("")),
            WeatherCondition::Fog => string_of(&chars_of("󰖑")),
            WeatherCondition::FreezingFog => string_of(&chars_of("󰖑")),
            WeatherCondition::PatchyLightDrizzle => string_of(&chars_of("")),
            WeatherCondition::LightDrizzle => string_of(&chars_of("")),
            WeatherCondition::FreezingDrizzle => string_of(&chars_of("")),
            WeatherCondition::HeavyFreezingDrizzle => string_of(&chars_of("")),
            WeatherCondition::PatchyLightRain => string_of(&chars_of("")),
            WeatherCondition::LightRain => string_of(&chars_of("")),
            WeatherCondition::ModerateRainAtTimes => string_of(&chars_of("")),
            WeatherCondition::ModerateRain => string_of(&chars_of("")),
            WeatherCondition::HeavyRainAtTimes => string_of(&chars_of("")),
            WeatherCondition::HeavyRain => string_of(&chars_of("")),
            WeatherCondition::LightFreezingRain => string_of(&chars_of("")),
            WeatherCondition::ModerateOrHeavyFreezingRain => string_of(&chars_of("")),
            WeatherCondition::LightSleet => string_of(&chars_of("")),
            WeatherCondition::ModerateOrHeavySleet => string_of(&chars_of("")),
            WeatherCondition::PatchyLightSnow => string_of(&chars_of("")),
            WeatherCondition::LightSnow => string_of(&chars_of("")),
            WeatherCondition::PatchyModerateSnow => string_of(&chars_of("")),
            WeatherCondition::ModerateSnow => string_of(&chars_of("")),
            WeatherCondition::PatchyHeavySnow => string_of(&chars_of("")),
            WeatherCondition::HeavySnow => string_of(&chars_of("")),
            WeatherCondition::IcePellets => string_of(&chars_of("")),
            WeatherCondition::LightRainShower => string_of(&chars_of("")),
            WeatherCondition::ModerateOrHeavyRainShower => string_of(&chars_of("")),
            WeatherCondition::TorrentialRainShower => string_of(&chars_of("")),
            WeatherCondition::LightSleetShowers => string_of(&chars_of("")),
            WeatherCondition::ModerateOrHeavySleetShowers => string_of(&chars_of("")),
            WeatherCondition::LightSnowShowers => string_of(&chars_of("")),
            WeatherCondition::ModerateOrHeavySnowShowers => string_of(&chars_of("")),
            WeatherCondition::LightShowersOfIcePellets => string_of(&chars_of("")),
            WeatherCondition::ModerateOrHeavyShowersOfIcePellets => string_of(&chars_of("")),
            WeatherCondition::PatchyLightRainWithThunder => string_of(&chars_of("")),
            WeatherCondition::ModerateOrHeavyRainWithThunder => string_of(&chars_of("")),
            WeatherCondition::PatchyLightSnowWithThunder => string_of(&chars_of("")),
            WeatherCondition::ModerateOrHeavySnowWithThunder => string_of(&chars_of("")),
        }
    }
}

/// The condition mapper is total over the fixed label set and every glyph is
/// non-empty: each condition carries exactly one glyph, determined by the
/// condition alone, and no condition is left without one.
pub proof fn lemma_glyph_total()
    ensures
        forall|c: WeatherCondition| #[trigger] glyph_seq(c).len() >= 1,
{
    reveal_strlit("");
    reveal_strlit("");
    reveal_strlit("");
    reveal_strlit("󰖑");
    reveal_strlit("");
    reveal_strlit("");
    reveal_strlit("");
    reveal_strlit("");
    assert forall|c: WeatherCondition| #[trigger] glyph_seq(c).len() >= 1 by {
        match c {
            WeatherCondition::Sunny => assert(glyph_seq(c) == ""@),
            WeatherCondition::PartlyCloudy => assert(glyph_seq(c) == ""@),
            WeatherCondition::Cloudy => assert(glyph_seq(c) == ""@),
            WeatherCondition::Overcast => assert(glyph_seq(c) == ""@),
            WeatherCondition::Mist => assert(glyph_seq(c) == "󰖑"@),
            WeatherCondition::PatchyRainPossible => assert(glyph_seq(c) == ""@),
            WeatherCondition::PatchySnowPossible => assert(glyph_seq(c) == ""@),
            WeatherCondition::PatchySleetPossible => assert(glyph_seq(c) == ""@),
            WeatherCondition::PatchyFreezingDrizzlePossible => assert(glyph_seq(c) == ""@),
            WeatherCondition::ThunderyOutbreaksPossible => assert(glyph_seq(c) == ""@),
            WeatherCondition::BlowingSnow => assert(glyph_seq(c) == ""@),
            WeatherCondition::Blizzard => assert(glyph_seq(c) == ""@),
            WeatherCondition::Fog => assert(glyph_seq(c) == "󰖑"@),
            WeatherCondition::FreezingFog => assert(glyph_seq(c) == "󰖑"@),
            WeatherCondition::PatchyLightDrizzle => assert(glyph_seq(c) == ""@),
            WeatherCondition::LightDrizzle => assert(glyph_seq(c) == ""@),
            WeatherCondition::FreezingDrizzle => assert(glyph_seq(c) == ""@),
            WeatherCondition::HeavyFreezingDrizzle => assert(glyph_seq(c) == ""@),
            WeatherCondition::PatchyLightRain => assert(glyph_seq(c) == ""@),
            WeatherCondition::LightRain => assert(glyph_seq(c) == ""@),
            WeatherCondition::ModerateRainAtTimes => assert(glyph_seq(c) == ""@),
            WeatherCondition::ModerateRain => assert(glyph_seq(c) == ""@),
            WeatherCondition::HeavyRainAtTimes => assert(glyph_seq(c) == ""@),
            WeatherCondition::HeavyRain => assert(glyph_seq(c) == ""@),
            WeatherCondition::LightFreezingRain => assert(glyph_seq(c) == ""@),
            WeatherCondition::ModerateOrHeavyFreezingRain => assert(glyph_seq(c) == ""@),
            WeatherCondition::LightSleet => assert(glyph_seq(c) == ""@),
            WeatherCondition::ModerateOrHeavySleet => assert(glyph_seq(c) == ""@),
            WeatherCondition::PatchyLightSnow => assert(glyph_seq(c) == ""@),
            WeatherCondition::LightSnow => assert(glyph_seq(c) == ""@),
            WeatherCondition::PatchyModerateSnow => assert(glyph_seq(c) == ""@),
            WeatherCondition::ModerateSnow => assert(glyph_seq(c) == ""@),
            WeatherCondition::PatchyHeavySnow => assert(glyph_seq(c) == ""@),
            WeatherCondition::HeavySnow => assert(glyph_seq(c) == ""@),
            WeatherCondition::IcePellets => assert(glyph_seq(c) == ""@),
            WeatherCondition::LightRainShower => assert(glyph_seq(c) == ""@),
            WeatherCondition::ModerateOrHeavyRainShower => assert(glyph_seq(c) == ""@),
            WeatherCondition::TorrentialRainShower => assert(glyph_seq(c) == ""@),
            WeatherCondition::LightSleetShowers => assert(glyph_seq(c) == ""@),
            WeatherCondition::ModerateOrHeavySleetShowers => assert(glyph_seq(c) == ""@),
            WeatherCondition::LightSnowShowers => assert(glyph_seq(c) == ""@),
            WeatherCondition::ModerateOrHeavySnowShowers => assert(glyph_seq(c) == ""@),
            WeatherCondition::LightShowersOfIcePellets => assert(glyph_seq(c) == ""@),
            WeatherCondition::ModerateOrHeavyShowersOfIcePellets => assert(glyph_seq(c) == ""@),
            WeatherCondition::PatchyLightRainWithThunder => assert(glyph_seq(c) == ""@),
            WeatherCondition::ModerateOrHeavyRainWithThunder => assert(glyph_seq(c) == ""@),
            WeatherCondition::PatchyLightSnowWithThunder => assert(glyph_seq(c) == ""@),
            WeatherCondition::ModerateOrHeavySnowWithThunder => assert(glyph_seq(c) == ""@),
        }
    }
}

} // verus!
