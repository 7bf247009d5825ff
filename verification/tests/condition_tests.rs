//! Tests for the condition mapper: the fixed label set and the glyphs.

use waybar_weather::condition::WeatherCondition;
use waybar_weather::text::chars_of;

fn parse(label: &str) -> Option<WeatherCondition> {
    WeatherCondition::from_label(&chars_of(label))
}

#[test]
fn every_fixed_label_has_a_nonempty_glyph() {
    let labels = [
        "Sunny",
        "Partly cloudy",
        "Cloudy",
        "Overcast",
        "Mist",
        "Patchy rain possible",
        "Patchy snow possible",
        "Patchy sleet possible",
        "Patchy freezing drizzle possible",
        "Thundery outbreaks possible",
        "Blowing snow",
        "Blizzard",
        "Fog",
        "Freezing fog",
        "Patchy light drizzle",
        "Light drizzle",
        "Freezing drizzle",
        "Heavy freezing drizzle",
        "Patchy light rain",
        "Light rain",
        "Moderate rain at times",
        "Moderate rain",
        "Heavy rain at times",
        "Heavy rain",
        "Light freezing rain",
        "Moderate or heavy freezing rain",
        "Light sleet",
        "Moderate or heavy sleet",
        "Patchy light snow",
        "Light snow",
        "Patchy moderate snow",
        "Moderate snow",
        "Patchy heavy snow",
        "Heavy snow",
        "Ice pellets",
        "Light rain shower",
        "Moderate or heavy rain shower",
        "Torrential rain shower",
        "Light sleet showers",
        "Moderate or heavy sleet showers",
        "Light snow showers",
        "Moderate or heavy snow showers",
        "Light showers of ice pellets",
        "Moderate or heavy showers of ice pellets",
        "Patchy light rain with thunder",
        "Moderate or heavy rain with thunder",
        "Patchy light snow with thunder",
        "Moderate or heavy snow with thunder",
    ];
    assert_eq!(labels.len(), 48);
    for label in labels.iter() {
        let cond = parse(label).unwrap_or_else(|| panic!("label not recognized: {}", label));
        assert!(!cond.glyph().is_empty(), "empty glyph for {}", label);
    }
}

#[test]
fn mapping_twice_gives_the_same_glyph() {
    let cond = parse("Patchy rain possible").unwrap();
    assert_eq!(cond.glyph(), cond.glyph());
}

#[test]
fn labels_outside_the_set_are_refused() {
    assert!(parse("Hailstorm").is_none());
    assert!(parse("sunny").is_none());
    assert!(parse("").is_none());
}

#[test]
fn distinct_labels_map_to_their_own_conditions() {
    assert_eq!(parse("Sunny").unwrap(), WeatherCondition::Sunny);
    assert_eq!(parse("Moderate or heavy snow with thunder").unwrap(),
        WeatherCondition::ModerateOrHeavySnowWithThunder);
    assert_eq!(parse("Fog").unwrap(), WeatherCondition::Fog);
}
