use wind_waker_shader::components::TEXTURE_HANDLE;
use wind_waker_shader::{lookup, Rgba, TimeOfDay, Weather, WindWakerShader, WindWakerShaderBuilder};

fn rgb(red: u8, green: u8, blue: u8) -> Rgba {
    Rgba { red, green, blue, alpha: 255 }
}

#[test]
fn palette_has_the_documented_pair_for_all_twelve_keys() {
    let expected = [
        (TimeOfDay::Dusk, Weather::Sunny, rgb(0xA1, 0x9A, 0xA3), rgb(0x74, 0x66, 0x76)),
        (TimeOfDay::Dusk, Weather::Rainy, rgb(0x90, 0x88, 0x7A), rgb(0x74, 0x66, 0x76)),
        (TimeOfDay::Morning, Weather::Sunny, rgb(0xF0, 0xEA, 0xE3), rgb(0xBC, 0xB7, 0xCB)),
        (TimeOfDay::Morning, Weather::Rainy, rgb(0xB8, 0xBD, 0xB8), rgb(0x9A, 0xA4, 0x94)),
        (TimeOfDay::Day, Weather::Sunny, rgb(0xFF, 0xFF, 0xFF), rgb(0xA3, 0x98, 0x92)),
        (TimeOfDay::Day, Weather::Rainy, rgb(0xAD, 0xBB, 0xB7), rgb(0x8E, 0x97, 0x8D)),
        (TimeOfDay::Afternoon, Weather::Sunny, rgb(0xD8, 0xC3, 0x7F), rgb(0xB0, 0x90, 0x70)),
        (TimeOfDay::Afternoon, Weather::Rainy, rgb(0x99, 0x91, 0x87), rgb(0x88, 0x81, 0x77)),
        (TimeOfDay::Evening, Weather::Sunny, rgb(0x8D, 0x8C, 0x9A), rgb(0x7E, 0x78, 0x85)),
        (TimeOfDay::Evening, Weather::Rainy, rgb(0x8E, 0x87, 0x7D), rgb(0x7A, 0x73, 0x68)),
        (TimeOfDay::Night, Weather::Sunny, rgb(0x87, 0x9E, 0xB5), rgb(0x5D, 0x6E, 0x99)),
        (TimeOfDay::Night, Weather::Rainy, rgb(0x4B, 0x66, 0x90), rgb(0x4C, 0x59, 0x5A)),
    ];
    for (time, weather, highlight, shadow) in expected {
        assert_eq!(lookup(time, weather), (highlight, shadow));
    }
}

#[test]
fn default_build_uses_day_sunny_palette_and_white_rim() {
    let shader = WindWakerShaderBuilder::default().build();
    assert_eq!(shader.highlight_color, rgb(0xFF, 0xFF, 0xFF));
    assert_eq!(shader.shadow_color, rgb(0xA3, 0x98, 0x92));
    assert_eq!(shader.rim_color, rgb(0xFF, 0xFF, 0xFF));
    assert_eq!(shader.mask, TEXTURE_HANDLE);
    assert_eq!(shader, WindWakerShader::default());
}

#[test]
fn build_resolves_time_of_day_and_weather() {
    let shader = WindWakerShaderBuilder::default()
        .time_of_day(TimeOfDay::Night)
        .weather(Weather::Rainy)
        .build();
    assert_eq!(shader.highlight_color, rgb(0x4B, 0x66, 0x90));
    assert_eq!(shader.shadow_color, rgb(0x4C, 0x59, 0x5A));
}

#[test]
fn highlight_override_wins_over_any_palette_key() {
    let orange = rgb(0xFF, 0x80, 0x00);
    let times = [
        TimeOfDay::Dusk,
        TimeOfDay::Morning,
        TimeOfDay::Day,
        TimeOfDay::Afternoon,
        TimeOfDay::Evening,
        TimeOfDay::Night,
    ];
    for time in times {
        for weather in [Weather::Sunny, Weather::Rainy] {
            let shader = WindWakerShaderBuilder::default()
                .time_of_day(time)
                .weather(weather)
                .override_highlight_color(orange)
                .build();
            assert_eq!(shader.highlight_color, orange);
        }
    }
}

#[test]
fn shadow_and_rim_overrides_win() {
    let teal = rgb(0x00, 0x80, 0x80);
    let plum = rgb(0x8E, 0x45, 0x85);
    let shader = WindWakerShaderBuilder::default()
        .time_of_day(TimeOfDay::Evening)
        .override_shadow_color(teal)
        .override_rim_color(plum)
        .build();
    assert_eq!(shader.shadow_color, teal);
    assert_eq!(shader.rim_color, plum);
    // the highlight still comes from the palette
    assert_eq!(shader.highlight_color, rgb(0x8D, 0x8C, 0x9A));
}

#[test]
fn last_write_wins_within_the_builder() {
    let first = rgb(1, 1, 1);
    let second = rgb(2, 2, 2);
    let shader = WindWakerShaderBuilder::default()
        .override_highlight_color(first)
        .override_highlight_color(second)
        .time_of_day(TimeOfDay::Dusk)
        .time_of_day(TimeOfDay::Morning)
        .build();
    assert_eq!(shader.highlight_color, second);
    assert_eq!(shader.shadow_color, rgb(0xBC, 0xB7, 0xCB));
}

#[test]
fn time_of_day_cycles_in_six_steps() {
    let times = [
        TimeOfDay::Dusk,
        TimeOfDay::Morning,
        TimeOfDay::Day,
        TimeOfDay::Afternoon,
        TimeOfDay::Evening,
        TimeOfDay::Night,
    ];
    for start in times {
        let mut current = start;
        for step in 1..=6u32 {
            current = current.next();
            if step < 6 {
                assert_ne!(current, start);
            }
        }
        assert_eq!(current, start);
    }
}

#[test]
fn time_of_day_successors_are_in_order() {
    assert_eq!(TimeOfDay::Dusk.next(), TimeOfDay::Morning);
    assert_eq!(TimeOfDay::Morning.next(), TimeOfDay::Day);
    assert_eq!(TimeOfDay::Day.next(), TimeOfDay::Afternoon);
    assert_eq!(TimeOfDay::Afternoon.next(), TimeOfDay::Evening);
    assert_eq!(TimeOfDay::Evening.next(), TimeOfDay::Night);
    assert_eq!(TimeOfDay::Night.next(), TimeOfDay::Dusk);
}

#[test]
fn enum_defaults_are_day_and_sunny() {
    assert_eq!(TimeOfDay::default(), TimeOfDay::Day);
    assert_eq!(Weather::default(), Weather::Sunny);
}
