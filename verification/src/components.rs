//! The palette table, the shader configuration value object, and the builder
//! that resolves a (time of day, weather) pair plus optional overrides into
//! an immutable configuration.

use vstd::prelude::*;
use crate::color::{white_spec, Rgba};

verus! {

/// Identifier of the toon mask texture that every built shader configuration
/// references. The host maps this identifier to the actual texture asset.
pub const TEXTURE_HANDLE: u128 = 0x1af26f3e_5605_4723_a036_dc83f357c7d8;

/// Identifier of the fragment shader program that consumes the
/// configuration. The host maps this identifier to the actual shader asset.
pub const SHADER_HANDLE: u128 = 0xddeed264_efde_495e_9159_4ac3db07f9f8;

/// The time of day that selects a row of the color palette. These are mood
/// categories, not clock values; they need not match any in-game time.
#[derive(Clone, Copy, Debug, PartialEq, Eq, Structural)]
pub enum TimeOfDay {
    Dusk,
    Morning,
    Day,
    Afternoon,
    Evening,
    Night,
}

/// The weather that modifies the palette row chosen by the time of day.
/// These too are mood categories rather than simulation state.
#[derive(Clone, Copy, Debug, PartialEq, Eq, Structural)]
pub enum Weather {
    Sunny,
    Rainy,
}

impl Default for TimeOfDay {
    /// The default time of day is `Day`.
    fn default() -> (t: Self)
        ensures
            t == TimeOfDay::Day,
    {
        TimeOfDay::Day
    }
}

impl Default for Weather {
    /// The default weather is `Sunny`.
    fn default() -> (w: Self)
        ensures
            w == Weather::Sunny,
    {
        Weather::Sunny
    }
}

/// The successor of a time of day in the fixed six-step cycle
/// Dusk, Morning, Day, Afternoon, Evening, Night, and back to Dusk.
pub open spec fn next_time_of_day(t: TimeOfDay) -> TimeOfDay {
    match t {
        TimeOfDay::Dusk => TimeOfDay::Morning,
        TimeOfDay::Morning => TimeOfDay::Day,
        TimeOfDay::Day => TimeOfDay::Afternoon,
        TimeOfDay::Afternoon => TimeOfDay::Evening,
        TimeOfDay::Evening => TimeOfDay::Night,
        TimeOfDay::Night => TimeOfDay::Dusk,
    }
}

impl TimeOfDay {
    /// Returns the next time of day in the cycle.
    pub fn next(self) -> (t: Self)
        ensures
            t == next_time_of_day(self),
    {
        match self {
            TimeOfDay::Dusk => TimeOfDay::Morning,
            TimeOfDay::Morning => TimeOfDay::Day,
            TimeOfDay::Day => TimeOfDay::Afternoon,
            TimeOfDay::Afternoon => TimeOfDay::Evening,
            TimeOfDay::Evening => TimeOfDay::Night,
            TimeOfDay::Night => TimeOfDay::Dusk,
        }
    }
}

/// Following the cycle six times from any time of day returns the starting
/// value: the successor function is a total cycle over the six values.
pub proof fn lemma_time_of_day_cycle(t: TimeOfDay)
    ensures
        next_time_of_day(
            next_time_of_day(
                next_time_of_day(
                    next_time_of_day(next_time_of_day(next_time_of_day(t))),
                ),
            ),
        ) == t,
{
}

/// The successor function never sends two distinct times of day to the same
/// value; together with totality over a finite type this makes it a
/// bijection on the six-element cycle.
pub proof fn lemma_time_of_day_next_injective(a: TimeOfDay, b: TimeOfDay)
    requires
        next_time_of_day(a) == next_time_of_day(b),
    ensures
        a == b,
{
}

/// The highlight color of the palette row for the given time of day and
/// weather: the parts of a model that face the light source.
pub open spec fn palette_highlight(time: TimeOfDay, weather: Weather) -> Rgba {
    match (time, weather) {
        (TimeOfDay::Dusk, Weather::Sunny) => (Rgba { red: 0xA1, green: 0x9A, blue: 0xA3, alpha: 255 }),
        (TimeOfDay::Dusk, Weather::Rainy) => (Rgba { red: 0x90, green: 0x88, blue: 0x7A, alpha: 255 }),
        (TimeOfDay::Morning, Weather::Sunny) => (Rgba { red: 0xF0, green: 0xEA, blue: 0xE3, alpha: 255 }),
        (TimeOfDay::Morning, Weather::Rainy) => (Rgba { red: 0xB8, green: 0xBD, blue: 0xB8, alpha: 255 }),
        (TimeOfDay::Day, Weather::Sunny) => (Rgba { red: 0xFF, green: 0xFF, blue: 0xFF, alpha: 255 }),
        (TimeOfDay::Day, Weather::Rainy) => (Rgba { red: 0xAD, green: 0xBB, blue: 0xB7, alpha: 255 }),
        (TimeOfDay::Afternoon, Weather::Sunny) => (Rgba { red: 0xD8, green: 0xC3, blue: 0x7F, alpha: 255 }),
        (TimeOfDay::Afternoon, Weather::Rainy) => (Rgba { red: 0x99, green: 0x91, blue: 0x87, alpha: 255 }),
        (TimeOfDay::Evening, Weather::Sunny) => (Rgba { red: 0x8D, green: 0x8C, blue: 0x9A, alpha: 255 }),
        (TimeOfDay::Evening, Weather::Rainy) => (Rgba { red: 0x8E, green: 0x87, blue: 0x7D, alpha: 255 }),
        (TimeOfDay::Night, Weather::Sunny) => (Rgba { red: 0x87, green: 0x9E, blue: 0xB5, alpha: 255 }),
        (TimeOfDay::Night, Weather::Rainy) => (Rgba { red: 0x4B, green: 0x66, blue: 0x90, alpha: 255 }),
    }
}

/// The shadow color of the palette row for the given time of day and
/// weather: the parts of a model that face away from the light source.
pub open spec fn palette_shadow(time: TimeOfDay, weather: Weather) -> Rgba {
    match (time, weather) {
        (TimeOfDay::Dusk, Weather::Sunny) => (Rgba { red: 0x74, green: 0x66, blue: 0x76, alpha: 255 }),
        (TimeOfDay::Dusk, Weather::Rainy) => (Rgba { red: 0x74, green: 0x66, blue: 0x76, alpha: 255 }),
        (TimeOfDay::Morning, Weather::Sunny) => (Rgba { red: 0xBC, green: 0xB7, blue: 0xCB, alpha: 255 }),
        (TimeOfDay::Morning, Weather::Rainy) => (Rgba { red: 0x9A, green: 0xA4, blue: 0x94, alpha: 255 }),
        (TimeOfDay::Day, Weather::Sunny) => (Rgba { red: 0xA3, green: 0x98, blue: 0x92, alpha: 255 }),
        (TimeOfDay::Day, Weather::Rainy) => (Rgba { red: 0x8E, green: 0x97, blue: 0x8D, alpha: 255 }),
        (TimeOfDay::Afternoon, Weather::Sunny) => (Rgba { red: 0xB0, green: 0x90, blue: 0x70, alpha: 255 }),
        (TimeOfDay::Afternoon, Weather::Rainy) => (Rgba { red: 0x88, green: 0x81, blue: 0x77, alpha: 255 }),
        (TimeOfDay::Evening, Weather::Sunny) => (Rgba { red: 0x7E, green: 0x78, blue: 0x85, alpha: 255 }),
        (TimeOfDay::Evening, Weather::Rainy) => (Rgba { red: 0x7A, green: 0x73, blue: 0x68, alpha: 255 }),
        (TimeOfDay::Night, Weather::Sunny) => (Rgba { red: 0x5D, green: 0x6E, blue: 0x99, alpha: 255 }),
        (TimeOfDay::Night, Weather::Rainy) => (Rgba { red: 0x4C, green: 0x59, blue: 0x5A, alpha: 255 }),
    }
}

/// Looks up the fixed palette: the (highlight, shadow) color pair for the
/// given time of day and weather. Total over all twelve combinations.
pub fn lookup(time: TimeOfDay, weather: Weather) -> (colors: (Rgba, Rgba))
    ensures
        colors.0 == palette_highlight(time, weather),
        colors.1 == palette_shadow(time, weather),
{
    let highlight = match (time, weather) {
        (TimeOfDay::Dusk, Weather::Sunny) => Rgba::rgb(0xA1, 0x9A, 0xA3),
        (TimeOfDay::Dusk, Weather::Rainy) => Rgba::rgb(0x90, 0x88, 0x7A),
        (TimeOfDay::Morning, Weather::Sunny) => Rgba::rgb(0xF0, 0xEA, 0xE3),
        (TimeOfDay::Morning, Weather::Rainy) => Rgba::rgb(0xB8, 0xBD, 0xB8),
        (TimeOfDay::Day, Weather::Sunny) => Rgba::rgb(0xFF, 0xFF, 0xFF),
        (TimeOfDay::Day, Weather::Rainy) => Rgba::rgb(0xAD, 0xBB, 0xB7),
        (TimeOfDay::Afternoon, Weather::Sunny) => Rgba::rgb(0xD8, 0xC3, 0x7F),
        (TimeOfDay::Afternoon, Weather::Rainy) => Rgba::rgb(0x99, 0x91, 0x87),
        (TimeOfDay::Evening, Weather::Sunny) => Rgba::rgb(0x8D, 0x8C, 0x9A),
        (TimeOfDay::Evening, Weather::Rainy) => Rgba::rgb(0x8E, 0x87, 0x7D),
        (TimeOfDay::Night, Weather::Sunny) => Rgba::rgb(0x87, 0x9E, 0xB5),
        (TimeOfDay::Night, Weather::Rainy) => Rgba::rgb(0x4B, 0x66, 0x90),
    };
    let shadow = match (time, weather) {
        (TimeOfDay::Dusk, Weather::Sunny) => Rgba::rgb(0x74, 0x66, 0x76),
        (TimeOfDay::Dusk, Weather::Rainy) => Rgba::rgb(0x74, 0x66, 0x76),
        (TimeOfDay::Morning, Weather::Sunny) => Rgba::rgb(0xBC, 0xB7, 0xCB),
        (TimeOfDay::Morning, Weather::Rainy) => Rgba::rgb(0x9A, 0xA4, 0x94),
        (TimeOfDay::Day, Weather::Sunny) => Rgba::rgb(0xA3, 0x98, 0x92),
        (TimeOfDay::Day, Weather::Rainy) => Rgba::rgb(0x8E, 0x97, 0x8D),
        (TimeOfDay::Afternoon, Weather::Sunny) => Rgba::rgb(0xB0, 0x90, 0x70),
        (TimeOfDay::Afternoon, Weather::Rainy) => Rgba::rgb(0x88, 0x81, 0x77),
        (TimeOfDay::Evening, Weather::Sunny) => Rgba::rgb(0x7E, 0x78, 0x85),
        (TimeOfDay::Evening, Weather::Rainy) => Rgba::rgb(0x7A, 0x73, 0x68),
        (TimeOfDay::Night, Weather::Sunny) => Rgba::rgb(0x5D, 0x6E, 0x99),
        (TimeOfDay::Night, Weather::Rainy) => Rgba::rgb(0x4C, 0x59, 0x5A),
    };
    (highlight, shadow)
}

/// An immutable toon shader configuration: the three palette colors plus the
/// mask texture reference. Attach it to an entity (directly renderable, or
/// the root of an externally loaded scene) to have the migration driver swap
/// that entity's standard material for an extended material carrying this
/// configuration.
#[derive(Clone, Copy, Debug, PartialEq, Eq, Structural)]
pub struct WindWakerShader {
    /// Reference to the mask texture that bands the toon lighting.
    pub mask: u128,
    /// The color of the parts of the model that face the light source.
    pub highlight_color: Rgba,
    /// The color of the parts of the model that face away from the light.
    pub shadow_color: Rgba,
    /// The color of the model's edge, which gets a slight specular
    /// highlight to make the model pop.
    pub rim_color: Rgba,
}

/// The configuration that a builder produces: the palette row selected by
/// time of day and weather, with explicit overrides winning over the
/// palette, a rim color that defaults to opaque white, and the fixed mask
/// texture reference.
pub open spec fn built_shader(b: WindWakerShaderBuilder) -> WindWakerShader {
    WindWakerShader {
        mask: TEXTURE_HANDLE,
        highlight_color: match b.override_highlight_color {
            Some(c) => c,
            None => palette_highlight(b.time_of_day, b.weather),
        },
        shadow_color: match b.override_shadow_color {
            Some(c) => c,
            None => palette_shadow(b.time_of_day, b.weather),
        },
        rim_color: match b.override_rim_color {
            Some(c) => c,
            None => white_spec(),
        },
    }
}

/// Collects a time of day, a weather, and optional per-color overrides, and
/// resolves them into a [`WindWakerShader`]: the palette is looked up first,
/// then explicit overrides replace the looked-up colors.
#[derive(Clone, Copy, Debug, PartialEq, Eq, Structural)]
pub struct WindWakerShaderBuilder {
    /// The palette row to start from; defaults to [`TimeOfDay::Day`].
    pub time_of_day: TimeOfDay,
    /// The palette column to start from; defaults to [`Weather::Sunny`].
    pub weather: Weather,
    /// When set, replaces the palette's highlight color at build time.
    pub override_highlight_color: Option<Rgba>,
    /// When set, replaces the palette's shadow color at build time.
    pub override_shadow_color: Option<Rgba>,
    /// When set, replaces the default opaque white rim color at build time.
    pub override_rim_color: Option<Rgba>,
}

impl Default for WindWakerShaderBuilder {
    /// The default builder: day, sunny, and no overrides.
    fn default() -> (b: Self)
        ensures
            b == (WindWakerShaderBuilder {
                time_of_day: TimeOfDay::Day,
                weather: Weather::Sunny,
                override_highlight_color: None,
                override_shadow_color: None,
                override_rim_color: None,
            }),
    {
        WindWakerShaderBuilder {
            time_of_day: TimeOfDay::Day,
            weather: Weather::Sunny,
            override_highlight_color: None,
            override_shadow_color: None,
            override_rim_color: None,
        }
    }
}

impl WindWakerShaderBuilder {
    /// Uses the color palette row associated with the given time of day.
    /// The [weather](WindWakerShaderBuilder::weather) further modifies the
    /// chosen colors.
    pub fn time_of_day(self, time: TimeOfDay) -> (b: Self)
        ensures
            b == (WindWakerShaderBuilder { time_of_day: time, ..self }),
    {
        WindWakerShaderBuilder { time_of_day: time, ..self }
    }

    /// Modifies the palette row chosen by the
    /// [time of day](WindWakerShaderBuilder::time_of_day) by the given
    /// weather.
    pub fn weather(self, weather: Weather) -> (b: Self)
        ensures
            b == (WindWakerShaderBuilder { weather, ..self }),
    {
        WindWakerShaderBuilder { weather, ..self }
    }

    /// Overrides the highlight color with the given color, winning over
    /// whatever the time of day and weather would select.
    pub fn override_highlight_color(self, color: Rgba) -> (b: Self)
        ensures
            b == (WindWakerShaderBuilder { override_highlight_color: Some(color), ..self }),
    {
        WindWakerShaderBuilder { override_highlight_color: Some(color), ..self }
    }

    /// Overrides the shadow color with the given color, winning over
    /// whatever the time of day and weather would select.
    pub fn override_shadow_color(self, color: Rgba) -> (b: Self)
        ensures
            b == (WindWakerShaderBuilder { override_shadow_color: Some(color), ..self }),
    {
        WindWakerShaderBuilder { override_shadow_color: Some(color), ..self }
    }

    /// Overrides the rim color with the given color in place of the default
    /// opaque white.
    pub fn override_rim_color(self, color: Rgba) -> (b: Self)
        ensures
            b == (WindWakerShaderBuilder { override_rim_color: Some(color), ..self }),
    {
        WindWakerShaderBuilder { override_rim_color: Some(color), ..self }
    }

    /// Resolves the collected settings into a [`WindWakerShader`]: palette
    /// lookup first, overrides second, rim color defaulting to opaque
    /// white, and the fixed mask texture reference.
    pub fn build(self) -> (shader: WindWakerShader)
        ensures
            shader == built_shader(self),
    {
        let (palette_highlight, palette_shadow) = lookup(self.time_of_day, self.weather);
        let highlight_color = match self.override_highlight_color {
            Some(c) => c,
            None => palette_highlight,
        };
        let shadow_color = match self.override_shadow_color {
            Some(c) => c,
            None => palette_shadow,
        };
        let rim_color = match self.override_rim_color {
            Some(c) => c,
            None => Rgba::white(),
        };
        WindWakerShader { mask: TEXTURE_HANDLE, highlight_color, shadow_color, rim_color }
    }
}

impl Default for WindWakerShader {
    /// The configuration a default builder produces: the day/sunny palette
    /// row, an opaque white rim, and the fixed mask texture reference.
    fn default() -> (shader: Self)
        ensures
            shader == built_shader(WindWakerShaderBuilder {
                time_of_day: TimeOfDay::Day,
                weather: Weather::Sunny,
                override_highlight_color: None,
                override_shadow_color: None,
                override_rim_color: None,
            }),
    {
        WindWakerShaderBuilder::default().build()
    }
}

/// A built configuration carries an explicit highlight override verbatim,
/// whatever the builder's time of day and weather say.
pub proof fn lemma_override_highlight_wins(b: WindWakerShaderBuilder, c: Rgba)
    requires
        b.override_highlight_color == Some(c),
    ensures
        built_shader(b).highlight_color == c,
{
}

} // verus!
