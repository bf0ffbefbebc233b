//! The WMO weather-code classifier: a total mapping from the raw integer
//! code to a named condition, and the tri-state umbrella advisory derived
//! from the condition.

use vstd::prelude::*;

verus! {

/// A sky/precipitation condition named by a WMO weather interpretation code.
/// Codes outside the fixed table fall into `Unknown`, which carries the raw
/// code for forward compatibility.
#[derive(Clone, Copy, Debug, PartialEq, Eq, Structural)]
pub enum WeatherCode {
    ClearSky,
    MainlyClear,
    PartlyCloudy,
    Overcast,
    Fog,
    RimeFog,
    DrizzleLight,
    DrizzleModerate,
    DrizzleDense,
    FreezingDrizzleLight,
    FreezingDrizzleHeavy,
    RainSlight,
    RainModerate,
    RainHeavy,
    FreezingRainLight,
    FreezingRainHeavy,
    SnowFallSlight,
    SnowFallModerate,
    SnowFallHeavy,
    SnowGrains,
    RainShowersSlight,
    RainShowersModerate,
    RainShowersViolent,
    SnowShowersSlight,
    SnowShowersHeavy,
    Thunderstorm,
    ThunderstormSlightHail,
    ThunderstormHeavyHail,
    Unknown(u32),
}

/// Whether the condition calls for taking an umbrella along.
#[derive(Clone, Copy, Debug, PartialEq, Eq, Structural)]
pub enum NeedsUmbrella {
    No,
    Maybe,
    Sure,
}

/// The condition named by a raw WMO code; codes outside the table map to
/// `Unknown` with the raw code kept.
pub open spec fn code_of(value: u32) -> WeatherCode {
    if value == 0 {
        WeatherCode::ClearSky
    } else if value == 1 {
        WeatherCode::MainlyClear
    } else if value == 2 {
        WeatherCode::PartlyCloudy
    } else if value == 3 {
        WeatherCode::Overcast
    } else if value == 45 {
        WeatherCode::Fog
    } else if value == 48 {
        WeatherCode::RimeFog
    } else if value == 51 {
        WeatherCode::DrizzleLight
    } else if value == 53 {
        WeatherCode::DrizzleModerate
    } else if value == 55 {
        WeatherCode::DrizzleDense
    } else if value == 56 {
        WeatherCode::FreezingDrizzleLight
    } else if value == 57 {
        WeatherCode::FreezingDrizzleHeavy
    } else if value == 61 {
        WeatherCode::RainSlight
    } else if value == 63 {
        WeatherCode::RainModerate
    } else if value == 65 {
        WeatherCode::RainHeavy
    } else if value == 66 {
        WeatherCode::FreezingRainLight
    } else if value == 67 {
        WeatherCode::FreezingRainHeavy
    } else if value == 71 {
        WeatherCode::SnowFallSlight
    } else if value == 73 {
        WeatherCode::SnowFallModerate
    } else if value == 75 {
        WeatherCode::SnowFallHeavy
    } else if value == 77 {
        WeatherCode::SnowGrains
    } else if value == 80 {
        WeatherCode::RainShowersSlight
    } else if value == 81 {
        WeatherCode::RainShowersModerate
    } else if value == 82 {
        WeatherCode::RainShowersViolent
    } else if value == 85 {
        WeatherCode::SnowShowersSlight
    } else if value == 86 {
        WeatherCode::SnowShowersHeavy
    } else if value == 95 {
        WeatherCode::Thunderstorm
    } else if value == 96 {
        WeatherCode::ThunderstormSlightHail
    } else if value == 99 {
        WeatherCode::ThunderstormHeavyHail
    } else {
        WeatherCode::Unknown(value)
    }
}

/// The advisory owed to a condition. Conservative on conditions outside the
/// table: an unrecognized code never advises carrying an umbrella.
pub open spec fn umbrella_of(code: WeatherCode) -> NeedsUmbrella {
    match code {
        WeatherCode::DrizzleLight
        | WeatherCode::DrizzleModerate
        | WeatherCode::SnowFallSlight
        | WeatherCode::SnowGrains
        | WeatherCode::SnowShowersSlight => NeedsUmbrella::Maybe,
        WeatherCode::DrizzleDense
        | WeatherCode::FreezingDrizzleLight
        | WeatherCode::FreezingDrizzleHeavy
        | WeatherCode::RainSlight
        | WeatherCode::RainModerate
        | WeatherCode::RainHeavy
        | WeatherCode::SnowFallModerate
        | WeatherCode::SnowFallHeavy
        | WeatherCode::RainShowersSlight
        | WeatherCode::RainShowersModerate
        | WeatherCode::RainShowersViolent
        | WeatherCode::SnowShowersHeavy
        | WeatherCode::Thunderstorm
        | WeatherCode::ThunderstormSlightHail
        | WeatherCode::ThunderstormHeavyHail => NeedsUmbrella::Sure,
        _ => NeedsUmbrella::No,
    }
}

/// Classification never over-warns on a code outside the fixed table: an
/// unrecognized condition, whatever its raw code, advises no umbrella.
pub proof fn lemma_unknown_code_never_warns(raw: u32)
    ensures
        umbrella_of(WeatherCode::Unknown(raw)) == NeedsUmbrella::No,
{
}

impl From<u32> for WeatherCode {
    fn from(value: u32) -> (r: Self) {
        match value {
            0 => Self::ClearSky,
            1 => Self::MainlyClear,
            2 => Self::PartlyCloudy,
            3 => Self::Overcast,
            45 => Self::Fog,
            48 => Self::RimeFog,
            51 => Self::DrizzleLight,
            53 => Self::DrizzleModerate,
            55 => Self::DrizzleDense,
            56 => Self::FreezingDrizzleLight,
            57 => Self::FreezingDrizzleHeavy,
            61 => Self::RainSlight,
            63 => Self::RainModerate,
            65 => Self::RainHeavy,
            66 => Self::FreezingRainLight,
            67 => Self::FreezingRainHeavy,
            71 => Self::SnowFallSlight,
            73 => Self::SnowFallModerate,
            75 => Self::SnowFallHeavy,
            77 => Self::SnowGrains,
            80 => Self::RainShowersSlight,
            81 => Self::RainShowersModerate,
            82 => Self::RainShowersViolent,
            85 => Self::SnowShowersSlight,
            86 => Self::SnowShowersHeavy,
            95 => Self::Thunderstorm,
            96 => Self::ThunderstormSlightHail,
            99 => Self::ThunderstormHeavyHail,
            x => Self::Unknown(x),
        }
    }
}

impl vstd::std_specs::convert::FromSpecImpl<u32> for WeatherCode {
    open spec fn obeys_from_spec() -> bool {
        true
    }

    open spec fn from_spec(value: u32) -> WeatherCode {
        code_of(value)
    }
}

impl WeatherCode {
    /// The umbrella advisory for this condition, per the advisory table:
    /// light precipitation advises `Maybe`, steady or heavy precipitation
    /// advises `Sure`, and everything else (clear, cloudy, fog, freezing
    /// rain, unknown codes) advises `No`.
    pub fn need_umbrella(&self) -> (r: NeedsUmbrella)
        ensures
            r == umbrella_of(*self),
    {
        match self {
            Self::DrizzleLight
            | Self::DrizzleModerate
            | Self::SnowFallSlight
            | Self::SnowGrains
            | Self::SnowShowersSlight => NeedsUmbrella::Maybe,
            Self::DrizzleDense
            | Self::FreezingDrizzleLight
            | Self::FreezingDrizzleHeavy
            | Self::RainSlight
            | Self::RainModerate
            | Self::RainHeavy
            | Self::SnowFallModerate
            | Self::SnowFallHeavy
            | Self::RainShowersSlight
            | Self::RainShowersModerate
            | Self::RainShowersViolent
            | Self::SnowShowersHeavy
            | Self::Thunderstorm
            | Self::ThunderstormSlightHail
            | Self::ThunderstormHeavyHail => NeedsUmbrella::Sure,
            _ => NeedsUmbrella::No,
        }
    }
}

} // verus!
