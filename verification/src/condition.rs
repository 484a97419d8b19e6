//! Weather conditions and the glyph shown for each.

use vstd::prelude::*;

verus! {

/// The service's classification of the weather. A label that names none of
/// the known conditions is kept as it came.
#[derive(Debug, PartialEq, Eq)]
pub enum WeatherCondition {
    Clouds,
    Clear,
    Thunderstorm,
    Drizzle,
    Rain,
    Snow,
    Mist,
    Smoke,
    Haze,
    Dust,
    Fog,
    Sand,
    Ash,
    Squall,
    Tornado,
    /// A label this crate has no variant for.
    Other(String),
}

/// Whether `label` names one of the known conditions.
pub open spec fn is_known_label(label: Seq<char>) -> bool {
    ||| label == "Clouds"@
    ||| label == "Clear"@
    ||| label == "Thunderstorm"@
    ||| label == "Drizzle"@
    ||| label == "Rain"@
    ||| label == "Snow"@
    ||| label == "Mist"@
    ||| label == "Smoke"@
    ||| label == "Haze"@
    ||| label == "Dust"@
    ||| label == "Fog"@
    ||| label == "Sand"@
    ||| label == "Ash"@
    ||| label == "Squall"@
    ||| label == "Tornado"@
}

/// Whether `hour` counts as daytime for a clear sky: strictly between 6 and 16.
pub open spec fn is_daytime(hour: int) -> bool {
    6 < hour < 16
}

/// The glyph for the condition that `label` names, at local hour `hour`: a
/// cloud; for a clear sky the sun by day and the new moon otherwise; a cloud
/// with rain; a cloud with snow; a thunder cloud; a tornado; fog. Only a
/// clear sky depends on the hour; a label that names no known condition, or
/// one without a glyph, gets none.
pub open spec fn glyph_for(label: Seq<char>, hour: int) -> Seq<char> {
    if label == "Clouds"@ {
        seq!['\u{2601}']
    } else if label == "Clear"@ {
        if is_daytime(hour) {
            seq!['\u{2600}']
        } else {
            seq!['\u{1F311}']
        }
    } else if label == "Rain"@ {
        seq!['\u{1F327}']
    } else if label == "Snow"@ {
        seq!['\u{1F328}']
    } else if label == "Thunderstorm"@ {
        seq!['\u{26C8}']
    } else if label == "Tornado"@ {
        seq!['\u{1F32A}']
    } else if label == "Haze"@ {
        seq!['\u{1F32B}']
    } else {
        Seq::empty()
    }
}

/// The fifteen condition names, character by character. No two of them are
/// the same, and none is empty.
pub proof fn lemma_condition_names()
    ensures
        "Clouds"@ == seq!['C', 'l', 'o', 'u', 'd', 's'],
        "Clear"@ == seq!['C', 'l', 'e', 'a', 'r'],
        "Thunderstorm"@ == seq!['T', 'h', 'u', 'n', 'd', 'e', 'r', 's', 't', 'o', 'r', 'm'],
        "Drizzle"@ == seq!['D', 'r', 'i', 'z', 'z', 'l', 'e'],
        "Rain"@ == seq!['R', 'a', 'i', 'n'],
        "Snow"@ == seq!['S', 'n', 'o', 'w'],
        "Mist"@ == seq!['M', 'i', 's', 't'],
        "Smoke"@ == seq!['S', 'm', 'o', 'k', 'e'],
        "Haze"@ == seq!['H', 'a', 'z', 'e'],
        "Dust"@ == seq!['D', 'u', 's', 't'],
        "Fog"@ == seq!['F', 'o', 'g'],
        "Sand"@ == seq!['S', 'a', 'n', 'd'],
        "Ash"@ == seq!['A', 's', 'h'],
        "Squall"@ == seq!['S', 'q', 'u', 'a', 'l', 'l'],
        "Tornado"@ == seq!['T', 'o', 'r', 'n', 'a', 'd', 'o'],
{
    reveal_strlit("Clouds");
    reveal_strlit("Clear");
    reveal_strlit("Thunderstorm");
    reveal_strlit("Drizzle");
    reveal_strlit("Rain");
    reveal_strlit("Snow");
    reveal_strlit("Mist");
    reveal_strlit("Smoke");
    reveal_strlit("Haze");
    reveal_strlit("Dust");
    reveal_strlit("Fog");
    reveal_strlit("Sand");
    reveal_strlit("Ash");
    reveal_strlit("Squall");
    reveal_strlit("Tornado");
}

impl View for WeatherCondition {
    type V = Seq<char>;

    /// A condition is modelled by its label.
    open spec fn view(&self) -> Seq<char> {
        match self {
            WeatherCondition::Clouds => "Clouds"@,
            WeatherCondition::Clear => "Clear"@,
            WeatherCondition::Thunderstorm => "Thunderstorm"@,
            WeatherCondition::Drizzle => "Drizzle"@,
            WeatherCondition::Rain => "Rain"@,
            WeatherCondition::Snow => "Snow"@,
            WeatherCondition::Mist => "Mist"@,
            WeatherCondition::Smoke => "Smoke"@,
            WeatherCondition::Haze => "Haze"@,
            WeatherCondition::Dust => "Dust"@,
            WeatherCondition::Fog => "Fog"@,
            WeatherCondition::Sand => "Sand"@,
            WeatherCondition::Ash => "Ash"@,
            WeatherCondition::Squall => "Squall"@,
            WeatherCondition::Tornado => "Tornado"@,
            WeatherCondition::Other(raw) => raw@,
        }
    }
}

impl WeatherCondition {
    /// Whether the value is the variant that its label calls for: `Other`
    /// holds only labels that name no known condition.
    pub open spec fn is_canonical(&self) -> bool {
        self is Other ==> !is_known_label(self@)
    }

    /// The condition that `label` names. Never fails: an unrecognised label
    /// is kept in `Other`.
    pub fn from_label(label: &str) -> (r: WeatherCondition)
        ensures
            r@ == label@,
            r.is_canonical(),
    {
        if label.eq("Clouds") {
            WeatherCondition::Clouds
        } else if label.eq("Clear") {
            WeatherCondition::Clear
        } else if label.eq("Thunderstorm") {
            WeatherCondition::Thunderstorm
        } else if label.eq("Drizzle") {
            WeatherCondition::Drizzle
        } else if label.eq("Rain") {
            WeatherCondition::Rain
        } else if label.eq("Snow") {
            WeatherCondition::Snow
        } else if label.eq("Mist") {
            WeatherCondition::Mist
        } else if label.eq("Smoke") {
            WeatherCondition::Smoke
        } else if label.eq("Haze") {
            WeatherCondition::Haze
        } else if label.eq("Dust") {
            WeatherCondition::Dust
        } else if label.eq("Fog") {
            WeatherCondition::Fog
        } else if label.eq("Sand") {
            WeatherCondition::Sand
        } else if label.eq("Ash") {
            WeatherCondition::Ash
        } else if label.eq("Squall") {
            WeatherCondition::Squall
        } else if label.eq("Tornado") {
            WeatherCondition::Tornado
        } else {
            WeatherCondition::Other(label.to_owned())
        }
    }

    /// The display label: the condition's name, or the raw label of an
    /// unrecognised one, unmodified.
    pub fn label(&self) -> (r: &str)
        ensures
            r@ == self@,
    {
        match self {
            WeatherCondition::Clouds => "Clouds",
            WeatherCondition::Clear => "Clear",
            WeatherCondition::Thunderstorm => "Thunderstorm",
            WeatherCondition::Drizzle => "Drizzle",
            WeatherCondition::Rain => "Rain",
            WeatherCondition::Snow => "Snow",
            WeatherCondition::Mist => "Mist",
            WeatherCondition::Smoke => "Smoke",
            WeatherCondition::Haze => "Haze",
            WeatherCondition::Dust => "Dust",
            WeatherCondition::Fog => "Fog",
            WeatherCondition::Sand => "Sand",
            WeatherCondition::Ash => "Ash",
            WeatherCondition::Squall => "Squall",
            WeatherCondition::Tornado => "Tornado",
            WeatherCondition::Other(raw) => raw.as_str(),
        }
    }

    /// The glyph for this condition at local hour `hour`.
    pub fn emoji(&self, hour: u32) -> (r: &'static str)
        ensures
            r@ == glyph_for(self@, hour as int),
    {
        match self {
            WeatherCondition::Other(raw) => {
                let named = WeatherCondition::from_label(raw.as_str());
                match named {
                    WeatherCondition::Other(_) => {
                        proof {
                            reveal_strlit("");
                        }
                        let r = "";
                        r
                    },
                    _ => glyph_of_known(&named, hour),
                }
            },
            _ => glyph_of_known(self, hour),
        }
    }
}

impl Clone for WeatherCondition {
    fn clone(&self) -> (r: Self)
        ensures
            r@ == self@,
            r is Other == self is Other,
    {
        match self {
            WeatherCondition::Clouds => WeatherCondition::Clouds,
            WeatherCondition::Clear => WeatherCondition::Clear,
            WeatherCondition::Thunderstorm => WeatherCondition::Thunderstorm,
            WeatherCondition::Drizzle => WeatherCondition::Drizzle,
            WeatherCondition::Rain => WeatherCondition::Rain,
            WeatherCondition::Snow => WeatherCondition::Snow,
            WeatherCondition::Mist => WeatherCondition::Mist,
            WeatherCondition::Smoke => WeatherCondition::Smoke,
            WeatherCondition::Haze => WeatherCondition::Haze,
            WeatherCondition::Dust => WeatherCondition::Dust,
            WeatherCondition::Fog => WeatherCondition::Fog,
            WeatherCondition::Sand => WeatherCondition::Sand,
            WeatherCondition::Ash => WeatherCondition::Ash,
            WeatherCondition::Squall => WeatherCondition::Squall,
            WeatherCondition::Tornado => WeatherCondition::Tornado,
            WeatherCondition::Other(raw) => WeatherCondition::Other(raw.clone()),
        }
    }
}

/// The glyph table for the fifteen known conditions.
fn glyph_of_known(condition: &WeatherCondition, hour: u32) -> (r: &'static str)
    requires
        !(condition is Other),
    ensures
        r@ == glyph_for(condition@, hour as int),
{
    proof {
        lemma_condition_names();
        reveal_strlit("\u{2601}");
        reveal_strlit("\u{2600}");
        reveal_strlit("\u{1F311}");
        reveal_strlit("\u{1F327}");
        reveal_strlit("\u{1F328}");
        reveal_strlit("\u{26C8}");
        reveal_strlit("\u{1F32A}");
        reveal_strlit("\u{1F32B}");
        reveal_strlit("");
    }
    let r = match condition {
        WeatherCondition::Clouds => "\u{2601}",
        WeatherCondition::Clear => if hour > 6 && hour < 16 {
            "\u{2600}"
        } else {
            "\u{1F311}"
        },
        WeatherCondition::Rain => "\u{1F327}",
        WeatherCondition::Snow => "\u{1F328}",
        WeatherCondition::Thunderstorm => "\u{26C8}",
        WeatherCondition::Tornado => "\u{1F32A}",
        WeatherCondition::Haze => "\u{1F32B}",
        _ => "",
    };
    r
}

/// The mapper is total. Every condition but `Other` carries the name of a
/// known condition, and that name is not empty. A label that names no known
/// condition is shown as it is and has no glyph at any hour.
pub proof fn lemma_mapper_total(condition: WeatherCondition, hour: int)
    ensures
        !(condition is Other) ==> is_known_label(condition@) && condition@.len() > 0,
        is_known_label(condition@) ==> condition@.len() > 0,
        !is_known_label(condition@) ==> glyph_for(condition@, hour).len() == 0,
{
    lemma_condition_names();
}

/// Only a clear sky depends on the hour, and on nothing but whether the hour
/// is daytime.
pub proof fn lemma_glyph_depends_on_daytime(label: Seq<char>, hour: int, other_hour: int)
    ensures
        label != "Clear"@ ==> glyph_for(label, hour) == glyph_for(label, other_hour),
        is_daytime(hour) == is_daytime(other_hour) ==> glyph_for(label, hour) == glyph_for(
            label,
            other_hour,
        ),
{
}

} // verus!
