//! Decoded notification values and their descriptive categories.
//!
//! Mode-change notifications deliver a small slider position; setting-change
//! notifications deliver a raw integer that stands for the power source or
//! the saver flag.  Each decoded value maps to exactly one description.

use vstd::prelude::*;

verus! {

/// The power source reported by a source-change notification.
#[derive(Clone, Copy, Debug, PartialEq, Eq, Structural)]
pub enum PowerSourceType {
    AC,
    Battery,
    ShortTerm,
    Unknown,
}

/// Which source a raw notification value stands for: `0`, `1` and `2` are
/// the three defined sources, every other value is unknown.
pub open spec fn source_from_value(val: u32) -> PowerSourceType {
    if val == 0 {
        PowerSourceType::AC
    } else if val == 1 {
        PowerSourceType::Battery
    } else if val == 2 {
        PowerSourceType::ShortTerm
    } else {
        PowerSourceType::Unknown
    }
}

impl From<u32> for PowerSourceType {
    fn from(val: u32) -> (r: Self) {
        if val == 0 {
            PowerSourceType::AC
        } else if val == 1 {
            PowerSourceType::Battery
        } else if val == 2 {
            PowerSourceType::ShortTerm
        } else {
            PowerSourceType::Unknown
        }
    }
}

impl vstd::std_specs::convert::FromSpecImpl<u32> for PowerSourceType {
    open spec fn obeys_from_spec() -> bool {
        true
    }

    open spec fn from_spec(val: u32) -> Self {
        source_from_value(val)
    }
}

/// The description attached to each performance-slider position: positions
/// `0` through `5` are the defined ones, every other value is unknown.
pub open spec fn mode_description(mode: i32) -> Seq<char> {
    if mode == 0 {
        "slider: far left (power saver)"@
    } else if mode == 1 {
        "slider: left (better battery)"@
    } else if mode == 2 {
        "slider: middle (balanced)"@
    } else if mode == 3 {
        "slider: right (better performance)"@
    } else if mode == 4 {
        "slider: far right (best performance)"@
    } else if mode == 5 {
        "slider: game mode"@
    } else {
        "slider: unknown"@
    }
}

/// Describe a performance-slider position.
pub fn describe_effective_mode(mode: i32) -> (r: String)
    ensures
        r@ == mode_description(mode),
{
    if mode == 0 {
        "slider: far left (power saver)".to_owned()
    } else if mode == 1 {
        "slider: left (better battery)".to_owned()
    } else if mode == 2 {
        "slider: middle (balanced)".to_owned()
    } else if mode == 3 {
        "slider: right (better performance)".to_owned()
    } else if mode == 4 {
        "slider: far right (best performance)".to_owned()
    } else if mode == 5 {
        "slider: game mode".to_owned()
    } else {
        "slider: unknown".to_owned()
    }
}

/// The description attached to each power source.
pub open spec fn source_description(source: PowerSourceType) -> Seq<char> {
    match source {
        PowerSourceType::AC => "power source: external supply"@,
        PowerSourceType::Battery => "power source: battery"@,
        PowerSourceType::ShortTerm => "power source: short-term backup"@,
        PowerSourceType::Unknown => "power source: unknown"@,
    }
}

/// Describe a power source.
pub fn describe_power_source(source: PowerSourceType) -> (r: String)
    ensures
        r@ == source_description(source),
{
    match source {
        PowerSourceType::AC => "power source: external supply".to_owned(),
        PowerSourceType::Battery => "power source: battery".to_owned(),
        PowerSourceType::ShortTerm => "power source: short-term backup".to_owned(),
        PowerSourceType::Unknown => "power source: unknown".to_owned(),
    }
}

/// The description attached to each saver state.
pub open spec fn saver_description(is_on: bool) -> Seq<char> {
    if is_on {
        "power saver: on (reduce background activity)"@
    } else {
        "power saver: off"@
    }
}

/// Describe the power-saver flag.
pub fn describe_saver_status(is_on: bool) -> (r: String)
    ensures
        r@ == saver_description(is_on),
{
    if is_on {
        "power saver: on (reduce background activity)".to_owned()
    } else {
        "power saver: off".to_owned()
    }
}

/// Law: the six defined slider positions carry six pairwise distinct
/// descriptions.
pub proof fn lemma_mode_descriptions_distinct(a: i32, b: i32)
    requires
        0 <= a < 6,
        0 <= b < 6,
        a != b,
    ensures
        mode_description(a) != mode_description(b),
{
    reveal_strlit("slider: far left (power saver)");
    reveal_strlit("slider: left (better battery)");
    reveal_strlit("slider: middle (balanced)");
    reveal_strlit("slider: right (better performance)");
    reveal_strlit("slider: far right (best performance)");
    reveal_strlit("slider: game mode");
    assert(mode_description(0).len() == 30);
    assert(mode_description(1).len() == 29);
    assert(mode_description(2).len() == 25);
    assert(mode_description(3).len() == 34);
    assert(mode_description(4).len() == 36);
    assert(mode_description(5).len() == 17);
}

/// Law: every slider position outside the six defined ones carries the one
/// unknown description, which differs from each defined description.
pub proof fn lemma_mode_unknown_is_single_category(a: i32, b: i32)
    requires
        !(0 <= a < 6),
        0 <= b < 6,
    ensures
        mode_description(a) == mode_description(-1i32),
        mode_description(a) != mode_description(b),
{
    reveal_strlit("slider: far left (power saver)");
    reveal_strlit("slider: left (better battery)");
    reveal_strlit("slider: middle (balanced)");
    reveal_strlit("slider: right (better performance)");
    reveal_strlit("slider: far right (best performance)");
    reveal_strlit("slider: game mode");
    reveal_strlit("slider: unknown");
    assert(mode_description(a).len() == 15);
    assert(mode_description(0).len() == 30);
    assert(mode_description(1).len() == 29);
    assert(mode_description(2).len() == 25);
    assert(mode_description(3).len() == 34);
    assert(mode_description(4).len() == 36);
    assert(mode_description(5).len() == 17);
}

} // verus!
