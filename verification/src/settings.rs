//! User-facing choices that the menu-bar logic branches on.
use vstd::prelude::*;
use crate::text::str_eq;

verus! {

/// The concrete UI language after resolving "system default".
#[derive(Clone, Copy, Debug, PartialEq, Eq, Structural)]
pub enum ResolvedLanguage {
    En,
    Ko,
}

/// How the menu-bar item is drawn: the temperature number, the animated
/// runner, or both side by side.
#[derive(Clone, Copy, Debug, PartialEq, Eq, Structural)]
pub enum MenubarDisplay {
    Number,
    Graph,
    Both,
}

/// The animated CPU runner character.
#[derive(Clone, Copy, Debug, PartialEq, Eq, Structural)]
pub enum RunnerCharacter {
    Cat,
    Dog,
    Rabbit,
    Fox,
}

/// Which sensor family feeds the headline CPU temperature.
#[derive(Clone, Copy, Debug, PartialEq, Eq, Structural)]
pub enum TemperatureSource {
    CoreAverage,
    IohidTdie,
    SmcSummary,
    SmcAggregate,
    Hottest,
}

/// The family a temperature sensor belongs to.
#[derive(Clone, Copy, Debug, PartialEq, Eq, Structural)]
pub enum SensorKind {
    Cpu,
    Gpu,
    Memory,
    Storage,
    Mainboard,
    Battery,
    Other,
}

impl MenubarDisplay {
    /// The style a `--display` value names: `number`, `cat` (or the older
    /// `graph`) for the runner, or `both`.
    pub fn parse(value: &str) -> (r: Option<MenubarDisplay>)
        ensures
            r == (if value@ == "number"@ {
                Some(MenubarDisplay::Number)
            } else if value@ == "cat"@ || value@ == "graph"@ {
                Some(MenubarDisplay::Graph)
            } else if value@ == "both"@ {
                Some(MenubarDisplay::Both)
            } else {
                None
            }),
    {
        if str_eq(value, "number") {
            Some(MenubarDisplay::Number)
        } else if str_eq(value, "cat") || str_eq(value, "graph") {
            Some(MenubarDisplay::Graph)
        } else if str_eq(value, "both") {
            Some(MenubarDisplay::Both)
        } else {
            None
        }
    }
}

impl RunnerCharacter {
    /// The character a `--character` value names.
    pub fn parse(value: &str) -> (r: Option<RunnerCharacter>)
        ensures
            r == (if value@ == "cat"@ {
                Some(RunnerCharacter::Cat)
            } else if value@ == "dog"@ {
                Some(RunnerCharacter::Dog)
            } else if value@ == "rabbit"@ {
                Some(RunnerCharacter::Rabbit)
            } else if value@ == "fox"@ {
                Some(RunnerCharacter::Fox)
            } else {
                None
            }),
    {
        if str_eq(value, "cat") {
            Some(RunnerCharacter::Cat)
        } else if str_eq(value, "dog") {
            Some(RunnerCharacter::Dog)
        } else if str_eq(value, "rabbit") {
            Some(RunnerCharacter::Rabbit)
        } else if str_eq(value, "fox") {
            Some(RunnerCharacter::Fox)
        } else {
            None
        }
    }
}

} // verus!
