//! How much the runtime logs, as its settings say.

use crate::config::Config;
use vstd::prelude::*;

verus! {

/// The levels of logging, from nothing to everything.
#[derive(Debug, Clone, Copy, PartialEq, Eq, Structural)]
pub enum LevelFilter {
    Off,
    Error,
    Warn,
    Info,
    Debug,
    Trace,
}

/// The level that the text `name` stands for. Text that names no level
/// stands for `Debug`.
pub open spec fn level_of(name: Seq<char>) -> LevelFilter {
    if name == "off"@ {
        LevelFilter::Off
    } else if name == "error"@ {
        LevelFilter::Error
    } else if name == "warn"@ {
        LevelFilter::Warn
    } else if name == "info"@ {
        LevelFilter::Info
    } else if name == "trace"@ {
        LevelFilter::Trace
    } else {
        LevelFilter::Debug
    }
}

/// The level that `config` asks for under `log_level`, or the level of
/// `debug` where it asks for none.
pub open spec fn configured_level(settings: Map<Seq<char>, Seq<char>>) -> LevelFilter {
    if settings.contains_key("log_level"@) {
        level_of(settings["log_level"@])
    } else {
        level_of("debug"@)
    }
}

/// The level that the text `name` stands for.
pub fn level_for(name: &String) -> (level: LevelFilter)
    ensures
        level == level_of(name@),
{
    if *name == "off".to_owned() {
        LevelFilter::Off
    } else if *name == "error".to_owned() {
        LevelFilter::Error
    } else if *name == "warn".to_owned() {
        LevelFilter::Warn
    } else if *name == "info".to_owned() {
        LevelFilter::Info
    } else if *name == "trace".to_owned() {
        LevelFilter::Trace
    } else {
        LevelFilter::Debug
    }
}

/// Decides the level at which the runtime logs: the one that `config`
/// names under `log_level`, `Debug` where it names none.
pub fn init(config: &Config) -> (level: LevelFilter)
    ensures
        level == configured_level(config@),
{
    let name = match config.lookup("log_level") {
        Some(name) => name,
        None => "debug".to_owned(),
    };
    level_for(&name)
}

} // verus!
