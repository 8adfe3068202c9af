//! Settings: the built-in defaults, the configuration file's values, and command-line
//! overrides.
use vstd::prelude::*;
use crate::text::copy_str;

verus! {

/// The colour scheme.
#[derive(Debug, Clone, Copy, PartialEq, Eq, Structural)]
pub enum ThemeChoice {
    Dark,
    Light,
}

/// The settings in effect.
#[derive(Debug)]
pub struct Config {
    pub db_path: String,
    pub tick_rate_ms: u64,
    pub theme: ThemeChoice,
}

impl Default for Config {
    /// The built-in settings: the database `stash.db`, a 100 ms tick, the dark theme.
    fn default() -> (c: Self)
        ensures
            c.db_path@ == "stash.db"@,
            c.tick_rate_ms == 100,
            c.theme == ThemeChoice::Dark,
    {
        Config { db_path: copy_str("stash.db"), tick_rate_ms: 100, theme: ThemeChoice::Dark }
    }
}

/// The command line: where the database and the configuration file are, the tick rate,
/// a CSV file to import, and whether to print the low-stock report.
#[derive(Debug)]
pub struct Cli {
    pub db: Option<String>,
    pub config: Option<String>,
    pub tick_rate: Option<u64>,
    pub import: Option<String>,
    pub headless_report: bool,
}

impl Config {
    /// The settings with the command line's values put over them: a flag that is given
    /// wins over the configuration file.
    pub fn with_overrides(self, db: Option<String>, tick_rate: Option<u64>) -> (c: Self)
        ensures
            c.db_path == (match db { Some(d) => d, None => self.db_path }),
            c.tick_rate_ms == (match tick_rate { Some(t) => t, None => self.tick_rate_ms }),
            c.theme == self.theme,
    {
        let mut c = self;
        if let Some(d) = db {
            c.db_path = d;
        }
        if let Some(t) = tick_rate {
            c.tick_rate_ms = t;
        }
        c
    }
}

} // verus!
