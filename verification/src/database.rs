//! Reading the database settings that the bot takes from its environment.

use vstd::prelude::*;

use crate::text::{parse_u16, spec_parse_u16};

verus! {

/// A database setting that cannot be used.
#[derive(Clone, Copy, Debug, PartialEq, Eq, Structural)]
pub enum ConfigError {
    /// The port is not a number that fits a port.
    PortNotANumber,
}

impl ConfigError {
    /// The description of the error.
    pub fn message(&self) -> (r: &'static str)
        ensures
            r@ == "DB_PORT must be a number"@,
    {
        "DB_PORT must be a number"
    }
}

/// Reads the port of the database from its setting.
pub fn parse_port(text: &str) -> (r: Result<u16, ConfigError>)
    ensures
        spec_parse_u16(text@) matches Some(p) ==> r == Ok::<u16, ConfigError>(p),
        spec_parse_u16(text@) is None ==> r == Err::<u16, ConfigError>(ConfigError::PortNotANumber),
{
    match parse_u16(text) {
        Some(p) => Ok(p),
        None => Err(ConfigError::PortNotANumber),
    }
}

} // verus!
