//! `expand`: grow the device of a repository.
use vstd::prelude::*;

use crate::cli::Expand;
use crate::config::{expanded_size, Config, ConfigError};
use crate::config_file::{config_of, lit};

verus! {

/// The configuration after `expand`, from the text of the repository's
/// configuration file: the size grows by the bytes asked for, rounded up to
/// whole chunks.
pub fn run(expand: &Expand, contents: &str) -> (r: Result<Config, ConfigError>)
    ensures
        r == match config_of(expand.repository, lit(contents)) {
            Err(e) => Err(e),
            Ok(c) => if c.chunk_size > 0 && expanded_size(c.size as int, expand.bytes as int, c.chunk_size as int)
                <= u64::MAX {
                Ok(Config { size: expanded_size(c.size as int, expand.bytes as int, c.chunk_size as int) as u64, ..c })
            } else {
                Err(ConfigError::InvalidFinalSize)
            },
        },
{
    let mut config = Config::from_repository(expand.repository.clone(), contents)?;
    config.expand_size_by_bytes(expand.bytes)?;
    Ok(config)
}

} // verus!
