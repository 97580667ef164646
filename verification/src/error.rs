//! What can go wrong while a configuration is built.

use vstd::prelude::*;

verus! {

/// Why no configuration document could be built.
#[derive(Clone, Copy, Debug, PartialEq, Eq, Structural)]
pub enum ConfigError {
    /// The raw options are not the text of a JSON object.
    InvalidJson,
}

} // verus!
