//! The names by which an installation knows the executable and its helper.

use vstd::prelude::*;

verus! {

/// The names that the supervisor and the resolver work with. They are the
/// caller's to choose; nothing here depends on what they are.
pub struct Profile {
    /// The name by which messages call the expected program.
    pub product: String,
    /// The file name that is looked for on the search path.
    pub executable: String,
    /// The name of the companion binary that the supervisor launches.
    pub helper: String,
    /// The environment variable that carries an executable override.
    pub override_variable: String,
    /// The command-line flag that carries an executable override.
    pub override_flag: String,
}

} // verus!
