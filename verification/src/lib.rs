//! Supervision of a single helper process and discovery of the executable it runs.

pub mod descriptor;
pub mod probe;
pub mod profile;
pub mod resolver;
pub mod supervisor;
pub mod text;
