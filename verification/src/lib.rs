//! Bayesian outlier-aware sequential testing: the decision logic of a BOAST
//! run (evidence bookkeeping, stopping rule, verdict), its data sources, and
//! the text and argument handling around it.
use vstd::prelude::*;

pub mod error;
pub mod data_src;
pub mod biod;
pub mod state;
pub mod runner;
pub mod progress;
pub mod text;
pub mod cli;
pub mod load;
pub mod test_args;
pub mod test_fn;

pub use error::Error;
pub use data_src::DataSource;
pub use state::State;

verus! {

} // verus!
