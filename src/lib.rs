//! Self-describing configuration parameters of the ledger: a tag/length frame,
//! a fixed payload format for each kind of parameter, and a text form for
//! configuration files.
use vstd::prelude::*;

mod chars;
pub mod decimal;
pub mod error;
pub mod tag;
pub mod payload;
pub mod kinds;
pub mod param;
pub mod text;
pub mod config_text;

pub use error::{Error, ReadError};
pub use kinds::{Block0Date, ConsensusVersion, Discrimination, LeaderId, Milli};
pub use param::ConfigParam;
pub use tag::{Tag, TagLen, MAXIMUM_LEN};

verus! {

} // verus!
