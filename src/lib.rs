//! Archive handling through the conventional command-line tools: the format of an
//! archive is resolved from its name, and each request to extract, create or list an
//! archive is planned as one run of `tar`, `zip` or `unzip`, with the steps around it.
use vstd::prelude::*;

pub mod args;
pub mod error;
pub mod format;
pub mod job;

pub use args::Args;
pub use error::{ArchiveError, Operation, ToolFailure};
pub use format::Format;
pub use job::{Event, Job, Step};

verus! {

} // verus!
