//! Node validation core: a deterministic multi-round digest chain over a
//! fixed rotation of hash algorithms, a unique bookkeeping signature for
//! every validation event, and the validation service that combines the
//! two and keeps aggregate counters.

pub mod clock;
pub mod digests;
pub mod hexfmt;
pub mod security;
pub mod service;
pub mod x11_nano;
