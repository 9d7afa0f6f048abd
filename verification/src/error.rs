use vstd::prelude::*;

verus! {

/// What can go wrong while sampling a resource monitor.
#[derive(Debug)]
pub enum MonitorError {
    ReadError(String),
    InvalidFormat,
}

} // verus!
