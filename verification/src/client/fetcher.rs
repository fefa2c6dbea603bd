//! Readings of the fear-and-greed index API.
use vstd::prelude::*;

verus! {

/// One reading as the API reports it: the value and timestamp come as text.
#[derive(Clone, Debug, Default)]
pub struct IndexData {
    pub value: String,
    pub value_classification: String,
    pub timestamp: String,
    pub time_until_update: String,
}

} // verus!
