//! A named place that the service knows.

use vstd::prelude::*;

verus! {

#[derive(Debug)]
pub struct Location {
    pub name: String,
    pub kind: String,
    pub type_label: String,
}

} // verus!
