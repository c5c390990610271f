//! PDU bodies: one structure per SMPP command, composed of mandatory
//! fixed fields in declared order followed by optional TLVs.

pub mod replace_sm;
pub mod submit_sm;

use vstd::prelude::*;

verus! {

} // verus!
