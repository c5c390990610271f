//! Tag-length-value optional parameters.

pub mod message_submission_request;
pub mod tlv;
pub mod tlv_tag;

use vstd::prelude::*;

verus! {

} // verus!
