//! Bounded endpoint values. See Section 2.2.4.1.1.
use vstd::prelude::*;

verus! {

/// A source endpoint in the range 2 to 100.
#[derive(Debug, Clone, Copy, PartialEq, Eq, Structural)]
pub struct SrcEndpoint {
    value: u8,
}

/// Relies on `format!`: the message naming the refused value.
#[verifier::external_body]
fn out_of_range_message(value: u8) -> String {
    format!("Value {} is not within the valid range 2 to 100", value)
}

impl SrcEndpoint {
    /// The endpoint's number.
    pub closed spec fn spec_value(self) -> u8 {
        self.value
    }

    /// The endpoint numbered `value`, which must lie in 2 to 100; any other
    /// value is refused with a message.
    pub fn new(value: u8) -> (r: Result<SrcEndpoint, String>)
        ensures
            2 <= value <= 100 <==> r is Ok,
            r is Ok ==> r->Ok_0.spec_value() == value,
    {
        if value >= 2 && value <= 100 {
            Ok(SrcEndpoint { value })
        } else {
            Err(out_of_range_message(value))
        }
    }

    /// The endpoint's number.
    pub fn value(&self) -> (r: u8)
        ensures
            r == self.spec_value(),
    {
        self.value
    }
}

} // verus!
