use vstd::prelude::*;
use vstd::string::*;
use crate::outcome::{outcome_of, Outcome};
use crate::text::same_text;

verus! {

/// The only text that a `Bar` accepts as valid.
pub const EXPECTED: &'static str = "bar";

/// The error of a `Bar` whose text is not the expected one.
pub const UNEXPECTED_VALUE: &'static str = "Value was not bar";

/// A piece of text, judged only when it is asked for.
#[derive(Debug)]
pub struct Bar {
    value: String,
}

impl View for Bar {
    type V = Seq<char>;

    closed spec fn view(&self) -> Seq<char> {
        self.value@
    }
}

impl Bar {
    /// What `to_value` gives: the text itself where it is the expected one,
    /// else the fixed error.
    pub open spec fn outcome(&self) -> Outcome {
        if self@ == EXPECTED@ {
            Ok(self@)
        } else {
            Err(UNEXPECTED_VALUE@)
        }
    }

    /// A `Bar` that holds the given text, whatever it is.
    pub fn new(value: String) -> (bar: Self)
        ensures
            bar@ == value@,
    {
        Bar { value }
    }

    /// A copy of the text where it is the expected one, else the fixed
    /// error.
    pub fn to_value(&self) -> (res: Result<String, &'static str>)
        ensures
            outcome_of(res) == self.outcome(),
    {
        if same_text(self.value.as_str(), EXPECTED) {
            Ok(self.value.clone())
        } else {
            Err(UNEXPECTED_VALUE)
        }
    }
}

} // verus!
