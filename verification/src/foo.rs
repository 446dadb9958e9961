use vstd::prelude::*;
use vstd::string::*;
use crate::bar::{Bar, EXPECTED};
use crate::outcome::{outcome_of, Outcome};

verus! {

/// The error of a `Foo` that holds nothing.
pub const MISSING_VALUE: &'static str = "Foo didn't have a value";

/// A container that holds a `Bar` or nothing.
#[derive(Debug)]
pub struct Foo {
    value: Option<Bar>,
}

impl View for Foo {
    type V = Option<Seq<char>>;

    /// The text of the `Bar` held, if there is one.
    open spec fn view(&self) -> Option<Seq<char>> {
        match self.held() {
            Some(bar) => Some(bar@),
            None => None,
        }
    }
}

impl Foo {
    /// The `Bar` held, if there is one.
    pub closed spec fn held(&self) -> Option<Bar> {
        self.value
    }

    /// What a lookup through this container gives: the outcome of the `Bar`
    /// held, or the fixed error where nothing is held.
    pub open spec fn outcome(&self) -> Outcome {
        match self.held() {
            Some(bar) => bar.outcome(),
            None => Err(MISSING_VALUE@),
        }
    }

    /// Nothing is held.
    pub open spec fn is_empty(&self) -> bool {
        self@ is None
    }

    /// The text held is the expected one.
    pub open spec fn is_valid(&self) -> bool {
        self@ == Some(EXPECTED@)
    }

    /// A text is held, and it is not the expected one.
    pub open spec fn is_wrong(&self) -> bool {
        self@ is Some && self@ != Some(EXPECTED@)
    }

    /// A container that holds the given `Bar`, or nothing.
    pub fn new(value: Option<Bar>) -> (foo: Self)
        ensures
            foo.held() == value,
    {
        Foo { value }
    }

    /// The `Bar` held, or the fixed error where nothing is held.
    pub fn to_bar(&self) -> (res: Result<&Bar, &'static str>)
        ensures
            match self.held() {
                Some(bar) => res == Ok::<&Bar, &'static str>(&bar),
                None => res is Err && res->Err_0@ == MISSING_VALUE@,
            },
    {
        match &self.value {
            Some(value) => Ok(value),
            None => Err(MISSING_VALUE),
        }
    }

    /// Looks the `Bar` up and asks it for its text; the first of the two
    /// steps that fails decides the error.
    pub fn to_value(&self) -> (res: Result<String, &'static str>)
        ensures
            outcome_of(res) == self.outcome(),
    {
        match self.to_bar() {
            Ok(bar) => bar.to_value(),
            Err(msg) => Err(msg),
        }
    }
}

} // verus!
