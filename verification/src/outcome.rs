use vstd::prelude::*;
use vstd::string::*;

verus! {

/// The outcome of one lookup as a mathematical value: the text handed out,
/// or the text of the error.
pub type Outcome = Result<Seq<char>, Seq<char>>;

/// The mathematical value of an executable lookup result.
pub open spec fn outcome_of(res: Result<String, &'static str>) -> Outcome {
    match res {
        Ok(text) => Ok(text@),
        Err(msg) => Err(msg@),
    }
}

} // verus!
