use vstd::prelude::*;
use vstd::string::*;
use crate::foo::Foo;
use crate::outcome::{outcome_of, Outcome};

verus! {

/// The outcome of each container's lookup, in the containers' order.
pub open spec fn outcomes(foos: Seq<Foo>) -> Seq<Outcome> {
    Seq::new(foos.len(), |i: int| foos[i].outcome())
}

/// The mathematical value of a sequence of executable lookup results.
pub open spec fn outcomes_of(each: Seq<Result<String, &'static str>>) -> Seq<Outcome> {
    Seq::new(each.len(), |i: int| outcome_of(each[i]))
}

/// The texts that a sequence of strings holds.
pub open spec fn texts_of(texts: Seq<String>) -> Seq<Seq<char>> {
    Seq::new(texts.len(), |i: int| texts[i]@)
}

/// The mathematical value of an executable all-or-nothing result.
pub open spec fn gathered_of(all: Result<Vec<String>, &'static str>) -> Result<
    Seq<Seq<char>>,
    Seq<char>,
> {
    match all {
        Ok(texts) => Ok(texts_of(texts@)),
        Err(msg) => Err(msg@),
    }
}

/// No lookup failed.
pub open spec fn all_succeed(rs: Seq<Outcome>) -> bool {
    forall|i: int| 0 <= i < rs.len() ==> (#[trigger] rs[i]) is Ok
}

/// The lookup at `i` failed and none before it did.
pub open spec fn is_first_failure(rs: Seq<Outcome>, i: int) -> bool {
    &&& 0 <= i < rs.len()
    &&& rs[i] is Err
    &&& forall|j: int| 0 <= j < i ==> (#[trigger] rs[j]) is Ok
}

/// The place of the first lookup that failed, where one did.
pub open spec fn first_failure(rs: Seq<Outcome>) -> int {
    choose|i: int| is_first_failure(rs, i)
}

/// All or nothing: every text in order where no lookup failed, else the
/// error of the first lookup that did.
pub open spec fn gathered(rs: Seq<Outcome>) -> Result<Seq<Seq<char>>, Seq<char>> {
    if all_succeed(rs) {
        Ok(Seq::new(rs.len(), |i: int| rs[i]->Ok_0))
    } else {
        Err(rs[first_failure(rs)]->Err_0)
    }
}

/// A first failure is the only one, and it is what `first_failure` names.
pub proof fn lemma_first_failure_is(rs: Seq<Outcome>, i: int)
    requires
        is_first_failure(rs, i),
    ensures
        !all_succeed(rs),
        first_failure(rs) == i,
        gathered(rs) == Err::<Seq<Seq<char>>, Seq<char>>(rs[i]->Err_0),
{
    let k = first_failure(rs);
    assert(is_first_failure(rs, k));
    if k < i {
        assert(rs[k] is Ok);
    }
    if i < k {
        assert(rs[i] is Ok);
    }
}

/// One result per container, in the containers' order; a failure stops
/// nothing.
pub fn collect_each(foos: &[Foo]) -> (each: Vec<Result<String, &'static str>>)
    ensures
        each@.len() == foos@.len(),
        outcomes_of(each@) == outcomes(foos@),
{
    let mut each: Vec<Result<String, &'static str>> = Vec::new();
    let mut i: usize = 0;
    while i < foos.len()
        invariant
            i <= foos@.len(),
            each@.len() == i,
            forall|j: int| 0 <= j < i ==> outcome_of(#[trigger] each@[j]) == foos@[j].outcome(),
        decreases foos@.len() - i,
    {
        let res = foos[i].to_value();
        each.push(res);
        i += 1;
    }
    assert(outcomes_of(each@) =~= outcomes(foos@));
    each
}

/// Every text in the containers' order, or the error of the first lookup
/// that fails; nothing after that lookup is looked at.
pub fn collect_all(foos: &[Foo]) -> (all: Result<Vec<String>, &'static str>)
    ensures
        gathered_of(all) == gathered(outcomes(foos@)),
{
    let mut texts: Vec<String> = Vec::new();
    let mut i: usize = 0;
    while i < foos.len()
        invariant
            i <= foos@.len(),
            texts@.len() == i,
            forall|j: int|
                0 <= j < i ==> (#[trigger] outcomes(foos@)[j]) == Ok::<Seq<char>, Seq<char>>(
                    texts@[j]@,
                ),
        decreases foos@.len() - i,
    {
        match foos[i].to_value() {
            Ok(text) => {
                texts.push(text);
            },
            Err(msg) => {
                proof {
                    lemma_first_failure_is(outcomes(foos@), i as int);
                }
                return Err(msg);
            },
        }
        i += 1;
    }
    assert(all_succeed(outcomes(foos@)));
    assert(texts_of(texts@) =~= Seq::new(
        outcomes(foos@).len(),
        |i: int| outcomes(foos@)[i]->Ok_0,
    ));
    Ok(texts)
}

} // verus!
