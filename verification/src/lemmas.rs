use vstd::prelude::*;
use vstd::string::*;
use crate::aggregate::{
    all_succeed, gathered, is_first_failure, lemma_first_failure_is, outcomes,
};
use crate::bar::{EXPECTED, UNEXPECTED_VALUE};
use crate::foo::{Foo, MISSING_VALUE};
use crate::outcome::Outcome;

verus! {

/// Some container is empty, and no container before it holds a wrong text.
pub open spec fn empty_comes_first(foos: Seq<Foo>) -> bool {
    exists|i: int|
        0 <= i < foos.len() && (#[trigger] foos[i]).is_empty() && forall|j: int|
            0 <= j < i ==> !(#[trigger] foos[j]).is_wrong()
}

/// Some container holds a wrong text, and no container before it is empty.
pub open spec fn wrong_comes_first(foos: Seq<Foo>) -> bool {
    exists|i: int|
        0 <= i < foos.len() && (#[trigger] foos[i]).is_wrong() && forall|j: int|
            0 <= j < i ==> !(#[trigger] foos[j]).is_empty()
}

/// The two errors are different texts, so an error tells which step failed.
pub proof fn lemma_errors_differ()
    ensures
        MISSING_VALUE@ != UNEXPECTED_VALUE@,
{
    reveal_strlit("Foo didn't have a value");
    reveal_strlit("Value was not bar");
    assert(MISSING_VALUE@.len() != UNEXPECTED_VALUE@.len());
}

/// A lookup succeeds on a valid container, fails with the missing-value
/// error on an empty one and with the unexpected-value error on a wrong one;
/// every container is one of the three.
pub proof fn lemma_outcome_by_content(foo: Foo)
    ensures
        foo.is_valid() <==> foo.outcome() == Ok::<Seq<char>, Seq<char>>(EXPECTED@),
        foo.is_valid() <==> foo.outcome() is Ok,
        foo.is_empty() <==> foo.outcome() == Err::<Seq<char>, Seq<char>>(MISSING_VALUE@),
        foo.is_wrong() <==> foo.outcome() == Err::<Seq<char>, Seq<char>>(UNEXPECTED_VALUE@),
        foo.is_valid() || foo.is_empty() || foo.is_wrong(),
{
    lemma_errors_differ();
}

/// Where a lookup fails at or before `i`, some lookup is the first to fail,
/// at or before `i`.
pub proof fn lemma_failure_has_first(rs: Seq<Outcome>, i: int) -> (k: int)
    requires
        0 <= i < rs.len(),
        rs[i] is Err,
    ensures
        0 <= k <= i,
        is_first_failure(rs, k),
    decreases i,
{
    if exists|j: int| 0 <= j < i && (#[trigger] rs[j]) is Err {
        let j = choose|j: int| 0 <= j < i && (#[trigger] rs[j]) is Err;
        lemma_failure_has_first(rs, j)
    } else {
        i
    }
}

/// Gathering succeeds exactly where every container is valid, and then
/// hands out each container's text at that container's place.
pub proof fn lemma_all_valid_gathers_in_order(foos: Seq<Foo>)
    ensures
        gathered(outcomes(foos)) is Ok <==> forall|i: int|
            0 <= i < foos.len() ==> (#[trigger] foos[i]).is_valid(),
        gathered(outcomes(foos)) matches Ok(texts) ==> {
            &&& texts.len() == foos.len()
            &&& forall|i: int| 0 <= i < foos.len() ==> foos[i]@ == Some(#[trigger] texts[i])
            &&& forall|i: int| 0 <= i < foos.len() ==> #[trigger] texts[i] == EXPECTED@
        },
{
    let rs = outcomes(foos);
    assert forall|i: int| 0 <= i < foos.len() implies (foos[i].is_valid() <==> (
    #[trigger] rs[i]) is Ok) by {
        lemma_outcome_by_content(foos[i]);
    }
    if all_succeed(rs) {
        assert forall|i: int| 0 <= i < foos.len() implies (#[trigger] foos[i]).is_valid() by {
            assert(rs[i] is Ok);
        }
        let texts = gathered(rs)->Ok_0;
        assert forall|i: int| 0 <= i < foos.len() implies foos[i]@ == Some(
            #[trigger] texts[i],
        ) && texts[i] == EXPECTED@ by {
            lemma_outcome_by_content(foos[i]);
            assert(rs[i] is Ok);
        }
    } else {
        let i = choose|i: int| 0 <= i < rs.len() && !((#[trigger] rs[i]) is Ok);
        assert(!foos[i].is_valid());
    }
}

/// Where a container is empty and none before it holds a wrong text,
/// gathering fails with the missing-value error.
pub proof fn lemma_empty_first_gives_missing(foos: Seq<Foo>)
    requires
        empty_comes_first(foos),
    ensures
        gathered(outcomes(foos)) == Err::<Seq<Seq<char>>, Seq<char>>(MISSING_VALUE@),
{
    let rs = outcomes(foos);
    let i = choose|i: int|
        0 <= i < foos.len() && (#[trigger] foos[i]).is_empty() && forall|j: int|
            0 <= j < i ==> !(#[trigger] foos[j]).is_wrong();
    lemma_outcome_by_content(foos[i]);
    let k = lemma_failure_has_first(rs, i);
    lemma_outcome_by_content(foos[k]);
    assert(!foos[k].is_wrong());
    lemma_first_failure_is(rs, k);
}

/// Where a container holds a wrong text and none before it is empty,
/// gathering fails with the unexpected-value error.
pub proof fn lemma_wrong_first_gives_unexpected(foos: Seq<Foo>)
    requires
        wrong_comes_first(foos),
    ensures
        gathered(outcomes(foos)) == Err::<Seq<Seq<char>>, Seq<char>>(UNEXPECTED_VALUE@),
{
    let rs = outcomes(foos);
    let i = choose|i: int|
        0 <= i < foos.len() && (#[trigger] foos[i]).is_wrong() && forall|j: int|
            0 <= j < i ==> !(#[trigger] foos[j]).is_empty();
    lemma_outcome_by_content(foos[i]);
    let k = lemma_failure_has_first(rs, i);
    lemma_outcome_by_content(foos[k]);
    assert(!foos[k].is_empty());
    lemma_first_failure_is(rs, k);
}

} // verus!
