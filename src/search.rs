use vstd::prelude::*;

verus! {

/// `target` occurs in `line` as a run of consecutive characters.
pub open spec fn occurs_in(target: Seq<char>, line: Seq<char>) -> bool {
    exists|i: int|
        0 <= i && i + target.len() <= line.len() && #[trigger] line.subrange(
            i,
            i + target.len(),
        ) == target
}

/// Relies on `str::contains` with a `&str` pattern: whether `target` occurs
/// in `line`.
#[verifier::external_body]
fn contains_text(line: &str, target: &str) -> (r: bool)
    ensures
        r == occurs_in(target@, line@),
{
    line.contains(target)
}

/// Whether a line of text is one that a search for `target` reports.
pub fn line_matches(line: &str, target: &str) -> (r: bool)
    ensures
        r == occurs_in(target@, line@),
        target@.len() == 0 ==> r,
{
    proof {
        if target@.len() == 0 {
            assert(line@.subrange(0, 0 + target@.len() as int) =~= target@);
            assert(occurs_in(target@, line@));
        }
    }
    contains_text(line, target)
}

} // verus!
