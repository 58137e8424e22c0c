//! The order of version numbers, and the question that gates a call on it.

use crate::{outcome, Failure, FossologyError};
use version_compare::{CompOp, VersionCompare};
use vstd::prelude::*;
use vstd::string::{StrSliceExecFns, StringExecFns};

verus! {

/// Whether `c` is one of the ten digits.
pub open spec fn is_digit(c: char) -> bool {
    '0' <= c <= '9'
}

/// The number that the digit `c` stands for.
pub open spec fn digit_value(c: char) -> nat {
    (c as u32 - '0' as u32) as nat
}

/// The number written by the digits that `s` ends in: 0 where it ends in none.
pub open spec fn tail_run(s: Seq<char>) -> nat
    decreases s.len(),
{
    if s.len() == 0 || !is_digit(s.last()) {
        0
    } else {
        tail_run(s.drop_last()) * 10 + digit_value(s.last())
    }
}

/// No run of digits in `s` writes a number above `i32::MAX`.
pub open spec fn runs_fit(s: Seq<char>) -> bool {
    forall|n: int| 0 <= n <= s.len() ==> tail_run(#[trigger] s.take(n)) <= i32::MAX
}

/// Whether `s` is written as a version number: runs of digits, none of
/// them empty, with a dot between each two.
pub open spec fn is_dotted(s: Seq<char>) -> bool {
    &&& s.len() > 0
    &&& forall|i: int| 0 <= i < s.len() ==> is_digit(#[trigger] s[i]) || s[i] == '.'
    &&& s.first() != '.'
    &&& s.last() != '.'
    &&& forall|i: int| 0 < i < s.len() ==> !(s[i - 1] == '.' && #[trigger] s[i] == '.')
}

/// Whether `s` is a version number that can be compared: it is written as
/// one, and none of its components is above `i32::MAX`.
pub open spec fn is_version(s: Seq<char>) -> bool {
    is_dotted(s) && runs_fit(s)
}

/// The numbers between the dots of `s`, in their order.
pub open spec fn components(s: Seq<char>) -> Seq<nat>
    decreases s.len(),
{
    if s.len() == 0 {
        seq![0nat]
    } else if s.last() == '.' {
        components(s.drop_last()).push(0)
    } else {
        let before = components(s.drop_last());
        before.drop_last().push(before.last() * 10 + digit_value(s.last()))
    }
}

/// The component of `v` at `i`: 0 where `v` has none there.
pub open spec fn component(v: Seq<nat>, i: int) -> nat {
    if 0 <= i < v.len() {
        v[i]
    } else {
        0
    }
}

/// Whether `a` is at least `b` from position `i` on, the positions before it
/// being equal.
pub open spec fn at_least_from(a: Seq<nat>, b: Seq<nat>, i: int) -> bool
    decreases a.len() + b.len() - i,
{
    if i < 0 || (i >= a.len() && i >= b.len()) {
        true
    } else if component(a, i) != component(b, i) {
        component(a, i) > component(b, i)
    } else {
        at_least_from(a, b, i + 1)
    }
}

/// Whether the version `a` is at least the version `b`: decided by the first
/// position at which they differ, a missing component counting as 0.
pub open spec fn at_least(a: Seq<nat>, b: Seq<nat>) -> bool {
    at_least_from(a, b, 0)
}

/// What `version_compare` answers when asked whether `a` is at least `b`;
/// `None` where it cannot read one of them.
pub uninterp spec fn compared(a: Seq<char>, b: Seq<char>) -> Option<bool>;

/// What the guard answers for `resolved` against `min_required`: `None` where
/// the two cannot be compared.
pub open spec fn gate(resolved: Seq<char>, min_required: Seq<char>) -> Option<bool> {
    if runs_fit(resolved) && runs_fit(min_required) {
        compared(resolved, min_required)
    } else {
        None
    }
}

/// Calls `version_compare::VersionCompare::compare_to` with the operator
/// `CompOp::Ge`. The answer is a function of the two strings. Between two
/// version numbers it is the order of their components as numbers, trailing
/// zeros not counting. A run of digits above `i32::MAX` before a letter
/// makes the crate panic, so such strings are not passed.
#[verifier::external_body]
fn compare_at_least(a: &str, b: &str) -> (r: Option<bool>)
    requires
        runs_fit(a@),
        runs_fit(b@),
    ensures
        r == compared(a@, b@),
        is_version(a@) && is_version(b@) ==> r == Some(at_least(components(a@), components(b@))),
{
    VersionCompare::compare_to(a, b, &CompOp::Ge).ok()
}

/// Whether no run of digits in `s` writes a number above `i32::MAX`.
pub fn digit_runs_fit(s: &str) -> (r: bool)
    ensures
        r == runs_fit(s@),
{
    let n = s.unicode_len();
    let mut i: usize = 0;
    let mut run: u64 = 0;
    while i < n
        invariant
            n == s@.len(),
            i <= n,
            run == tail_run(s@.take(i as int)),
            run <= i32::MAX,
            forall|k: int| 0 <= k <= i ==> tail_run(#[trigger] s@.take(k)) <= i32::MAX,
        decreases n - i,
    {
        let c = s.get_char(i);
        proof {
            assert(s@.take(i + 1).drop_last() =~= s@.take(i as int));
            assert(s@.take(i + 1).last() == c);
        }
        if '0' <= c && c <= '9' {
            run = run * 10 + (c as u64 - '0' as u64);
            if run > 2147483647 {
                return false;
            }
        } else {
            run = 0;
        }
        i += 1;
    }
    true
}

/// What the guard says of a comparison: its answer, or that it could not be
/// made.
pub open spec fn answer(compared: Option<bool>) -> Result<bool, Failure> {
    match compared {
        Some(yes) => Ok(yes),
        None => Err(Failure::Other("Failed to compare versions"@)),
    }
}

/// What comparing two texts that are written as version numbers comes to:
/// the order of their components as numbers, or, where a component is above
/// `i32::MAX`, that they cannot be compared. It never comes to another order.
pub open spec fn numeric_answer(a: Seq<char>, b: Seq<char>) -> Result<bool, Failure> {
    if runs_fit(a) && runs_fit(b) {
        Ok(at_least(components(a), components(b)))
    } else {
        Err(Failure::Other("Failed to compare versions"@))
    }
}

/// What the guard says once the comparison has been made: its answer, or the
/// failure to compare.
pub fn gate_answer(compared: Option<bool>) -> (r: Result<bool, FossologyError>)
    ensures
        outcome(r) == answer(compared),
{
    match compared {
        Some(yes) => Ok(yes),
        None => Err(FossologyError::Other(String::from_str("Failed to compare versions"))),
    }
}

/// Whether a server of version `resolved_version` offers what was introduced
/// in `min_required`.
///
/// Between version numbers the answer is the order of their components as
/// numbers, a missing component counting as 0: "1.10.0" is at least "1.3.0",
/// and a version is at least itself. A component above `i32::MAX` cannot be
/// compared, and the answer is the failure to compare, never a wrong order.
pub fn supports(resolved_version: &str, min_required: &str) -> (r: Result<bool, FossologyError>)
    ensures
        outcome(r) == answer(gate(resolved_version@, min_required@)),
        is_dotted(resolved_version@) && is_dotted(min_required@) ==> outcome(r) == numeric_answer(
            resolved_version@,
            min_required@,
        ),
        is_version(resolved_version@) && is_version(min_required@) ==> r == Ok::<
            bool,
            FossologyError,
        >(at_least(components(resolved_version@), components(min_required@))),
{
    if digit_runs_fit(resolved_version) && digit_runs_fit(min_required) {
        gate_answer(compare_at_least(resolved_version, min_required))
    } else {
        gate_answer(None)
    }
}

/// One more character at the end of `s` starts a new component where it is
/// a dot, and is one more digit of the last component where it is not.
pub proof fn lemma_one_more(s: Seq<char>, c: char)
    ensures
        components(s.push(c)) == if c == '.' {
            components(s).push(0)
        } else {
            components(s).drop_last().push(components(s).last() * 10 + digit_value(c))
        },
        tail_run(s.push(c)) == if is_digit(c) {
            tail_run(s) * 10 + digit_value(c)
        } else {
            0
        },
{
    assert(s.push(c).drop_last() =~= s);
}

/// The text of three digits with a dot between each two is the version
/// number with the three components that the digits stand for.
pub proof fn lemma_three_digits(s: Seq<char>, major: char, minor: char, patch: char)
    requires
        s == seq![major, '.', minor, '.', patch],
        is_digit(major),
        is_digit(minor),
        is_digit(patch),
    ensures
        is_version(s),
        components(s) == seq![digit_value(major), digit_value(minor), digit_value(patch)],
{
    let s0 = Seq::<char>::empty();
    let s1 = s0.push(major);
    let s2 = s1.push('.');
    let s3 = s2.push(minor);
    let s4 = s3.push('.');
    let s5 = s4.push(patch);
    lemma_one_more(s0, major);
    lemma_one_more(s1, '.');
    lemma_one_more(s2, minor);
    lemma_one_more(s3, '.');
    lemma_one_more(s4, patch);
    assert(s5 =~= s);
    assert(components(s0) =~= seq![0nat]);
    assert(components(s1) =~= seq![digit_value(major)]);
    assert(components(s2) =~= seq![digit_value(major), 0nat]);
    assert(components(s3) =~= seq![digit_value(major), digit_value(minor)]);
    assert(components(s4) =~= seq![digit_value(major), digit_value(minor), 0nat]);
    assert(components(s5) =~= seq![digit_value(major), digit_value(minor), digit_value(patch)]);
    assert forall|n: int| 0 <= n <= s.len() implies tail_run(#[trigger] s.take(n))
        <= i32::MAX by {
        assert(s.take(0) =~= s0);
        assert(s.take(1) =~= s1);
        assert(s.take(2) =~= s2);
        assert(s.take(3) =~= s3);
        assert(s.take(4) =~= s4);
        assert(s.take(5) =~= s5);
    }
}

/// "1.3.3" is the version number with the components 1, 3 and 3.
pub proof fn lemma_version_1_3_3()
    ensures
        is_version("1.3.3"@),
        components("1.3.3"@) == seq![1nat, 3nat, 3nat],
{
    reveal_strlit("1.3.3");
    assert("1.3.3"@ =~= seq!['1', '.', '3', '.', '3']);
    lemma_three_digits("1.3.3"@, '1', '3', '3');
}

/// "1.3.0" is the version number with the components 1, 3 and 0.
pub proof fn lemma_version_1_3_0()
    ensures
        is_version("1.3.0"@),
        components("1.3.0"@) == seq![1nat, 3nat, 0nat],
{
    reveal_strlit("1.3.0");
    assert("1.3.0"@ =~= seq!['1', '.', '3', '.', '0']);
    lemma_three_digits("1.3.0"@, '1', '3', '0');
}

/// A version is at least itself.
pub proof fn law_at_least_reflexive(a: Seq<nat>)
    ensures
        at_least(a, a),
{
    lemma_reflexive_from(a, 0);
}

proof fn lemma_reflexive_from(a: Seq<nat>, i: int)
    requires
        0 <= i,
    ensures
        at_least_from(a, a, i),
    decreases a.len() + a.len() - i,
{
    if i < a.len() {
        lemma_reflexive_from(a, i + 1);
    }
}

/// Of two versions one is at least the other.
pub proof fn law_at_least_total(a: Seq<nat>, b: Seq<nat>)
    ensures
        at_least(a, b) || at_least(b, a),
{
    lemma_total_from(a, b, 0);
}

proof fn lemma_total_from(a: Seq<nat>, b: Seq<nat>, i: int)
    requires
        0 <= i,
    ensures
        at_least_from(a, b, i) || at_least_from(b, a, i),
    decreases a.len() + b.len() - i,
{
    if i < a.len() || i < b.len() {
        lemma_total_from(a, b, i + 1);
    }
}

/// What is at least a version that is at least a third is at least the third.
pub proof fn law_at_least_transitive(a: Seq<nat>, b: Seq<nat>, c: Seq<nat>)
    requires
        at_least(a, b),
        at_least(b, c),
    ensures
        at_least(a, c),
{
    lemma_transitive_from(a, b, c, 0);
}

proof fn lemma_transitive_from(a: Seq<nat>, b: Seq<nat>, c: Seq<nat>, i: int)
    requires
        0 <= i,
        at_least_from(a, b, i),
        at_least_from(b, c, i),
    ensures
        at_least_from(a, c, i),
    decreases a.len() + b.len() + c.len() - i,
{
    if i < a.len() || i < b.len() || i < c.len() {
        lemma_beyond(a, b, i);
        lemma_beyond(b, c, i);
        lemma_beyond(a, c, i);
        if component(a, i) == component(b, i) && component(b, i) == component(c, i) {
            lemma_transitive_from(a, b, c, i + 1);
        }
    }
}

/// Where the order is decided from `i` on: at the first position from `i`
/// at which the two differ, if there is one.
proof fn lemma_beyond(a: Seq<nat>, b: Seq<nat>, i: int)
    requires
        0 <= i,
    ensures
        at_least_from(a, b, i) == if i >= a.len() && i >= b.len() {
            true
        } else if component(a, i) != component(b, i) {
            component(a, i) > component(b, i)
        } else {
            at_least_from(a, b, i + 1)
        },
{
}

/// Whether `a` and `b` have the same components from position `i` on, a
/// missing component counting as 0.
pub open spec fn same_from(a: Seq<nat>, b: Seq<nat>, i: int) -> bool {
    forall|k: int| i <= k ==> #[trigger] component(a, k) == component(b, k)
}

/// Two versions are each at least the other only where they have the same
/// components, a missing component counting as 0.
pub proof fn law_at_least_antisymmetric(a: Seq<nat>, b: Seq<nat>)
    ensures
        (at_least(a, b) && at_least(b, a)) <==> same_from(a, b, 0),
{
    lemma_antisymmetric_from(a, b, 0);
}

proof fn lemma_antisymmetric_from(a: Seq<nat>, b: Seq<nat>, i: int)
    requires
        0 <= i,
    ensures
        (at_least_from(a, b, i) && at_least_from(b, a, i)) <==> same_from(a, b, i),
    decreases a.len() + b.len() - i,
{
    lemma_beyond(a, b, i);
    lemma_beyond(b, a, i);
    if i < a.len() || i < b.len() {
        if component(a, i) == component(b, i) {
            lemma_antisymmetric_from(a, b, i + 1);
            if same_from(a, b, i + 1) {
                assert forall|k: int| i <= k implies #[trigger] component(a, k) == component(
                    b,
                    k,
                ) by {
                    if k > i {
                        assert(i + 1 <= k);
                    }
                }
            }
            if same_from(a, b, i) {
                assert forall|k: int| i + 1 <= k implies #[trigger] component(a, k)
                    == component(b, k) by {
                    assert(i <= k);
                }
            }
        } else {
            assert(!same_from(a, b, i));
        }
    } else {
        assert(same_from(a, b, i));
    }
}

/// Between two version numbers that can be compared the comparison always
/// gives an answer; of the two ways round at least one says yes, and both
/// do only where the numbers have the same components.
pub proof fn law_numeric_answer(a: Seq<char>, b: Seq<char>)
    requires
        is_version(a),
        is_version(b),
    ensures
        numeric_answer(a, b) == Ok::<bool, Failure>(at_least(components(a), components(b))),
        numeric_answer(a, b) == Ok::<bool, Failure>(true) || numeric_answer(b, a) == Ok::<
            bool,
            Failure,
        >(true),
        (numeric_answer(a, b) == Ok::<bool, Failure>(true) && numeric_answer(b, a) == Ok::<
            bool,
            Failure,
        >(true)) <==> same_from(components(a), components(b), 0),
        numeric_answer(a, a) == Ok::<bool, Failure>(true),
{
    law_at_least_total(components(a), components(b));
    law_at_least_antisymmetric(components(a), components(b));
    law_at_least_reflexive(components(a));
}

/// Between versions of three components the order is that of the triples
/// (major, minor, patch): the majors decide, the minors where the majors are
/// equal, the patches where the minors are equal too.
pub proof fn law_three_components(a: Seq<nat>, b: Seq<nat>)
    requires
        a.len() == 3,
        b.len() == 3,
    ensures
        at_least(a, b) == (a[0] > b[0] || (a[0] == b[0] && (a[1] > b[1] || (a[1] == b[1] && a[2]
            >= b[2])))),
{
    reveal_with_fuel(at_least_from, 4);
}

/// A component that is missing counts as 0: a version is as large with a
/// zero at its end as without it.
pub proof fn law_trailing_zero(a: Seq<nat>, b: Seq<nat>)
    ensures
        at_least(a.push(0), b) == at_least(a, b),
        at_least(b, a.push(0)) == at_least(b, a),
{
    lemma_trailing_zero_from(a, b, 0);
}

proof fn lemma_trailing_zero_from(a: Seq<nat>, b: Seq<nat>, i: int)
    requires
        0 <= i,
    ensures
        at_least_from(a.push(0), b, i) == at_least_from(a, b, i),
        at_least_from(b, a.push(0), i) == at_least_from(b, a, i),
    decreases a.len() + 1 + b.len() - i,
{
    let longer = a.push(0);
    assert(forall|k: int| component(longer, k) == component(a, k));
    if i < longer.len() || i < b.len() {
        lemma_trailing_zero_from(a, b, i + 1);
        lemma_beyond(a, b, i);
        lemma_beyond(b, a, i);
        lemma_beyond(longer, b, i);
        lemma_beyond(b, longer, i);
    }
}

} // verus!
