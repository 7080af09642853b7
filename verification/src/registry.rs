//! The lint registry and its execution engine.

use vstd::prelude::*;

use crate::certificate_lint::CertificateLint;
use crate::crl_lint::CRLLint;
use crate::definition::LintDefinition;
use crate::lint::Lint;
use crate::result::LintResult;
use crate::result::LintResultView;
use crate::status::LintStatus;

verus! {

/// The findings that evaluating `pairs` in order against `subject` yields:
/// one entry per pair whose result does not pass, in registration order.
/// Absence from the findings means the lint passed, not that it was skipped.
pub open spec fn spec_findings<L: Lint>(
    pairs: Seq<(LintDefinition, L)>,
    subject: L::Subject,
) -> Seq<(LintDefinition, LintResultView)>
    decreases pairs.len(),
{
    if pairs.len() == 0 {
        Seq::empty()
    } else {
        let rest = spec_findings(pairs.drop_first(), subject);
        if pairs[0].1.spec_result(subject).status is Pass {
            rest
        } else {
            seq![(pairs[0].0, pairs[0].1.spec_result(subject))] + rest
        }
    }
}

/// Holds when the executable result list carries exactly the given abstract
/// findings: same length, same definitions, same result values.
pub open spec fn findings_match(
    results: Seq<(LintDefinition, LintResult)>,
    findings: Seq<(LintDefinition, LintResultView)>,
) -> bool {
    &&& results.len() == findings.len()
    &&& forall|i: int|
        0 <= i < results.len() ==> (#[trigger] results[i]).0 == findings[i].0 && results[i].1@
            == findings[i].1
}

/// The pairs of `pairs` whose definition name starts with `prefix`, in
/// order.
pub open spec fn spec_filter<L>(
    pairs: Seq<(LintDefinition, L)>,
    prefix: Seq<char>,
) -> Seq<(LintDefinition, L)>
    decreases pairs.len(),
{
    if pairs.len() == 0 {
        Seq::empty()
    } else {
        let rest = spec_filter(pairs.drop_first(), prefix);
        if prefix.is_prefix_of(pairs[0].0@.name) {
            seq![pairs[0]] + rest
        } else {
            rest
        }
    }
}

/// Findings of a concatenation are the left pairs' findings followed by the
/// right pairs' findings. In particular, after merging registry B into
/// registry A, evaluation reports A's findings in A's order followed by B's
/// findings in B's order.
pub proof fn lemma_findings_of_concat<L: Lint>(
    left: Seq<(LintDefinition, L)>,
    right: Seq<(LintDefinition, L)>,
    subject: L::Subject,
)
    ensures
        spec_findings(left + right, subject) == spec_findings(left, subject) + spec_findings(
            right,
            subject,
        ),
    decreases left.len(),
{
    if left.len() == 0 {
        assert(left + right =~= right);
        assert(spec_findings(left, subject) + spec_findings(right, subject) =~= spec_findings(
            right,
            subject,
        ));
    } else {
        assert((left + right).drop_first() =~= left.drop_first() + right);
        lemma_findings_of_concat(left.drop_first(), right, subject);
        assert((left + right)[0] == left[0]);
        if !(left[0].1.spec_result(subject).status is Pass) {
            let head = seq![(left[0].0, left[0].1.spec_result(subject))];
            assert(head + (spec_findings(left.drop_first(), subject) + spec_findings(
                right,
                subject,
            )) =~= (head + spec_findings(left.drop_first(), subject)) + spec_findings(
                right,
                subject,
            ));
        }
    }
}

/// Findings of a single pair: empty when its result passes, otherwise that
/// one finding.
pub proof fn lemma_findings_of_singleton<L: Lint>(pair: (LintDefinition, L), subject: L::Subject)
    ensures
        spec_findings(seq![pair], subject) == if pair.1.spec_result(subject).status is Pass {
            Seq::<(LintDefinition, LintResultView)>::empty()
        } else {
            seq![(pair.0, pair.1.spec_result(subject))]
        },
{
    let single = seq![pair];
    assert(single.drop_first() =~= Seq::<(LintDefinition, L)>::empty());
    assert(spec_findings(single.drop_first(), subject) =~= Seq::<(
        LintDefinition,
        LintResultView,
    )>::empty());
    if !(pair.1.spec_result(subject).status is Pass) {
        assert(seq![(pair.0, pair.1.spec_result(subject))] + Seq::<(
            LintDefinition,
            LintResultView,
        )>::empty() =~= seq![(pair.0, pair.1.spec_result(subject))]);
    }
}

/// Name filtering of a concatenation filters each part, keeping the order.
pub proof fn lemma_filter_of_concat<L>(
    left: Seq<(LintDefinition, L)>,
    right: Seq<(LintDefinition, L)>,
    prefix: Seq<char>,
)
    ensures
        spec_filter(left + right, prefix) == spec_filter(left, prefix) + spec_filter(
            right,
            prefix,
        ),
    decreases left.len(),
{
    if left.len() == 0 {
        assert(left + right =~= right);
        assert(spec_filter(left, prefix) + spec_filter(right, prefix) =~= spec_filter(
            right,
            prefix,
        ));
    } else {
        assert((left + right).drop_first() =~= left.drop_first() + right);
        lemma_filter_of_concat(left.drop_first(), right, prefix);
        assert((left + right)[0] == left[0]);
        if prefix.is_prefix_of(left[0].0@.name) {
            assert(seq![left[0]] + (spec_filter(left.drop_first(), prefix) + spec_filter(
                right,
                prefix,
            )) =~= (seq![left[0]] + spec_filter(left.drop_first(), prefix)) + spec_filter(
                right,
                prefix,
            ));
        }
    }
}

/// Name filtering of a single pair: kept exactly when its name starts with
/// the prefix.
pub proof fn lemma_filter_of_singleton<L>(pair: (LintDefinition, L), prefix: Seq<char>)
    ensures
        spec_filter(seq![pair], prefix) == if prefix.is_prefix_of(pair.0@.name) {
            seq![pair]
        } else {
            Seq::<(LintDefinition, L)>::empty()
        },
{
    let single = seq![pair];
    assert(single.drop_first() =~= Seq::<(LintDefinition, L)>::empty());
    assert(spec_filter(single.drop_first(), prefix) =~= Seq::<(LintDefinition, L)>::empty());
    if prefix.is_prefix_of(pair.0@.name) {
        assert(seq![pair] + Seq::<(LintDefinition, L)>::empty() =~= seq![pair]);
    }
}

/// True when `prefix` is a prefix of `text`, comparing characters.
fn str_starts_with(text: &str, prefix: &str) -> (is_prefix: bool)
    ensures
        is_prefix == prefix@.is_prefix_of(text@),
{
    let text_len = text.unicode_len();
    let prefix_len = prefix.unicode_len();
    if prefix_len > text_len {
        return false;
    }
    let mut i: usize = 0;
    while i < prefix_len
        invariant
            text_len == text@.len(),
            prefix_len == prefix@.len(),
            prefix_len <= text_len,
            i <= prefix_len,
            forall|j: int| 0 <= j < i ==> text@[j] == prefix@[j],
        decreases prefix_len - i,
    {
        if text.get_char(i) != prefix.get_char(i) {
            proof {
                if prefix@.is_prefix_of(text@) {
                    assert(prefix@[i as int] == text@.subrange(0, prefix@.len() as int)[i as int]);
                }
            }
            return false;
        }
        i += 1;
    }
    proof {
        assert(prefix@ =~= text@.subrange(0, prefix@.len() as int));
    }
    true
}

/// Registry of lints for one subject kind: an ordered collection of
/// (definition, lint) pairs.
///
/// Insertion order is preserved; it determines evaluation order and, with
/// it, the order of reported findings. The registry does not check
/// definition names for uniqueness: duplicate names are permitted and every
/// duplicate runs.
pub struct LintRegistry<L: Lint> {
    lints: Vec<(LintDefinition, L)>,
}

/// Registry containing X.509 certificate lints.
pub type CertificateLintRegistry = LintRegistry<CertificateLint>;

/// Registry containing X.509 certificate revocation list lints.
pub type CRLLintRegistry = LintRegistry<CRLLint>;

impl<L: Lint> View for LintRegistry<L> {
    type V = Seq<(LintDefinition, L)>;

    closed spec fn view(&self) -> Seq<(LintDefinition, L)> {
        self.lints@
    }
}

impl<L: Lint> Default for LintRegistry<L> {
    /// Build an empty registry.
    fn default() -> (registry: Self)
        ensures
            registry@ == Seq::<(LintDefinition, L)>::empty(),
    {
        let registry = Self { lints: Vec::new() };
        proof {
            assert(registry.lints@ =~= Seq::<(LintDefinition, L)>::empty());
        }
        registry
    }
}

impl<L: Lint> LintRegistry<L> {
    /// Build a new registry from provided lint definitions and functions.
    pub fn new(lints: Vec<(LintDefinition, L)>) -> (registry: Self)
        ensures
            registry@ == lints@,
    {
        Self { lints }
    }

    /// The registered lint definitions and functions, in registration
    /// order.
    pub fn lints(&self) -> (lints: &Vec<(LintDefinition, L)>)
        ensures
            lints@ == self@,
    {
        &self.lints
    }

    /// Register a new lint definition and function, after all current ones.
    pub fn insert(&mut self, lint_definition: LintDefinition, lint: L)
        ensures
            final(self)@ == old(self)@.push((lint_definition, lint)),
    {
        self.lints.push((lint_definition, lint));
    }

    /// Merge lints from registry `other` into the current registry: its
    /// pairs are appended, in their order, after the current ones.
    pub fn merge(&mut self, other: LintRegistry<L>)
        ensures
            final(self)@ == old(self)@ + other@,
    {
        let mut other = other;
        self.lints.append(&mut other.lints);
    }

    /// Filter lints, keeping only lints with name starting with the
    /// provided filter; the others are removed in place.
    pub fn filter(&mut self, filter: &str)
        ensures
            final(self)@ == spec_filter(old(self)@, filter@),
    {
        let ghost original = self.lints@;
        let mut kept: Vec<(LintDefinition, L)> = Vec::new();
        let mut i: usize = 0;
        while i < self.lints.len()
            invariant
                self.lints@ == original,
                i <= original.len(),
                kept@ == spec_filter(original.take(i as int), filter@),
            decreases original.len() - i,
        {
            proof {
                assert(original.take(i + 1) =~= original.take(i as int) + seq![original[i as int]]);
                lemma_filter_of_concat(original.take(i as int), seq![original[i as int]], filter@);
                lemma_filter_of_singleton(original[i as int], filter@);
            }
            let pair = &self.lints[i];
            if str_starts_with(pair.0.name(), filter) {
                kept.push((pair.0.clone(), pair.1));
                proof {
                    assert(kept@ =~= spec_filter(original.take(i + 1), filter@));
                }
            }
            i += 1;
        }
        proof {
            assert(original.take(original.len() as int) =~= original);
        }
        self.lints = kept;
    }

    /// Run every registered lint against `subject`, in registration order,
    /// and return the findings: one `(definition, result)` entry for every
    /// lint whose result did not pass. Passing lints contribute nothing, so
    /// absence from the returned list means the lint passed.
    pub fn run_lints(&self, subject: &L::Subject) -> (results: Vec<(LintDefinition, LintResult)>)
        ensures
            findings_match(results@, spec_findings(self@, *subject)),
    {
        let ghost pairs = self.lints@;
        let mut results: Vec<(LintDefinition, LintResult)> = Vec::new();
        let mut i: usize = 0;
        while i < self.lints.len()
            invariant
                self.lints@ == pairs,
                i <= pairs.len(),
                findings_match(results@, spec_findings(pairs.take(i as int), *subject)),
            decreases pairs.len() - i,
    {
            proof {
                assert(pairs.take(i + 1) =~= pairs.take(i as int) + seq![pairs[i as int]]);
                lemma_findings_of_concat(pairs.take(i as int), seq![pairs[i as int]], *subject);
                lemma_findings_of_singleton(pairs[i as int], *subject);
            }
            let pair = &self.lints[i];
            let result = pair.1.evaluate(subject);
            if !(result.status == LintStatus::Pass) {
                results.push((pair.0.clone(), result));
            }
            i += 1;
        }
        proof {
            assert(pairs.take(pairs.len() as int) =~= pairs);
        }
        results
    }
}

/// Pass is silent: when every pair carrying a given definition passes on
/// `subject`, no finding carries that definition.
pub proof fn lemma_pass_is_silent<L: Lint>(
    pairs: Seq<(LintDefinition, L)>,
    subject: L::Subject,
    definition: LintDefinition,
)
    requires
        forall|i: int|
            0 <= i < pairs.len() && (#[trigger] pairs[i]).0 == definition ==> pairs[i].1.spec_result(
                subject,
            ).status is Pass,
    ensures
        forall|k: int|
            0 <= k < spec_findings(pairs, subject).len() ==> (#[trigger] spec_findings(
                pairs,
                subject,
            )[k]).0 != definition,
    decreases pairs.len(),
{
    if pairs.len() > 0 {
        let rest = pairs.drop_first();
        assert forall|i: int|
            0 <= i < rest.len() && (#[trigger] rest[i]).0 == definition implies rest[i].1.spec_result(
            subject,
        ).status is Pass by {
            assert(rest[i] == pairs[i + 1]);
        }
        lemma_pass_is_silent(rest, subject, definition);
        if pairs[0].1.spec_result(subject).status is Pass {
            assert forall|k: int|
                0 <= k < spec_findings(pairs, subject).len() implies (#[trigger] spec_findings(
                pairs,
                subject,
            )[k]).0 != definition by {
                assert(spec_findings(pairs, subject)[k] == spec_findings(rest, subject)[k]);
            }
        } else {
            assert(pairs[0].0 != definition);
            assert forall|k: int|
                0 <= k < spec_findings(pairs, subject).len() implies (#[trigger] spec_findings(
                pairs,
                subject,
            )[k]).0 != definition by {
                if k > 0 {
                    assert(spec_findings(pairs, subject)[k] == spec_findings(rest, subject)[k
                        - 1]);
                }
            }
        }
    }
}

/// Order preservation: when the lints at positions `i < j` both produce
/// non-passing results, the findings list contains the finding of position
/// `i` before the finding of position `j`. The returned pair gives the two
/// positions inside the findings.
pub proof fn lemma_order_preserved<L: Lint>(
    pairs: Seq<(LintDefinition, L)>,
    subject: L::Subject,
    i: int,
    j: int,
) -> (positions: (int, int))
    requires
        0 <= i < j < pairs.len(),
        !(pairs[i].1.spec_result(subject).status is Pass),
        !(pairs[j].1.spec_result(subject).status is Pass),
    ensures
        0 <= positions.0 < positions.1 < spec_findings(pairs, subject).len(),
        spec_findings(pairs, subject)[positions.0] == (pairs[i].0, pairs[i].1.spec_result(subject)),
        spec_findings(pairs, subject)[positions.1] == (pairs[j].0, pairs[j].1.spec_result(subject)),
{
    let before_i = pairs.take(i);
    let at_i = seq![pairs[i]];
    let between = pairs.subrange(i + 1, j);
    let at_j = seq![pairs[j]];
    let after_j = pairs.subrange(j + 1, pairs.len() as int);
    assert(pairs =~= before_i + at_i + between + at_j + after_j);
    lemma_findings_of_concat(before_i + at_i + between + at_j, after_j, subject);
    lemma_findings_of_concat(before_i + at_i + between, at_j, subject);
    lemma_findings_of_concat(before_i + at_i, between, subject);
    lemma_findings_of_concat(before_i, at_i, subject);
    lemma_findings_of_singleton(pairs[i], subject);
    lemma_findings_of_singleton(pairs[j], subject);
    let found_before = spec_findings(before_i, subject);
    let found_between = spec_findings(between, subject);
    let position_i = found_before.len() as int;
    let position_j = found_before.len() + 1 + found_between.len() as int;
    (position_i, position_j)
}

/// Every pair kept by the name filter has a name starting with the prefix.
pub proof fn lemma_filter_names<L>(pairs: Seq<(LintDefinition, L)>, prefix: Seq<char>)
    ensures
        forall|k: int|
            0 <= k < spec_filter(pairs, prefix).len() ==> prefix.is_prefix_of(
                (#[trigger] spec_filter(pairs, prefix)[k]).0@.name,
            ),
    decreases pairs.len(),
{
    if pairs.len() > 0 {
        let rest = pairs.drop_first();
        lemma_filter_names(rest, prefix);
        if prefix.is_prefix_of(pairs[0].0@.name) {
            assert forall|k: int|
                0 <= k < spec_filter(pairs, prefix).len() implies prefix.is_prefix_of(
                (#[trigger] spec_filter(pairs, prefix)[k]).0@.name,
            ) by {
                if k > 0 {
                    assert(spec_filter(pairs, prefix)[k] == spec_filter(rest, prefix)[k - 1]);
                }
            }
        } else {
            assert forall|k: int|
                0 <= k < spec_filter(pairs, prefix).len() implies prefix.is_prefix_of(
                (#[trigger] spec_filter(pairs, prefix)[k]).0@.name,
            ) by {
                assert(spec_filter(pairs, prefix)[k] == spec_filter(rest, prefix)[k]);
            }
        }
    }
}

/// Holds when `finding` is what evaluating one of the pairs against
/// `subject` reports: the pair's definition with its non-passing result.
pub open spec fn finding_comes_from_pair<L: Lint>(
    pairs: Seq<(LintDefinition, L)>,
    subject: L::Subject,
    finding: (LintDefinition, LintResultView),
) -> bool {
    exists|i: int|
        0 <= i < pairs.len() && finding == ((#[trigger] pairs[i]).0, pairs[i].1.spec_result(subject))
            && !(pairs[i].1.spec_result(subject).status is Pass)
}

proof fn lemma_from_rest<L: Lint>(
    pairs: Seq<(LintDefinition, L)>,
    subject: L::Subject,
    finding: (LintDefinition, LintResultView),
)
    requires
        pairs.len() > 0,
        finding_comes_from_pair(pairs.drop_first(), subject, finding),
    ensures
        finding_comes_from_pair(pairs, subject, finding),
{
    let rest = pairs.drop_first();
    let w = choose|i: int|
        0 <= i < rest.len() && finding == (rest[i].0, rest[i].1.spec_result(subject)) && !(
        rest[i].1.spec_result(subject).status is Pass);
    assert(rest[w] == pairs[w + 1]);
    assert(finding == (pairs[w + 1].0, pairs[w + 1].1.spec_result(subject)));
}

/// Every finding repeats the definition and result of one of the evaluated
/// pairs, one whose result did not pass.
pub proof fn lemma_findings_are_of_pairs<L: Lint>(
    pairs: Seq<(LintDefinition, L)>,
    subject: L::Subject,
)
    ensures
        forall|k: int|
            0 <= k < spec_findings(pairs, subject).len() ==> finding_comes_from_pair(
                pairs,
                subject,
                #[trigger] spec_findings(pairs, subject)[k],
            ),
    decreases pairs.len(),
{
    if pairs.len() > 0 {
        let rest = pairs.drop_first();
        lemma_findings_are_of_pairs(rest, subject);
        assert forall|k: int|
            0 <= k < spec_findings(pairs, subject).len() implies finding_comes_from_pair(
            pairs,
            subject,
            #[trigger] spec_findings(pairs, subject)[k],
        ) by {
            if pairs[0].1.spec_result(subject).status is Pass {
                assert(spec_findings(pairs, subject)[k] == spec_findings(rest, subject)[k]);
                lemma_from_rest(pairs, subject, spec_findings(rest, subject)[k]);
            } else if k == 0 {
                assert(spec_findings(pairs, subject)[0] == (
                    pairs[0].0,
                    pairs[0].1.spec_result(subject),
                ));
            } else {
                assert(spec_findings(pairs, subject)[k] == spec_findings(rest, subject)[k - 1]);
                lemma_from_rest(pairs, subject, spec_findings(rest, subject)[k - 1]);
            }
        }
    }
}

/// Filter correctness: after keeping only the lints whose name starts with
/// `prefix`, every finding that evaluation can return carries a definition
/// name starting with `prefix`.
pub proof fn lemma_filter_correct<L: Lint>(
    pairs: Seq<(LintDefinition, L)>,
    prefix: Seq<char>,
    subject: L::Subject,
)
    ensures
        forall|k: int|
            0 <= k < spec_findings(spec_filter(pairs, prefix), subject).len()
                ==> prefix.is_prefix_of(
                (#[trigger] spec_findings(spec_filter(pairs, prefix), subject)[k]).0@.name,
            ),
{
    let kept = spec_filter(pairs, prefix);
    lemma_filter_names(pairs, prefix);
    lemma_findings_are_of_pairs(kept, subject);
    assert forall|k: int|
        0 <= k < spec_findings(kept, subject).len() implies prefix.is_prefix_of(
        (#[trigger] spec_findings(kept, subject)[k]).0@.name,
    ) by {
        let finding = spec_findings(kept, subject)[k];
        assert(finding_comes_from_pair(kept, subject, finding));
        let w = choose|i: int|
            0 <= i < kept.len() && finding == (kept[i].0, kept[i].1.spec_result(subject)) && !(
            kept[i].1.spec_result(subject).status is Pass);
        assert(prefix.is_prefix_of(kept[w].0@.name));
    }
}

/// Determinism: two result lists that both match the same abstract findings
/// agree entry by entry — same definitions, same result values.
pub proof fn lemma_run_lints_deterministic(
    first: Seq<(LintDefinition, LintResult)>,
    second: Seq<(LintDefinition, LintResult)>,
    findings: Seq<(LintDefinition, LintResultView)>,
)
    requires
        findings_match(first, findings),
        findings_match(second, findings),
    ensures
        first.len() == second.len(),
        forall|k: int|
            0 <= k < first.len() ==> (#[trigger] first[k]).0 == second[k].0 && first[k].1@
                == second[k].1@,
{
}

/// Number of pairs whose definition name is `name`.
pub open spec fn count_pairs_named<L>(pairs: Seq<(LintDefinition, L)>, name: Seq<char>) -> nat
    decreases pairs.len(),
{
    if pairs.len() == 0 {
        0
    } else {
        (if pairs[0].0@.name == name {
            1nat
        } else {
            0nat
        }) + count_pairs_named(pairs.drop_first(), name)
    }
}

/// Number of findings whose definition name is `name`.
pub open spec fn count_findings_named(
    findings: Seq<(LintDefinition, LintResultView)>,
    name: Seq<char>,
) -> nat
    decreases findings.len(),
{
    if findings.len() == 0 {
        0
    } else {
        (if findings[0].0@.name == name {
            1nat
        } else {
            0nat
        }) + count_findings_named(findings.drop_first(), name)
    }
}

/// A lint registered once reports at most one finding, however many
/// violations the subject holds: findings carrying a given name are never
/// more numerous than the registered pairs carrying it.
pub proof fn lemma_at_most_one_finding_each<L: Lint>(
    pairs: Seq<(LintDefinition, L)>,
    subject: L::Subject,
    name: Seq<char>,
)
    ensures
        count_findings_named(spec_findings(pairs, subject), name) <= count_pairs_named(
            pairs,
            name,
        ),
    decreases pairs.len(),
{
    if pairs.len() > 0 {
        let rest = pairs.drop_first();
        lemma_at_most_one_finding_each(rest, subject, name);
        if !(pairs[0].1.spec_result(subject).status is Pass) {
            let head = (pairs[0].0, pairs[0].1.spec_result(subject));
            let all = seq![head] + spec_findings(rest, subject);
            assert(all.drop_first() =~= spec_findings(rest, subject));
            assert(all[0] == head);
        }
    }
}

} // verus!
