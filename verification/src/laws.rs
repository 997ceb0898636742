use vstd::multiset::Multiset;
use vstd::prelude::*;

use crate::meta::{outcome_passed, BodyOutcome, IntegrationTestMeta};
use crate::test_runner::{entries_of, entries_view, report_of_run, run_admissible};
use crate::TestResults;

verus! {

/// How many outcomes count as a pass. Stated over the multiset of the
/// outcomes, so the count is by construction independent of the order in
/// which the tests were registered.
pub open spec fn count_passing(outcomes: Seq<BodyOutcome>) -> nat {
    outcomes.to_multiset().count(BodyOutcome::Passed)
}

/// Law: every enumerated descriptor yields exactly one report entry, on the
/// success side or on the failure side — the two sides partition the run.
pub proof fn lemma_entries_partition<S, A>(
    tests: Seq<IntegrationTestMeta<S, A>>,
    outcomes: Seq<BodyOutcome>,
)
    requires
        outcomes.len() == tests.len(),
    ensures
        entries_of(tests, outcomes, true).len() + entries_of(tests, outcomes, false).len()
            == tests.len(),
    decreases tests.len(),
{
    if tests.len() > 0 {
        lemma_entries_partition(tests.drop_last(), outcomes.drop_last());
    }
}

/// Law: the success side of a report holds exactly as many entries as there
/// are passing outcomes.
pub proof fn lemma_success_count<S, A>(
    tests: Seq<IntegrationTestMeta<S, A>>,
    outcomes: Seq<BodyOutcome>,
)
    requires
        outcomes.len() == tests.len(),
    ensures
        entries_of(tests, outcomes, true).len() == count_passing(outcomes),
    decreases tests.len(),
{
    broadcast use vstd::seq_lib::group_to_multiset_ensures;
    broadcast use vstd::multiset::group_multiset_axioms;

    if tests.len() == 0 {
        assert(outcomes =~= Seq::<BodyOutcome>::empty());
        assert(outcomes.to_multiset().count(BodyOutcome::Passed) == 0);
    } else {
        lemma_success_count(tests.drop_last(), outcomes.drop_last());
        assert(outcomes =~= outcomes.drop_last().push(outcomes.last()));
        assert(outcomes.drop_last().push(outcomes.last()).to_multiset()
            =~= outcomes.drop_last().to_multiset().insert(outcomes.last()));
    }
}

/// How many descriptors the classification `is_pass` accepts. Stated over
/// the multiset of the descriptors, so the count is by construction
/// independent of registration order.
pub open spec fn count_matching<S, A>(
    tests: Seq<IntegrationTestMeta<S, A>>,
    is_pass: spec_fn(IntegrationTestMeta<S, A>) -> bool,
) -> nat {
    tests.to_multiset().filter(is_pass).len()
}

proof fn lemma_filter_len_via_multiset<V>(s: Seq<V>, p: spec_fn(V) -> bool)
    ensures
        s.filter(p).len() == s.to_multiset().filter(p).len(),
    decreases s.len(),
{
    broadcast use vstd::seq_lib::group_to_multiset_ensures;
    broadcast use vstd::multiset::group_multiset_axioms;

    reveal(Seq::filter);
    if s.len() == 0 {
        assert(s.filter(p) =~= Seq::<V>::empty());
        assert(s.to_multiset() =~= Multiset::<V>::empty());
        assert(s.to_multiset().filter(p) =~= Multiset::<V>::empty());
    } else {
        lemma_filter_len_via_multiset(s.drop_last(), p);
        let x = s.last();
        assert(s =~= s.drop_last().push(x));
        assert(s.to_multiset() =~= s.drop_last().to_multiset().insert(x));
        if p(x) {
            assert(s.filter(p) == s.drop_last().filter(p).push(x));
            assert(s.to_multiset().filter(p) =~= s.drop_last().to_multiset().filter(p).insert(x));
            assert(s.to_multiset().filter(p).len() == s.drop_last().to_multiset().filter(p).len()
                + 1);
        } else {
            assert(s.filter(p) == s.drop_last().filter(p));
            assert(s.to_multiset().filter(p) =~= s.drop_last().to_multiset().filter(p));
        }
    }
}

proof fn lemma_entries_match_filter<S, A>(
    tests: Seq<IntegrationTestMeta<S, A>>,
    outcomes: Seq<BodyOutcome>,
    is_pass: spec_fn(IntegrationTestMeta<S, A>) -> bool,
)
    requires
        outcomes.len() == tests.len(),
        forall|k: int| 0 <= k < tests.len() ==> outcome_passed(outcomes[k]) == is_pass(#[trigger] tests[k]),
    ensures
        entries_of(tests, outcomes, true).len() == tests.filter(is_pass).len(),
    decreases tests.len(),
{
    reveal(Seq::filter);
    if tests.len() > 0 {
        assert(forall|k: int|
            0 <= k < tests.drop_last().len() ==> outcome_passed(outcomes.drop_last()[k])
                == is_pass(#[trigger] tests.drop_last()[k]));
        lemma_entries_match_filter(tests.drop_last(), outcomes.drop_last(), is_pass);
        let t = tests.last();
        assert(outcome_passed(outcomes.last()) == is_pass(t));
        if is_pass(t) {
            assert(tests.filter(is_pass) == tests.drop_last().filter(is_pass).push(t));
            assert(entries_of(tests, outcomes, true) == entries_of(
                tests.drop_last(),
                outcomes.drop_last(),
                true,
            ).push((t.name@, true)));
        } else {
            assert(tests.filter(is_pass) == tests.drop_last().filter(is_pass));
            assert(entries_of(tests, outcomes, true) == entries_of(
                tests.drop_last(),
                outcomes.drop_last(),
                true,
            ));
        }
    } else {
        assert(tests.filter(is_pass) =~= Seq::<IntegrationTestMeta<S, A>>::empty());
    }
}

/// Law (reporting shape): if the executor classifies each descriptor
/// deterministically — every answer it can give for a descriptor carries the
/// pass flag `is_pass` assigns to that descriptor — then a finished report
/// holds exactly `count_matching` successes, and failures for all the rest.
/// Both counts depend only on the multiset of descriptors, never on the
/// order in which they were registered.
pub proof fn lemma_report_shape<T, S, A, F: Fn(&T, &IntegrationTestMeta<S, A>) -> BodyOutcome>(
    execute: F,
    tests: Seq<IntegrationTestMeta<S, A>>,
    results: TestResults,
    is_pass: spec_fn(IntegrationTestMeta<S, A>) -> bool,
)
    requires
        report_of_run(execute, tests, results),
        forall|e: &T, m: &IntegrationTestMeta<S, A>, o: BodyOutcome|
            call_ensures(execute, (e, m), o) ==> outcome_passed(o) == is_pass(*m),
    ensures
        results.success_tests@.len() == count_matching(tests, is_pass),
        results.failed_tests@.len() == tests.len() - count_matching(tests, is_pass),
{
    let (env, os) = choose|env: T, os: Seq<BodyOutcome>|
        {
            &&& #[trigger] run_admissible(execute, env, tests, os)
            &&& entries_view(results.success_tests@) == entries_of(tests, os, true)
            &&& entries_view(results.failed_tests@) == entries_of(tests, os, false)
        };
    assert(forall|k: int| 0 <= k < tests.len() ==> outcome_passed(os[k]) == is_pass(#[trigger] tests[k]))
        by {
        assert forall|k: int| 0 <= k < tests.len() implies outcome_passed(os[k]) == is_pass(
            #[trigger] tests[k],
        ) by {
            assert(call_ensures(execute, (&env, &tests[k]), os[k]));
        }
    }
    lemma_entries_match_filter(tests, os, is_pass);
    lemma_filter_len_via_multiset(tests, is_pass);
    lemma_entries_partition(tests, os);
    assert(entries_view(results.success_tests@).len() == results.success_tests@.len());
    assert(entries_view(results.failed_tests@).len() == results.failed_tests@.len());
}

/// Law (re-running): two finished runs over the same descriptors — as a
/// multiset, so in any registration order — with executors that agree on the
/// deterministic classification `is_pass`, report the same number of
/// successes and the same number of failures.
pub proof fn lemma_rerun_same_shape<
    T1,
    T2,
    S,
    A,
    F1: Fn(&T1, &IntegrationTestMeta<S, A>) -> BodyOutcome,
    F2: Fn(&T2, &IntegrationTestMeta<S, A>) -> BodyOutcome,
>(
    execute1: F1,
    tests1: Seq<IntegrationTestMeta<S, A>>,
    results1: TestResults,
    execute2: F2,
    tests2: Seq<IntegrationTestMeta<S, A>>,
    results2: TestResults,
    is_pass: spec_fn(IntegrationTestMeta<S, A>) -> bool,
)
    requires
        report_of_run(execute1, tests1, results1),
        report_of_run(execute2, tests2, results2),
        forall|e: &T1, m: &IntegrationTestMeta<S, A>, o: BodyOutcome|
            call_ensures(execute1, (e, m), o) ==> outcome_passed(o) == is_pass(*m),
        forall|e: &T2, m: &IntegrationTestMeta<S, A>, o: BodyOutcome|
            call_ensures(execute2, (e, m), o) ==> outcome_passed(o) == is_pass(*m),
        tests1.to_multiset() == tests2.to_multiset(),
    ensures
        results1.success_tests@.len() == results2.success_tests@.len(),
        results1.failed_tests@.len() == results2.failed_tests@.len(),
{
    broadcast use vstd::seq_lib::group_to_multiset_ensures;

    assert(tests1.len() == tests1.to_multiset().len());
    assert(tests2.len() == tests2.to_multiset().len());
    lemma_report_shape(execute1, tests1, results1, is_pass);
    lemma_report_shape(execute2, tests2, results2, is_pass);
}

} // verus!
