//! Aggregation of completed task outcomes into the success and failure
//! report blocks.
use vstd::prelude::*;

use crate::outcome::TaskOutcome;
use crate::strutil::lemma_string_vec_deep_view;

verus! {

/// The per-repository header line of the success block.
pub open spec fn header_line(name: Seq<char>) -> Seq<char> {
    "Repository '"@ + name + "' results:"@
}

/// The per-repository error line of the failure block.
pub open spec fn error_line(name: Seq<char>, msg: Seq<char>) -> Seq<char> {
    "Error for '"@ + name + "': "@ + msg
}

/// The lines one entry contributes to the success block: its header, and
/// its payload when the outcome is not a failure.
pub open spec fn entry_success_lines(name: Seq<char>, outcome: TaskOutcome) -> Seq<Seq<char>> {
    match outcome {
        TaskOutcome::Success(m) => seq![header_line(name), m@],
        TaskOutcome::PartialSuccess(m) => seq![header_line(name), m@],
        TaskOutcome::Failure(_) => seq![header_line(name)],
    }
}

/// The success block: for every entry a header line, followed by its
/// payload when the outcome is a success or a partial success.
pub open spec fn success_lines(results: Seq<(String, TaskOutcome)>) -> Seq<Seq<char>>
    decreases results.len(),
{
    if results.len() == 0 {
        Seq::empty()
    } else {
        success_lines(results.drop_last()) + entry_success_lines(
            results.last().0@,
            results.last().1,
        )
    }
}

/// The failure block: one error line per failure outcome.
pub open spec fn failure_lines(results: Seq<(String, TaskOutcome)>) -> Seq<Seq<char>>
    decreases results.len(),
{
    if results.len() == 0 {
        Seq::empty()
    } else {
        failure_lines(results.drop_last()) + match results.last().1 {
            TaskOutcome::Failure(m) => seq![error_line(results.last().0@, m@)],
            _ => Seq::empty(),
        }
    }
}

/// How many outcomes are failures.
pub open spec fn count_failures(results: Seq<(String, TaskOutcome)>) -> int
    decreases results.len(),
{
    if results.len() == 0 {
        0
    } else {
        count_failures(results.drop_last()) + if results.last().1 is Failure {
            1int
        } else {
            0int
        }
    }
}

/// The failure block holds exactly one line per failure outcome.
pub proof fn lemma_failure_block_counts_failures(results: Seq<(String, TaskOutcome)>)
    ensures
        failure_lines(results).len() == count_failures(results),
    decreases results.len(),
{
    if results.len() > 0 {
        lemma_failure_block_counts_failures(results.drop_last());
    }
}

/// The success block carries the payload of every success and partial
/// success: each non-failure entry's payload appears among its lines.
pub proof fn lemma_success_block_has_payloads(results: Seq<(String, TaskOutcome)>)
    ensures
        forall|i: int|
            0 <= i < results.len() && !(#[trigger] results[i].1 is Failure) ==> success_lines(
                results,
            ).contains(results[i].1.payload()),
    decreases results.len(),
{
    if results.len() > 0 {
        lemma_success_block_has_payloads(results.drop_last());
        assert forall|i: int|
            0 <= i < results.len() && !(#[trigger] results[i].1 is Failure) implies success_lines(
            results,
        ).contains(results[i].1.payload()) by {
            if i < results.len() - 1 {
                assert(results.drop_last()[i] == results[i]);
                let p = results[i].1.payload();
                let j = choose|j: int|
                    0 <= j < success_lines(results.drop_last()).len() && success_lines(
                        results.drop_last(),
                    )[j] == p;
                assert(success_lines(results)[j] == p);
            } else {
                let lines = entry_success_lines(results.last().0@, results.last().1);
                assert(lines[1] == results[i].1.payload());
                assert(success_lines(results)[success_lines(results.drop_last()).len() as int + 1]
                    == results[i].1.payload());
            }
        }
    }
}

/// A partial success is reported as a success: it adds no line to the
/// failure block — removing it leaves that block unchanged — and its
/// payload stands in the success block.
pub proof fn lemma_partial_success_not_in_failure_block(
    results: Seq<(String, TaskOutcome)>,
    i: int,
)
    requires
        0 <= i < results.len(),
        results[i].1 is PartialSuccess,
    ensures
        failure_lines(results) == failure_lines(results.remove(i)),
        success_lines(results).contains(results[i].1.payload()),
    decreases results.len(),
{
    lemma_success_block_has_payloads(results);
    if i == results.len() - 1 {
        assert(results.remove(i) =~= results.drop_last());
    } else {
        assert(results.drop_last()[i] == results[i]);
        lemma_partial_success_not_in_failure_block(results.drop_last(), i);
        assert(results.remove(i).drop_last() =~= results.drop_last().remove(i));
        assert(results.remove(i).last() == results.last());
    }
}

/// Partition completed outcomes into the success and failure blocks: for
/// every entry a header line goes to the success block, followed by the
/// payload for a success or partial success, or by an error line in the
/// failure block for a failure.
pub fn aggregate(results: &Vec<(String, TaskOutcome)>) -> (r: (Vec<String>, Vec<String>))
    ensures
        r.0.deep_view() == success_lines(results@),
        r.1.deep_view() == failure_lines(results@),
        r.0@.len() == success_lines(results@).len(),
        forall|i: int|
            0 <= i < r.0@.len() ==> (#[trigger] r.0@[i])@ == success_lines(results@)[i],
        r.1@.len() == failure_lines(results@).len(),
        forall|i: int|
            0 <= i < r.1@.len() ==> (#[trigger] r.1@[i])@ == failure_lines(results@)[i],
{
    let mut msgs: Vec<String> = Vec::new();
    let mut errors: Vec<String> = Vec::new();
    let n: usize = results.len();
    let mut i: usize = 0;
    while i < n
        invariant
            0 <= i <= n,
            n == results@.len(),
            msgs.deep_view() =~~= success_lines(results@.take(i as int)),
            errors.deep_view() =~~= failure_lines(results@.take(i as int)),
        decreases n - i,
    {
        let name = &results[i].0;
        let mut header = String::from_str("Repository '");
        header.append(name.as_str());
        header.append("' results:");
        let ghost msgs_prev = msgs;
        let ghost errors_prev = errors;
        msgs.push(header);
        match &results[i].1 {
            TaskOutcome::Success(m) => {
                msgs.push(m.clone());
            },
            TaskOutcome::PartialSuccess(m) => {
                msgs.push(m.clone());
            },
            TaskOutcome::Failure(m) => {
                let mut line = String::from_str("Error for '");
                line.append(name.as_str());
                line.append("': ");
                line.append(m.as_str());
                errors.push(line);
            },
        }
        proof {
            lemma_string_vec_deep_view(msgs_prev);
            lemma_string_vec_deep_view(errors_prev);
            lemma_string_vec_deep_view(msgs);
            lemma_string_vec_deep_view(errors);
            assert(results@.take(i + 1).drop_last() =~~= results@.take(i as int));
            assert(results@.take(i + 1).last() == results@[i as int]);
            assert(msgs.deep_view() =~~= success_lines(results@.take(i + 1)));
            assert(errors.deep_view() =~~= failure_lines(results@.take(i + 1)));
        }
        i += 1;
    }
    proof {
        assert(results@.take(n as int) =~~= results@);
        lemma_string_vec_deep_view(msgs);
        lemma_string_vec_deep_view(errors);
    }
    (msgs, errors)
}

} // verus!
