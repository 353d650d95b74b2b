use vstd::prelude::*;
use crate::identity::Dependency;
use crate::plan::{
    Call, CallView, STEPS, answer_meaning, call_at, distance_expr, lemma_plan_computes_distance, planned,
};
use crate::plan::field;
use crate::reply::{
    BodyView, Coordinate, Entry, coordinate_key, entry, lemma_reply_keys_distinct,
    Cell, Reply, ReplyView, degraded, degraded_reply, distance_reply, forward, forwarded_reply,
    malformed, malformed_reply, ok,
};

verus! {

/// How a call to a dependency came out, as the caller of the dependency saw it.
pub enum Answer {
    /// The dependency could not be reached.
    Unreachable,
    /// The dependency answered with `status` and the JSON `body`.
    Replied { status: u16, body: serde_json::Value },
}

/// Whether `body` has a `result` field holding a JSON number: what
/// `body.get("result").and_then(serde_json::Value::as_f64).is_some()` computes.
pub uninterp spec fn has_numeric_result(body: serde_json::Value) -> bool;

/// Whether the body has a numeric `result`.
///
/// Calls `serde_json::Value::get` and `serde_json::Value::as_f64`; the
/// contract names their outcome, which depends on the body alone.
#[verifier::external_body]
fn numeric_result_of(body: &serde_json::Value) -> (numeric: bool)
    ensures
        numeric == has_numeric_result(*body),
{
    body.get("result").and_then(serde_json::Value::as_f64).is_some()
}

/// What becomes of a call's answer: `Ok` when the dependency answered `200`
/// with a numeric `result`; otherwise the reply that ends the evaluation:
/// `422` forwarded with the dependency's body, `200` without a number as
/// malformed (`500`), and anything else (unreachable included) as degraded (`503`).
pub open spec fn settled(dependency: Dependency, answer: Answer) -> Result<(), ReplyView> {
    match answer {
        Answer::Unreachable => Err(degraded_reply(dependency.service_name())),
        Answer::Replied { status, body } => {
            if status == 200 {
                if has_numeric_result(body) {
                    Ok(())
                } else {
                    Err(malformed_reply(dependency.service_name()))
                }
            } else if status == 422 {
                Err(forwarded_reply(422, body))
            } else {
                Err(degraded_reply(dependency.service_name()))
            }
        },
    }
}

pub open spec fn settled_view(result: Result<(), Reply>) -> Result<(), ReplyView> {
    match result {
        Ok(()) => Ok(()),
        Err(reply) => Err(reply@),
    }
}

/// Judges the answer of a call to `dependency`: whether the evaluation goes on,
/// or with which reply it ends.
pub fn settle(dependency: Dependency, answer: Answer) -> (result: Result<(), Reply>)
    ensures
        settled_view(result) == settled(dependency, answer),
{
    match answer {
        Answer::Unreachable => Err(degraded(dependency.name())),
        Answer::Replied { status, body } => {
            if status == 200 {
                if numeric_result_of(&body) {
                    Ok(())
                } else {
                    Err(malformed(dependency.name()))
                }
            } else if status == 422 {
                Err(forward(422, body))
            } else {
                Err(degraded(dependency.name()))
            }
        },
    }
}

/// An evaluation in progress: the step whose call awaits its answer.
pub struct Run {
    next: usize,
}

impl Run {
    #[verifier::type_invariant]
    spec fn within_plan(self) -> bool {
        self.next < STEPS
    }

    /// The step of the call that awaits its answer.
    pub closed spec fn step(self) -> int {
        self.next as int
    }

    /// The step of the call that awaits its answer.
    pub fn position(&self) -> (k: usize)
        ensures
            k == self.step(),
            k < STEPS,
    {
        proof {
            use_type_invariant(self);
        }
        self.next
    }
}

/// What the evaluation does next: send a call and wait for its answer, or
/// reply to the caller and stop.
pub enum Step {
    Ask(Run, Call),
    Respond(Reply),
}

pub enum StepView {
    Ask(int, CallView),
    Respond(ReplyView),
}

impl View for Step {
    type V = StepView;

    open spec fn view(&self) -> StepView {
        match self {
            Step::Ask(run, call) => StepView::Ask(run.step(), call@),
            Step::Respond(reply) => StepView::Respond(reply@),
        }
    }
}

/// The step after the call at step `k` has been answered with `answer`.
pub open spec fn after(k: int, answer: Answer) -> StepView {
    match settled(planned(k).dependency, answer) {
        Err(reply) => StepView::Respond(reply),
        Ok(()) => if k + 1 < STEPS {
            StepView::Ask(k + 1, planned(k + 1))
        } else {
            StepView::Respond(distance_reply(Cell::Answer(k as usize)))
        },
    }
}

/// The first step of an evaluation: the first call of the plan.
pub fn start() -> (step: Step)
    ensures
        step@ == StepView::Ask(0, planned(0)),
{
    Step::Ask(Run { next: 0 }, call_at(0))
}

/// Goes on from the answer to the call that `run` awaits.
pub fn advance(run: Run, answer: Answer) -> (step: Step)
    ensures
        step@ == after(run.step(), answer),
{
    proof {
        use_type_invariant(&run);
    }
    let k = run.next;
    let dependency = call_at(k).dependency;
    match settle(dependency, answer) {
        Err(reply) => Step::Respond(reply),
        Ok(()) => {
            if k + 1 < STEPS {
                Step::Ask(Run { next: k + 1 }, call_at(k + 1))
            } else {
                Step::Respond(ok(Cell::Answer(k)))
            }
        },
    }
}

/// Whether the answer lets the evaluation go on: `200` with a numeric `result`.
pub open spec fn numeric_ok(answer: Answer) -> bool {
    answer matches Answer::Replied { status, body } && status == 200 && has_numeric_result(body)
}

/// The step an evaluation reaches when, from step `k` on, the calls it makes
/// are answered in turn by `answers`; answers beyond the reply are never asked for.
pub open spec fn drive(k: int, answers: Seq<Answer>) -> StepView
    decreases answers.len(),
{
    if answers.len() == 0 {
        StepView::Ask(k, planned(k))
    } else {
        match after(k, answers[0]) {
            StepView::Ask(j, _) => drive(j, answers.drop_first()),
            StepView::Respond(reply) => StepView::Respond(reply),
        }
    }
}

/// A call's answer lets the evaluation go on exactly when it is a `200` with a
/// numeric `result`, whichever the dependency.
pub proof fn lemma_settled_ok_iff(dependency: Dependency, answer: Answer)
    ensures
        settled(dependency, answer) is Ok <==> numeric_ok(answer),
{
}

/// A dependency's rejection (`422`) reaches the caller as a `422` with the
/// dependency's own body.
pub proof fn lemma_rejection_forwarded(dependency: Dependency, body: serde_json::Value)
    ensures
        settled(dependency, Answer::Replied { status: 422, body })
            == Err::<(), ReplyView>(ReplyView { status: 422, body: crate::reply::BodyView::Forwarded(body) }),
{
}

/// An evaluation that does not succeed answers `422`, `500` or `503`.
pub proof fn lemma_failure_statuses(dependency: Dependency, answer: Answer)
    ensures
        settled(dependency, answer) matches Err(reply) ==>
            reply.status == 422 || reply.status == 500 || reply.status == 503,
{
}

/// While every answer is a `200` with a number, the evaluation makes the
/// planned calls one after the other, in order.
pub proof fn lemma_calls_in_order(k: int, answers: Seq<Answer>)
    requires
        0 <= k,
        k + answers.len() < STEPS,
        forall|i: int| 0 <= i < answers.len() ==> #[trigger] numeric_ok(answers[i]),
    ensures
        drive(k, answers) == StepView::Ask(k + answers.len(), planned(k + answers.len())),
    decreases answers.len(),
{
    if answers.len() > 0 {
        assert(numeric_ok(answers[0]));
        let rest = answers.drop_first();
        assert forall|i: int| 0 <= i < rest.len() implies #[trigger] numeric_ok(rest[i]) by {
            assert(numeric_ok(answers[i + 1]));
        }
        lemma_calls_in_order(k + 1, rest);
    }
}

/// When all the calls from step `k` to the last are answered with numbers, the
/// evaluation replies `200` with the coordinates and the answer of the last
/// call (which is the distance, see `lemma_plan_computes_distance`).
pub proof fn lemma_successful_run(k: int, answers: Seq<Answer>)
    requires
        0 <= k,
        k + answers.len() == STEPS,
        answers.len() > 0,
        forall|i: int| 0 <= i < answers.len() ==> #[trigger] numeric_ok(answers[i]),
    ensures
        drive(k, answers) == StepView::Respond(distance_reply(Cell::Answer((STEPS - 1) as usize))),
    decreases answers.len(),
{
    assert(numeric_ok(answers[0]));
    if answers.len() > 1 {
        let rest = answers.drop_first();
        assert forall|i: int| 0 <= i < rest.len() implies #[trigger] numeric_ok(rest[i]) by {
            assert(numeric_ok(answers[i + 1]));
        }
        lemma_successful_run(k + 1, rest);
    }
}

/// The first answer that is not a `200` with a number ends the evaluation:
/// no further call is made, and the caller receives the reply that `settled`
/// gives for that answer of that dependency.
pub proof fn lemma_first_failure_ends_run(k: int, answers: Seq<Answer>, j: int)
    requires
        0 <= k,
        0 <= j < answers.len(),
        k + j < STEPS,
        forall|i: int| 0 <= i < j ==> #[trigger] numeric_ok(answers[i]),
        !numeric_ok(answers[j]),
    ensures
        settled(planned(k + j).dependency, answers[j]) is Err,
        drive(k, answers) == StepView::Respond(
            settled(planned(k + j).dependency, answers[j])->Err_0,
        ),
    decreases j,
{
    if j > 0 {
        assert(numeric_ok(answers[0]));
        let rest = answers.drop_first();
        assert forall|i: int| 0 <= i < j - 1 implies #[trigger] numeric_ok(rest[i]) by {
            assert(numeric_ok(answers[i + 1]));
        }
        assert(rest[j - 1] == answers[j]);
        lemma_first_failure_ends_run(k + 1, rest, j - 1);
    }
}

/// An evaluation whose nine calls are all answered with numbers replies `200`
/// with the coordinates echoed and, as `result`, the answer of the last call,
/// which stands for `sqrt(((x2 - x1)² + (y2 - y1)²) + (z2 - z1)²)`.
pub proof fn lemma_evaluation_reports_distance(answers: Seq<Answer>)
    requires
        answers.len() == STEPS,
        forall|i: int| 0 <= i < answers.len() ==> #[trigger] numeric_ok(answers[i]),
    ensures
        drive(0, answers) == StepView::Respond(distance_reply(Cell::Answer((STEPS - 1) as usize))),
        answer_meaning((STEPS - 1) as nat) == distance_expr(),
{
    lemma_successful_run(0, answers);
    lemma_plan_computes_distance();
}

/// A successful reply is a `200` that echoes, under each coordinate's key,
/// the request's value of that same coordinate, and carries `result` under
/// the key `result`.
pub proof fn lemma_success_echoes_coordinates(result: Cell)
    ensures
        distance_reply(result).status == 200,
        distance_reply(result).body matches BodyView::Fields(fields) && {
            &&& forall|c: Coordinate| #[trigger] field(fields, coordinate_key(c)) == Some(Cell::Coordinate(c))
            &&& field(fields, "result") == Some(result)
            &&& fields.len() == 7
        },
{
    lemma_reply_keys_distinct();
    let fields = crate::reply::distance_fields(result);
    reveal_with_fuel(field, 8);
    assert(fields.drop_first() =~= fields.subrange(1, 7));
    assert(fields.subrange(1, 7).drop_first() =~= fields.subrange(2, 7));
    assert(fields.subrange(2, 7).drop_first() =~= fields.subrange(3, 7));
    assert(fields.subrange(3, 7).drop_first() =~= fields.subrange(4, 7));
    assert(fields.subrange(4, 7).drop_first() =~= fields.subrange(5, 7));
    assert(fields.subrange(5, 7).drop_first() =~= fields.subrange(6, 7));
    assert(fields.subrange(6, 7).drop_first() =~= Seq::<Entry>::empty());
}

/// An unreachable dependency, or one that answers a status other than `200`
/// and `422`, ends the evaluation with `503` and the body
/// `{"error": "dependency unavailable", "dependency": <its name>}`.
pub proof fn lemma_unavailable_is_503(dependency: Dependency, answer: Answer)
    requires
        answer matches Answer::Replied { status, .. } ==> status != 200 && status != 422,
    ensures
        settled(dependency, answer) == Err::<(), ReplyView>(ReplyView {
            status: 503,
            body: BodyView::Fields(seq![
                entry("error", Cell::Text("dependency unavailable")),
                entry("dependency", Cell::Text(dependency.service_name())),
            ]),
        }),
{
}

/// A `200` without a numeric `result` ends the evaluation with `500` and the
/// body `{"error": "dependency returned a malformed result", "dependency": <its name>}`.
pub proof fn lemma_non_numeric_is_500(dependency: Dependency, body: serde_json::Value)
    requires
        !has_numeric_result(body),
    ensures
        settled(dependency, Answer::Replied { status: 200, body }) == Err::<(), ReplyView>(ReplyView {
            status: 500,
            body: BodyView::Fields(seq![
                entry("error", Cell::Text("dependency returned a malformed result")),
                entry("dependency", Cell::Text(dependency.service_name())),
            ]),
        }),
{
}

} // verus!
