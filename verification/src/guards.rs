//! Whether steps are due: conditions over runtime values, and loops that end for good.

use crate::flow::{Expression, Guard, GuardKind};
use crate::json::Json;
use crate::outputs::{missing_output_text, resolve_runtime};
use crate::report::FailureCategory;
use crate::step_error::{plain_error, StepError};
use crate::text::same_text;
use crate::values::{resolved_text, Outputs, RuntimeValue};
use std::collections::{BTreeMap, BTreeSet};
use vstd::prelude::*;
use vstd::string::*;

verus! {

/// The text of a value, or what is told of the output it lacks.
pub open spec fn value_text(value: RuntimeValue, outputs: Seq<(Seq<char>, Json)>) -> Result<
    Seq<char>,
    Seq<char>,
> {
    match resolved_text(value.parts@, outputs) {
        Ok(text) => Ok(text),
        Err(name) => Err(missing_output_text(name)),
    }
}

/// Whether two values have the same text. The left one is put together first.
pub open spec fn same_values(
    left: RuntimeValue,
    right: RuntimeValue,
    outputs: Seq<(Seq<char>, Json)>,
) -> Result<bool, Seq<char>> {
    match (value_text(left, outputs), value_text(right, outputs)) {
        (Err(message), _) => Err(message),
        (Ok(_), Err(message)) => Err(message),
        (Ok(left), Ok(right)) => Ok(left == right),
    }
}

/// The value of an expression, or what is told of the first part that has none. Parts are looked
/// at in their order, and no further than needed.
pub open spec fn expression_value(
    expression: Expression,
    outputs: Seq<(Seq<char>, Json)>,
) -> Result<bool, Seq<char>>
    decreases expression,
{
    match expression {
        Expression::All(children) => all_value(children@, outputs),
        Expression::Any(children) => any_value(children@, outputs),
        Expression::Not(child) => match expression_value(*child, outputs) {
            Ok(value) => Ok(!value),
            Err(message) => Err(message),
        },
        Expression::Equals(left, right) => same_values(left, right, outputs),
        Expression::NotEquals(left, right) => match same_values(left, right, outputs) {
            Ok(same) => Ok(!same),
            Err(message) => Err(message),
        },
        Expression::Boolean(value) => match value_text(value, outputs) {
            Err(message) => Err(message),
            Ok(text) => if text == "true"@ {
                Ok(true)
            } else if text == "false"@ {
                Ok(false)
            } else {
                Err("expression.boolean must resolve to true or false"@)
            },
        },
    }
}

/// Whether all parts hold; the first that does not, or has no value, decides.
pub open spec fn all_value(children: Seq<Expression>, outputs: Seq<(Seq<char>, Json)>) -> Result<
    bool,
    Seq<char>,
>
    decreases children,
{
    if children.len() == 0 {
        Ok(true)
    } else {
        match expression_value(children[0], outputs) {
            Ok(true) => all_value(children.subrange(1, children.len() as int), outputs),
            other => other,
        }
    }
}

/// Whether some part holds; the first that does, or has no value, decides.
pub open spec fn any_value(children: Seq<Expression>, outputs: Seq<(Seq<char>, Json)>) -> Result<
    bool,
    Seq<char>,
>
    decreases children,
{
    if children.len() == 0 {
        Ok(false)
    } else {
        match expression_value(children[0], outputs) {
            Ok(false) => any_value(children.subrange(1, children.len() as int), outputs),
            other => other,
        }
    }
}

/// Whether an executable result is the one that is said.
pub open spec fn is_outcome(
    result: Result<bool, StepError>,
    said: Result<bool, Seq<char>>,
) -> bool {
    match result {
        Ok(value) => said == Ok::<bool, Seq<char>>(value),
        Err(error) => said is Err && plain_error(error, FailureCategory::Protocol, said->Err_0),
    }
}

proof fn child_is_smaller(expression: Expression, children: Vec<Expression>, i: int)
    requires
        expression == Expression::All(children) || expression == Expression::Any(children),
        0 <= i < children@.len(),
    ensures
        decreases_to!(expression => children@[i]),
{
    match expression {
        Expression::All(held) => {
            assert(decreases_to!(expression => expression->All_0));
            assert(decreases_to!(expression->All_0@ => expression->All_0@[i]));
        },
        Expression::Any(held) => {
            assert(decreases_to!(expression => expression->Any_0));
            assert(decreases_to!(expression->Any_0@ => expression->Any_0@[i]));
        },
        _ => {},
    }
}

fn compare_values(left: &RuntimeValue, right: &RuntimeValue, outputs: &Outputs) -> (result: Result<
    bool,
    StepError,
>)
    ensures
        is_outcome(result, same_values(*left, *right, outputs@)),
{
    let left = match resolve_runtime(left, outputs) {
        Ok(text) => text,
        Err(error) => {
            return Err(error);
        },
    };
    let right = match resolve_runtime(right, outputs) {
        Ok(text) => text,
        Err(error) => {
            return Err(error);
        },
    };
    Ok(same_text(left.value.as_str(), right.value.as_str()))
}

/// Evaluates an expression.
pub fn evaluate_expression(expression: &Expression, outputs: &Outputs) -> (result: Result<
    bool,
    StepError,
>)
    ensures
        is_outcome(result, expression_value(*expression, outputs@)),
    decreases expression,
{
    match expression {
        Expression::All(children) => {
            let mut i: usize = 0;
            assert(children@.subrange(0, children@.len() as int) == children@);
            while i < children.len()
                invariant
                    i <= children.len(),
                    *expression == Expression::All(*children),
                    all_value(children@, outputs@) == all_value(
                        children@.subrange(i as int, children@.len() as int),
                        outputs@,
                    ),
                decreases children.len() - i,
            {
                let ghost rest = children@.subrange(i as int, children@.len() as int);
                proof {
                    child_is_smaller(*expression, *children, i as int);
                    assert(rest[0] == children@[i as int]);
                    assert(rest.subrange(1, rest.len() as int) == children@.subrange(
                        i + 1,
                        children@.len() as int,
                    ));
                }
                match evaluate_expression(&children[i], outputs) {
                    Ok(holds) => {
                        if !holds {
                            return Ok(false);
                        }
                    },
                    Err(error) => {
                        return Err(error);
                    },
                }
                i += 1;
            }
            Ok(true)
        },
        Expression::Any(children) => {
            let mut i: usize = 0;
            assert(children@.subrange(0, children@.len() as int) == children@);
            while i < children.len()
                invariant
                    i <= children.len(),
                    *expression == Expression::Any(*children),
                    any_value(children@, outputs@) == any_value(
                        children@.subrange(i as int, children@.len() as int),
                        outputs@,
                    ),
                decreases children.len() - i,
            {
                let ghost rest = children@.subrange(i as int, children@.len() as int);
                proof {
                    child_is_smaller(*expression, *children, i as int);
                    assert(rest[0] == children@[i as int]);
                    assert(rest.subrange(1, rest.len() as int) == children@.subrange(
                        i + 1,
                        children@.len() as int,
                    ));
                }
                match evaluate_expression(&children[i], outputs) {
                    Ok(holds) => {
                        if holds {
                            return Ok(true);
                        }
                    },
                    Err(error) => {
                        return Err(error);
                    },
                }
                i += 1;
            }
            Ok(false)
        },
        Expression::Not(child) => match evaluate_expression(child, outputs) {
            Ok(value) => Ok(!value),
            Err(error) => Err(error),
        },
        Expression::Equals(left, right) => compare_values(left, right, outputs),
        Expression::NotEquals(left, right) => match compare_values(left, right, outputs) {
            Ok(same) => Ok(!same),
            Err(error) => Err(error),
        },
        Expression::Boolean(value) => {
            let text = match resolve_runtime(value, outputs) {
                Ok(text) => text,
                Err(error) => {
                    return Err(error);
                },
            };
            if same_text(text.value.as_str(), "true") {
                Ok(true)
            } else if same_text(text.value.as_str(), "false") {
                Ok(false)
            } else {
                Err(
                    StepError::new(
                        FailureCategory::Protocol,
                        "expression.boolean must resolve to true or false",
                    ),
                )
            }
        },
    }
}

/// The expression of a guard.
pub open spec fn condition_of(kind: GuardKind) -> Expression {
    match kind {
        GuardKind::When(expression) => expression,
        GuardKind::While { expression, .. } => expression,
    }
}

/// The expression of a guard.
pub fn guard_expression(kind: &GuardKind) -> (expression: &Expression)
    ensures
        *expression == condition_of(*kind),
{
    match kind {
        GuardKind::When(expression) => expression,
        GuardKind::While { expression, .. } => expression,
    }
}

/// The loop that a guard belongs to, if it belongs to one.
pub open spec fn loop_of(kind: GuardKind) -> Option<usize> {
    match kind {
        GuardKind::When(_) => None,
        GuardKind::While { loop_id, .. } => Some(loop_id),
    }
}

/// What is known of guards: which were decided how, and which loops have ended.
pub struct GuardMemory {
    pub results: Map<usize, bool>,
    pub stopped: Set<usize>,
}

/// Whether all guards hold, and what is known of guards afterwards. A guard is decided once; one
/// that fails ends its loop for good.
pub open spec fn guards_outcome(
    guards: Seq<Guard>,
    outputs: Seq<(Seq<char>, Json)>,
    memory: GuardMemory,
) -> (Result<bool, Seq<char>>, GuardMemory)
    decreases guards.len(),
{
    if guards.len() == 0 {
        (Ok(true), memory)
    } else {
        let guard = guards[0];
        let looped = loop_of(guard.kind);
        if looped is Some && memory.stopped.contains(looped->0) {
            (Ok(false), memory)
        } else {
            let decided = if memory.results.contains_key(guard.id) {
                Ok(memory.results[guard.id])
            } else {
                expression_value(condition_of(guard.kind), outputs)
            };
            match decided {
                Err(message) => (Err(message), memory),
                Ok(holds) => {
                    let results = if memory.results.contains_key(guard.id) {
                        memory.results
                    } else {
                        memory.results.insert(guard.id, holds)
                    };
                    if holds {
                        guards_outcome(guards.skip(1), outputs, GuardMemory { results, ..memory })
                    } else {
                        let stopped = match looped {
                            Some(id) => memory.stopped.insert(id),
                            None => memory.stopped,
                        };
                        (Ok(false), GuardMemory { results, stopped })
                    }
                },
            }
        }
    }
}

fn is_stopped(stopped: &BTreeSet<usize>, id: usize) -> (contains: bool)
    ensures
        contains == stopped@.contains(id),
{
    broadcast use vstd::laws_cmp::group_laws_cmp;

    stopped.contains(&id)
}

fn stop(stopped: &mut BTreeSet<usize>, id: usize)
    ensures
        final(stopped)@ == old(stopped)@.insert(id),
{
    broadcast use vstd::laws_cmp::group_laws_cmp;

    stopped.insert(id);
}

fn decided(results: &BTreeMap<usize, bool>, id: usize) -> (holds: Option<bool>)
    ensures
        holds == if results@.contains_key(id) {
            Some(results@[id])
        } else {
            None
        },
{
    broadcast use vstd::laws_cmp::group_laws_cmp;

    match results.get(&id) {
        Some(holds) => Some(*holds),
        None => None,
    }
}

fn decide(results: &mut BTreeMap<usize, bool>, id: usize, holds: bool)
    ensures
        final(results)@ == old(results)@.insert(id, holds),
{
    broadcast use vstd::laws_cmp::group_laws_cmp;

    results.insert(id, holds);
}

/// Whether all guards hold. What was decided before is kept, and what is decided now is noted.
pub fn guards_match(
    guards: &Vec<Guard>,
    outputs: &Outputs,
    results: &mut BTreeMap<usize, bool>,
    stopped_loops: &mut BTreeSet<usize>,
) -> (result: Result<bool, StepError>)
    ensures
        ({
            let memory = GuardMemory { results: old(results)@, stopped: old(stopped_loops)@ };
            let (said, after) = guards_outcome(guards@, outputs@, memory);
            &&& is_outcome(result, said)
            &&& final(results)@ == after.results
            &&& final(stopped_loops)@ == after.stopped
        }),
{
    let ghost start = GuardMemory { results: results@, stopped: stopped_loops@ };
    let mut i: usize = 0;
    assert(guards@.skip(0) == guards@);
    while i < guards.len()
        invariant
            i <= guards.len(),
            start == (GuardMemory { results: old(results)@, stopped: old(stopped_loops)@ }),
            guards_outcome(guards@, outputs@, start) == guards_outcome(
                guards@.skip(i as int),
                outputs@,
                GuardMemory { results: results@, stopped: stopped_loops@ },
            ),
        decreases guards.len() - i,
    {
        let ghost rest = guards@.skip(i as int);
        let guard = &guards[i];
        proof {
            assert(rest[0] == *guard);
            assert(rest.skip(1) == guards@.skip(i + 1));
        }
        let looped: Option<usize> = match &guard.kind {
            GuardKind::While { loop_id, .. } => Some(*loop_id),
            GuardKind::When(_) => None,
        };
        if let Some(id) = looped {
            if is_stopped(stopped_loops, id) {
                return Ok(false);
            }
        }
        let holds = match decided(results, guard.id) {
            Some(holds) => holds,
            None => match evaluate_expression(guard_expression(&guard.kind), outputs) {
                Ok(holds) => {
                    decide(results, guard.id, holds);
                    holds
                },
                Err(error) => {
                    return Err(error);
                },
            },
        };
        if !holds {
            if let Some(id) = looped {
                stop(stopped_loops, id);
            }
            return Ok(false);
        }
        i += 1;
    }
    Ok(true)
}

/// A loop that has ended stays ended: whatever the outputs become, its steps are not due.
pub proof fn stopped_loops_stay_stopped(
    guards: Seq<Guard>,
    outputs: Seq<(Seq<char>, Json)>,
    memory: GuardMemory,
    at: int,
)
    requires
        0 <= at < guards.len(),
        loop_of(guards[at].kind) matches Some(id) && memory.stopped.contains(id),
    ensures
        guards_outcome(guards, outputs, memory).0 != Ok::<bool, Seq<char>>(true),
        memory.stopped.subset_of(guards_outcome(guards, outputs, memory).1.stopped),
    decreases guards.len(),
{
    let guard = guards[0];
    if at > 0 {
        assert(guards.skip(1)[at - 1] == guards[at]);
        let holds = if memory.results.contains_key(guard.id) {
            memory.results[guard.id]
        } else {
            expression_value(condition_of(guard.kind), outputs)->Ok_0
        };
        let results = if memory.results.contains_key(guard.id) {
            memory.results
        } else {
            memory.results.insert(guard.id, holds)
        };
        stopped_loops_stay_stopped(
            guards.skip(1),
            outputs,
            GuardMemory { results, ..memory },
            at - 1,
        );
    }
}

/// What was decided of a guard is not decided again.
pub proof fn guards_are_decided_once(
    guards: Seq<Guard>,
    outputs: Seq<(Seq<char>, Json)>,
    memory: GuardMemory,
)
    ensures
        memory.results.submap_of(guards_outcome(guards, outputs, memory).1.results),
        memory.stopped.subset_of(guards_outcome(guards, outputs, memory).1.stopped),
    decreases guards.len(),
{
    if guards.len() > 0 {
        let guard = guards[0];
        let holds = if memory.results.contains_key(guard.id) {
            memory.results[guard.id]
        } else {
            expression_value(condition_of(guard.kind), outputs)->Ok_0
        };
        let results = if memory.results.contains_key(guard.id) {
            memory.results
        } else {
            memory.results.insert(guard.id, holds)
        };
        guards_are_decided_once(guards.skip(1), outputs, GuardMemory { results, ..memory });
        assert(memory.results.submap_of(results));
        let after = guards_outcome(guards.skip(1), outputs, GuardMemory { results, ..memory }).1;
        assert forall|id: usize| #[trigger]
            memory.results.contains_key(id) implies after.results.contains_key(id)
            && after.results[id] == memory.results[id] by {
            assert(results.contains_key(id));
        }
    }
}

/// An equality holds exactly if both values have the same text, and an inequality exactly if they have not. A
/// value that is lacking is told, the left one first.
pub proof fn equalities_compare_texts(
    left: RuntimeValue,
    right: RuntimeValue,
    outputs: Outputs,
    equal: Result<bool, StepError>,
    unequal: Result<bool, StepError>,
)
    requires
        call_ensures(evaluate_expression, (&Expression::Equals(left, right), &outputs), equal),
        call_ensures(evaluate_expression, (&Expression::NotEquals(left, right), &outputs), unequal),
    ensures
        match (value_text(left, outputs@), value_text(right, outputs@)) {
            (Ok(one), Ok(other)) => {
                &&& equal == Ok::<bool, StepError>(one == other)
                &&& unequal == Ok::<bool, StepError>(one != other)
            },
            (Err(message), _) => equal is Err && unequal is Err && equal->Err_0.message@ == message
                && unequal->Err_0.message@ == message,
            (_, Err(message)) => equal is Err && unequal is Err && equal->Err_0.message@ == message
                && unequal->Err_0.message@ == message,
        },
        left == right && value_text(left, outputs@) is Ok ==> equal == Ok::<bool, StepError>(true),
{
}

/// A boolean is the word that its value is, and no other word is one.
pub proof fn booleans_are_words(
    value: RuntimeValue,
    outputs: Outputs,
    result: Result<bool, StepError>,
)
    requires
        call_ensures(evaluate_expression, (&Expression::Boolean(value), &outputs), result),
    ensures
        value_text(value, outputs@) == Ok::<Seq<char>, Seq<char>>("true"@) ==> result == Ok::<
            bool,
            StepError,
        >(true),
        value_text(value, outputs@) == Ok::<Seq<char>, Seq<char>>("false"@) ==> result == Ok::<
            bool,
            StepError,
        >(false),
        result is Ok ==> value_text(value, outputs@) == Ok::<Seq<char>, Seq<char>>("true"@)
            || value_text(value, outputs@) == Ok::<Seq<char>, Seq<char>>("false"@),
{
    reveal_strlit("true");
    reveal_strlit("false");
    assert("true"@.len() == 4 && "false"@.len() == 5);
}

/// A negation is the opposite, and fails as what it negates.
pub proof fn negations_are_opposite(
    child: Box<Expression>,
    outputs: Outputs,
    inner: Result<bool, StepError>,
    outer: Result<bool, StepError>,
)
    requires
        call_ensures(evaluate_expression, (&*child, &outputs), inner),
        call_ensures(evaluate_expression, (&Expression::Not(child), &outputs), outer),
    ensures
        match inner {
            Ok(value) => outer == Ok::<bool, StepError>(!value),
            Err(error) => outer is Err && outer->Err_0.message@ == error.message@,
        },
{
}

/// All parts hold exactly if each of them does, and some part holds exactly if one of them does, where every
/// part has a value.
pub proof fn parts_make_up_the_whole(children: Vec<Expression>, outputs: Seq<(Seq<char>, Json)>)
    requires
        forall|i: int|
            0 <= i < children@.len() ==> expression_value(#[trigger] children@[i], outputs) is Ok,
    ensures
        ({
            let holds = |i: int| expression_value(children@[i], outputs)->Ok_0;
            &&& expression_value(Expression::All(children), outputs) == Ok::<bool, Seq<char>>(
                forall|i: int| 0 <= i < children@.len() ==> #[trigger] holds(i),
            )
            &&& expression_value(Expression::Any(children), outputs) == Ok::<bool, Seq<char>>(
                exists|i: int| 0 <= i < children@.len() && #[trigger] holds(i),
            )
        }),
{
    parts_decide(children@, outputs);
    let holds = |i: int| expression_value(children@[i], outputs)->Ok_0;
    let all = all_value(children@, outputs)->Ok_0;
    let any = any_value(children@, outputs)->Ok_0;
    if all {
        assert forall|i: int| 0 <= i < children@.len() implies #[trigger] holds(i) by {
            assert(expression_value(children@[i], outputs)->Ok_0);
        }
    } else {
        let i = choose|i: int|
            0 <= i < children@.len() && !(#[trigger] expression_value(children@[i], outputs))->Ok_0;
        assert(!holds(i));
    }
    if any {
        let i = choose|i: int|
            0 <= i < children@.len() && (#[trigger] expression_value(children@[i], outputs))->Ok_0;
        assert(holds(i));
    } else {
        assert forall|i: int| 0 <= i < children@.len() implies !#[trigger] holds(i) by {
            assert(!expression_value(children@[i], outputs)->Ok_0);
        }
    }
}

proof fn parts_decide(children: Seq<Expression>, outputs: Seq<(Seq<char>, Json)>)
    requires
        forall|i: int|
            0 <= i < children.len() ==> expression_value(#[trigger] children[i], outputs) is Ok,
    ensures
        all_value(children, outputs) is Ok,
        any_value(children, outputs) is Ok,
        all_value(children, outputs)->Ok_0 <==> forall|i: int|
            0 <= i < children.len() ==> (#[trigger] expression_value(children[i], outputs))->Ok_0,
        any_value(children, outputs)->Ok_0 <==> exists|i: int|
            0 <= i < children.len() && (#[trigger] expression_value(children[i], outputs))->Ok_0,
    decreases children.len(),
{
    if children.len() > 0 {
        let rest = children.subrange(1, children.len() as int);
        assert forall|i: int| 0 <= i < rest.len() implies expression_value(
            #[trigger] rest[i],
            outputs,
        ) is Ok by {
            assert(rest[i] == children[i + 1]);
        }
        parts_decide(rest, outputs);
        assert(expression_value(children[0], outputs) is Ok);
        let all = forall|i: int|
            0 <= i < children.len() ==> (#[trigger] expression_value(children[i], outputs))->Ok_0;
        let all_rest = forall|i: int|
            0 <= i < rest.len() ==> (#[trigger] expression_value(rest[i], outputs))->Ok_0;
        if all {
            assert forall|i: int| 0 <= i < rest.len() implies (#[trigger] expression_value(
                rest[i],
                outputs,
            ))->Ok_0 by {
                assert(rest[i] == children[i + 1]);
            }
        }
        if all_rest && expression_value(children[0], outputs)->Ok_0 {
            assert forall|i: int| 0 <= i < children.len() implies (#[trigger] expression_value(
                children[i],
                outputs,
            ))->Ok_0 by {
                if i > 0 {
                    assert(children[i] == rest[i - 1]);
                }
            }
        }
        if exists|i: int|
            0 <= i < children.len() && (#[trigger] expression_value(children[i], outputs))->Ok_0 {
            let i = choose|i: int|
                0 <= i < children.len() && (#[trigger] expression_value(children[i], outputs))->Ok_0;
            if i > 0 {
                assert(rest[i - 1] == children[i]);
            }
        }
        if exists|i: int|
            0 <= i < rest.len() && (#[trigger] expression_value(rest[i], outputs))->Ok_0 {
            let i = choose|i: int|
                0 <= i < rest.len() && (#[trigger] expression_value(rest[i], outputs))->Ok_0;
            assert(children[i + 1] == rest[i]);
        }
    }
}

/// Whether a guard holds on its own, by what is known of it or by its expression.
pub open spec fn guard_holds(
    guard: Guard,
    outputs: Seq<(Seq<char>, Json)>,
    memory: GuardMemory,
) -> Result<bool, Seq<char>> {
    if memory.results.contains_key(guard.id) {
        Ok(memory.results[guard.id])
    } else {
        match guard.kind {
            GuardKind::When(expression) => expression_value(expression, outputs),
            GuardKind::While { expression, .. } => expression_value(expression, outputs),
        }
    }
}

/// Whether the loop of a guard has ended.
pub open spec fn loop_ended(guard: Guard, memory: GuardMemory) -> bool {
    match guard.kind {
        GuardKind::While { loop_id, .. } => memory.stopped.contains(loop_id),
        GuardKind::When(_) => false,
    }
}

/// Guards with identifiers of their own let a step through exactly if each of them holds and none of their
/// loops has ended. The first that does not hold keeps the step back and, where it belongs to a loop, ends
/// that loop and no other.
pub proof fn each_guard_has_its_say(
    guards: Seq<Guard>,
    outputs: Seq<(Seq<char>, Json)>,
    memory: GuardMemory,
    first: int,
)
    requires
        0 <= first <= guards.len(),
        forall|i: int, j: int|
            0 <= i < j < guards.len() ==> (#[trigger] guards[i]).id != (#[trigger] guards[j]).id,
        forall|i: int|
            0 <= i < first ==> guard_holds(#[trigger] guards[i], outputs, memory) == Ok::<
                bool,
                Seq<char>,
            >(true) && !loop_ended(guards[i], memory),
    ensures
        first == guards.len() ==> {
            &&& guards_outcome(guards, outputs, memory).0 == Ok::<bool, Seq<char>>(true)
            &&& guards_outcome(guards, outputs, memory).1.stopped == memory.stopped
        },
        first < guards.len() && loop_ended(guards[first], memory) ==> {
            &&& guards_outcome(guards, outputs, memory).0 == Ok::<bool, Seq<char>>(false)
            &&& guards_outcome(guards, outputs, memory).1.stopped == memory.stopped
        },
        first < guards.len() && !loop_ended(guards[first], memory) ==> {
            let (said, after) = guards_outcome(guards, outputs, memory);
            match guard_holds(guards[first], outputs, memory) {
                Ok(false) => {
                    &&& said == Ok::<bool, Seq<char>>(false)
                    &&& after.results.contains_key(guards[first].id)
                    &&& !after.results[guards[first].id]
                    &&& after.stopped == match guards[first].kind {
                        GuardKind::While { loop_id, .. } => memory.stopped.insert(loop_id),
                        GuardKind::When(_) => memory.stopped,
                    }
                },
                Err(message) => said == Err::<bool, Seq<char>>(message) && after.stopped
                    == memory.stopped,
                Ok(true) => true,
            }
        },
    decreases guards.len(),
{
    if guards.len() > 0 && first > 0 {
        let guard = guards[0];
        assert(guard_holds(guard, outputs, memory) == Ok::<bool, Seq<char>>(true));
        let results = if memory.results.contains_key(guard.id) {
            memory.results
        } else {
            memory.results.insert(guard.id, true)
        };
        let next = GuardMemory { results, ..memory };
        let rest = guards.skip(1);
        assert forall|i: int| 0 <= i < rest.len() implies guard_holds(
            #[trigger] rest[i],
            outputs,
            next,
        ) == guard_holds(guards[i + 1], outputs, memory) && loop_ended(rest[i], next) == loop_ended(
            guards[i + 1],
            memory,
        ) by {
            assert(rest[i] == guards[i + 1]);
            assert(guards[0].id != guards[i + 1].id);
        }
        assert forall|i: int| 0 <= i < first - 1 implies guard_holds(
            #[trigger] rest[i],
            outputs,
            next,
        ) == Ok::<bool, Seq<char>>(true) && !loop_ended(rest[i], next) by {
            assert(guard_holds(guards[i + 1], outputs, memory) == Ok::<bool, Seq<char>>(true));
        }
        each_guard_has_its_say(rest, outputs, next, first - 1);
        if first < guards.len() {
            assert(rest[first - 1] == guards[first]);
            assert(guard_holds(rest[first - 1], outputs, next) == guard_holds(
                guards[first],
                outputs,
                memory,
            ));
        }
    }
}

/// The verdict on guards is what they say, and what they said and which loops ended is remembered.
pub proof fn verdicts_are_remembered(
    guards: Vec<Guard>,
    outputs: Outputs,
    results: &mut BTreeMap<usize, bool>,
    stopped: &mut BTreeSet<usize>,
    result: Result<bool, StepError>,
)
    requires
        call_ensures(guards_match, (&guards, &outputs, results, stopped), result),
    ensures
        guards@.len() == 0 ==> result == Ok::<bool, StepError>(true) && final(results)@
            == old(results)@ && final(stopped)@ == old(stopped)@,
        guards@.len() == 1 ==> {
            let guard = guards@[0];
            let memory = GuardMemory { results: old(results)@, stopped: old(stopped)@ };
            &&& loop_ended(guard, memory) ==> result == Ok::<bool, StepError>(false)
                && final(stopped)@ == old(stopped)@
            &&& !loop_ended(guard, memory) ==> (guard_holds(guard, outputs@, memory) matches Ok(said)
                ==> result == Ok::<bool, StepError>(said) && final(results)@.contains_key(guard.id)
                && final(results)@[guard.id] == said)
            &&& !loop_ended(guard, memory) ==> (guard_holds(guard, outputs@, memory) is Err ==> result
                is Err)
        },
{
    reveal_with_fuel(guards_outcome, 2);
    if guards@.len() == 1 {
        assert(guards@.skip(1) =~= Seq::<Guard>::empty());
    }
}

/// The condition of a guard is the one that it holds, in a loop or not.
pub proof fn guards_hold_their_condition(kind: GuardKind, expression: &Expression)
    requires
        call_ensures(guard_expression, (&kind,), expression),
    ensures
        kind matches GuardKind::When(held) ==> *expression == held,
        kind matches GuardKind::While { expression: held, .. } ==> *expression == held,
{
}

} // verus!
