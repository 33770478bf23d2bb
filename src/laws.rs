use vstd::prelude::*;

use crate::exports::exports_of;
use crate::session::{
    initial_state, transition, Phase, RenderEventView, RenderFailure, RenderState,
};

verus! {

/// How evaluating a bundle source ends.
pub enum Evaluation {
    /// The script ran to an object with these own properties (name, callable).
    Object(Seq<(Seq<char>, bool)>),
    InvalidScript,
    MissingEntryPoint,
    NotAnObject,
}

/// A deterministic bundle as the engine sees it: how its source evaluates,
/// and what the own property at a position gives when called with the render
/// parameters (`None` when it throws or its value has no string form).
pub struct Bundle {
    pub evaluation: Evaluation,
    pub call: spec_fn(nat, Option<Seq<char>>) -> Option<Seq<char>>,
}

/// What an engine running `b` reports for the action that `s` asks for.
pub open spec fn response(b: Bundle, params: Option<Seq<char>>, s: RenderState) -> RenderEventView {
    match s.phase {
        Phase::Evaluating => match b.evaluation {
            Evaluation::Object(props) => RenderEventView::Evaluated(props),
            Evaluation::InvalidScript => RenderEventView::CompileFailed,
            Evaluation::MissingEntryPoint => RenderEventView::RunFailed,
            Evaluation::NotAnObject => RenderEventView::NotAnObject,
        },
        _ => match (b.call)(s.exports[s.next as int].1, params) {
            Some(out) => RenderEventView::Returned(out),
            None => RenderEventView::Threw,
        },
    }
}

/// The state reached after an engine running `b` has answered `steps` actions.
pub open spec fn drive(b: Bundle, params: Option<Seq<char>>, s: RenderState, steps: nat) -> RenderState
    decreases steps,
{
    if steps == 0 {
        s
    } else {
        drive(b, params, transition(s, response(b, params, s)), (steps - 1) as nat)
    }
}

/// The result of a render, once it has one.
pub open spec fn outcome(s: RenderState) -> Option<Result<Seq<char>, RenderFailure>> {
    match s.phase {
        Phase::Finished => Some(Ok(s.rendered)),
        Phase::Failed(f) => Some(Err(f)),
        _ => None,
    }
}

/// Calls the exports in order and joins their outputs; the first that fails
/// ends the render.
pub open spec fn invoke_all(
    exports: Seq<(Seq<char>, nat)>,
    call: spec_fn(nat, Option<Seq<char>>) -> Option<Seq<char>>,
    params: Option<Seq<char>>,
) -> Result<Seq<char>, RenderFailure>
    decreases exports.len(),
{
    if exports.len() == 0 {
        Ok(seq![])
    } else {
        match invoke_all(exports.drop_last(), call, params) {
            Err(f) => Err(f),
            Ok(r) => match call(exports.last().1, params) {
                Some(out) => Ok(r + out),
                None => Err(RenderFailure::ExportFailed(exports.last().1 as usize)),
            },
        }
    }
}

/// What rendering `b` with `params` gives.
pub open spec fn render_of(b: Bundle, params: Option<Seq<char>>) -> Result<Seq<char>, RenderFailure> {
    match b.evaluation {
        Evaluation::Object(props) => invoke_all(exports_of(props), b.call, params),
        Evaluation::InvalidScript => Err(RenderFailure::InvalidScript),
        Evaluation::MissingEntryPoint => Err(RenderFailure::MissingEntryPoint),
        Evaluation::NotAnObject => Err(RenderFailure::NotAnObject),
    }
}

/// How many actions a render of `b` takes at most: one evaluation, then one
/// call per export.
pub open spec fn render_steps(b: Bundle) -> nat {
    match b.evaluation {
        Evaluation::Object(props) => exports_of(props).len() + 1,
        _ => 1,
    }
}

/// The strings joined in order.
pub open spec fn joined(parts: Seq<Seq<char>>) -> Seq<char>
    decreases parts.len(),
{
    if parts.len() == 0 {
        seq![]
    } else {
        joined(parts.drop_last()) + parts.last()
    }
}

proof fn lemma_drive_split(b: Bundle, params: Option<Seq<char>>, s: RenderState, a: nat, c: nat)
    ensures
        drive(b, params, s, a + c) == drive(b, params, drive(b, params, s, a), c),
    decreases a,
{
    if a > 0 {
        let t = transition(s, response(b, params, s));
        lemma_drive_split(b, params, t, (a - 1) as nat, c);
        assert((a + c - 1) as nat == (a - 1) as nat + c);
    }
}

proof fn lemma_drive_settled(b: Bundle, params: Option<Seq<char>>, s: RenderState, steps: nat)
    requires
        outcome(s) is Some,
    ensures
        drive(b, params, s, steps) == s,
    decreases steps,
{
    if steps > 0 {
        lemma_drive_settled(b, params, s, (steps - 1) as nat);
    }
}

proof fn lemma_drive_object(b: Bundle, params: Option<Seq<char>>, k: nat)
    requires
        b.evaluation is Object,
        k <= exports_of(b.evaluation->Object_0).len(),
    ensures
        ({
            let ex = exports_of(b.evaluation->Object_0);
            let st = drive(b, params, initial_state(), k + 1);
            match invoke_all(ex.take(k as int), b.call, params) {
                Ok(r) => st == RenderState {
                    phase: if k < ex.len() { Phase::Invoking } else { Phase::Finished },
                    exports: ex,
                    next: k,
                    rendered: r,
                },
                Err(f) => st.phase == Phase::Failed(f),
            }
        }),
    decreases k,
{
    let ex = exports_of(b.evaluation->Object_0);
    if k == 0 {
        assert(ex.take(0) =~= seq![]);
        assert(drive(b, params, initial_state(), 1) == drive(
            b,
            params,
            transition(initial_state(), response(b, params, initial_state())),
            0,
        ));
    } else {
        let j = (k - 1) as nat;
        lemma_drive_object(b, params, j);
        lemma_drive_split(b, params, initial_state(), j + 1, 1);
        assert((j + 1 + 1) as nat == k + 1);
        let prev = drive(b, params, initial_state(), j + 1);
        assert(drive(b, params, prev, 1) == drive(
            b,
            params,
            transition(prev, response(b, params, prev)),
            0,
        ));
        assert(ex.take(k as int).drop_last() =~= ex.take(j as int));
        assert(ex.take(k as int).last() == ex[j as int]);
    }
}

/// A render driven by an engine that runs a deterministic bundle ends, within
/// one evaluation and one call per export, with the outputs of the callable
/// exports joined in export order, or with the first failure.
pub proof fn lemma_render_outcome(b: Bundle, params: Option<Seq<char>>, steps: nat)
    requires
        steps >= render_steps(b),
    ensures
        outcome(drive(b, params, initial_state(), steps)) == Some(render_of(b, params)),
{
    let n = (render_steps(b) - 1) as nat;
    lemma_drive_split(b, params, initial_state(), n + 1, (steps - (n + 1)) as nat);
    assert(n + 1 + (steps - (n + 1)) as nat == steps);
    let st = drive(b, params, initial_state(), n + 1);
    match b.evaluation {
        Evaluation::Object(props) => {
            lemma_drive_object(b, params, n);
            assert(exports_of(props).take(n as int) =~= exports_of(props));
        },
        _ => {
            assert(st == drive(
                b,
                params,
                transition(initial_state(), response(b, params, initial_state())),
                0,
            ));
        },
    }
    lemma_drive_settled(b, params, st, (steps - (n + 1)) as nat);
}

/// Two renders of one deterministic bundle with the same parameters, each
/// started fresh, end with the same result.
pub proof fn lemma_render_deterministic(
    b: Bundle,
    params: Option<Seq<char>>,
    first: RenderState,
    second: RenderState,
    first_steps: nat,
    second_steps: nat,
)
    requires
        first == initial_state(),
        second == initial_state(),
        first_steps >= render_steps(b),
        second_steps >= render_steps(b),
    ensures
        outcome(drive(b, params, first, first_steps)) is Some,
        outcome(drive(b, params, first, first_steps)) == outcome(
            drive(b, params, second, second_steps),
        ),
{
    lemma_render_outcome(b, params, first_steps);
    lemma_render_outcome(b, params, second_steps);
}

/// A bundle that evaluates to an object with no own properties renders the
/// empty string.
pub proof fn lemma_empty_object_renders_empty(b: Bundle, params: Option<Seq<char>>, steps: nat)
    requires
        b.evaluation == Evaluation::Object(seq![]),
        steps >= 1,
    ensures
        outcome(drive(b, params, initial_state(), steps)) == Some(
            Ok::<Seq<char>, RenderFailure>(seq![]),
        ),
{
    assert(exports_of(seq![]) =~= seq![]);
    lemma_render_outcome(b, params, steps);
}

proof fn lemma_all_callable_exports(props: Seq<(Seq<char>, bool)>)
    requires
        forall|i: int| 0 <= i < props.len() ==> #[trigger] props[i].1,
    ensures
        exports_of(props) =~= Seq::new(props.len(), |i: int| (props[i].0, i as nat)),
    decreases props.len(),
{
    if props.len() > 0 {
        let init = props.drop_last();
        lemma_all_callable_exports(init);
        assert(props.last().1);
    }
}

proof fn lemma_invoke_names(
    ex: Seq<(Seq<char>, nat)>,
    call: spec_fn(nat, Option<Seq<char>>) -> Option<Seq<char>>,
    params: Option<Seq<char>>,
)
    requires
        forall|i: int| 0 <= i < ex.len() ==> call(#[trigger] ex[i].1, params) == Some(ex[i].0),
    ensures
        invoke_all(ex, call, params) == Ok::<Seq<char>, RenderFailure>(
            joined(ex.map_values(|e: (Seq<char>, nat)| e.0)),
        ),
    decreases ex.len(),
{
    if ex.len() > 0 {
        let init = ex.drop_last();
        lemma_invoke_names(init, call, params);
        assert(ex.map_values(|e: (Seq<char>, nat)| e.0).drop_last() =~= init.map_values(
            |e: (Seq<char>, nat)| e.0,
        ));
        assert(call(ex[ex.len() - 1].1, params) == Some(ex[ex.len() - 1].0));
    }
}

/// When every own property is callable and each returns its own name, the
/// render is the names joined in enumeration order, whatever the parameters.
pub proof fn lemma_render_keeps_order(b: Bundle, params: Option<Seq<char>>, steps: nat)
    requires
        b.evaluation is Object,
        forall|i: int|
            0 <= i < b.evaluation->Object_0.len() ==> #[trigger] b.evaluation->Object_0[i].1,
        forall|i: nat|
            i < b.evaluation->Object_0.len() ==> (b.call)(i, params) == Some(
                #[trigger] b.evaluation->Object_0[i as int].0,
            ),
        steps >= render_steps(b),
    ensures
        outcome(drive(b, params, initial_state(), steps)) == Some(
            Ok::<Seq<char>, RenderFailure>(
                joined(b.evaluation->Object_0.map_values(|p: (Seq<char>, bool)| p.0)),
            ),
        ),
{
    let props = b.evaluation->Object_0;
    lemma_all_callable_exports(props);
    let ex = exports_of(props);
    assert forall|i: int| 0 <= i < ex.len() implies (b.call)(#[trigger] ex[i].1, params) == Some(
        ex[i].0,
    ) by {
        assert(ex[i] == (props[i].0, i as nat));
        assert(props[(i as nat) as int] == props[i]);
    }
    lemma_invoke_names(ex, b.call, params);
    assert(ex.map_values(|e: (Seq<char>, nat)| e.0) =~= props.map_values(
        |p: (Seq<char>, bool)| p.0,
    ));
    lemma_render_outcome(b, params, steps);
}

proof fn lemma_no_callable_exports(props: Seq<(Seq<char>, bool)>)
    requires
        forall|i: int| 0 <= i < props.len() ==> !#[trigger] props[i].1,
    ensures
        exports_of(props) =~= seq![],
    decreases props.len(),
{
    if props.len() > 0 {
        lemma_no_callable_exports(props.drop_last());
        assert(!props.last().1);
    }
}

proof fn lemma_single_callable_export(props: Seq<(Seq<char>, bool)>, k: int)
    requires
        0 <= k < props.len(),
        props[k].1,
        forall|i: int| 0 <= i < props.len() && i != k ==> !#[trigger] props[i].1,
    ensures
        exports_of(props) =~= seq![(props[k].0, k as nat)],
    decreases props.len(),
{
    let init = props.drop_last();
    if k == props.len() - 1 {
        assert forall|i: int| 0 <= i < init.len() implies !#[trigger] init[i].1 by {
            assert(props[i] == init[i]);
        }
        lemma_no_callable_exports(init);
    } else {
        assert forall|i: int| 0 <= i < init.len() && i != k implies !#[trigger] init[i].1 by {
            assert(props[i] == init[i]);
        }
        assert(init[k] == props[k]);
        lemma_single_callable_export(init, k);
        assert(!props.last().1);
    }
}

/// Non-callable own properties are skipped: an object whose only callable own
/// property is at position `k` renders exactly what that property returns.
pub proof fn lemma_render_skips_non_callable(
    b: Bundle,
    params: Option<Seq<char>>,
    k: nat,
    out: Seq<char>,
    steps: nat,
)
    requires
        b.evaluation is Object,
        k < b.evaluation->Object_0.len(),
        b.evaluation->Object_0[k as int].1,
        forall|i: int|
            0 <= i < b.evaluation->Object_0.len() && i != k ==> !#[trigger] b.evaluation->Object_0[i].1,
        (b.call)(k, params) == Some(out),
        steps >= render_steps(b),
    ensures
        outcome(drive(b, params, initial_state(), steps)) == Some(Ok::<Seq<char>, RenderFailure>(out)),
{
    let props = b.evaluation->Object_0;
    lemma_single_callable_export(props, k as int);
    let ex = exports_of(props);
    assert(ex.drop_last() =~= seq![]);
    assert(invoke_all(ex.drop_last(), b.call, params) == Ok::<Seq<char>, RenderFailure>(seq![]));
    assert(ex.last().1 == k);
    assert(seq![] + out =~= out);
    assert(invoke_all(ex, b.call, params) == Ok::<Seq<char>, RenderFailure>(out));
    lemma_render_outcome(b, params, steps);
}

/// A bundle whose single export returns its argument renders exactly the
/// parameters given.
pub proof fn lemma_render_passes_params(b: Bundle, name: Seq<char>, params: Seq<char>, steps: nat)
    requires
        b.evaluation == Evaluation::Object(seq![(name, true)]),
        forall|p: Seq<char>| #[trigger] (b.call)(0, Some(p)) == Some(p),
        steps >= render_steps(b),
    ensures
        outcome(drive(b, Some(params), initial_state(), steps)) == Some(
            Ok::<Seq<char>, RenderFailure>(params),
        ),
{
    assert((b.call)(0, Some(params)) == Some(params));
    lemma_render_skips_non_callable(b, Some(params), 0, params, steps);
}

/// A bundle source that does not compile ends the render with a failure,
/// never with output.
pub proof fn lemma_malformed_bundle_fails(b: Bundle, params: Option<Seq<char>>, steps: nat)
    requires
        b.evaluation == Evaluation::InvalidScript,
        steps >= 1,
    ensures
        outcome(drive(b, params, initial_state(), steps)) == Some(
            Err::<Seq<char>, RenderFailure>(RenderFailure::InvalidScript),
        ),
{
    lemma_render_outcome(b, params, steps);
}

} // verus!
