use vstd::prelude::*;

use crate::exports::{create_fn_map, export_views, exports_of, property_views, Export, OwnProperty};

verus! {

/// Why a render was abandoned.
#[derive(Clone, Copy, Debug, PartialEq, Eq, Structural)]
pub enum RenderFailure {
    /// The bundle source does not compile as a script.
    InvalidScript,
    /// Running the compiled script produced no value.
    MissingEntryPoint,
    /// The script's value cannot be converted to an object.
    NotAnObject,
    /// The export at this own-property position threw, or its result could
    /// not be turned into a string.
    ExportFailed(usize),
    /// The driver reported an event that does not answer the last action.
    OutOfOrder,
}

/// Where a render stands.
#[derive(Clone, Copy, Debug, PartialEq, Eq, Structural)]
pub enum Phase {
    /// The bundle has yet to be compiled and run.
    Evaluating,
    /// Exports remain to be invoked.
    Invoking,
    /// Every export returned; the output is complete.
    Finished,
    /// The render was abandoned.
    Failed(RenderFailure),
}

/// What the engine reports back after carrying out an action.
#[derive(Clone, Debug, PartialEq, Eq)]
pub enum RenderEvent {
    /// The bundle ran and its value, as an object, has these own properties.
    Evaluated(Vec<OwnProperty>),
    /// The bundle source does not compile.
    CompileFailed,
    /// Running the script produced no value.
    RunFailed,
    /// The script's value is not object-shaped.
    NotAnObject,
    /// The invoked export returned a value whose string form is this.
    Returned(String),
    /// The invoked export threw, or its value has no string form.
    Threw,
}

pub enum RenderEventView {
    Evaluated(Seq<(Seq<char>, bool)>),
    CompileFailed,
    RunFailed,
    NotAnObject,
    Returned(Seq<char>),
    Threw,
}

impl View for RenderEvent {
    type V = RenderEventView;

    open spec fn view(&self) -> RenderEventView {
        match self {
            RenderEvent::Evaluated(props) => RenderEventView::Evaluated(property_views(props@)),
            RenderEvent::CompileFailed => RenderEventView::CompileFailed,
            RenderEvent::RunFailed => RenderEventView::RunFailed,
            RenderEvent::NotAnObject => RenderEventView::NotAnObject,
            RenderEvent::Returned(s) => RenderEventView::Returned(s@),
            RenderEvent::Threw => RenderEventView::Threw,
        }
    }
}

/// What the engine is to do next.
#[derive(Clone, Debug, PartialEq, Eq)]
pub enum RenderAction {
    /// Compile and run the session's source in a fresh isolate and report the
    /// own properties of its value.
    Evaluate,
    /// Call the own property at this position as a free function, with the
    /// session's parameters as its single argument (undefined when absent).
    Invoke(usize),
    /// The render is complete; this is its output.
    Finish(String),
    /// The render is abandoned.
    Abort(RenderFailure),
}

/// The abstract state of a render.
pub struct RenderState {
    pub phase: Phase,
    pub exports: Seq<(Seq<char>, nat)>,
    pub next: nat,
    pub rendered: Seq<char>,
}

pub open spec fn initial_state() -> RenderState {
    RenderState { phase: Phase::Evaluating, exports: seq![], next: 0, rendered: seq![] }
}

pub open spec fn failed(s: RenderState, f: RenderFailure) -> RenderState {
    RenderState { phase: Phase::Failed(f), ..s }
}

/// Invoking while exports remain, finished once none do.
pub open spec fn settled(exports: Seq<(Seq<char>, nat)>, next: nat, rendered: Seq<char>) -> RenderState {
    RenderState {
        phase: if next < exports.len() { Phase::Invoking } else { Phase::Finished },
        exports,
        next,
        rendered,
    }
}

/// How a render state answers an event. Finished and failed renders ignore
/// every event.
pub open spec fn transition(s: RenderState, e: RenderEventView) -> RenderState {
    match s.phase {
        Phase::Evaluating => match e {
            RenderEventView::Evaluated(props) => settled(exports_of(props), 0, seq![]),
            RenderEventView::CompileFailed => failed(s, RenderFailure::InvalidScript),
            RenderEventView::RunFailed => failed(s, RenderFailure::MissingEntryPoint),
            RenderEventView::NotAnObject => failed(s, RenderFailure::NotAnObject),
            _ => failed(s, RenderFailure::OutOfOrder),
        },
        Phase::Invoking => match e {
            RenderEventView::Returned(out) => settled(s.exports, s.next + 1, s.rendered + out),
            RenderEventView::Threw => failed(
                s,
                RenderFailure::ExportFailed(s.exports[s.next as int].1 as usize),
            ),
            _ => failed(s, RenderFailure::OutOfOrder),
        },
        _ => s,
    }
}

/// The action that a render state asks for.
pub open spec fn action_of(s: RenderState, a: RenderAction) -> bool {
    match s.phase {
        Phase::Evaluating => a == RenderAction::Evaluate,
        Phase::Invoking => a == RenderAction::Invoke(s.exports[s.next as int].1 as usize),
        Phase::Finished => a matches RenderAction::Finish(out) && out@ == s.rendered,
        Phase::Failed(f) => a == RenderAction::Abort(f),
    }
}

pub open spec fn param_view(params: Option<&str>) -> Option<Seq<char>> {
    match params {
        Some(p) => Some(p@),
        None => None,
    }
}

/// One render of a bundle source with one set of parameters. The engine that
/// drives it asks `action`, carries the action out, and hands what happened
/// to `step`, until the action is `Finish` or `Abort`.
pub struct RenderSession<'a> {
    source: &'a str,
    params: Option<&'a str>,
    phase: Phase,
    exports: Vec<Export>,
    next: usize,
    rendered: String,
}

impl<'a> View for RenderSession<'a> {
    type V = RenderState;

    closed spec fn view(&self) -> RenderState {
        RenderState {
            phase: self.phase,
            exports: export_views(self.exports@),
            next: self.next as nat,
            rendered: self.rendered@,
        }
    }
}

impl<'a> RenderSession<'a> {
    #[verifier::type_invariant]
    closed spec fn well_formed(&self) -> bool {
        &&& self.next <= self.exports.len()
        &&& self.phase == Phase::Invoking ==> self.next < self.exports.len()
    }

    pub closed spec fn source_view(&self) -> Seq<char> {
        self.source@
    }

    pub closed spec fn params_view(&self) -> Option<Seq<char>> {
        param_view(self.params)
    }

    /// A render of `source` with `params` that has not started.
    pub fn new(source: &'a str, params: Option<&'a str>) -> (r: Self)
        ensures
            r@ == initial_state(),
            r.source_view() == source@,
            r.params_view() == param_view(params),
    {
        let r = RenderSession {
            source,
            params,
            phase: Phase::Evaluating,
            exports: Vec::new(),
            next: 0,
            rendered: String::new(),
        };
        proof {
            assert(export_views(r.exports@) =~= seq![]);
        }
        r
    }

    /// The bundle source that this render runs.
    pub fn source(&self) -> (r: &'a str)
        ensures
            r@ == self.source_view(),
    {
        self.source
    }

    /// The parameters handed to every export.
    pub fn params(&self) -> (r: Option<&'a str>)
        ensures
            param_view(r) == self.params_view(),
    {
        self.params
    }

    /// The export map, once the bundle has been evaluated.
    pub fn exports(&self) -> (r: &Vec<Export>)
        ensures
            export_views(r@) == self@.exports,
    {
        &self.exports
    }

    /// What the engine is to do next.
    pub fn action(&self) -> (r: RenderAction)
        ensures
            action_of(self@, r),
    {
        proof { use_type_invariant(self); }
        match self.phase {
            Phase::Evaluating => RenderAction::Evaluate,
            Phase::Invoking => RenderAction::Invoke(self.exports[self.next].slot),
            Phase::Finished => RenderAction::Finish(self.rendered.clone()),
            Phase::Failed(f) => RenderAction::Abort(f),
        }
    }

    /// Answers the last action with what the engine reports.
    pub fn step(self, event: RenderEvent) -> (r: Self)
        ensures
            r@ == transition(self@, event@),
            r.source_view() == self.source_view(),
            r.params_view() == self.params_view(),
    {
        proof { use_type_invariant(&self); }
        let RenderSession { source, params, phase, exports, next, rendered } = self;
        let ghost old_exports = exports@;
        match phase {
            Phase::Evaluating => {
                let failure = match event {
                    RenderEvent::Evaluated(props) => {
                        let exports = create_fn_map(&props);
                        let phase = if exports.len() > 0 {
                            Phase::Invoking
                        } else {
                            Phase::Finished
                        };
                        return RenderSession {
                            source,
                            params,
                            phase,
                            exports,
                            next: 0,
                            rendered: String::new(),
                        };
                    },
                    RenderEvent::CompileFailed => RenderFailure::InvalidScript,
                    RenderEvent::RunFailed => RenderFailure::MissingEntryPoint,
                    RenderEvent::NotAnObject => RenderFailure::NotAnObject,
                    _ => RenderFailure::OutOfOrder,
                };
                RenderSession { source, params, phase: Phase::Failed(failure), exports, next, rendered }
            },
            Phase::Invoking => {
                match event {
                    RenderEvent::Returned(out) => {
                        let mut rendered = rendered;
                        rendered.append(out.as_str());
                        let next = next + 1;
                        let phase = if next < exports.len() {
                            Phase::Invoking
                        } else {
                            Phase::Finished
                        };
                        RenderSession { source, params, phase, exports, next, rendered }
                    },
                    RenderEvent::Threw => {
                        let failure = RenderFailure::ExportFailed(exports[next].slot);
                        RenderSession { source, params, phase: Phase::Failed(failure), exports, next, rendered }
                    },
                    _ => {
                        RenderSession {
                            source,
                            params,
                            phase: Phase::Failed(RenderFailure::OutOfOrder),
                            exports,
                            next,
                            rendered,
                        }
                    },
                }
            },
            _ => RenderSession { source, params, phase, exports, next, rendered },
        }
    }
}

} // verus!
