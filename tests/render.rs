use ssr_engine::bundle::{assemble_bundle, first_with_suffix, link_assets};
use ssr_engine::exports::{create_fn_map, Export, OwnProperty};
use ssr_engine::reviews::{GetReviewsQuery, ReviewTarget};
use ssr_engine::session::{RenderAction, RenderEvent, RenderFailure, RenderSession};
use ssr_engine::ssr::{location_params, Ssr};

fn prop(name: &str, callable: bool) -> OwnProperty {
    OwnProperty { name: name.to_string(), callable }
}

/// Runs a session against a simulated engine: `props` is what the bundle
/// evaluates to (`None`: it does not compile), `call` what the property at a
/// position returns for the parameters (`None`: it throws).
fn run(
    mut session: RenderSession<'_>,
    props: Option<Vec<OwnProperty>>,
    call: &dyn Fn(usize, Option<&str>) -> Option<String>,
) -> RenderAction {
    loop {
        let event = match session.action() {
            RenderAction::Evaluate => match &props {
                Some(p) => RenderEvent::Evaluated(p.clone()),
                None => RenderEvent::CompileFailed,
            },
            RenderAction::Invoke(slot) => match call(slot, session.params()) {
                Some(out) => RenderEvent::Returned(out),
                None => RenderEvent::Threw,
            },
            done => return done,
        };
        session = session.step(event);
    }
}

fn own_name(props: &[OwnProperty]) -> impl Fn(usize, Option<&str>) -> Option<String> + '_ {
    move |slot, _| Some(props[slot].name.clone())
}

#[test]
fn fn_map_keeps_callables_in_order() {
    let props = vec![prop("b", true), prop("n", false), prop("a", true)];
    let map = create_fn_map(&props);
    assert_eq!(
        map,
        vec![
            Export { name: "b".to_string(), slot: 0 },
            Export { name: "a".to_string(), slot: 2 }
        ]
    );
}

#[test]
fn fn_map_of_empty_object_is_empty() {
    assert!(create_fn_map(&vec![]).is_empty());
    assert!(create_fn_map(&vec![prop("x", false)]).is_empty());
}

#[test]
fn empty_object_renders_empty_string() {
    let ssr = Ssr::new("({})".to_string());
    let out = run(ssr.render_to_string(Some("{}")), Some(vec![]), &|_, _| None);
    assert_eq!(out, RenderAction::Finish(String::new()));
}

#[test]
fn exports_render_in_order() {
    let props = vec![prop("a", true), prop("b", true), prop("c", true)];
    let ssr = Ssr::new("bundle".to_string());
    let call = own_name(&props);
    for params in [None, Some("{}"), Some("anything")] {
        let out = run(ssr.render_to_string(params), Some(props.clone()), &call);
        assert_eq!(out, RenderAction::Finish("abc".to_string()));
    }
}

#[test]
fn parameters_pass_through() {
    let params = "{\"location\":\"/x\"}";
    let out = run(
        Ssr::one_shot_render("identity", Some(params)),
        Some(vec![prop("render", true)]),
        &|_, p| p.map(|s| s.to_string()),
    );
    assert_eq!(out, RenderAction::Finish(params.to_string()));
}

#[test]
fn absent_parameters_stay_absent() {
    let session = Ssr::one_shot_render("identity", None);
    assert_eq!(session.params(), None);
    let out = run(
        session,
        Some(vec![prop("render", true)]),
        &|_, p| Some(p.unwrap_or("undefined").to_string()),
    );
    assert_eq!(out, RenderAction::Finish("undefined".to_string()));
}

#[test]
fn non_callable_properties_are_skipped() {
    let props = vec![prop("version", false), prop("render", true)];
    let out = run(
        Ssr::one_shot_render("bundle", Some("p")),
        Some(props),
        &|slot, _| if slot == 1 { Some("<p>hi</p>".to_string()) } else { Some("42".to_string()) },
    );
    assert_eq!(out, RenderAction::Finish("<p>hi</p>".to_string()));
}

#[test]
fn render_is_deterministic() {
    let props = vec![prop("head", true), prop("body", true)];
    let ssr = Ssr::new("bundle".to_string());
    let call = |slot: usize, p: Option<&str>| Some(format!("{}:{}", slot, p.unwrap_or("")));
    let first = run(ssr.render_to_string(Some("/a")), Some(props.clone()), &call);
    let second = run(ssr.render_to_string(Some("/a")), Some(props), &call);
    assert_eq!(first, second);
    assert_eq!(first, RenderAction::Finish("0:/a1:/a".to_string()));
}

#[test]
fn interleaved_renders_do_not_interfere() {
    let ssr = Ssr::new("bundle".to_string());
    let props = vec![prop("x", true), prop("y", true)];
    let mut a = ssr.render_to_string(Some("A"));
    let mut b = ssr.render_to_string(Some("B"));
    a = a.step(RenderEvent::Evaluated(props.clone()));
    b = b.step(RenderEvent::Evaluated(props.clone()));
    a = a.step(RenderEvent::Returned("a0".to_string()));
    b = b.step(RenderEvent::Returned("b0".to_string()));
    b = b.step(RenderEvent::Returned("b1".to_string()));
    a = a.step(RenderEvent::Returned("a1".to_string()));
    assert_eq!(a.action(), RenderAction::Finish("a0a1".to_string()));
    assert_eq!(b.action(), RenderAction::Finish("b0b1".to_string()));
    assert_eq!(ssr.source(), "bundle");
}

#[test]
fn malformed_bundle_aborts() {
    let out = run(Ssr::one_shot_render("function (", None), None, &|_, _| Some("x".to_string()));
    assert_eq!(out, RenderAction::Abort(RenderFailure::InvalidScript));
    let ssr = Ssr::new("function (".to_string());
    let out = run(ssr.render_to_string(Some("{}")), None, &|_, _| Some("x".to_string()));
    assert_eq!(out, RenderAction::Abort(RenderFailure::InvalidScript));
}

#[test]
fn evaluation_failures_abort() {
    let s = Ssr::one_shot_render("1", None).step(RenderEvent::NotAnObject);
    assert_eq!(s.action(), RenderAction::Abort(RenderFailure::NotAnObject));
    let s = Ssr::one_shot_render("", None).step(RenderEvent::RunFailed);
    assert_eq!(s.action(), RenderAction::Abort(RenderFailure::MissingEntryPoint));
}

#[test]
fn throwing_export_aborts_at_its_position() {
    let props = vec![prop("ok", true), prop("n", false), prop("bad", true), prop("late", true)];
    let out = run(
        Ssr::one_shot_render("bundle", None),
        Some(props),
        &|slot, _| if slot == 2 { None } else { Some("fine".to_string()) },
    );
    assert_eq!(out, RenderAction::Abort(RenderFailure::ExportFailed(2)));
}

#[test]
fn session_asks_for_each_export_in_turn() {
    let s = Ssr::one_shot_render("bundle", Some("p"));
    assert_eq!(s.source(), "bundle");
    assert_eq!(s.action(), RenderAction::Evaluate);
    let s = s.step(RenderEvent::Evaluated(vec![prop("n", false), prop("f", true), prop("g", true)]));
    assert_eq!(s.exports().len(), 2);
    assert_eq!(s.action(), RenderAction::Invoke(1));
    let s = s.step(RenderEvent::Returned("1".to_string()));
    assert_eq!(s.action(), RenderAction::Invoke(2));
    let s = s.step(RenderEvent::Returned("2".to_string()));
    assert_eq!(s.action(), RenderAction::Finish("12".to_string()));
}

#[test]
fn out_of_order_events_abort() {
    let s = Ssr::one_shot_render("bundle", None).step(RenderEvent::Returned("x".to_string()));
    assert_eq!(s.action(), RenderAction::Abort(RenderFailure::OutOfOrder));
    let s = Ssr::one_shot_render("bundle", None)
        .step(RenderEvent::Evaluated(vec![prop("f", true)]))
        .step(RenderEvent::CompileFailed);
    assert_eq!(s.action(), RenderAction::Abort(RenderFailure::OutOfOrder));
}

#[test]
fn finished_and_failed_renders_ignore_events() {
    let s = Ssr::one_shot_render("bundle", None)
        .step(RenderEvent::Evaluated(vec![]))
        .step(RenderEvent::Returned("late".to_string()));
    assert_eq!(s.action(), RenderAction::Finish(String::new()));
    let s = Ssr::one_shot_render("bundle", None)
        .step(RenderEvent::CompileFailed)
        .step(RenderEvent::Evaluated(vec![prop("f", true)]));
    assert_eq!(s.action(), RenderAction::Abort(RenderFailure::InvalidScript));
}

#[test]
fn bundle_is_shim_code_and_entry() {
    assert_eq!(assemble_bundle("shim()", "var SSR = {}", "SSR"), "shim();var SSR = {};SSR");
    assert_eq!(assemble_bundle("", "", ""), ";;");
}

#[test]
fn assets_are_linked() {
    let b = "link('ssr.css'); load('bundle.js'); load('bundle.js')";
    assert_eq!(
        link_assets(b, "ssr.1a2b.css", "bundle.9f.js"),
        "link('ssr.1a2b.css'); load('bundle.9f.js'); load('bundle.9f.js')"
    );
    assert_eq!(link_assets("none here", "s", "j"), "none here");
}

#[test]
fn first_asset_with_suffix() {
    let names = vec!["main.css".to_string(), "app.bundle.js".to_string(), "x.bundle.js".to_string()];
    assert_eq!(first_with_suffix(&names, "bundle.js"), Some(1));
    assert_eq!(first_with_suffix(&names, "ssr.css"), None);
    assert_eq!(first_with_suffix(&vec![], "ssr.css"), None);
}

#[test]
fn location_params_are_json() {
    let p = location_params("/reviews?x=1");
    assert_eq!(
        p,
        "{\n            \"location\": \"/reviews?x=1\",\n            \"context\": {}\n        }"
    );
}

#[test]
fn facade_holds_its_source() {
    let ssr = Ssr::new("var SSR = 1".to_string());
    assert_eq!(ssr.source(), "var SSR = 1");
    assert_eq!(ssr.clone(), ssr);
    assert_eq!(ssr.render_to_string(None).source(), "var SSR = 1");
}

#[test]
fn reviews_query_target() {
    assert_eq!(GetReviewsQuery::new(Some(ReviewTarget::Tyres)).target(), Some(ReviewTarget::Tyres));
    assert_eq!(GetReviewsQuery::new(None).target(), None);
}
