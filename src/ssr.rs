use vstd::prelude::*;

use crate::session::{initial_state, param_view, RenderSession};

verus! {

/// The render facade: holds the bundle source for repeated renders.
#[derive(Clone, Debug, PartialEq)]
pub struct Ssr {
    source: String,
}

impl Ssr {
    pub closed spec fn source_view(&self) -> Seq<char> {
        self.source@
    }

    pub fn new(source: String) -> (r: Self)
        ensures
            r.source_view() == source@,
    {
        Ssr { source }
    }

    /// The bundle source held.
    pub fn source(&self) -> (r: &str)
        ensures
            r@ == self.source_view(),
    {
        self.source.as_str()
    }

    /// A render of an arbitrary source, for one call.
    pub fn one_shot_render<'a>(source: &'a str, params: Option<&'a str>) -> (r: RenderSession<'a>)
        ensures
            r@ == initial_state(),
            r.source_view() == source@,
            r.params_view() == param_view(params),
    {
        RenderSession::new(source, params)
    }

    /// A render of the held source. The facade is only read, so any number of
    /// renders may run against it side by side.
    pub fn render_to_string<'a>(&'a self, params: Option<&'a str>) -> (r: RenderSession<'a>)
        ensures
            r@ == initial_state(),
            r.source_view() == self.source_view(),
            r.params_view() == param_view(params),
    {
        RenderSession::new(self.source.as_str(), params)
    }
}

/// The render parameters for a request: a JSON object with the request's
/// location and an empty context.
pub fn location_params(location: &str) -> (r: String)
    ensures
        r@ == "{\n            \"location\": \""@ + location@
            + "\",\n            \"context\": {}\n        }"@,
{
    let mut r = String::from_str("{\n            \"location\": \"");
    r.append(location);
    r.append("\",\n            \"context\": {}\n        }");
    r
}

} // verus!
