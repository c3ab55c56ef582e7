//! The template engine seam: a payload is rendered through a handlebars
//! registry that the process set up at startup.
//!
//! The engine is a collaborator, not logic of this library: what it does
//! with a template is its own affair, so nothing is claimed of the rendered
//! text. What is the library's affair is the degradation rule: rendering
//! never fails a request — when the registry has no such template or the
//! engine errs, the engine's own error text becomes the response body.

use vstd::prelude::*;
use handlebars::Handlebars;
use crate::payload::RenderPayload;

verus! {

#[verifier::external_type_specification]
#[verifier::external_body]
pub struct ExHandlebars<'reg>(Handlebars<'reg>);

/// Relies on handlebars' `Handlebars::render`: substitutes the fields, as a
/// JSON object of strings, into the registered template of that name; on any
/// engine error, hands back the error's own text instead.
#[verifier::external_body]
fn render_via_engine(registry: &Handlebars, name: &str, fields: &Vec<(String, String)>) -> (r:
    Result<String, String>)
{
    let mut data = serde_json::Map::new();
    for (key, value) in fields.iter() {
        data.insert(key.clone(), serde_json::Value::String(value.clone()));
    }
    match registry.render(name, &serde_json::Value::Object(data)) {
        Ok(body) => Ok(body),
        Err(err) => Err(err.to_string()),
    }
}

/// The degradation rule on one engine outcome: a rendered body is handed on
/// as it is, and an engine error's own text becomes the body instead — no
/// outcome fails the request.
pub fn response_body(outcome: Result<String, String>) -> (body: String)
    ensures
        outcome matches Ok(rendered) ==> body@ == rendered@,
        outcome matches Err(error_text) ==> body@ == error_text@,
{
    match outcome {
        Ok(rendered) => rendered,
        Err(error_text) => error_text,
    }
}

/// Renders a payload to a response body. This never fails: whatever the
/// engine makes of the template, `response_body` turns it into a page for
/// the client.
pub fn render_payload(registry: &Handlebars, p: &RenderPayload) -> (body: String) {
    response_body(render_via_engine(registry, p.template_name.as_str(), &p.fields))
}

} // verus!
