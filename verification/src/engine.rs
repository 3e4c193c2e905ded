//! The boundary to the tera rendering engine.
//!
//! Everything the library needs from the engine passes through the trusted
//! declarations and wrappers in this module: creating an engine, parsing a
//! template source, rendering, and registering the helpers. The registered
//! closures convert the engine's arguments to the library's plain values,
//! call the verified dispatch, and convert the result back. Whether a
//! source parses is a function of the source text alone and carries the
//! name `parses`, so the compile step can classify its failures exactly.
//! A caller that wants the fractional-range helper — whose values have no
//! plain form in this library — registers it on the engine before handing
//! the engine in for compilation.
use vstd::prelude::*;

verus! {

use std::collections::HashMap;

use crate::helper::HelperKind;
use crate::session::SharedIndex;
use crate::value::Args;
use crate::value::PlainValue;

#[verifier::external_type_specification]
#[verifier::external_body]
pub struct ExTera(tera::Tera);

#[verifier::external_type_specification]
#[verifier::external_body]
pub struct ExContext(tera::Context);

#[verifier::external_type_specification]
#[verifier::external_body]
pub struct ExJsonValue(serde_json::Value);

/// Relies on `tera::Tera::default`: a fresh engine with no templates.
#[verifier::external_body]
pub(crate) fn engine_new() -> tera::Tera {
    tera::Tera::default()
}

/// Relies on `tera::Context::new`: the empty variable context every
/// document is rendered against.
#[verifier::external_body]
pub(crate) fn context_new() -> tera::Context {
    tera::Context::new()
}

/// Whether a template source parses under the engine's grammar. The parse
/// outcome is a function of the source text alone.
pub uninterp spec fn parses(source: Seq<char>) -> bool;

/// Relies on `tera::Template::new`: parses the source against the template
/// grammar, consulting nothing but the text, and answers whether it
/// parses; a failure comes back as its message.
#[verifier::external_body]
pub(crate) fn source_parses(source: &str) -> (r: Result<(), String>)
    ensures
        r is Ok <==> parses(source@),
{
    match tera::Template::new("template", None, source) {
        Ok(_) => Ok(()),
        Err(e) => Err(e.to_string()),
    }
}

/// Relies on `tera::Tera::add_raw_template`: parses the source and stores
/// it under a fixed name, resolving template references against the
/// engine's other templates; a failure comes back as its message.
#[verifier::external_body]
pub(crate) fn add_template(t: &mut tera::Tera, source: &str) -> Result<(), String> {
    match t.add_raw_template("template", source) {
        Ok(()) => Ok(()),
        Err(e) => Err(e.to_string()),
    }
}

/// Relies on `tera::Tera::render`: renders the stored template against the
/// given context, resolving every helper reference against the registered
/// functions; a failure comes back as its message.
#[verifier::external_body]
pub(crate) fn render_template(t: &tera::Tera, ctx: &tera::Context) -> Result<String, String> {
    match t.render("template", ctx) {
        Ok(s) => Ok(s),
        Err(e) => Err(e.to_string()),
    }
}

/// Registers one helper under `name`. Relies on
/// `tera::Tera::register_function`; the closure converts the engine's
/// arguments, calls the library's verified dispatch for `kind`, and
/// converts the result back.
#[verifier::external_body]
pub(crate) fn register_helper(t: &mut tera::Tera, name: &str, kind: HelperKind, counter: SharedIndex) {
    t.register_function(
        name,
        move |args: &HashMap<String, serde_json::Value>| {
            let mut conv = args_from_json(args);
            match crate::helper::run_helper(kind, &mut conv, &counter) {
                Ok(v) => Ok(value_to_json(&v)),
                Err(e) => Err(tera::Error::msg(e.message())),
            }
        },
    );
}

/// Converts the engine's keyword arguments to the library's plain form,
/// entry by entry.
#[verifier::external_body]
pub(crate) fn args_from_json(m: &HashMap<String, serde_json::Value>) -> Args {
    let mut out = Args::new();
    for (k, v) in m {
        out.insert(k.clone(), json_to_value(v));
    }
    out
}

/// Converts one engine value to the library's plain form: null, booleans,
/// integers, text and sequences map one for one; fractional numbers and
/// objects, which have no plain reading, are carried through opaquely so
/// that nothing is silently lost.
#[verifier::external_body]
pub(crate) fn json_to_value(v: &serde_json::Value) -> PlainValue {
    match v {
        serde_json::Value::Null => PlainValue::Null,
        serde_json::Value::Bool(b) => PlainValue::Bool(*b),
        serde_json::Value::Number(n) if n.is_i64() => PlainValue::Int(n.as_i64().unwrap()),
        serde_json::Value::Number(n) if n.is_u64() => PlainValue::Uint(n.as_u64().unwrap()),
        serde_json::Value::String(s) => PlainValue::Text(s.clone()),
        serde_json::Value::Array(a) => PlainValue::List(a.iter().map(json_to_value).collect()),
        other => PlainValue::Opaque(other.clone()),
    }
}

/// Converts one plain value back to the engine's form, one for one.
#[verifier::external_body]
pub(crate) fn value_to_json(v: &PlainValue) -> serde_json::Value {
    match v {
        PlainValue::Null => serde_json::Value::Null,
        PlainValue::Bool(b) => serde_json::Value::from(*b),
        PlainValue::Int(i) => serde_json::Value::from(*i),
        PlainValue::Uint(u) => serde_json::Value::from(*u),
        PlainValue::Text(s) => serde_json::Value::from(s.as_str()),
        PlainValue::List(l) => serde_json::Value::from(
            l.iter().map(value_to_json).collect::<Vec<serde_json::Value>>(),
        ),
        PlainValue::Opaque(o) => o.clone(),
    }
}

} // verus!
