//! Generation of documents in a lazy pattern.
//!
//! A `Generator` is one compiled, validated template bound to a helper
//! registry and to its session's shared counters. It hands out an unbounded
//! lazy stream of rendered documents, one per pull; validation at
//! construction time guarantees that every helper the template references
//! exists and accepts its arguments.
use vstd::prelude::*;

verus! {

use crate::engine;
use crate::engine::parses;
use crate::error::Error;
use crate::helper;
use crate::helper::HelperKind;
use crate::session::SharedIndex;
use crate::session::SharedLimit;

/// One document stream: a compiled template and the context it is rendered
/// against.
///
/// A template that failed validation is never held by a `Generator`:
/// construction parses the source and then performs one validation render
/// against the empty context, so helper mistakes (an unknown name, bad
/// arguments) surface before the first real pull. The validation render
/// invokes every referenced helper once, so it advances the session's
/// shared index by one — a documented side effect of validation, not of
/// generation.
///
/// A stream is private to one worker: workers of one session each compile
/// their own `Generator` from the same source against the same shared
/// counters.
pub struct Generator {
    tera: tera::Tera,
    ctx: tera::Context,
    counter: SharedIndex,
}

impl Generator {
    /// Compiles a template from source text against the built-in helpers,
    /// with a fresh session counter.
    ///
    /// The result is a `Parse` error exactly when the source does not
    /// parse; a parseable source compiles, or fails with a `Validation`
    /// error — when a template reference does not resolve, when the
    /// template calls an unregistered helper, or when a helper rejects its
    /// arguments during the validation render. No stream exists on
    /// failure.
    pub fn from_string(source: &str) -> (r: Result<Generator, Error>)
        ensures
            (r matches Err(e) && e is Parse) <==> !parses(source@),
            parses(source@) ==> r is Ok || (r matches Err(e) && e is Validation),
    {
        let helpers = helper::builtin();
        let counter = SharedIndex::new();
        Generator::from_string_with_helpers(source, &helpers, &counter)
    }

    /// Compiles a template from source text against the given helper
    /// registry and session counter.
    ///
    /// Every registry entry is registered with the engine before the
    /// source is stored and validated, since the template may reference
    /// any helper name; a later entry for the same name wins. Failure
    /// classification is as for `from_string`.
    pub fn from_string_with_helpers(
        source: &str,
        helpers: &Vec<(String, HelperKind)>,
        counter: &SharedIndex,
    ) -> (r: Result<Generator, Error>)
        ensures
            (r matches Err(e) && e is Parse) <==> !parses(source@),
            parses(source@) ==> r is Ok || (r matches Err(e) && e is Validation),
    {
        Generator::compile_with_engine(engine::engine_new(), source, helpers, counter)
    }

    /// Compiles a template against a caller-supplied engine, registering
    /// the given helper registry on it first.
    ///
    /// The source is parsed first: the result is a `Parse` error exactly
    /// when it does not parse. A parseable source is then stored with the
    /// engine — a template reference that does not resolve there is a
    /// `Validation` error — and rendered once against the empty context,
    /// so helper mistakes fail validation before any stream exists.
    ///
    /// The caller may have attached extra engine-side functions of its own
    /// beforehand — the fractional-range helper lives there, since its
    /// values have no plain form in this library. A registry entry of the
    /// fractional kind registers nothing, so such a template validates
    /// only when the caller supplied the function.
    pub fn compile_with_engine(
        engine_in: tera::Tera,
        source: &str,
        helpers: &Vec<(String, HelperKind)>,
        counter: &SharedIndex,
    ) -> (r: Result<Generator, Error>)
        ensures
            (r matches Err(e) && e is Parse) <==> !parses(source@),
            parses(source@) ==> r is Ok || (r matches Err(e) && e is Validation),
    {
        match engine::source_parses(source) {
            Err(m) => {
                return Err(Error::Parse(m));
            },
            Ok(_) => {},
        }
        let mut t = engine_in;
        let mut i: usize = 0;
        while i < helpers.len()
            decreases helpers@.len() - i,
        {
            let kind = helpers[i].1;
            match kind {
                HelperKind::Float => {},
                _ => engine::register_helper(&mut t, helpers[i].0.as_str(), kind, counter.clone()),
            }
            i = i + 1;
        }
        match engine::add_template(&mut t, source) {
            Err(m) => Err(Error::Validation(m)),
            Ok(_) => {
                let ctx = engine::context_new();
                match engine::render_template(&t, &ctx) {
                    Err(m) => Err(Error::Validation(m)),
                    Ok(_) => Ok(Generator { tera: t, ctx, counter: counter.clone() }),
                }
            },
        }
    }

    /// Renders the compiled template once against the empty context and
    /// returns the document.
    ///
    /// The stream itself is unchanged by a pull: the compiled template and
    /// the stored context are immutable, and the only state a render may
    /// advance is the session's shared counters, behind their handles.
    /// Validation already dry-ran every helper the template references, so
    /// a failure here indicates a helper whose failure depends on
    /// call-time conditions; it is fatal to this stream only.
    pub fn create(&mut self) -> (r: Result<String, Error>)
        ensures
            r matches Err(e) ==> e is Render,
            *final(self) == *old(self),
    {
        match engine::render_template(&self.tera, &self.ctx) {
            Ok(s) => Ok(s),
            Err(m) => Err(Error::Render(m)),
        }
    }

    /// Fetches the next document of the stream, which a pull leaves
    /// unchanged.
    ///
    /// The stream is conceptually infinite: it never signals end-of-data
    /// on its own, and stopping is entirely the caller's business. `None`
    /// means the render failed, which ends this stream only.
    pub fn next(&mut self) -> (r: Option<String>)
        ensures
            *final(self) == *old(self),
    {
        match self.create() {
            Ok(s) => Some(s),
            Err(_) => None,
        }
    }
}

/// One turn of a worker's loop: the decision of whether this worker may
/// emit, and the document when it may.
///
/// The shared limit's single indivisible check-and-increment comes first;
/// only a grant is followed by a render. `Ok(None)` means the limit denied
/// the turn and the worker is done for good, even with its share
/// unexhausted — so without a configured limit it never comes. An error
/// means the render failed, which is fatal to this worker only.
pub fn worker_step(gen: &mut Generator, limit: Option<&SharedLimit>) -> (r: Result<
    Option<String>,
    Error,
>)
    ensures
        r matches Err(e) ==> e is Render,
        limit is None ==> !(r matches Ok(None)),
        *final(gen) == *old(gen),
{
    let granted = match limit {
        Some(l) => l.try_acquire(),
        None => true,
    };
    if !granted {
        return Ok(None);
    }
    match gen.create() {
        Ok(d) => Ok(Some(d)),
        Err(e) => Err(e),
    }
}

/// Why a worker's loop ended.
#[derive(Debug)]
pub enum WorkerOutcome {
    /// The worker emitted its whole share.
    Completed,
    /// The shared limit denied a turn; the worker stopped for good.
    Denied,
    /// A render failed; fatal to this worker only, and surfaced here.
    Failed(Error),
}

/// One worker's whole generation loop in collecting form: takes at most
/// `share` turns, each one a `worker_step`, and gathers the emitted
/// documents beside the outcome that ended the loop. A completed worker
/// emitted exactly its share; without a configured limit the loop can end
/// only completed or with a surfaced render failure, never denied.
pub fn run_worker(gen: &mut Generator, share: u64, limit: Option<&SharedLimit>) -> (r: (
    Vec<String>,
    WorkerOutcome,
))
    ensures
        r.0@.len() <= share,
        r.1 is Completed ==> r.0@.len() == share,
        limit is None ==> !(r.1 is Denied),
        r.1 matches WorkerOutcome::Failed(e) ==> e is Render,
{
    let mut docs: Vec<String> = Vec::new();
    let mut k: u64 = 0;
    while k < share
        invariant
            k <= share,
            docs@.len() == k,
        decreases share - k,
    {
        match worker_step(gen, limit) {
            Ok(Some(d)) => docs.push(d),
            Ok(None) => {
                return (docs, WorkerOutcome::Denied);
            },
            Err(e) => {
                return (docs, WorkerOutcome::Failed(e));
            },
        }
        k = k + 1;
    }
    (docs, WorkerOutcome::Completed)
}

} // verus!
