//! The pluggable analysis component: its type family, its entry point, and
//! the failure signal it propagates.

use vstd::prelude::*;

use crate::diagnostics::Diagnostics;
use crate::driver::ToolInitEnv;
use crate::source::SourceArtifact;
use crate::source::SourceCache;
use crate::Args;
use crate::Params;
use crate::Spanned;

verus! {

/// Tool specific types and their bounds.
pub trait Tool: Args + Sized + Copy {
    /// The type of errors specific to a tool.
    type Error: SourceArtifact + Spanned;

    /// The type of warnings specific to a tool.
    type Warning: SourceArtifact + Spanned;

    /// The type output by the tool.
    type Output;

    /// A tool specific kind for source text, accessible from a session.
    type SourceKind;
}

/// Trait for running a tool: the entry point the driver hands control to.
///
/// The contract records what the framework guarantees the tool on entry and
/// what any tool keeps intact, because the only handles it has mutate these
/// states through their own contracts: the emitter stays well formed over the
/// same starting sink and only accumulates emissions, the sink is never
/// finalized by the tool, the session keeps its driver-loaded list and only
/// appends tool-added ids, and the cache only grows.
pub trait ToolInit<X: Tool, D: Diagnostics<X>>: Sized {
    /// Runs the tool on the sources in `source_cache`, reporting through
    /// `tool_env.emitter` and recording cache additions in
    /// `tool_env.session`.
    fn tool_init(
        config: Params<X>,
        source_cache: &mut SourceCache,
        tool_env: &mut ToolInitEnv<X, D>,
    ) -> (output: Self)
        requires
            old(tool_env).emitter.wf(),
            old(tool_env).session.wf_in(*old(source_cache)),
        ensures
            final(tool_env).emitter.wf(),
            final(tool_env).session.wf_in(*final(source_cache)),
            final(tool_env).emitter.sink_at_start() == old(tool_env).emitter.sink_at_start(),
            old(tool_env).emitter.emitted_errors().is_prefix_of(
                final(tool_env).emitter.emitted_errors(),
            ),
            old(tool_env).emitter.emitted_warnings().is_prefix_of(
                final(tool_env).emitter.emitted_warnings(),
            ),
            final(tool_env).session.loaded() == old(tool_env).session.loaded(),
            old(tool_env).session.added().is_prefix_of(final(tool_env).session.added()),
            old(source_cache).num_sources() <= final(source_cache).num_sources(),
            final(source_cache).agrees_below(
                *old(source_cache),
                old(source_cache).num_sources() as int,
            ),
    ;
}

/// Errors have been emitted by the tool, that were observed by the driver.
#[derive(Debug)]
pub enum ToolError {
    ToolFailure,
}

} // verus!
