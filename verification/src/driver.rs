//! Driver orchestration: resolving configured sources into the cache,
//! wiring the session and the diagnostics emitter, and handing control to
//! the tool.

use vstd::prelude::*;

use crate::default_impls::DefaultDriver;
use crate::default_impls::DefaultDriverEnv;
use crate::default_impls::DriverArgs;
use crate::default_impls::DriverOptionalArgs;
use crate::diagnostics::Diagnostics;
use crate::diagnostics::DiagnosticsEmitter;
use crate::source::Session;
use crate::source::SourceCache;
use crate::source::SourceId;
use crate::tool::Tool;
use crate::tool::ToolInit;
use crate::Args;
use crate::InternalTrait;
use crate::Params;

verus! {

/// A marker trait for selecting between drivers.
pub trait DriverSelector: InternalTrait {}

/// Ties a driver selector to the output type its run produces.
pub trait DriverTypes<X: Tool>: Args {
    /// What a run of this driver returns on success.
    type Output;
}

/// Used to configure and initialize a driver for a tool.
///
/// Contains the tool to run, which must implement [`Tool`], the selector for
/// the driver itself, `driver_args` handled by the driver, and `tool_args`
/// specific to the tool.
///
/// Fields are public so that they are constructable by the caller.
pub struct Driver<X: Tool> {
    /// This is mostly here to guide inference, and generally would be a
    /// unitary type.
    pub tool: X,
    /// This is here to allow for future expansion, in the case that we
    /// require a different driver implementation, or changes to
    /// `driver_args`.
    pub driver: DefaultDriver,
    /// Options that get handled by the driver.
    pub driver_args: (DriverArgs, DriverOptionalArgs),
    /// Options specific to a tool.
    pub tool_args: (X::RequiredArgs, X::OptionalArgs),
}

/// Errors occurred by the driver.
#[derive(Debug)]
pub enum DriverError {
    /// An I/O failure while resolving a configured source, carried as the
    /// failure's rendered message.
    Io(String),
}

/// What the driver hands to the tool's entry point besides the source cache:
/// the diagnostics emitter for the run, and the session the run writes into.
pub struct ToolInitEnv<X: Tool, D: Diagnostics<X>> {
    pub emitter: DiagnosticsEmitter<X, D>,
    pub session: Session<X::SourceKind>,
}

/// The return value of [`Driver::driver_init`].
///
/// Contains a [`Session`], and the tool's output.
pub struct DriverOutput<X: Tool> {
    pub session: Session<X::SourceKind>,
    pub output: X::Output,
}

impl<X: Tool> Driver<X> {
    /// The driver-handled optional arguments this configuration carries.
    pub open spec fn options(self) -> DriverOptionalArgs {
        self.driver_args.1
    }

    /// Runs the tool under this driver configuration.
    ///
    /// 1. Resolves the configured sources into the caller-owned cache,
    ///    recording their fresh ids in a new session's "loaded" list; an I/O
    ///    failure among them aborts the run with [`DriverError::Io`] before
    ///    the tool is ever invoked, and before any emitter is created.
    /// 2. Constructs a `DiagnosticsEmitter` over the caller-supplied sink.
    /// 3. Passes everything above to the tool's implementation of
    ///    [`ToolInit::tool_init`].
    ///
    /// Returns the sink together with the run's outcome. On success the
    /// outcome carries the tool's output and the finished session, and the
    /// returned sink has received the end-of-stream signal exactly once more
    /// than the sink that was handed in; on an I/O failure the sink comes
    /// back exactly as it was handed in, unfinalized.
    pub fn driver_init<D: Diagnostics<X>>(
        self,
        driver_env: DefaultDriverEnv<X, D>,
        source_cache: &mut SourceCache,
    ) -> (r: (D, Result<DriverOutput<X>, DriverError>)) where X::Output: ToolInit<X, D>
        ensures
            r.1 is Err <==> self.options().io_failure() is Some,
            r.1 matches Err(DriverError::Io(m)) ==> {
                &&& Some(m@) == self.options().io_failure()
                &&& r.0 == driver_env.diagnostics
                &&& final(source_cache).num_sources() == old(source_cache).num_sources()
                    + self.options().named_part().len()
                &&& final(source_cache).agrees_below(
                    *old(source_cache),
                    old(source_cache).num_sources() as int,
                )
                &&& forall|k: int|
                    0 <= k < self.options().named_part().len()
                        ==> final(source_cache).text_at(old(source_cache).num_sources() + k)
                        == self.options().named_part()[k].1
                        && final(source_cache).path_at(old(source_cache).num_sources() + k)
                        == self.options().named_part()[k].0
            },
            r.1 matches Ok(out) ==> {
                &&& r.0.times_finalized() == driver_env.diagnostics.times_finalized() + 1
                &&& driver_env.diagnostics.errors_received().is_prefix_of(r.0.errors_received())
                &&& driver_env.diagnostics.warnings_received().is_prefix_of(
                    r.0.warnings_received(),
                )
                &&& out.session.wf_in(*final(source_cache))
                &&& out.session.loaded().len() == self.options().resolved_sources().len()
                &&& forall|k: int|
                    0 <= k < out.session.loaded().len() ==> (#[trigger] out.session.loaded()[
                        k
                    ]).index() == old(source_cache).num_sources() + k
                &&& final(source_cache).num_sources() >= old(source_cache).num_sources()
                    + self.options().resolved_sources().len()
                &&& final(source_cache).agrees_below(
                    *old(source_cache),
                    old(source_cache).num_sources() as int,
                )
                &&& forall|k: int|
                    0 <= k < self.options().resolved_sources().len()
                        ==> final(source_cache).text_at(old(source_cache).num_sources() + k)
                        == self.options().resolved_sources()[k].1
                        && final(source_cache).path_at(old(source_cache).num_sources() + k)
                        == self.options().resolved_sources()[k].0
            },
    {
        let Driver { tool, driver: _, driver_args, tool_args } = self;
        let (_required_args, optional_args) = driver_args;
        let DriverOptionalArgs { named_string, read_source, _non_exhaustive: _ } = optional_args;
        let DefaultDriverEnv { diagnostics, tool: _env_tool } = driver_env;
        let ghost cache_at_entry = *source_cache;

        let mut source_ids_from_driver: Vec<SourceId> = Vec::new();
        if let Some((source_path, source)) = named_string {
            let id = source_cache.insert_entry(source_path, source);
            source_ids_from_driver.push(id);
        }
        match read_source {
            None => {}
            Some((source_path, outcome)) => match outcome {
                Ok(source) => {
                    let id = source_cache.insert_entry(source_path, source);
                    source_ids_from_driver.push(id);
                }
                Err(message) => {
                    return (diagnostics, Err(DriverError::Io(message)));
                }
            },
        }
        let ghost cache_resolved = *source_cache;
        proof {
            let opts = self.options();
            let n0 = cache_at_entry.num_sources() as int;
            assert(source_ids_from_driver@.len() == opts.resolved_sources().len());
            assert(forall|k: int|
                0 <= k < source_ids_from_driver@.len() ==> (#[trigger] source_ids_from_driver@[
                    k
                ]).index() == n0 + k);
            assert(forall|k: int|
                0 <= k < opts.resolved_sources().len() ==> cache_resolved.text_at(n0 + k)
                    == opts.resolved_sources()[k].1 && cache_resolved.path_at(n0 + k)
                    == opts.resolved_sources()[k].0);
            assert(cache_resolved.agrees_below(cache_at_entry, n0));
            assert(cache_resolved.num_sources() == n0 + opts.resolved_sources().len());
        }

        let emitter = DiagnosticsEmitter::new(tool, diagnostics);
        let session = Session::<X::SourceKind>::new_run(source_ids_from_driver);
        let (required, optional) = tool_args;
        let config = Params::<X> { required, optional };
        let mut tool_env = ToolInitEnv { emitter, session };
        let output = <X::Output as ToolInit<X, D>>::tool_init(
            config,
            source_cache,
            &mut tool_env,
        );
        let ToolInitEnv { emitter, session } = tool_env;
        let diagnostics = emitter.finalize();
        proof {
            assert(cache_at_entry.num_sources() + self.options().resolved_sources().len()
                == cache_resolved.num_sources());
            assert(source_cache.agrees_below(
                cache_at_entry,
                cache_at_entry.num_sources() as int,
            ));
            assert(driver_env.diagnostics.errors_received().is_prefix_of(
                diagnostics.errors_received(),
            )) by {
                let base = driver_env.diagnostics.errors_received();
                let whole = diagnostics.errors_received();
                assert(base =~= whole.subrange(0, base.len() as int));
            }
            assert(driver_env.diagnostics.warnings_received().is_prefix_of(
                diagnostics.warnings_received(),
            )) by {
                let base = driver_env.diagnostics.warnings_received();
                let whole = diagnostics.warnings_received();
                assert(base =~= whole.subrange(0, base.len() as int));
            }
        }
        (diagnostics, Ok(DriverOutput { session, output }))
    }
}

} // verus!
