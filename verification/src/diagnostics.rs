//! Routing of tool diagnostics: the sink interface and the scoped emitter
//! that wraps it.

use vstd::prelude::*;

use crate::tool::Tool;
use crate::tool::ToolError;

verus! {

/// A diagnostics sink: the collaborator that takes ownership of reported
/// errors and warnings and optionally reacts to the end of the stream.
///
/// The three spec functions are the sink's abstract state; an implementation
/// chooses what they mean for its own representation, and the method
/// contracts are stated over them: each emission appends exactly what was
/// handed over, and each end-of-stream call is accounted for.
pub trait Diagnostics<X: Tool>: Sized {
    /// The errors this sink has taken ownership of so far, oldest first.
    spec fn errors_received(&self) -> Seq<X::Error>;

    /// The warnings this sink has taken ownership of so far, oldest first.
    spec fn warnings_received(&self) -> Seq<X::Warning>;

    /// How many times the end-of-stream hook has been delivered.
    spec fn times_finalized(&self) -> nat;

    /// Indication that an error has occurred and the sink should take
    /// ownership of it.
    fn emit_error(&mut self, error: X::Error)
        ensures
            final(self).errors_received() == old(self).errors_received().push(error),
            final(self).warnings_received() == old(self).warnings_received(),
            final(self).times_finalized() == old(self).times_finalized(),
    ;

    /// Indication that a warning has occurred and the sink should take
    /// ownership of it.
    fn emit_warning(&mut self, warning: X::Warning)
        ensures
            final(self).errors_received() == old(self).errors_received(),
            final(self).warnings_received() == old(self).warnings_received().push(warning),
            final(self).times_finalized() == old(self).times_finalized(),
    ;

    /// The end-of-stream hook, delivered by [`DiagnosticsEmitter::finalize`].
    ///
    /// A sink that buffers diagnostics and is passed through several
    /// sequential driver runs receives this once per run, and should drain
    /// its buffers in a way that does not repeat earlier output.
    fn no_more_data(&mut self)
        ensures
            final(self).errors_received() == old(self).errors_received(),
            final(self).warnings_received() == old(self).warnings_received(),
            final(self).times_finalized() == old(self).times_finalized() + 1,
    ;
}

/// Sends ownership and observes emission of diagnostics from a tool.
///
/// The emitter wraps a sink for the duration of one tool run, together with
/// two monotonic booleans recording whether any error or warning has been
/// observed; each starts `false` and is only ever set to `true`. The wrapped
/// sink receives the end-of-stream signal exactly once per emitter instance,
/// when [`DiagnosticsEmitter::finalize`] consumes the emitter; the driver
/// calls that on every path on which an emitter was created.
pub struct DiagnosticsEmitter<X: Tool, D: Diagnostics<X>> {
    observed_warning: bool,
    observed_error: bool,
    diagnostics: D,
    // This is primarily used to guide inference.
    #[allow(dead_code)]
    tool: X,
    start: Ghost<D>,
    errors_log: Ghost<Seq<X::Error>>,
    warnings_log: Ghost<Seq<X::Warning>>,
}

impl<X: Tool, D: Diagnostics<X>> DiagnosticsEmitter<X, D> {
    /// The wrapped sink, as it stands now.
    pub closed spec fn sink(self) -> D {
        self.diagnostics
    }

    /// The wrapped sink, as it stood when this emitter was created.
    pub closed spec fn sink_at_start(self) -> D {
        self.start@
    }

    /// The errors emitted through this emitter so far, oldest first.
    pub closed spec fn emitted_errors(self) -> Seq<X::Error> {
        self.errors_log@
    }

    /// The warnings emitted through this emitter so far, oldest first.
    pub closed spec fn emitted_warnings(self) -> Seq<X::Warning> {
        self.warnings_log@
    }

    /// The monotonic error-observation flag.
    pub closed spec fn error_flag(self) -> bool {
        self.observed_error
    }

    /// The monotonic warning-observation flag.
    pub closed spec fn warning_flag(self) -> bool {
        self.observed_warning
    }

    /// What every emitter this module hands out satisfies, and every
    /// operation preserves: the sink has received exactly its initial
    /// diagnostics followed by what came through this emitter, it has not
    /// been finalized while the emitter lives, and each observation flag is
    /// set if and only if at least one matching emission occurred.
    pub open spec fn wf(self) -> bool {
        &&& self.sink().errors_received() == self.sink_at_start().errors_received()
            + self.emitted_errors()
        &&& self.sink().warnings_received() == self.sink_at_start().warnings_received()
            + self.emitted_warnings()
        &&& self.sink().times_finalized() == self.sink_at_start().times_finalized()
        &&& self.error_flag() <==> self.emitted_errors().len() > 0
        &&& self.warning_flag() <==> self.emitted_warnings().len() > 0
    }

    /// Wraps `diagnostics` for one tool run, with nothing observed yet.
    pub fn new(tool: X, diagnostics: D) -> (e: Self)
        ensures
            e.wf(),
            e.sink() == diagnostics,
            e.sink_at_start() == diagnostics,
            e.emitted_errors() == Seq::<X::Error>::empty(),
            e.emitted_warnings() == Seq::<X::Warning>::empty(),
    {
        let ghost start = diagnostics;
        let e = Self {
            observed_error: false,
            observed_warning: false,
            diagnostics,
            tool,
            start: Ghost(start),
            errors_log: Ghost(Seq::empty()),
            warnings_log: Ghost(Seq::empty()),
        };
        proof {
            assert(e.sink().errors_received() =~= e.sink_at_start().errors_received()
                + e.emitted_errors());
            assert(e.sink().warnings_received() =~= e.sink_at_start().warnings_received()
                + e.emitted_warnings());
        }
        e
    }

    /// 1. Notes the indication of an error for later observation.
    /// 2. Sends the error off to be owned by the sink.
    /// 3. Returns the fatal-failure signal, for the tool to propagate.
    pub fn emit_error(&mut self, e: X::Error) -> (r: Result<(), ToolError>)
        requires
            old(self).wf(),
        ensures
            final(self).wf(),
            final(self).sink_at_start() == old(self).sink_at_start(),
            final(self).emitted_errors() == old(self).emitted_errors().push(e),
            final(self).emitted_warnings() == old(self).emitted_warnings(),
            r == Result::<(), ToolError>::Err(ToolError::ToolFailure),
    {
        let ghost e_snapshot = e;
        self.observed_error = true;
        self.diagnostics.emit_error(e);
        proof {
            self.errors_log@ = self.errors_log@.push(e_snapshot);
            assert(self.sink().errors_received() =~= self.sink_at_start().errors_received()
                + self.emitted_errors());
        }
        Err(ToolError::ToolFailure)
    }

    /// 1. Notes the indication of an error for later observation.
    /// 2. Sends the error off to be owned by the sink.
    ///
    /// Unlike [`DiagnosticsEmitter::emit_error`] this produces no failure
    /// signal: it is for a tool that wants to continue after reporting.
    pub fn emit_non_fatal_error(&mut self, e: X::Error)
        requires
            old(self).wf(),
        ensures
            final(self).wf(),
            final(self).sink_at_start() == old(self).sink_at_start(),
            final(self).emitted_errors() == old(self).emitted_errors().push(e),
            final(self).emitted_warnings() == old(self).emitted_warnings(),
    {
        let ghost e_snapshot = e;
        self.observed_error = true;
        self.diagnostics.emit_error(e);
        proof {
            self.errors_log@ = self.errors_log@.push(e_snapshot);
            assert(self.sink().errors_received() =~= self.sink_at_start().errors_received()
                + self.emitted_errors());
        }
    }

    /// 1. Notes the indication of the warning for later observation.
    /// 2. Sends the warning off to be owned by the sink.
    pub fn emit_warning(&mut self, w: X::Warning)
        requires
            old(self).wf(),
        ensures
            final(self).wf(),
            final(self).sink_at_start() == old(self).sink_at_start(),
            final(self).emitted_errors() == old(self).emitted_errors(),
            final(self).emitted_warnings() == old(self).emitted_warnings().push(w),
    {
        let ghost w_snapshot = w;
        self.observed_warning = true;
        self.diagnostics.emit_warning(w);
        proof {
            self.warnings_log@ = self.warnings_log@.push(w_snapshot);
            assert(self.sink().warnings_received() =~= self.sink_at_start().warnings_received()
                + self.emitted_warnings());
        }
    }

    /// Returns whether any errors have been observed during the emitter's
    /// lifetime: `true` if and only if at least one `emit_error` or
    /// `emit_non_fatal_error` call occurred.
    pub fn observed_error(&self) -> (r: bool)
        requires
            self.wf(),
        ensures
            r == (self.emitted_errors().len() > 0),
    {
        self.observed_error
    }

    /// Returns whether any warnings have been observed during the emitter's
    /// lifetime: `true` if and only if at least one `emit_warning` call
    /// occurred.
    pub fn observed_warning(&self) -> (r: bool)
        requires
            self.wf(),
        ensures
            r == (self.emitted_warnings().len() > 0),
    {
        self.observed_warning
    }

    /// Delivers the end-of-stream signal to the sink, exactly once, and hands
    /// the sink back.
    ///
    /// Consuming the emitter is what makes the signal unrepeatable: this
    /// replaces a scope-exit destructor, so whoever creates an emitter must
    /// call this on every path out of the run.
    pub fn finalize(self) -> (d: D)
        requires
            self.wf(),
        ensures
            d.errors_received() == self.sink_at_start().errors_received()
                + self.emitted_errors(),
            d.warnings_received() == self.sink_at_start().warnings_received()
                + self.emitted_warnings(),
            d.times_finalized() == self.sink_at_start().times_finalized() + 1,
    {
        let DiagnosticsEmitter { diagnostics: mut d, .. } = self;
        d.no_more_data();
        d
    }
}

} // verus!
