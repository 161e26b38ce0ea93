//! The default driver selector, its argument types, and a simple diagnostics
//! sink backed by vectors.

use vstd::prelude::*;

use crate::diagnostics::Diagnostics;
use crate::driver::DriverSelector;
use crate::driver::DriverTypes;
use crate::driver::DriverOutput;
use crate::tool::Tool;
use crate::Args;
use crate::InternalDefault;
use crate::InternalTrait;

verus! {

/// A [`DriverSelector`] for the default driver.
pub struct DefaultDriver;

impl InternalTrait for DefaultDriver {

}

impl DriverSelector for DefaultDriver {

}

impl Args for DefaultDriver {
    type RequiredArgs = DriverArgs;

    type OptionalArgs = DriverOptionalArgs;
}

impl<X: Tool> DriverTypes<X> for DefaultDriver {
    type Output = DriverOutput<X>;
}

/// Required options for a driver.
pub struct DriverArgs {
    // There are not currently any required options for the driver.
}

/// Optional arguments for a driver.
///
/// Each field is an independent source-acquisition strategy; unset fields are
/// no-ops, and several may be combined in one run. Obtaining text from the
/// filesystem is the business of the code around the driver: the `read_source`
/// field carries the path a configured file was to be read from together with
/// the outcome of that read, so that a failed read surfaces as a driver-level
/// I/O error before the tool runs.
pub struct DriverOptionalArgs {
    /// Gives an arbitrary string a name.
    pub named_string: Option<(String, String)>,
    /// A configured file source: the path it names, and the text read from
    /// it, or the rendered message of the I/O failure that reading produced.
    pub read_source: Option<(String, Result<String, String>)>,
    pub _non_exhaustive: InternalDefault,
}

impl DriverOptionalArgs {
    /// The (path, text) pair of the named-string strategy, if set.
    pub open spec fn named_part(self) -> Seq<(Seq<char>, Seq<char>)> {
        match self.named_string {
            Some(p) => seq![(p.0@, p.1@)],
            None => Seq::empty(),
        }
    }

    /// The (path, text) pair of the read-from-file strategy, if it is set and
    /// the read succeeded.
    pub open spec fn read_part(self) -> Seq<(Seq<char>, Seq<char>)> {
        match self.read_source {
            Some(p) => match p.1 {
                Ok(text) => seq![(p.0@, text@)],
                Err(_) => Seq::empty(),
            },
            None => Seq::empty(),
        }
    }

    /// The (path, text) pairs a fully successful resolution loads, in order.
    pub open spec fn resolved_sources(self) -> Seq<(Seq<char>, Seq<char>)> {
        self.named_part() + self.read_part()
    }

    /// The message of the I/O failure that resolution runs into, if any.
    pub open spec fn io_failure(self) -> Option<Seq<char>> {
        match self.read_source {
            Some(p) => match p.1 {
                Ok(_) => None,
                Err(message) => Some(message@),
            },
            None => None,
        }
    }
}

impl Default for DriverOptionalArgs {
    fn default() -> (d: Self)
        ensures
            d.named_string is None,
            d.read_source is None,
    {
        DriverOptionalArgs {
            named_string: None,
            read_source: None,
            _non_exhaustive: InternalDefault {  },
        }
    }
}

/// What the caller hands to the default driver: the diagnostics sink the run
/// reports into, and the tool instance.
pub struct DefaultDriverEnv<X: Tool, D: Diagnostics<X>> {
    pub diagnostics: D,
    pub tool: X,
}

/// A simple implementation of the [`Diagnostics`] trait. It uses a vector as
/// a backing store for the diagnostics it takes ownership of.
pub struct SimpleDiagnostics<X: Tool> {
    warnings: Vec<X::Warning>,
    errors: Vec<X::Error>,
    finalizations: Ghost<nat>,
}

impl<X: Tool> Default for SimpleDiagnostics<X> {
    fn default() -> (d: Self)
        ensures
            d.errors_received() == Seq::<X::Error>::empty(),
            d.warnings_received() == Seq::<X::Warning>::empty(),
            d.times_finalized() == 0,
    {
        SimpleDiagnostics { warnings: Vec::new(), errors: Vec::new(), finalizations: Ghost(0) }
    }
}

impl<X: Tool> SimpleDiagnostics<X> {
    /// The errors taken ownership of so far, oldest first.
    pub fn errors(&self) -> (r: &Vec<X::Error>)
        ensures
            r@ == self.errors_received(),
    {
        &self.errors
    }

    /// The warnings taken ownership of so far, oldest first.
    pub fn warnings(&self) -> (r: &Vec<X::Warning>)
        ensures
            r@ == self.warnings_received(),
    {
        &self.warnings
    }
}

impl<X: Tool> Diagnostics<X> for SimpleDiagnostics<X> {
    closed spec fn errors_received(&self) -> Seq<X::Error> {
        self.errors@
    }

    closed spec fn warnings_received(&self) -> Seq<X::Warning> {
        self.warnings@
    }

    closed spec fn times_finalized(&self) -> nat {
        self.finalizations@
    }

    fn emit_error(&mut self, error: X::Error) {
        self.errors.push(error);
    }

    fn emit_warning(&mut self, warning: X::Warning) {
        self.warnings.push(warning);
    }

    fn no_more_data(&mut self) {
        self.finalizations = Ghost(self.finalizations@ + 1);
    }
}

} // verus!
