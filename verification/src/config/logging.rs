//! Configuration of what is logged.
use vstd::prelude::*;

verus! {

/// How much is logged.
#[derive(Clone, Copy, Debug, PartialEq, Eq, Structural)]
pub enum LoggingLevel {
    Critical,
    Error,
    Warning,
    Info,
    Debug,
}

impl View for LoggingLevel {
    type V = LoggingLevel;

    open spec fn view(&self) -> LoggingLevel {
        *self
    }
}

impl DeepView for LoggingLevel {
    type V = LoggingLevel;

    open spec fn deep_view(&self) -> LoggingLevel {
        *self
    }
}

/// Logging configuration options.
#[derive(Debug, PartialEq, Eq)]
pub struct LoggingConfig {
    /// How much is logged by everything that has no level of its own.
    pub level: LoggingLevel,
    /// The level of single modules, by their prefix.
    pub modules: Vec<(String, LoggingLevel)>,
    /// Whether the level `Debug` applies to everything, and not only to the
    /// control plane itself.
    pub verbose: bool,
}

/// What a `LoggingConfig` holds.
pub struct LoggingConfigView {
    pub level: LoggingLevel,
    pub modules: Seq<(Seq<char>, LoggingLevel)>,
    pub verbose: bool,
}

impl View for LoggingConfig {
    type V = LoggingConfigView;

    open spec fn view(&self) -> LoggingConfigView {
        LoggingConfigView {
            level: self.level,
            modules: self.modules.deep_view(),
            verbose: self.verbose,
        }
    }
}

/// Whether a level is set for the module `name`.
pub open spec fn has_module(modules: Seq<(Seq<char>, LoggingLevel)>, name: Seq<char>) -> bool {
    exists|i: int| 0 <= i < modules.len() && (#[trigger] modules[i]).0 == name
}

impl LoggingConfigView {
    /// The configuration with the rule for the level `Debug` applied: unless
    /// the configuration is verbose, `Debug` lowers everything to `Info` and
    /// keeps `Debug` for the control plane itself, where the control plane
    /// has no level of its own.
    pub open spec fn transformed(self) -> LoggingConfigView {
        if self.level == LoggingLevel::Debug && !self.verbose {
            LoggingConfigView {
                level: LoggingLevel::Info,
                modules: if has_module(self.modules, "replicante"@) {
                    self.modules
                } else {
                    self.modules.push(("replicante"@, LoggingLevel::Debug))
                },
                verbose: self.verbose,
            }
        } else {
            self
        }
    }
}

impl Default for LoggingConfig {
    fn default() -> (config: LoggingConfig)
        ensures
            config@ == (LoggingConfigView {
                level: LoggingLevel::Info,
                modules: Seq::empty(),
                verbose: false,
            }),
    {
        let modules: Vec<(String, LoggingLevel)> = Vec::new();
        assert(modules.deep_view() =~= Seq::empty());
        LoggingConfig { level: LoggingLevel::Info, modules, verbose: false }
    }
}

impl LoggingConfig {
    fn has_module(&self, name: &str) -> (found: bool)
        ensures
            found == has_module(self@.modules, name@),
    {
        let mut i: usize = 0;
        while i < self.modules.len()
            invariant
                i <= self.modules.len(),
                forall|j: int| 0 <= j < i ==> (#[trigger] self@.modules[j]).0 != name@,
            decreases self.modules.len() - i,
        {
            if crate::text::str_eq(self.modules[i].0.as_str(), name) {
                assert(self@.modules[i as int].0 == name@);
                return true;
            }
            i += 1;
        }
        false
    }

    /// Apply the rule for the level `Debug`.
    pub fn transform(self) -> (out: LoggingConfig)
        ensures
            out@ == self@.transformed(),
    {
        let mut out = self;
        let debug = match out.level {
            LoggingLevel::Debug => true,
            _ => false,
        };
        if debug && !out.verbose {
            out.level = LoggingLevel::Info;
            if !out.has_module("replicante") {
                let ghost before = out.modules.deep_view();
                out.modules.push(("replicante".to_owned(), LoggingLevel::Debug));
                assert(out.modules.deep_view() =~= before.push(
                    ("replicante"@, LoggingLevel::Debug),
                ));
            }
        }
        out
    }
}

} // verus!
