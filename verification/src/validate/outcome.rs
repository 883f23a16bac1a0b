//! What the validators found: errors and warnings.
use vstd::prelude::*;

verus! {

/// What the store says of one thing it checked.
#[derive(Debug, PartialEq, Eq)]
pub struct ValidationResult {
    /// The collection the finding is about.
    pub collection: String,
    /// Whether the finding is an error, and not only a warning.
    pub error: bool,
    /// The group of checks the finding belongs to.
    pub group: String,
    /// The text of the finding.
    pub message: String,
}

/// What a `ValidationResult` holds.
pub struct ValidationResultView {
    pub collection: Seq<char>,
    pub error: bool,
    pub group: Seq<char>,
    pub message: Seq<char>,
}

impl View for ValidationResult {
    type V = ValidationResultView;

    open spec fn view(&self) -> ValidationResultView {
        ValidationResultView {
            collection: self.collection@,
            error: self.error,
            group: self.group@,
            message: self.message@,
        }
    }
}

impl DeepView for ValidationResult {
    type V = ValidationResultView;

    open spec fn deep_view(&self) -> ValidationResultView {
        self@
    }
}

impl Clone for ValidationResult {
    fn clone(&self) -> (out: Self)
        ensures
            out@ == self@,
    {
        ValidationResult {
            collection: self.collection.clone(),
            error: self.error,
            group: self.group.clone(),
            message: self.message.clone(),
        }
    }
}

impl ValidationResult {
    /// A finding that is an error.
    pub fn error(collection: &str, message: &str, group: &str) -> (result: ValidationResult)
        ensures
            result@ == (ValidationResultView {
                collection: collection@,
                error: true,
                group: group@,
                message: message@,
            }),
    {
        ValidationResult {
            collection: collection.to_owned(),
            error: true,
            group: group.to_owned(),
            message: message.to_owned(),
        }
    }

    /// A finding that is a warning.
    pub fn result(collection: &str, message: &str, group: &str) -> (result: ValidationResult)
        ensures
            result@ == (ValidationResultView {
                collection: collection@,
                error: false,
                group: group@,
                message: message@,
            }),
    {
        ValidationResult {
            collection: collection.to_owned(),
            error: false,
            group: group.to_owned(),
            message: message.to_owned(),
        }
    }
}

/// An error that a validator found.
#[derive(Debug, PartialEq, Eq)]
pub enum Error {
    /// Something failed; the text says what.
    GenericError(String),
    /// The store found an error in its schema.
    StoreValidationError(ValidationResult),
    /// A record cannot be decoded: the collection, the identifier of the
    /// record, and the text that says why.
    UnableToParseModel(String, String, String),
}

/// What an `Error` holds.
pub enum ErrorView {
    GenericError(Seq<char>),
    StoreValidationError(ValidationResultView),
    UnableToParseModel(Seq<char>, Seq<char>, Seq<char>),
}

impl View for Error {
    type V = ErrorView;

    open spec fn view(&self) -> ErrorView {
        match self {
            Error::GenericError(text) => ErrorView::GenericError(text@),
            Error::StoreValidationError(result) => ErrorView::StoreValidationError(result@),
            Error::UnableToParseModel(collection, id, message) => ErrorView::UnableToParseModel(
                collection@,
                id@,
                message@,
            ),
        }
    }
}

impl DeepView for Error {
    type V = ErrorView;

    open spec fn deep_view(&self) -> ErrorView {
        self@
    }
}

/// A warning that a validator found.
#[derive(Debug, PartialEq, Eq)]
pub enum Warning {
    /// A value is below what is advised: the text that says which, the
    /// value, and the threshold.
    BelowThreshold(String, u64, u64),
    /// The store found something to warn about in its schema.
    StoreValidationWarning(ValidationResult),
}

/// What a `Warning` holds.
pub enum WarningView {
    BelowThreshold(Seq<char>, u64, u64),
    StoreValidationWarning(ValidationResultView),
}

impl View for Warning {
    type V = WarningView;

    open spec fn view(&self) -> WarningView {
        match self {
            Warning::BelowThreshold(text, value, threshold) => WarningView::BelowThreshold(
                text@,
                *value,
                *threshold,
            ),
            Warning::StoreValidationWarning(result) => WarningView::StoreValidationWarning(
                result@,
            ),
        }
    }
}

impl DeepView for Warning {
    type V = WarningView;

    open spec fn deep_view(&self) -> WarningView {
        self@
    }
}

/// How a validation ended.
#[derive(Clone, Copy, Debug, PartialEq, Eq, Structural)]
pub enum Verdict {
    /// Nothing was found.
    Passed,
    /// Warnings were found, and no error.
    PassedWithWarnings,
    /// At least one error was found.
    Failed,
}

/// Collects what the validators find.
pub struct Outcomes {
    errors: Vec<Error>,
    warnings: Vec<Warning>,
}

/// What an `Outcomes` holds: the errors and the warnings, each in the order found.
pub struct OutcomesView {
    pub errors: Seq<ErrorView>,
    pub warnings: Seq<WarningView>,
}

impl OutcomesView {
    /// How the validation ended: failed if any error was found, passed with
    /// warnings if only warnings were, passed otherwise.
    pub open spec fn verdict(self) -> Verdict {
        if self.errors.len() > 0 {
            Verdict::Failed
        } else if self.warnings.len() > 0 {
            Verdict::PassedWithWarnings
        } else {
            Verdict::Passed
        }
    }

    /// The code with which the process exits: 1 if any error was found, 0
    /// otherwise, warnings or not.
    pub open spec fn exit_code(self) -> i32 {
        if self.errors.len() > 0 {
            1
        } else {
            0
        }
    }
}

impl View for Outcomes {
    type V = OutcomesView;

    closed spec fn view(&self) -> OutcomesView {
        OutcomesView { errors: self.errors.deep_view(), warnings: self.warnings.deep_view() }
    }
}

impl Outcomes {
    /// Nothing found yet.
    pub fn new() -> (outcomes: Outcomes)
        ensures
            outcomes@ == (OutcomesView { errors: Seq::empty(), warnings: Seq::empty() }),
    {
        let outcomes = Outcomes { errors: Vec::new(), warnings: Vec::new() };
        assert(outcomes@.errors =~= Seq::empty());
        assert(outcomes@.warnings =~= Seq::empty());
        outcomes
    }

    /// Record an error.
    pub fn error(&mut self, error: Error)
        ensures
            final(self)@ == (OutcomesView {
                errors: old(self)@.errors.push(error@),
                ..old(self)@
            }),
    {
        let ghost before = self.errors.deep_view();
        let ghost shown = error@;
        self.errors.push(error);
        assert(self.errors.deep_view() =~= before.push(shown));
    }

    /// Record a warning.
    pub fn warn(&mut self, warning: Warning)
        ensures
            final(self)@ == (OutcomesView {
                warnings: old(self)@.warnings.push(warning@),
                ..old(self)@
            }),
    {
        let ghost before = self.warnings.deep_view();
        let ghost shown = warning@;
        self.warnings.push(warning);
        assert(self.warnings.deep_view() =~= before.push(shown));
    }

    /// Take over what `other` found, behind what was found here.
    pub fn extend(&mut self, other: Outcomes)
        ensures
            final(self)@ == (OutcomesView {
                errors: old(self)@.errors + other@.errors,
                warnings: old(self)@.warnings + other@.warnings,
            }),
    {
        let ghost errors_before = self.errors.deep_view();
        let ghost warnings_before = self.warnings.deep_view();
        let Outcomes { errors, warnings } = other;
        let mut errors = errors;
        let mut warnings = warnings;
        let ghost added_errors = errors.deep_view();
        let ghost added_warnings = warnings.deep_view();
        self.errors.append(&mut errors);
        self.warnings.append(&mut warnings);
        assert(self.errors.deep_view() =~= errors_before + added_errors);
        assert(self.warnings.deep_view() =~= warnings_before + added_warnings);
    }

    /// Whether any error was found.
    pub fn has_errors(&self) -> (found: bool)
        ensures
            found == (self@.errors.len() > 0),
    {
        self.errors.len() > 0
    }

    /// Whether any warning was found.
    pub fn has_warnings(&self) -> (found: bool)
        ensures
            found == (self@.warnings.len() > 0),
    {
        self.warnings.len() > 0
    }

    /// The errors that were found, in the order found.
    pub fn errors(&self) -> (errors: &Vec<Error>)
        ensures
            errors.deep_view() == self@.errors,
    {
        &self.errors
    }

    /// The warnings that were found, in the order found.
    pub fn warnings(&self) -> (warnings: &Vec<Warning>)
        ensures
            warnings.deep_view() == self@.warnings,
    {
        &self.warnings
    }

    /// How the validation ended.
    pub fn verdict(&self) -> (verdict: Verdict)
        ensures
            verdict == self@.verdict(),
    {
        if self.has_errors() {
            Verdict::Failed
        } else if self.has_warnings() {
            Verdict::PassedWithWarnings
        } else {
            Verdict::Passed
        }
    }

    /// The code with which the process exits.
    pub fn exit_code(&self) -> (code: i32)
        ensures
            code == self@.exit_code(),
            code != 0 <==> self@.errors.len() > 0,
    {
        if self.has_errors() {
            1
        } else {
            0
        }
    }
}

} // verus!
