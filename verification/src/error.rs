//! Diagnostics: structured, source-located error reports.
//!
//! A failed transformation yields a [`Diagnostic`] in place of generated
//! output. A diagnostic is a non-empty list of reports; the two failure
//! paths of the engine each produce a single report, and
//! [`Diagnostic::into_combine`] merges several diagnostics into one, for
//! callers that validate independently and report everything at once.

use vstd::prelude::*;

use crate::ast::Span;

verus! {

/// One located message of a [`Diagnostic`].
#[derive(Debug, PartialEq, Eq)]
pub struct Report {
    pub span: Span,
    pub message: String,
}

/// The view of a [`Report`].
#[verifier::ext_equal]
pub ghost struct ReportView {
    pub span: Span,
    pub message: Seq<char>,
}

impl DeepView for Report {
    type V = ReportView;

    open spec fn deep_view(&self) -> ReportView {
        ReportView { span: self.span, message: self.message@ }
    }
}

/// A structured error report that replaces generated output on failure.
#[derive(Debug, PartialEq, Eq)]
pub struct Diagnostic {
    pub reports: Vec<Report>,
}

/// The view of a [`Diagnostic`].
#[verifier::ext_equal]
pub ghost struct DiagnosticView {
    pub reports: Seq<ReportView>,
}

impl DeepView for Diagnostic {
    type V = DiagnosticView;

    open spec fn deep_view(&self) -> DiagnosticView {
        DiagnosticView { reports: self.reports.deep_view() }
    }
}

/// The view of a diagnostic holding a single report.
pub open spec fn spec_diagnostic(span: Span, message: Seq<char>) -> DiagnosticView {
    DiagnosticView { reports: seq![ReportView { span, message }] }
}

impl Diagnostic {
    /// A diagnostic with one report at the given location.
    pub fn new(span: Span, message: String) -> (r: Diagnostic)
        ensures
            r.deep_view() == spec_diagnostic(span, message@),
    {
        let mut reports: Vec<Report> = Vec::new();
        reports.push(Report { span, message });
        proof {
            assert(reports.deep_view() =~= seq![ReportView { span, message: message@ }]);
            assert(Diagnostic { reports }.deep_view() =~= spec_diagnostic(span, message@));
        }
        Diagnostic { reports }
    }

    /// Returns `self` extended with the other diagnostic's reports, in
    /// order: `self`'s first, then the other's.
    pub fn into_combine(self, another: Diagnostic) -> (r: Diagnostic)
        ensures
            r.deep_view().reports == self.deep_view().reports + another.deep_view().reports,
    {
        let mut reports = self.reports;
        let mut more = another.reports;
        let ghost old_reports = reports.deep_view();
        let ghost more_reports = more.deep_view();
        reports.append(&mut more);
        proof {
            assert(reports.deep_view() =~= old_reports + more_reports);
        }
        Diagnostic { reports }
    }

    /// The diagnostic as the error case of a result.
    pub fn into_result<T>(self) -> (r: Result<T, Diagnostic>)
        ensures
            r == Result::<T, Diagnostic>::Err(self),
    {
        Err(self)
    }
}

} // verus!
