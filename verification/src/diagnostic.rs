//! What the encoder reports about the values it had to leave out.

use vstd::prelude::*;

verus! {

/// Why an entry was left out of the document.
#[derive(Clone, Copy, PartialEq, Eq, Debug)]
pub enum DiagnosticKind {
    /// The value has a shape that has no place in the document.
    UnsupportedShape,
    /// An unsigned number is above the largest 64-bit signed integer.
    NumericOverflow,
}

/// One omission: its reason, and the key or type that it concerns.
pub struct Diagnostic {
    pub kind: DiagnosticKind,
    pub subject: String,
}

pub struct DiagnosticView {
    pub kind: DiagnosticKind,
    pub subject: Seq<char>,
}

impl View for Diagnostic {
    type V = DiagnosticView;

    open spec fn view(&self) -> DiagnosticView {
        DiagnosticView { kind: self.kind, subject: self.subject@ }
    }
}

/// The views of a list of diagnostics, in order.
pub open spec fn diagnostics_view(list: Seq<Diagnostic>) -> Seq<DiagnosticView> {
    list.map_values(|d: Diagnostic| d@)
}

/// A list that holds one diagnostic.
pub open spec fn single(kind: DiagnosticKind, subject: Seq<char>) -> Seq<DiagnosticView> {
    seq![DiagnosticView { kind, subject }]
}

/// Appends one diagnostic about `subject`.
pub fn report(diagnostics: &mut Vec<Diagnostic>, kind: DiagnosticKind, subject: &str)
    ensures
        diagnostics_view(final(diagnostics)@) == diagnostics_view(old(diagnostics)@) + single(
            kind,
            subject@,
        ),
{
    let ghost before = diagnostics@;
    let diagnostic = Diagnostic { kind, subject: subject.to_owned() };
    diagnostics.push(diagnostic);
    proof {
        assert(diagnostics_view(diagnostics@) =~= diagnostics_view(before) + single(
            kind,
            subject@,
        ));
    }
}

} // verus!
