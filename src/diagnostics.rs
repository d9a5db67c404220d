//! Diagnostics reported by the stages, and their view.
use vstd::prelude::*;

use crate::ast::Span;
use crate::token::Token;

verus! {

#[derive(Clone, Copy, Debug, PartialEq, Eq, Structural)]
pub enum Severity {
    Error,
    Note,
}

#[derive(Debug)]
pub enum DiagnosticKind {
    DuplicateVariableDeclaration { name: String },
    UseOfUndeclaredVariable { name: String },
    UnknownToken(Token),
    Custom(String),
}

/// Supplementary context attached to a diagnostic.
#[derive(Debug)]
pub struct Note {
    pub span: Span,
    pub message: String,
}

#[derive(Debug)]
pub struct Diagnostic {
    pub severity: Severity,
    pub span: Span,
    pub kind: DiagnosticKind,
    pub notes: Vec<Note>,
}

pub enum KindV {
    DuplicateVariableDeclaration { name: Seq<char> },
    UseOfUndeclaredVariable { name: Seq<char> },
    UnknownToken(Token),
    Custom(Seq<char>),
}

pub struct DiagV {
    pub severity: Severity,
    pub span: Span,
    pub kind: KindV,
    pub notes: Seq<(Span, Seq<char>)>,
}

impl View for DiagnosticKind {
    type V = KindV;

    open spec fn view(&self) -> KindV {
        match self {
            DiagnosticKind::DuplicateVariableDeclaration { name } =>
                KindV::DuplicateVariableDeclaration { name: name@ },
            DiagnosticKind::UseOfUndeclaredVariable { name } =>
                KindV::UseOfUndeclaredVariable { name: name@ },
            DiagnosticKind::UnknownToken(t) => KindV::UnknownToken(*t),
            DiagnosticKind::Custom(m) => KindV::Custom(m@),
        }
    }
}

impl View for Note {
    type V = (Span, Seq<char>);

    open spec fn view(&self) -> (Span, Seq<char>) {
        (self.span, self.message@)
    }
}

impl View for Diagnostic {
    type V = DiagV;

    open spec fn view(&self) -> DiagV {
        DiagV {
            severity: self.severity,
            span: self.span,
            kind: self.kind@,
            notes: self.notes@.map_values(|n: Note| n@),
        }
    }
}

/// The views of a list of diagnostics.
pub open spec fn diags_view(ds: Seq<Diagnostic>) -> Seq<DiagV> {
    ds.map_values(|d: Diagnostic| d@)
}

/// An error with no notes.
pub open spec fn error_of(span: Span, kind: KindV) -> DiagV {
    DiagV { severity: Severity::Error, span, kind, notes: Seq::empty() }
}

impl DiagnosticKind {
    pub fn new_custom(message: String) -> (r: DiagnosticKind)
        ensures
            r@ == KindV::Custom(message@),
    {
        DiagnosticKind::Custom(message)
    }
}

impl Diagnostic {
    pub fn error(span: Span, kind: DiagnosticKind) -> (r: Diagnostic)
        ensures
            r@ == error_of(span, kind@),
    {
        let r = Diagnostic { severity: Severity::Error, span, kind, notes: Vec::new() };
        assert(r@.notes =~= Seq::empty());
        r
    }

    /// Attaches a note that points at `span`.
    pub fn with(self, span: Span, message: String) -> (r: Diagnostic)
        ensures
            r@.severity == self@.severity,
            r@.span == self@.span,
            r@.kind == self@.kind,
            r@.notes == self@.notes.push((span, message@)),
    {
        let mut notes = self.notes;
        notes.push(Note { span, message });
        let r = Diagnostic { severity: self.severity, span: self.span, kind: self.kind, notes };
        assert(r@.notes =~= self@.notes.push((span, message@)));
        r
    }

    pub fn is_error(&self) -> (r: bool)
        ensures
            r == (self.severity == Severity::Error),
    {
        self.severity == Severity::Error
    }
}

} // verus!
