//! The token model that the two grammars are parsed from, and the
//! generation-time diagnostics they report.

use vstd::prelude::*;
use vstd::string::*;

verus! {

/// Mathematical value of one token: what contracts and spec functions speak of.
pub enum TokenV {
    Ident { name: Seq<char> },
    Colon,
    Comma,
    Brace { body: Seq<char> },
    Other { text: Seq<char> },
}

/// One token of an annotation payload or of an assertion invocation.
///
/// An `Ident` carries the identifier's text; a `Brace` carries the source
/// text between (not including) its braces, kept verbatim; any token that
/// neither grammar inspects beyond its text is `Other`.
#[derive(Debug, PartialEq, Eq)]
pub enum Token {
    Ident(String),
    Colon,
    Comma,
    Brace(String),
    Other(String),
}

impl View for Token {
    type V = TokenV;

    open spec fn view(&self) -> TokenV {
        match self {
            Token::Ident(s) => TokenV::Ident { name: s@ },
            Token::Colon => TokenV::Colon,
            Token::Comma => TokenV::Comma,
            Token::Brace(s) => TokenV::Brace { body: s@ },
            Token::Other(s) => TokenV::Other { text: s@ },
        }
    }
}

impl DeepView for Token {
    type V = TokenV;

    open spec fn deep_view(&self) -> TokenV {
        self@
    }
}

/// The kinds of generation-time diagnostic, each with a fixed message.
#[derive(Debug, Clone, Copy, PartialEq, Eq, Structural)]
pub enum DiagKind {
    /// The second token of a directive is not a colon.
    ExpectedColon,
    /// A keyword position holds an identifier other than `from` or `import`.
    ExpectedKeyword,
    /// An identifier (or keyword) position holds no identifier.
    ExpectedIdent,
    /// The assertion's expected-error identifier is not followed by a comma.
    ExpectedComma,
    /// The assertion's comma is not followed by a braced block.
    ExpectedBlock,
    /// Tokens remain after a complete parse.
    UnexpectedToken,
}

/// A generation-time diagnostic: a fixed message, anchored at the index of a
/// token of the offending payload (one past the end when a token is missing).
#[derive(Debug, Clone, Copy, PartialEq, Eq, Structural)]
pub struct Diag {
    pub kind: DiagKind,
    pub at: usize,
}

/// The corrective example appended to the assertion grammar's diagnostics.
pub open spec fn example_text() -> Seq<char> {
    "\nCorrect format for with_py_raises is: `Error Type` `Comma: [,]` `{block in braces}`\nE.g.: `with_py_raises!(PyTypeError, { addone.call1((\"4\",)) })`"@
}

/// The message carried by each diagnostic kind.
pub open spec fn diag_text(kind: DiagKind) -> Seq<char> {
    match kind {
        DiagKind::ExpectedColon => "invalid import statement: expected a colon (':') after this"@,
        DiagKind::ExpectedKeyword => "invalid import statement: expected 'from' or 'import' here"@,
        DiagKind::ExpectedIdent => "expected identifier"@,
        DiagKind::ExpectedComma => "Expected a comma (`,`) after this:"@ + example_text(),
        DiagKind::ExpectedBlock => "Expected a code block with braces (`{ ... }`) here:"@ + example_text(),
        DiagKind::UnexpectedToken => "unexpected token"@,
    }
}

/// The value of a fallible expansion, seen at the spec level.
pub open spec fn string_result_view(r: Result<String, Diag>) -> Result<Seq<char>, Diag> {
    match r {
        Ok(s) => Ok(s@),
        Err(e) => Err(e),
    }
}

/// The corrective example as an owned string.
fn example_string() -> (r: String)
    ensures
        r@ == example_text(),
{
    String::from_str("\nCorrect format for with_py_raises is: `Error Type` `Comma: [,]` `{block in braces}`\nE.g.: `with_py_raises!(PyTypeError, { addone.call1((\"4\",)) })`")
}

impl Diag {
    /// The diagnostic's message text.
    pub fn message(&self) -> (r: String)
        ensures
            r@ == diag_text(self.kind),
    {
        match self.kind {
            DiagKind::ExpectedColon => String::from_str(
                "invalid import statement: expected a colon (':') after this",
            ),
            DiagKind::ExpectedKeyword => String::from_str(
                "invalid import statement: expected 'from' or 'import' here",
            ),
            DiagKind::ExpectedIdent => String::from_str("expected identifier"),
            DiagKind::ExpectedComma => {
                let mut s = String::from_str("Expected a comma (`,`) after this:");
                let example = example_string();
                s.append(example.as_str());
                s
            },
            DiagKind::ExpectedBlock => {
                let mut s = String::from_str("Expected a code block with braces (`{ ... }`) here:");
                let example = example_string();
                s.append(example.as_str());
                s
            },
            DiagKind::UnexpectedToken => String::from_str("unexpected token"),
        }
    }
}

} // verus!
