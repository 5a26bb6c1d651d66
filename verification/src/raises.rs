//! The exception-assertion expander.
//!
//! An invocation `ExpectedError, { guarded block }` expands to a match on the
//! guarded block's two-variant outcome: success aborts with `"No Error"`, a
//! failure whose runtime type matches the expected error returns early from
//! the enclosing function, and any other failure aborts with `"Wrong Error"`.
//! The construct is only valid where a session token `py` is already in
//! lexical scope; it performs no session management of its own.

use vstd::prelude::*;
use vstd::string::*;

use crate::tokens::{Diag, DiagKind, Token, TokenV};

verus! {

/// Mathematical value of a parsed assertion.
pub struct RaisesAssertionV {
    pub err: Seq<char>,
    pub block: Seq<char>,
}

/// One parsed exception assertion: the expected error's identifier and the
/// guarded block's source text, kept verbatim.  Created per invocation,
/// expanded exactly once, then discarded.
#[derive(Debug, PartialEq, Eq)]
pub struct RaisesAssertion {
    pub err: String,
    pub block: String,
}

impl View for RaisesAssertion {
    type V = RaisesAssertionV;

    open spec fn view(&self) -> RaisesAssertionV {
        RaisesAssertionV { err: self.err@, block: self.block@ }
    }
}

/// What parsing an assertion invocation yields: the grammar
/// `error_identifier ',' braced_block`, applied to the whole token sequence.
/// A missing comma is reported at the error identifier; a missing or
/// malformed block is reported where the block was expected; both carry the
/// fixed corrective example.
pub open spec fn spec_parse_raises(toks: Seq<TokenV>) -> Result<RaisesAssertionV, Diag> {
    if toks.len() < 1 || !(toks[0] is Ident) {
        Err(Diag { kind: DiagKind::ExpectedIdent, at: 0 })
    } else if toks.len() < 2 || !(toks[1] is Comma) {
        Err(Diag { kind: DiagKind::ExpectedComma, at: 0 })
    } else if toks.len() < 3 || !(toks[2] is Brace) {
        Err(Diag { kind: DiagKind::ExpectedBlock, at: 2 })
    } else if toks.len() > 3 {
        Err(Diag { kind: DiagKind::UnexpectedToken, at: 3 })
    } else {
        Ok(RaisesAssertionV { err: toks[0]->name, block: toks[2]->body })
    }
}

/// The value of a fallible parse, seen at the spec level.
pub open spec fn raises_result_view(r: Result<RaisesAssertion, Diag>) -> Result<
    RaisesAssertionV,
    Diag,
> {
    match r {
        Ok(a) => Ok(a@),
        Err(e) => Err(e),
    }
}

/// Parse one assertion invocation.  The result is exactly what the grammar
/// says of the tokens: `Ok` on a well-formed invocation, and otherwise the
/// first diagnostic in parse order.
pub fn parse_raises(toks: &Vec<Token>) -> (r: Result<RaisesAssertion, Diag>)
    ensures
        raises_result_view(r) == spec_parse_raises(toks.deep_view()),
{
    if toks.len() < 1 {
        return Err(Diag { kind: DiagKind::ExpectedIdent, at: 0 });
    }
    let err = match &toks[0] {
        Token::Ident(s) => s.clone(),
        _ => {
            return Err(Diag { kind: DiagKind::ExpectedIdent, at: 0 });
        },
    };
    let has_comma = toks.len() >= 2 && (match &toks[1] {
        Token::Comma => true,
        _ => false,
    });
    if !has_comma {
        return Err(Diag { kind: DiagKind::ExpectedComma, at: 0 });
    }
    if toks.len() < 3 {
        return Err(Diag { kind: DiagKind::ExpectedBlock, at: 2 });
    }
    let block = match &toks[2] {
        Token::Brace(s) => s.clone(),
        _ => {
            return Err(Diag { kind: DiagKind::ExpectedBlock, at: 2 });
        },
    };
    if toks.len() > 3 {
        return Err(Diag { kind: DiagKind::UnexpectedToken, at: 3 });
    }
    Ok(RaisesAssertion { err, block })
}

/// The expansion's text: evaluate the guarded block, abort on success, return
/// early on the expected error, abort on any other error.  The type check
/// `is_instance_of` needs the session token `py` in scope.
pub open spec fn text_raises(a: RaisesAssertionV) -> Seq<char> {
    "match { "@ + a.block
        + " } {\n    Ok(_) => panic!(\"No Error\"),\n    Err(error) if error.is_instance_of::<"@
        + a.err + ">(py) => return (),\n    Err(_) => panic!(\"Wrong Error\"),\n}\n"@
}

/// Render the assertion's expansion.  The text is a pure function of the
/// assertion's value: expanding equal assertions gives byte-identical text.
pub fn expand_raises(a: &RaisesAssertion) -> (r: String)
    ensures
        r@ == text_raises(a@),
{
    let mut out = String::from_str("match { ");
    out.append(a.block.as_str());
    out.append(
        " } {\n    Ok(_) => panic!(\"No Error\"),\n    Err(error) if error.is_instance_of::<",
    );
    out.append(a.err.as_str());
    out.append(">(py) => return (),\n    Err(_) => panic!(\"Wrong Error\"),\n}\n");
    out
}

/// What expanding a raw invocation yields: the expansion of its parse, or the
/// parse's diagnostic.
pub open spec fn spec_expand_with_py_raises(toks: Seq<TokenV>) -> Result<Seq<char>, Diag> {
    match spec_parse_raises(toks) {
        Ok(a) => Ok(text_raises(a)),
        Err(e) => Err(e),
    }
}

/// Expand one assertion invocation from its tokens: parse, then render.
pub fn impl_with_py_raises(toks: &Vec<Token>) -> (r: Result<String, Diag>)
    ensures
        crate::tokens::string_result_view(r) == spec_expand_with_py_raises(toks.deep_view()),
{
    match parse_raises(toks) {
        Ok(a) => Ok(expand_raises(&a)),
        Err(e) => Err(e),
    }
}

/// Law: expansion is deterministic.  What an invocation expands to is a pure
/// function of its tokens — [`impl_with_py_raises`] ensures its result equals
/// [`spec_expand_with_py_raises`] of its input — so expanding equal
/// invocations, in one process or in two, yields byte-identical text and
/// equal diagnostics.
pub proof fn lemma_raises_expansion_deterministic(t1: Seq<TokenV>, t2: Seq<TokenV>)
    requires
        t1 == t2,
    ensures
        spec_expand_with_py_raises(t1) == spec_expand_with_py_raises(t2),
{
}

/// How the expanded construct leaves the enclosing test.
#[derive(Debug, Clone, Copy, PartialEq, Eq, Structural)]
pub enum AssertionOutcome {
    /// The guarded block raised the expected error: exit the enclosing
    /// function early with a unit result.
    EarlyReturn,
    /// The guarded block succeeded: abort with `"No Error"`.
    AbortNoError,
    /// The guarded block raised an error of another type: abort with
    /// `"Wrong Error"`.
    AbortWrongError,
}

/// The construct's runtime semantics over the guarded block's outcome:
/// `succeeded` says the block took its success variant, and
/// `error_matches` is the runtime's type-classification verdict on the
/// raised error (consulted only when the block failed).
pub open spec fn spec_assertion_outcome(succeeded: bool, error_matches: bool) -> AssertionOutcome {
    if succeeded {
        AssertionOutcome::AbortNoError
    } else if error_matches {
        AssertionOutcome::EarlyReturn
    } else {
        AssertionOutcome::AbortWrongError
    }
}

/// Decide how the expanded construct leaves the test, given the guarded
/// block's outcome and the runtime's classification of the raised error.
pub fn assertion_outcome(succeeded: bool, error_matches: bool) -> (o: AssertionOutcome)
    ensures
        o == spec_assertion_outcome(succeeded, error_matches),
{
    if succeeded {
        AssertionOutcome::AbortNoError
    } else if error_matches {
        AssertionOutcome::EarlyReturn
    } else {
        AssertionOutcome::AbortWrongError
    }
}

/// The abort message of each outcome; `None` for the early return.
pub open spec fn spec_abort_message(o: AssertionOutcome) -> Option<Seq<char>> {
    match o {
        AssertionOutcome::EarlyReturn => Option::None,
        AssertionOutcome::AbortNoError => Option::Some("No Error"@),
        AssertionOutcome::AbortWrongError => Option::Some("Wrong Error"@),
    }
}

impl AssertionOutcome {
    /// The message the outcome aborts with, if it aborts.
    pub fn abort_message(&self) -> (r: Option<String>)
        ensures
            match r {
                Option::Some(s) => spec_abort_message(*self) == Option::Some(s@),
                Option::None => spec_abort_message(*self) == Option::<Seq<char>>::None,
            },
    {
        match self {
            AssertionOutcome::EarlyReturn => None,
            AssertionOutcome::AbortNoError => Some(String::from_str("No Error")),
            AssertionOutcome::AbortWrongError => Some(String::from_str("Wrong Error")),
        }
    }
}

} // verus!
