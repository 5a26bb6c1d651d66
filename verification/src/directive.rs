//! The import-directive mini-language.
//!
//! A directive names the host binding of a guest module and says what to
//! import from it: `binding: from module import function` or
//! `binding: import module`.  No `as`-aliasing is accepted by design: this is
//! a testing tool that validates bindings under their exposed names.

use vstd::prelude::*;
use vstd::string::*;

use crate::tokens::{Diag, DiagKind, Token, TokenV};

verus! {

/// Mathematical value of a parsed directive.
pub struct DirectiveV {
    pub binding: Seq<char>,
    pub module: Seq<char>,
    pub function: Option<Seq<char>>,
}

/// One parsed import directive.
///
/// `binding` is the host identifier of the guest module's constructor,
/// `module` the name the module is registered under, and `function`, when
/// present, the attribute to import and to define a call shorthand for.
/// `function` is `None` for the bare `import module` form.
#[derive(Debug, PartialEq, Eq)]
pub struct ImportDirective {
    pub binding: String,
    pub module: String,
    pub function: Option<String>,
}

impl View for ImportDirective {
    type V = DirectiveV;

    open spec fn view(&self) -> DirectiveV {
        DirectiveV {
            binding: self.binding@,
            module: self.module@,
            function: match self.function {
                Option::Some(f) => Option::Some(f@),
                Option::None => Option::None,
            },
        }
    }
}

impl DeepView for ImportDirective {
    type V = DirectiveV;

    open spec fn deep_view(&self) -> DirectiveV {
        self@
    }
}

/// The two keywords of the directive grammar.
pub open spec fn is_keyword(name: Seq<char>) -> bool {
    name == "from"@ || name == "import"@
}

/// What parsing a directive payload yields: the grammar
/// `binding ':' ('from' module 'import' function | 'import' module)`,
/// applied to the whole token sequence.
///
/// A missing colon is reported at the token preceding the expected colon; an
/// unexpected identifier in a keyword position is reported at that
/// identifier; a missing identifier is reported where it was expected.  The
/// keyword after the module name of the `from` form must be the literal
/// `import`.
pub open spec fn spec_parse_directive(toks: Seq<TokenV>) -> Result<DirectiveV, Diag> {
    if toks.len() < 2 || !(toks[1] is Colon) {
        Err(Diag { kind: DiagKind::ExpectedColon, at: 0 })
    } else if !(toks[0] is Ident) {
        Err(Diag { kind: DiagKind::ExpectedIdent, at: 0 })
    } else if toks.len() < 3 || !(toks[2] is Ident) {
        Err(Diag { kind: DiagKind::ExpectedIdent, at: 2 })
    } else if !is_keyword(toks[2]->name) {
        Err(Diag { kind: DiagKind::ExpectedKeyword, at: 2 })
    } else if toks.len() < 4 || !(toks[3] is Ident) {
        Err(Diag { kind: DiagKind::ExpectedIdent, at: 3 })
    } else if toks[2]->name == "import"@ {
        if toks.len() > 4 {
            Err(Diag { kind: DiagKind::UnexpectedToken, at: 4 })
        } else {
            Ok(DirectiveV { binding: toks[0]->name, module: toks[3]->name, function: Option::None })
        }
    } else {
        if toks.len() < 5 || !(toks[4] is Ident) {
            Err(Diag { kind: DiagKind::ExpectedIdent, at: 4 })
        } else if toks[4]->name != "import"@ {
            Err(Diag { kind: DiagKind::ExpectedKeyword, at: 4 })
        } else if toks.len() < 6 || !(toks[5] is Ident) {
            Err(Diag { kind: DiagKind::ExpectedIdent, at: 5 })
        } else if toks.len() > 6 {
            Err(Diag { kind: DiagKind::UnexpectedToken, at: 6 })
        } else {
            Ok(DirectiveV {
                binding: toks[0]->name,
                module: toks[3]->name,
                function: Option::Some(toks[5]->name),
            })
        }
    }
}

/// The value of a fallible parse, seen at the spec level.
pub open spec fn directive_result_view(r: Result<ImportDirective, Diag>) -> Result<DirectiveV, Diag> {
    match r {
        Ok(d) => Ok(d@),
        Err(e) => Err(e),
    }
}

/// Parse one directive payload.  The result is exactly what the grammar says
/// of the tokens: `Ok` on a well-formed directive, and otherwise the first
/// diagnostic in parse order.
pub fn parse_directive(toks: &Vec<Token>) -> (r: Result<ImportDirective, Diag>)
    ensures
        directive_result_view(r) == spec_parse_directive(toks.deep_view()),
{
    let has_colon = toks.len() >= 2 && (match &toks[1] {
        Token::Colon => true,
        _ => false,
    });
    if !has_colon {
        return Err(Diag { kind: DiagKind::ExpectedColon, at: 0 });
    }
    let binding = match &toks[0] {
        Token::Ident(s) => s.clone(),
        _ => {
            return Err(Diag { kind: DiagKind::ExpectedIdent, at: 0 });
        },
    };
    if toks.len() < 3 {
        return Err(Diag { kind: DiagKind::ExpectedIdent, at: 2 });
    }
    let keyword = match &toks[2] {
        Token::Ident(s) => s.clone(),
        _ => {
            return Err(Diag { kind: DiagKind::ExpectedIdent, at: 2 });
        },
    };
    let keyword_is_import = keyword == String::from_str("import");
    let keyword_is_from = keyword == String::from_str("from");
    if !keyword_is_import && !keyword_is_from {
        return Err(Diag { kind: DiagKind::ExpectedKeyword, at: 2 });
    }
    if toks.len() < 4 {
        return Err(Diag { kind: DiagKind::ExpectedIdent, at: 3 });
    }
    let module = match &toks[3] {
        Token::Ident(s) => s.clone(),
        _ => {
            return Err(Diag { kind: DiagKind::ExpectedIdent, at: 3 });
        },
    };
    if keyword_is_import {
        if toks.len() > 4 {
            return Err(Diag { kind: DiagKind::UnexpectedToken, at: 4 });
        }
        return Ok(ImportDirective { binding, module, function: None });
    }
    if toks.len() < 5 {
        return Err(Diag { kind: DiagKind::ExpectedIdent, at: 4 });
    }
    let second_keyword = match &toks[4] {
        Token::Ident(s) => s.clone(),
        _ => {
            return Err(Diag { kind: DiagKind::ExpectedIdent, at: 4 });
        },
    };
    let second_is_import = second_keyword == String::from_str("import");
    if !second_is_import {
        return Err(Diag { kind: DiagKind::ExpectedKeyword, at: 4 });
    }
    if toks.len() < 6 {
        return Err(Diag { kind: DiagKind::ExpectedIdent, at: 5 });
    }
    let function = match &toks[5] {
        Token::Ident(s) => s.clone(),
        _ => {
            return Err(Diag { kind: DiagKind::ExpectedIdent, at: 5 });
        },
    };
    if toks.len() > 6 {
        return Err(Diag { kind: DiagKind::UnexpectedToken, at: 6 });
    }
    Ok(ImportDirective { binding, module, function: Some(function) })
}

} // verus!
