//! Rendering the expanded test to source text.
//!
//! Every rendering function takes the text produced so far and returns it
//! with its own contribution appended, and its specification is the same
//! template stated over sequences of characters, so the output text is pinned
//! exactly, byte for byte.

use vstd::prelude::*;
use vstd::string::*;

use crate::extract::{Annotation, AnnotationV};
use crate::generate::{ExpandedTest, ExpandedTestV, FunctionSetup, FunctionSetupV, ModuleSetup,
    ModuleSetupV};
use crate::tokens::{Token, TokenV};

verus! {

/// The abort message of a failed module construction or registration.
pub open spec fn module_error_text(module: Seq<char>) -> Seq<char> {
    "Failed to import "@ + module
}

/// The abort message of a failed attribute fetch.
pub open spec fn function_error_text(function: Seq<char>) -> Seq<char> {
    "Failed to get "@ + function + " function"@
}

/// The abort message naming the module that failed to import.
pub fn module_error_message(module: &str) -> (r: String)
    ensures
        r@ == module_error_text(module@),
{
    let mut s = String::from_str("Failed to import ");
    s.append(module);
    s
}

/// The abort message naming the function that failed to bind.
pub fn function_error_message(function: &str) -> (r: String)
    ensures
        r@ == function_error_text(function@),
{
    let mut s = String::from_str("Failed to get ");
    s.append(function);
    s.append(" function");
    s
}

/// One token's text.
pub open spec fn text_token(acc: Seq<char>, t: TokenV) -> Seq<char> {
    match t {
        TokenV::Ident { name } => acc + name,
        TokenV::Colon => acc + ":"@,
        TokenV::Comma => acc + ","@,
        TokenV::Brace { body } => acc + "{ "@ + body + " }"@,
        TokenV::Other { text } => acc + text,
    }
}

/// Tokens after the first, each preceded by one space.
pub open spec fn text_tokens_rest(acc: Seq<char>, toks: Seq<TokenV>) -> Seq<char>
    decreases toks.len(),
{
    if toks.len() == 0 {
        acc
    } else {
        text_tokens_rest(text_token(acc + " "@, toks[0]), toks.drop_first())
    }
}

/// A token sequence's text: tokens separated by single spaces.
pub open spec fn text_tokens(acc: Seq<char>, toks: Seq<TokenV>) -> Seq<char> {
    if toks.len() == 0 {
        acc
    } else {
        text_tokens_rest(text_token(acc, toks[0]), toks.drop_first())
    }
}

fn append_token(out: &mut String, t: &Token)
    ensures
        final(out)@ == text_token(old(out)@, t@),
{
    match t {
        Token::Ident(s) => out.append(s.as_str()),
        Token::Colon => out.append(":"),
        Token::Comma => out.append(","),
        Token::Brace(s) => {
            out.append("{ ");
            out.append(s.as_str());
            out.append(" }");
        },
        Token::Other(s) => out.append(s.as_str()),
    }
}

fn append_tokens(out: &mut String, toks: &Vec<Token>)
    ensures
        final(out)@ == text_tokens(old(out)@, toks.deep_view()),
{
    let ghost toks_v = toks.deep_view();
    if toks.len() == 0 {
        return ;
    }
    assert(toks_v.len() == toks@.len());
    append_token(out, &toks[0]);
    assert(toks_v[0] == toks@[0]@);
    let mut i: usize = 1;
    let n = toks.len();
    assert(toks_v.skip(1) =~= toks_v.drop_first());
    while i < n
        invariant
            1 <= i <= n,
            n == toks_v.len(),
            toks_v == toks.deep_view(),
            text_tokens_rest(out@, toks_v.skip(i as int)) == text_tokens(
                old(out)@,
                toks_v,
            ),
        decreases n - i,
    {
        out.append(" ");
        assert(toks_v.skip(i as int)[0] == toks@[i as int]@);
        append_token(out, &toks[i]);
        assert(toks_v.skip(i as int).drop_first() =~= toks_v.skip(i + 1));
        i = i + 1;
    }
    assert(toks_v.skip(n as int) =~= Seq::<TokenV>::empty());
}

/// One annotation's text: `#[tag]`, or `#[tag(payload)]`, on its own line.
pub open spec fn text_annotation(acc: Seq<char>, a: AnnotationV) -> Seq<char> {
    if a.payload.len() == 0 {
        acc + "#["@ + a.tag + "]\n"@
    } else {
        text_tokens(acc + "#["@ + a.tag + "("@, a.payload) + ")]\n"@
    }
}

/// The annotations' text, one per line, in order.
pub open spec fn text_annotations(acc: Seq<char>, anns: Seq<AnnotationV>) -> Seq<char>
    decreases anns.len(),
{
    if anns.len() == 0 {
        acc
    } else {
        text_annotations(text_annotation(acc, anns[0]), anns.drop_first())
    }
}

fn append_annotation(out: &mut String, a: &Annotation)
    ensures
        final(out)@ == text_annotation(old(out)@, a@),
{
    out.append("#[");
    out.append(a.tag.as_str());
    if a.payload.len() == 0 {
        out.append("]\n");
    } else {
        out.append("(");
        append_tokens(out, &a.payload);
        out.append(")]\n");
    }
}

fn append_annotations(out: &mut String, anns: &Vec<Annotation>)
    ensures
        final(out)@ == text_annotations(old(out)@, anns.deep_view()),
{
    let ghost anns_v = anns.deep_view();
    let mut i: usize = 0;
    let n = anns.len();
    assert(anns_v.len() == anns@.len());
    assert(anns_v.skip(0) =~= anns_v);
    while i < n
        invariant
            i <= n,
            n == anns_v.len(),
            anns_v == anns.deep_view(),
            text_annotations(out@, anns_v.skip(i as int)) == text_annotations(
                old(out)@,
                anns_v,
            ),
        decreases n - i,
    {
        assert(anns_v.skip(i as int)[0] == anns@[i as int]@);
        append_annotation(out, &anns[i]);
        assert(anns_v.skip(i as int).drop_first() =~= anns_v.skip(i + 1));
        i = i + 1;
    }
    assert(anns_v.skip(n as int) =~= Seq::<AnnotationV>::empty());
}

/// The fixed setup that opens every expanded body: idempotent runtime
/// initialization and scoped session acquisition.
pub open spec fn text_prelude(acc: Seq<char>) -> Seq<char> {
    acc + "    pyo3::prepare_freethreaded_python();\n    Python::with_gil(|py| {\n"@
}

/// The module-registry handle, emitted only when at least one directive
/// registers a module: with zero directives the expansion is runtime init,
/// session acquisition and the spliced body alone.
pub open spec fn text_registry(acc: Seq<char>) -> Seq<char> {
    acc
        + "        let sys = PyModule::import_bound(py, \"sys\").unwrap();\n        let sys_modules: Bound<'_, PyDict> = sys.getattr(\"modules\").unwrap().downcast_into().unwrap();\n"@
}

/// One pass-one step's text: construct the module from its host binding,
/// register it under its guest name (a raw overwrite), and retrieve it back
/// into a local binding of that name.
pub open spec fn text_module(acc: Seq<char>, m: ModuleSetupV) -> Seq<char> {
    acc + "        let "@ + m.binding + "_pymodule = unsafe { Bound::from_owned_ptr(py, "@
        + m.binding + "::__pyo3_init()) };\n        sys_modules.set_item(\""@ + m.module_name
        + "\", "@ + m.binding + "_pymodule).expect(\""@ + module_error_text(m.module_name)
        + "\");\n        let "@ + m.module_name + " = sys_modules.get_item(\""@ + m.module_name
        + "\").unwrap().unwrap();\n"@
}

/// The pass-one steps' text, in directive order.
pub open spec fn text_modules(acc: Seq<char>, mods: Seq<ModuleSetupV>) -> Seq<char>
    decreases mods.len(),
{
    if mods.len() == 0 {
        acc
    } else {
        text_modules(text_module(acc, mods[0]), mods.drop_first())
    }
}

fn append_module(out: &mut String, m: &ModuleSetup)
    ensures
        final(out)@ == text_module(old(out)@, m@),
{
    out.append("        let ");
    out.append(m.binding.as_str());
    out.append("_pymodule = unsafe { Bound::from_owned_ptr(py, ");
    out.append(m.binding.as_str());
    out.append("::__pyo3_init()) };\n        sys_modules.set_item(\"");
    out.append(m.module_name.as_str());
    out.append("\", ");
    out.append(m.binding.as_str());
    out.append("_pymodule).expect(\"");
    let msg = module_error_message(m.module_name.as_str());
    out.append(msg.as_str());
    out.append("\");\n        let ");
    out.append(m.module_name.as_str());
    out.append(" = sys_modules.get_item(\"");
    out.append(m.module_name.as_str());
    out.append("\").unwrap().unwrap();\n");
}

fn append_modules(out: &mut String, mods: &Vec<ModuleSetup>)
    ensures
        final(out)@ == text_modules(old(out)@, mods.deep_view()),
{
    let ghost mods_v = mods.deep_view();
    let mut i: usize = 0;
    let n = mods.len();
    assert(mods_v.len() == mods@.len());
    assert(mods_v.skip(0) =~= mods_v);
    while i < n
        invariant
            i <= n,
            n == mods_v.len(),
            mods_v == mods.deep_view(),
            text_modules(out@, mods_v.skip(i as int)) == text_modules(old(out)@, mods_v),
        decreases n - i,
    {
        assert(mods_v.skip(i as int)[0] == mods@[i as int]@);
        append_module(out, &mods[i]);
        assert(mods_v.skip(i as int).drop_first() =~= mods_v.skip(i + 1));
        i = i + 1;
    }
    assert(mods_v.skip(n as int) =~= Seq::<ModuleSetupV>::empty());
}

/// One pass-two step's text: fetch the attribute from the module binding,
/// bind it under the function's name, and define the call shorthand of that
/// name with its three shapes: one or more positional arguments, a spread
/// aggregate, or no arguments.  Each shape calls, unwraps the call, and
/// converts the result, aborting on either failure.
pub open spec fn text_function(acc: Seq<char>, f: FunctionSetupV) -> Seq<char> {
    acc + "        let "@ + f.function_name + " = "@ + f.module_name + ".getattr(\""@
        + f.function_name + "\").expect(\""@ + function_error_text(f.function_name)
        + "\");\n        macro_rules! "@ + f.function_name
        + " {\n            ($($arg:tt),+) => { "@ + f.function_name
        + ".call1(($($arg,)+)).unwrap().extract().unwrap() };\n            (*$args:ident) => { "@
        + f.function_name + ".call1($args).unwrap().extract().unwrap() };\n            () => { "@
        + f.function_name + ".call0().unwrap().extract().unwrap() };\n        }\n"@
}

/// The pass-two steps' text, in directive order, after all of pass one.
pub open spec fn text_functions(acc: Seq<char>, fns: Seq<FunctionSetupV>) -> Seq<char>
    decreases fns.len(),
{
    if fns.len() == 0 {
        acc
    } else {
        text_functions(text_function(acc, fns[0]), fns.drop_first())
    }
}

fn append_function(out: &mut String, f: &FunctionSetup)
    ensures
        final(out)@ == text_function(old(out)@, f@),
{
    out.append("        let ");
    out.append(f.function_name.as_str());
    out.append(" = ");
    out.append(f.module_name.as_str());
    out.append(".getattr(\"");
    out.append(f.function_name.as_str());
    out.append("\").expect(\"");
    let msg = function_error_message(f.function_name.as_str());
    out.append(msg.as_str());
    out.append("\");\n        macro_rules! ");
    out.append(f.function_name.as_str());
    out.append(" {\n            ($($arg:tt),+) => { ");
    out.append(f.function_name.as_str());
    out.append(".call1(($($arg,)+)).unwrap().extract().unwrap() };\n            (*$args:ident) => { ");
    out.append(f.function_name.as_str());
    out.append(".call1($args).unwrap().extract().unwrap() };\n            () => { ");
    out.append(f.function_name.as_str());
    out.append(".call0().unwrap().extract().unwrap() };\n        }\n");
}

fn append_functions(out: &mut String, fns: &Vec<FunctionSetup>)
    ensures
        final(out)@ == text_functions(old(out)@, fns.deep_view()),
{
    let ghost fns_v = fns.deep_view();
    let mut i: usize = 0;
    let n = fns.len();
    assert(fns_v.len() == fns@.len());
    assert(fns_v.skip(0) =~= fns_v);
    while i < n
        invariant
            i <= n,
            n == fns_v.len(),
            fns_v == fns.deep_view(),
            text_functions(out@, fns_v.skip(i as int)) == text_functions(old(out)@, fns_v),
        decreases n - i,
    {
        assert(fns_v.skip(i as int)[0] == fns@[i as int]@);
        append_function(out, &fns[i]);
        assert(fns_v.skip(i as int).drop_first() =~= fns_v.skip(i + 1));
        i = i + 1;
    }
    assert(fns_v.skip(n as int) =~= Seq::<FunctionSetupV>::empty());
}

/// The spliced body: the original statements, unmodified, in order.
pub open spec fn text_statements(acc: Seq<char>, stmts: Seq<Seq<char>>) -> Seq<char>
    decreases stmts.len(),
{
    if stmts.len() == 0 {
        acc
    } else {
        text_statements(acc + "        "@ + stmts[0] + "\n"@, stmts.drop_first())
    }
}

fn append_statements(out: &mut String, stmts: &Vec<String>)
    ensures
        final(out)@ == text_statements(old(out)@, stmts.deep_view()),
{
    let ghost stmts_v = stmts.deep_view();
    let mut i: usize = 0;
    let n = stmts.len();
    assert(stmts_v.len() == stmts@.len());
    assert(stmts_v.skip(0) =~= stmts_v);
    while i < n
        invariant
            i <= n,
            n == stmts_v.len(),
            stmts_v == stmts.deep_view(),
            text_statements(out@, stmts_v.skip(i as int)) == text_statements(
                old(out)@,
                stmts_v,
            ),
        decreases n - i,
    {
        assert(stmts_v.skip(i as int)[0] == stmts@[i as int]@);
        out.append("        ");
        out.append(stmts[i].as_str());
        out.append("\n");
        assert(stmts_v.skip(i as int).drop_first() =~= stmts_v.skip(i + 1));
        i = i + 1;
    }
    assert(stmts_v.skip(n as int) =~= Seq::<Seq<char>>::empty());
}

/// The whole expanded test's text: annotations, signature, fixed setup, pass
/// one, pass two, the spliced body, and the closing of the session scope.
pub open spec fn text_expanded(e: ExpandedTestV) -> Seq<char> {
    let anns = text_annotations(Seq::empty(), e.annotations);
    let sig = anns + e.signature + " {\n"@;
    let setup = text_prelude(sig);
    let opened = if e.modules.len() == 0 {
        setup
    } else {
        text_registry(setup)
    };
    let mods = text_modules(opened, e.modules);
    let funcs = text_functions(mods, e.functions);
    let body = text_statements(funcs, e.body);
    body + "    });\n}\n"@
}

/// Render the expanded test.  The text is a pure function of the expanded
/// test's value: rendering equal values gives byte-identical text.
pub fn render_expanded(e: &ExpandedTest) -> (r: String)
    ensures
        r@ == text_expanded(e@),
{
    let mut out = String::new();
    append_annotations(&mut out, &e.annotations);
    out.append(e.signature.as_str());
    out.append(" {\n");
    out.append("    pyo3::prepare_freethreaded_python();\n    Python::with_gil(|py| {\n");
    assert(e.modules.deep_view().len() == e.modules@.len());
    if e.modules.len() > 0 {
        out.append(
            "        let sys = PyModule::import_bound(py, \"sys\").unwrap();\n        let sys_modules: Bound<'_, PyDict> = sys.getattr(\"modules\").unwrap().downcast_into().unwrap();\n",
        );
    }
    append_modules(&mut out, &e.modules);
    append_functions(&mut out, &e.functions);
    append_statements(&mut out, &e.body);
    out.append("    });\n}\n");
    out
}

} // verus!
