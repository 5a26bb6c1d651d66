//! The harness generator: from an extracted test case to the expanded test.
//!
//! The expanded test is first synthesized as a structure (which annotations
//! it carries, which modules pass one registers, which functions pass two
//! binds, and the untouched body), then rendered to source text by
//! [`crate::render`].  Keeping the two passes explicit makes the ordering
//! contract direct: pass one runs once per directive in source order, pass
//! two runs once per directive that names a function, in the same order,
//! after all of pass one.

use vstd::prelude::*;
use vstd::string::*;

use crate::directive::{DirectiveV, ImportDirective};
use crate::extract::{Annotation, AnnotationV, TestCase, TestCaseV};
use crate::tokens::Diag;

verus! {

/// Mathematical value of one pass-one step.
pub struct ModuleSetupV {
    pub binding: Seq<char>,
    pub module_name: Seq<char>,
}

/// One pass-one step: construct the guest module from the host binding
/// `binding`, register it in the module registry under `module_name`
/// (overwriting any previous registration of that name), and immediately
/// retrieve it back into a local binding named `module_name`.
#[derive(Debug, PartialEq, Eq)]
pub struct ModuleSetup {
    pub binding: String,
    pub module_name: String,
}

impl View for ModuleSetup {
    type V = ModuleSetupV;

    open spec fn view(&self) -> ModuleSetupV {
        ModuleSetupV { binding: self.binding@, module_name: self.module_name@ }
    }
}

impl DeepView for ModuleSetup {
    type V = ModuleSetupV;

    open spec fn deep_view(&self) -> ModuleSetupV {
        self@
    }
}

/// Mathematical value of one pass-two step.
pub struct FunctionSetupV {
    pub module_name: Seq<char>,
    pub function_name: Seq<char>,
}

/// One pass-two step: fetch attribute `function_name` from the local module
/// binding named `module_name`, bind it locally under `function_name`, and
/// define the call shorthand of the same name.
#[derive(Debug, PartialEq, Eq)]
pub struct FunctionSetup {
    pub module_name: String,
    pub function_name: String,
}

impl View for FunctionSetup {
    type V = FunctionSetupV;

    open spec fn view(&self) -> FunctionSetupV {
        FunctionSetupV { module_name: self.module_name@, function_name: self.function_name@ }
    }
}

impl DeepView for FunctionSetup {
    type V = FunctionSetupV;

    open spec fn deep_view(&self) -> FunctionSetupV {
        self@
    }
}

/// Mathematical value of an expanded test.
pub struct ExpandedTestV {
    pub annotations: Seq<AnnotationV>,
    pub signature: Seq<char>,
    pub modules: Seq<ModuleSetupV>,
    pub functions: Seq<FunctionSetupV>,
    pub body: Seq<Seq<char>>,
}

/// The expanded test: the test marker and the passthrough annotations, the
/// unchanged signature, the two setup passes, and the unchanged body.
#[derive(Debug, PartialEq, Eq)]
pub struct ExpandedTest {
    pub annotations: Vec<Annotation>,
    pub signature: String,
    pub modules: Vec<ModuleSetup>,
    pub functions: Vec<FunctionSetup>,
    pub body: Vec<String>,
}

impl View for ExpandedTest {
    type V = ExpandedTestV;

    open spec fn view(&self) -> ExpandedTestV {
        ExpandedTestV {
            annotations: self.annotations.deep_view(),
            signature: self.signature@,
            modules: self.modules.deep_view(),
            functions: self.functions.deep_view(),
            body: self.body.deep_view(),
        }
    }
}

/// The pass-one step a directive produces.
pub open spec fn module_setup_of(d: DirectiveV) -> ModuleSetupV {
    ModuleSetupV { binding: d.binding, module_name: d.module }
}

/// Pass one: one module setup per directive, in source order.
pub open spec fn modules_of(dirs: Seq<DirectiveV>) -> Seq<ModuleSetupV> {
    dirs.map_values(|d: DirectiveV| module_setup_of(d))
}

/// Pass two: one function setup per directive that names a function, in
/// source order; a bare module import contributes nothing.
pub open spec fn functions_of(dirs: Seq<DirectiveV>) -> Seq<FunctionSetupV>
    decreases dirs.len(),
{
    if dirs.len() == 0 {
        Seq::empty()
    } else {
        let rest = functions_of(dirs.drop_last());
        match dirs.last().function {
            Option::Some(f) => rest.push(
                FunctionSetupV { module_name: dirs.last().module, function_name: f },
            ),
            Option::None => rest,
        }
    }
}

/// The implicit marker that registers the expanded declaration as a test.
pub open spec fn test_marker() -> AnnotationV {
    AnnotationV { tag: "test"@, payload: Seq::empty() }
}

/// What the generator yields for a test case.
pub open spec fn spec_wrap(tc: TestCaseV) -> ExpandedTestV {
    ExpandedTestV {
        annotations: seq![test_marker()] + tc.passthrough,
        signature: tc.signature,
        modules: modules_of(tc.directives),
        functions: functions_of(tc.directives),
        body: tc.body,
    }
}

/// Generate the expanded test for a test case.  Consumes the case: the
/// output is a fully independent artifact.  Zero directives yield empty
/// passes, so the expansion is runtime setup plus the spliced body alone.
pub fn wrap_testcase(tc: TestCase) -> (e: ExpandedTest)
    ensures
        e@ == spec_wrap(tc@),
{
    let ghost dirs0 = tc.directives.deep_view();
    let ghost pass0 = tc.passthrough.deep_view();
    let mut dirs = tc.directives;
    let mut modules: Vec<ModuleSetup> = Vec::new();
    let mut functions: Vec<FunctionSetup> = Vec::new();
    let mut i: usize = 0;
    let n = dirs.len();
    assert(dirs0.take(0) =~= Seq::<DirectiveV>::empty());
    assert(modules.deep_view() =~= modules_of(dirs0.take(0)));
    assert(functions.deep_view() =~= Seq::<FunctionSetupV>::empty());
    assert(dirs.deep_view() =~= dirs0.skip(0));
    while i < n
        invariant
            i <= n,
            n == dirs0.len(),
            dirs.deep_view() == dirs0.skip(i as int),
            modules.deep_view() == modules_of(dirs0.take(i as int)),
            functions.deep_view() == functions_of(dirs0.take(i as int)),
        decreases n - i,
    {
        assert(dirs.deep_view().len() == dirs@.len());
        let ghost dirs_seq_before = dirs@;
        let d = dirs.remove(0);
        assert(d.deep_view() == dirs0.skip(i as int)[0]);
        assert(d.deep_view() == dirs0[i as int]);
        assert(dirs0.take(i + 1).drop_last() =~= dirs0.take(i as int));
        assert(dirs0.take(i + 1).last() == dirs0[i as int]);
        let ImportDirective { binding, module, function } = d;
        if let Some(f) = function {
            let ghost fns_before = functions.deep_view();
            functions.push(FunctionSetup { module_name: module.clone(), function_name: f });
            assert(functions.deep_view() =~= fns_before.push(
                FunctionSetupV { module_name: module@, function_name: f@ },
            ));
        }
        let ghost mods_before = modules.deep_view();
        modules.push(ModuleSetup { binding, module_name: module });
        assert(modules.deep_view() =~= mods_before.push(module_setup_of(dirs0[i as int])));
        i = i + 1;
        assert forall|k: int| 0 <= k < dirs.deep_view().len() implies dirs.deep_view()[k]
            == dirs0.skip(i as int)[k] by {
            assert(dirs@[k] == dirs_seq_before[k + 1]);
            assert(dirs@[k].deep_view() == dirs0.skip(i - 1)[k + 1]);
        }
        assert(dirs.deep_view() =~= dirs0.skip(i as int));
        assert(modules_of(dirs0.take(i as int)) =~= modules_of(
            dirs0.take(i - 1),
        ).push(module_setup_of(dirs0[i - 1])));
    }
    assert(dirs0.take(n as int) =~= dirs0);

    let mut annotations: Vec<Annotation> = Vec::new();
    annotations.push(Annotation { tag: String::from_str("test"), payload: Vec::new() });
    assert(annotations.deep_view() =~= seq![test_marker()] + pass0.take(0)) by {
        assert(annotations.deep_view().len() == 1);
        assert(annotations.deep_view()[0].payload =~= Seq::<crate::tokens::TokenV>::empty());
    }
    let mut pass = tc.passthrough;
    let mut j: usize = 0;
    let p = pass.len();
    assert(pass.deep_view() =~= pass0.skip(0));
    while j < p
        invariant
            j <= p,
            p == pass0.len(),
            pass.deep_view() == pass0.skip(j as int),
            annotations.deep_view() == seq![test_marker()] + pass0.take(j as int),
        decreases p - j,
    {
        assert(pass.deep_view().len() == pass@.len());
        let ghost pass_seq_before = pass@;
        let a = pass.remove(0);
        assert(a.deep_view() == pass0.skip(j as int)[0]);
        assert(a.deep_view() == pass0[j as int]);
        let ghost anns_before = annotations.deep_view();
        annotations.push(a);
        assert(annotations.deep_view() =~= anns_before.push(pass0[j as int]));
        j = j + 1;
        assert forall|k: int| 0 <= k < pass.deep_view().len() implies pass.deep_view()[k]
            == pass0.skip(j as int)[k] by {
            assert(pass@[k] == pass_seq_before[k + 1]);
            assert(pass@[k].deep_view() == pass0.skip(j - 1)[k + 1]);
        }
        assert(pass.deep_view() =~= pass0.skip(j as int));
        assert(seq![test_marker()] + pass0.take(j as int) =~= (seq![test_marker()] + pass0.take(
            j - 1,
        )).push(pass0[j - 1]));
    }
    assert(pass0.take(p as int) =~= pass0);

    ExpandedTest {
        annotations,
        signature: tc.signature,
        modules,
        functions,
        body: tc.body,
    }
}

/// Law: each pass-one step of the generated expansion registers its own
/// directive's module under that directive's name and immediately retrieves
/// it; interpreted over the registry model, the retrieval can never find the
/// name absent, and it yields exactly the module that very step constructed,
/// whatever the other directives register.
pub proof fn lemma_generated_retrieval_fresh(tc: TestCaseV, i: int)
    requires
        0 <= i < tc.directives.len(),
    ensures
        spec_wrap(tc).modules[i] == module_setup_of(tc.directives[i]),
        crate::registry::registry_after(tc.directives, i + 1).dom().contains(
            spec_wrap(tc).modules[i].module_name,
        ),
        crate::registry::retrieved_binding(tc.directives, i) == i,
{
    crate::registry::lemma_retrieval_never_absent(tc.directives, i);
    assert(spec_wrap(tc).modules[i] == modules_of(tc.directives)[i]);
}

/// Law: directives appended later only append shorthands: every shorthand an
/// earlier directive list produces is kept, at its index and in its order,
/// whatever directives follow — shorthands of distinct directives never
/// interfere.
pub proof fn lemma_earlier_shorthands_stable(dirs: Seq<DirectiveV>, ext: Seq<DirectiveV>)
    ensures
        functions_of(dirs).len() <= functions_of(dirs + ext).len(),
        forall|k: int| 0 <= k < functions_of(dirs).len() ==> functions_of(dirs + ext)[k]
            == functions_of(dirs)[k],
    decreases ext.len(),
{
    if ext.len() == 0 {
        assert(dirs + ext =~= dirs);
    } else {
        lemma_earlier_shorthands_stable(dirs, ext.drop_last());
        assert((dirs + ext).drop_last() =~= dirs + ext.drop_last());
        assert((dirs + ext).last() == ext.last());
    }
}

/// Law: each directive that names a function contributes a shorthand of
/// exactly that name, fetched from exactly that directive's module binding,
/// standing after exactly the shorthands of the earlier directives.
pub proof fn lemma_from_import_has_shorthand(dirs: Seq<DirectiveV>, i: int) -> (k: int)
    requires
        0 <= i < dirs.len(),
        dirs[i].function is Some,
    ensures
        0 <= k < functions_of(dirs).len(),
        k == functions_of(dirs.take(i)).len(),
        functions_of(dirs)[k] == (FunctionSetupV {
            module_name: dirs[i].module,
            function_name: dirs[i].function->Some_0,
        }),
    decreases dirs.len(),
{
    if i == dirs.len() - 1 {
        assert(dirs.last() == dirs[i]);
        assert(dirs.drop_last() =~= dirs.take(i));
        functions_of(dirs).len() - 1
    } else {
        let k = lemma_from_import_has_shorthand(dirs.drop_last(), i);
        assert(dirs.drop_last()[i] == dirs[i]);
        assert(dirs.drop_last().take(i) =~= dirs.take(i));
        k
    }
}

/// Law: shorthands of distinct directives never interfere: of two directives
/// that name functions, the earlier one's shorthand stands strictly before
/// the later one's, each with its own directive's module and function name.
pub proof fn lemma_shorthands_in_directive_order(dirs: Seq<DirectiveV>, i: int, j: int) -> (ks: (
    int,
    int,
))
    requires
        0 <= i < j < dirs.len(),
        dirs[i].function is Some,
        dirs[j].function is Some,
    ensures
        0 <= ks.0 < ks.1 < functions_of(dirs).len(),
        functions_of(dirs)[ks.0] == (FunctionSetupV {
            module_name: dirs[i].module,
            function_name: dirs[i].function->Some_0,
        }),
        functions_of(dirs)[ks.1] == (FunctionSetupV {
            module_name: dirs[j].module,
            function_name: dirs[j].function->Some_0,
        }),
{
    let ki = lemma_from_import_has_shorthand(dirs, i);
    let kj = lemma_from_import_has_shorthand(dirs, j);
    assert(dirs.take(i + 1).drop_last() =~= dirs.take(i));
    assert(dirs.take(i + 1).last() == dirs[i]);
    assert(functions_of(dirs.take(i + 1)).len() == ki + 1);
    assert(dirs.take(j) =~= dirs.take(i + 1) + dirs.subrange(i + 1, j));
    lemma_earlier_shorthands_stable(dirs.take(i + 1), dirs.subrange(i + 1, j));
    assert(kj >= ki + 1);
    (ki, kj)
}

/// What expanding a raw declaration yields: the rendered expansion of the
/// extracted case, or the first directive diagnostic.
pub open spec fn spec_expand_test(decl: crate::extract::TestDeclV) -> Result<Seq<char>, Diag> {
    match crate::extract::spec_extract(decl) {
        Ok(tc) => Ok(crate::render::text_expanded(spec_wrap(tc))),
        Err(e) => Err(e),
    }
}

/// Expand one test declaration: extract, generate, render.  Returns `Ok`
/// exactly when every import directive on the declaration parses, and
/// otherwise the first failing directive's diagnostic.
pub fn impl_pyo3test(decl: crate::extract::TestDecl) -> (r: Result<String, Diag>)
    ensures
        crate::tokens::string_result_view(r) == spec_expand_test(decl@),
{
    match crate::extract::extract(decl) {
        Ok(tc) => {
            let expanded = wrap_testcase(tc);
            Ok(crate::render::render_expanded(&expanded))
        },
        Err(e) => Err(e),
    }
}

/// Law: expansion is deterministic.  What a declaration expands to is a pure
/// function of the declaration's value — [`impl_pyo3test`] ensures its result
/// equals [`spec_expand_test`] of its input — so expanding equal declarations,
/// in one process or in two, yields byte-identical text and equal diagnostics.
pub proof fn lemma_expansion_deterministic(d1: crate::extract::TestDeclV, d2: crate::extract::TestDeclV)
    requires
        d1 == d2,
    ensures
        spec_expand_test(d1) == spec_expand_test(d2),
{
}

} // verus!
