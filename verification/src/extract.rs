//! Splitting a test declaration's annotations into import directives and
//! opaque passthrough annotations.

use vstd::prelude::*;
use vstd::string::*;

use crate::directive::{spec_parse_directive, DirectiveV, ImportDirective};
use crate::tokens::{Diag, Token, TokenV};

verus! {

/// Mathematical value of one annotation.
pub struct AnnotationV {
    pub tag: Seq<char>,
    pub payload: Seq<TokenV>,
}

/// One annotation attached to a test declaration: its tag and the tokens of
/// its argument payload (empty for a bare `#[tag]`).  Annotations other than
/// import directives are never inspected beyond the tag and are re-emitted
/// verbatim.
#[derive(Debug, PartialEq, Eq)]
pub struct Annotation {
    pub tag: String,
    pub payload: Vec<Token>,
}

impl View for Annotation {
    type V = AnnotationV;

    open spec fn view(&self) -> AnnotationV {
        AnnotationV { tag: self.tag@, payload: self.payload.deep_view() }
    }
}

impl DeepView for Annotation {
    type V = AnnotationV;

    open spec fn deep_view(&self) -> AnnotationV {
        self@
    }
}

/// Mathematical value of a test declaration.
pub struct TestDeclV {
    pub annotations: Seq<AnnotationV>,
    pub signature: Seq<char>,
    pub body: Seq<Seq<char>>,
}

/// A test declaration as handed to the engine: its annotations in source
/// order, its signature text, and its body statements, one statement's
/// source text per entry, kept verbatim.
#[derive(Debug, PartialEq, Eq)]
pub struct TestDecl {
    pub annotations: Vec<Annotation>,
    pub signature: String,
    pub body: Vec<String>,
}

impl View for TestDecl {
    type V = TestDeclV;

    open spec fn view(&self) -> TestDeclV {
        TestDeclV {
            annotations: self.annotations.deep_view(),
            signature: self.signature@,
            body: self.body.deep_view(),
        }
    }
}

/// Mathematical value of an extracted test case.
pub struct TestCaseV {
    pub directives: Seq<DirectiveV>,
    pub signature: Seq<char>,
    pub body: Seq<Seq<char>>,
    pub passthrough: Seq<AnnotationV>,
}

/// The extractor's output: the parsed directives in source order, the
/// declaration's signature and body unchanged, and the remaining annotations
/// in source order.
#[derive(Debug, PartialEq, Eq)]
pub struct TestCase {
    pub directives: Vec<ImportDirective>,
    pub signature: String,
    pub body: Vec<String>,
    pub passthrough: Vec<Annotation>,
}

impl View for TestCase {
    type V = TestCaseV;

    open spec fn view(&self) -> TestCaseV {
        TestCaseV {
            directives: self.directives.deep_view(),
            signature: self.signature@,
            body: self.body.deep_view(),
            passthrough: self.passthrough.deep_view(),
        }
    }
}

/// The tag that marks an annotation as an import directive.
pub open spec fn directive_tag() -> Seq<char> {
    "pyo3import"@
}

/// What splitting the annotations yields: every annotation tagged as an
/// import directive is parsed, in source order, and the others are retained
/// verbatim, in source order.  The first ill-formed directive's diagnostic is
/// the result.
pub open spec fn spec_split_annotations(anns: Seq<AnnotationV>) -> Result<
    (Seq<DirectiveV>, Seq<AnnotationV>),
    Diag,
>
    decreases anns.len(),
{
    if anns.len() == 0 {
        Ok((Seq::empty(), Seq::empty()))
    } else {
        match spec_split_annotations(anns.drop_last()) {
            Err(e) => Err(e),
            Ok((dirs, pass)) => {
                if anns.last().tag == directive_tag() {
                    match spec_parse_directive(anns.last().payload) {
                        Ok(d) => Ok((dirs.push(d), pass)),
                        Err(e) => Err(e),
                    }
                } else {
                    Ok((dirs, pass.push(anns.last())))
                }
            },
        }
    }
}

/// What extraction yields: the split annotations around the unchanged
/// signature and body.
pub open spec fn spec_extract(decl: TestDeclV) -> Result<TestCaseV, Diag> {
    match spec_split_annotations(decl.annotations) {
        Err(e) => Err(e),
        Ok((dirs, pass)) => Ok(
            TestCaseV {
                directives: dirs,
                signature: decl.signature,
                body: decl.body,
                passthrough: pass,
            },
        ),
    }
}

/// The value of a fallible extraction, seen at the spec level.
pub open spec fn case_result_view(r: Result<TestCase, Diag>) -> Result<TestCaseV, Diag> {
    match r {
        Ok(c) => Ok(c@),
        Err(e) => Err(e),
    }
}

/// An ill-formed directive among the first annotations decides the whole
/// split: later annotations cannot mask or change the diagnostic.
proof fn lemma_split_error_is_final(anns: Seq<AnnotationV>, i: int)
    requires
        0 <= i <= anns.len(),
        spec_split_annotations(anns.take(i)) is Err,
    ensures
        spec_split_annotations(anns) == spec_split_annotations(anns.take(i)),
    decreases anns.len() - i,
{
    if i == anns.len() {
        assert(anns.take(i) =~= anns);
    } else {
        assert(anns.take(i + 1).drop_last() =~= anns.take(i));
        assert(spec_split_annotations(anns.take(i + 1)) == spec_split_annotations(anns.take(i)));
        lemma_split_error_is_final(anns, i + 1);
    }
}

/// Extract a test case from a declaration.  Consumes the declaration: the
/// output is a fully independent artifact.  Returns `Ok` exactly when every
/// annotation tagged as an import directive parses, and otherwise the first
/// failing directive's diagnostic.
pub fn extract(decl: TestDecl) -> (r: Result<TestCase, Diag>)
    ensures
        case_result_view(r) == spec_extract(decl@),
{
    let ghost anns0 = decl.annotations.deep_view();
    let mut anns = decl.annotations;
    let mut directives: Vec<ImportDirective> = Vec::new();
    let mut passthrough: Vec<Annotation> = Vec::new();
    let mut i: usize = 0;
    let n = anns.len();
    assert(anns0.take(0) =~= Seq::<AnnotationV>::empty());
    assert(directives.deep_view() =~= Seq::<DirectiveV>::empty());
    assert(passthrough.deep_view() =~= Seq::<AnnotationV>::empty());
    assert(anns.deep_view() =~= anns0.skip(0));
    while i < n
        invariant
            i <= n,
            n == anns0.len(),
            decl@.annotations == anns0,
            anns.deep_view() == anns0.skip(i as int),
            spec_split_annotations(anns0.take(i as int)) == Ok::<_, Diag>(
                (directives.deep_view(), passthrough.deep_view()),
            ),
        decreases n - i,
    {
        assert(anns.deep_view().len() == anns@.len());
        assert(anns@.len() == n - i);
        let ghost anns_seq_before = anns@;
        let a = anns.remove(0);
        assert(a.deep_view() == anns0.skip(i as int)[0]);
        assert(a.deep_view() == anns0[i as int]);
        assert(anns0.take(i + 1).drop_last() =~= anns0.take(i as int));
        assert(anns0.take(i + 1).last() == anns0[i as int]);
        let is_directive = a.tag == String::from_str("pyo3import");
        if is_directive {
            match crate::directive::parse_directive(&a.payload) {
                Ok(d) => {
                    let ghost dirs_before = directives.deep_view();
                    directives.push(d);
                    assert(directives.deep_view() =~= dirs_before.push(d@));
                },
                Err(e) => {
                    proof {
                        assert(spec_split_annotations(anns0.take(i + 1)) == Err::<
                            (Seq<DirectiveV>, Seq<AnnotationV>),
                            Diag,
                        >(e));
                        lemma_split_error_is_final(anns0, i + 1);
                    }
                    return Err(e);
                },
            }
        } else {
            let ghost pass_before = passthrough.deep_view();
            passthrough.push(a);
            assert(passthrough.deep_view() =~= pass_before.push(anns0[i as int]));
        }
        i = i + 1;
        assert forall|k: int| 0 <= k < anns.deep_view().len() implies anns.deep_view()[k]
            == anns0.skip(i as int)[k] by {
            assert(anns@[k] == anns_seq_before[k + 1]);
            assert(anns@[k].deep_view() == anns0.skip(i - 1)[k + 1]);
        }
        assert(anns.deep_view() =~= anns0.skip(i as int));
        assert(spec_split_annotations(anns0.take(i as int)) == Ok::<_, Diag>(
            (directives.deep_view(), passthrough.deep_view()),
        ));
    }
    assert(anns0.take(n as int) =~= anns0);
    Ok(TestCase { directives, signature: decl.signature, body: decl.body, passthrough })
}

} // verus!
