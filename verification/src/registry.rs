//! A model of the module registry that pass one drives.
//!
//! Each pass-one step constructs a fresh guest module — identified here by
//! its step index — registers it under its directive's module name (a raw
//! overwrite), and immediately retrieves it back.  The laws below pin the
//! consequences of that ordering: the retrieval can never find the name
//! absent, a later registration never changes a binding an earlier step
//! already materialized, and when pass one completes each name resolves to
//! its last registrar.

use vstd::prelude::*;

use crate::directive::DirectiveV;

verus! {

/// The registry after the first `n` pass-one steps.
pub open spec fn registry_after(dirs: Seq<DirectiveV>, n: int) -> Map<Seq<char>, int>
    decreases n,
{
    if n <= 0 {
        Map::empty()
    } else {
        registry_after(dirs, n - 1).insert(dirs[n - 1].module, n - 1)
    }
}

/// The module that step `i`'s immediate retrieval binds locally, named by
/// the step that constructed it.
pub open spec fn retrieved_binding(dirs: Seq<DirectiveV>, i: int) -> int {
    registry_after(dirs, i + 1)[dirs[i].module]
}

/// Law: the retrieval right after a registration can never take the absent
/// branch, and it yields exactly the module its own step constructed.
pub proof fn lemma_retrieval_never_absent(dirs: Seq<DirectiveV>, i: int)
    requires
        0 <= i < dirs.len(),
    ensures
        registry_after(dirs, i + 1).dom().contains(dirs[i].module),
        retrieved_binding(dirs, i) == i,
{
}

/// The registry after `n` steps depends on the first `n` directives alone.
pub proof fn lemma_registry_depends_on_prefix(dirs1: Seq<DirectiveV>, dirs2: Seq<DirectiveV>, n: int)
    requires
        0 <= n <= dirs1.len(),
        n <= dirs2.len(),
        dirs1.take(n) == dirs2.take(n),
    ensures
        registry_after(dirs1, n) == registry_after(dirs2, n),
    decreases n,
{
    if n > 0 {
        assert(dirs1.take(n)[n - 1] == dirs1[n - 1]);
        assert(dirs2.take(n)[n - 1] == dirs2[n - 1]);
        assert forall|k: int| 0 <= k < n - 1 implies #[trigger] dirs1.take(n - 1)[k] == dirs2.take(
            n - 1,
        )[k] by {
            assert(dirs1.take(n)[k] == dirs1[k]);
            assert(dirs2.take(n)[k] == dirs2[k]);
        }
        assert(dirs1.take(n - 1) =~= dirs2.take(n - 1));
        lemma_registry_depends_on_prefix(dirs1, dirs2, n - 1);
    }
}

/// Law: bindings already materialized are never changed retroactively: two
/// directive lists that agree up to and including step `i` give step `i` the
/// same local binding, whatever either list registers afterwards.
pub proof fn lemma_earlier_bindings_stable(dirs1: Seq<DirectiveV>, dirs2: Seq<DirectiveV>, i: int)
    requires
        0 <= i < dirs1.len(),
        i < dirs2.len(),
        dirs1.take(i + 1) == dirs2.take(i + 1),
    ensures
        retrieved_binding(dirs1, i) == retrieved_binding(dirs2, i),
{
    lemma_registry_depends_on_prefix(dirs1, dirs2, i + 1);
    assert(dirs1.take(i + 1)[i] == dirs1[i]);
    assert(dirs2.take(i + 1)[i] == dirs2[i]);
}

/// The last step to register a name, or `-1` when none does.
pub open spec fn last_registrar(dirs: Seq<DirectiveV>, name: Seq<char>) -> int
    decreases dirs.len(),
{
    if dirs.len() == 0 {
        -1
    } else if dirs.last().module == name {
        dirs.len() - 1
    } else {
        last_registrar(dirs.drop_last(), name)
    }
}

/// Law: registration is a raw overwrite, so when pass one completes each
/// registered name resolves to the module of the last directive that
/// registered it; lookups made after a re-registration — all of pass two —
/// resolve against that latest module.
pub proof fn lemma_last_write_wins(dirs: Seq<DirectiveV>, name: Seq<char>)
    ensures
        last_registrar(dirs, name) < dirs.len(),
        registry_after(dirs, dirs.len() as int).dom().contains(name) <==> 0 <= last_registrar(
            dirs,
            name,
        ),
        0 <= last_registrar(dirs, name) ==> {
            &&& registry_after(dirs, dirs.len() as int)[name] == last_registrar(dirs, name)
            &&& dirs[last_registrar(dirs, name)].module == name
        },
    decreases dirs.len(),
{
    if dirs.len() > 0 {
        let n = dirs.len() as int;
        lemma_last_write_wins(dirs.drop_last(), name);
        assert(dirs.drop_last() =~= dirs.take(n - 1));
        assert(dirs.drop_last().take(n - 1) =~= dirs.take(n - 1));
        lemma_registry_depends_on_prefix(dirs, dirs.drop_last(), n - 1);
        assert(registry_after(dirs, n) == registry_after(dirs.drop_last(), n - 1).insert(
            dirs[n - 1].module,
            n - 1,
        ));
        assert(dirs.last() == dirs[n - 1]);
        if dirs[n - 1].module == name {
            assert(last_registrar(dirs, name) == n - 1);
            assert(registry_after(dirs, n).dom().contains(name));
            assert(registry_after(dirs, n)[name] == n - 1);
        } else {
            assert(last_registrar(dirs, name) == last_registrar(dirs.drop_last(), name));
            assert(registry_after(dirs, n).dom().contains(name) <==> registry_after(
                dirs.drop_last(),
                n - 1,
            ).dom().contains(name));
            let lr = last_registrar(dirs, name);
            if 0 <= lr {
                assert(registry_after(dirs, n)[name] == registry_after(
                    dirs.drop_last(),
                    n - 1,
                )[name]);
                assert(dirs.drop_last()[lr] == dirs[lr]);
            }
        }
    }
}

} // verus!
