use vstd::prelude::*;
use crate::builtin::lookup;
use crate::render::{
    arg_items, call_arg, join, kept, opaque_pointer, param_decl, param_items, receiver_arg,
    receiver_decl, return_clause,
};
use crate::signature::{is_receiver, self_ident, Param, TypeRef};

verus! {

/// Without the receiver, a parameter list made of receivers alone, in any of
/// their spellings, renders as the empty string.
pub proof fn lemma_receiver_excluded(cat: Seq<(Seq<char>, Seq<char>)>, ps: Seq<Param>)
    requires
        forall|i: int| 0 <= i < ps.len() ==> is_receiver(#[trigger] ps[i]),
    ensures
        param_items(cat, ps, false).len() == 0,
        join(param_items(cat, ps, false)) == Seq::<char>::empty(),
    decreases ps.len(),
{
    if ps.len() > 0 {
        assert(is_receiver(ps[ps.len() - 1]));
        lemma_receiver_excluded(cat, ps.drop_last());
    }
}

/// With the receiver, a signature whose one receiver comes first renders a
/// single untyped pointer parameter, and forwards the single handle `ptr`, in
/// first place, followed by what renders without the receiver.
pub proof fn lemma_receiver_first(cat: Seq<(Seq<char>, Seq<char>)>, ps: Seq<Param>)
    requires
        ps.len() > 0,
        is_receiver(ps[0]),
        forall|i: int| 1 <= i < ps.len() ==> !is_receiver(#[trigger] ps[i]),
    ensures
        param_items(cat, ps, true) == seq![receiver_decl()] + param_items(cat, ps, false),
        arg_items(cat, ps, true) == seq![receiver_arg()] + arg_items(cat, ps, false),
    decreases ps.len(),
{
    if ps.len() == 1 {
        assert(param_items(cat, ps.drop_last(), true) =~= Seq::empty());
        assert(arg_items(cat, ps.drop_last(), true) =~= Seq::empty());
        assert(param_items(cat, ps.drop_last(), false) =~= Seq::empty());
        assert(arg_items(cat, ps.drop_last(), false) =~= Seq::empty());
        assert(ps.last() == ps[0]);
        assert(param_items(cat, ps, true) =~= seq![receiver_decl()]);
        assert(arg_items(cat, ps, true) =~= seq![receiver_arg()]);
    } else {
        let init = ps.drop_last();
        assert forall|i: int| 1 <= i < init.len() implies !is_receiver(#[trigger] init[i]) by {
            assert(init[i] == ps[i]);
        }
        assert(init[0] == ps[0]);
        lemma_receiver_first(cat, init);
        assert(!is_receiver(ps[ps.len() - 1]));
        assert(param_items(cat, ps, true) =~= seq![receiver_decl()] + param_items(cat, ps, false));
        assert(arg_items(cat, ps, true) =~= seq![receiver_arg()] + arg_items(cat, ps, false));
    }
}

/// A parameter of an opaque type declares its base name, whether it is taken by
/// value, by shared or by mutable reference.
pub proof fn lemma_opaque_param_strips_qualifiers(
    cat: Seq<(Seq<char>, Seq<char>)>,
    name: String,
    ty: TypeRef,
)
    requires
        lookup(cat, ty.name@) is None,
        name@ != self_ident(),
    ensures
        join(param_items(cat, seq![Param::Named { name, ty }], false)) == "_ "@ + name@ + ": "@
            + ty.name@,
{
    let ps = seq![Param::Named { name, ty }];
    assert(param_items(cat, ps.drop_last(), false) =~= Seq::empty());
    assert(ps.last() == ps[0]);
    assert(param_items(cat, ps, false) =~= seq![param_decl(cat, ps[0])]);
}

/// A parameter of an opaque type is forwarded by its handle field, whether it
/// is taken by value, by shared or by mutable reference.
pub proof fn lemma_opaque_arg_forwards_handle(
    cat: Seq<(Seq<char>, Seq<char>)>,
    name: String,
    ty: TypeRef,
    include_receiver: bool,
)
    requires
        lookup(cat, ty.name@) is None,
        name@ != self_ident(),
    ensures
        join(arg_items(cat, seq![Param::Named { name, ty }], include_receiver)) == name@
            + ".ptr"@,
{
    let ps = seq![Param::Named { name, ty }];
    assert(arg_items(cat, ps.drop_last(), include_receiver) =~= Seq::empty());
    assert(ps.last() == ps[0]);
    assert(arg_items(cat, ps, include_receiver) =~= seq![call_arg(cat, ps[0])]);
}

/// A function that returns an opaque type returns the untyped pointer, whether
/// it returns by value, by shared or by mutable reference.
pub proof fn lemma_opaque_return_is_pointer(cat: Seq<(Seq<char>, Seq<char>)>, ty: TypeRef)
    requires
        lookup(cat, ty.name@) is None,
    ensures
        return_clause(cat, Some(ty)) == " -> "@ + opaque_pointer(),
{
}

/// A function without a return type has no return clause.
pub proof fn lemma_no_return_clause(cat: Seq<(Seq<char>, Seq<char>)>)
    ensures
        return_clause(cat, None) == Seq::<char>::empty(),
{
}

/// The declared parameters and the forwarded arguments describe the same call:
/// the i-th of each comes from the i-th rendered parameter, and a built-in
/// parameter `name` declares `_ name: <spelling>` and is forwarded as `name`.
pub proof fn lemma_positional_correspondence(
    cat: Seq<(Seq<char>, Seq<char>)>,
    ps: Seq<Param>,
    include_receiver: bool,
)
    ensures
        param_items(cat, ps, include_receiver).len() == kept(ps, include_receiver).len(),
        arg_items(cat, ps, include_receiver).len() == kept(ps, include_receiver).len(),
        forall|i: int|
            0 <= i < kept(ps, include_receiver).len() ==> {
                &&& #[trigger] param_items(cat, ps, include_receiver)[i] == param_decl(
                    cat,
                    kept(ps, include_receiver)[i],
                )
                &&& arg_items(cat, ps, include_receiver)[i] == call_arg(
                    cat,
                    kept(ps, include_receiver)[i],
                )
            },
        forall|i: int|
            0 <= i < kept(ps, include_receiver).len() ==> match #[trigger] kept(
                ps,
                include_receiver,
            )[i] {
                Param::Named { name, ty } => (name@ != self_ident() && lookup(cat, ty.name@)
                    is Some) ==> {
                    &&& param_items(cat, ps, include_receiver)[i] == "_ "@ + name@ + ": "@
                        + lookup(cat, ty.name@)->0
                    &&& arg_items(cat, ps, include_receiver)[i] == name@
                },
                Param::Receiver(_) => true,
            },
    decreases ps.len(),
{
    if ps.len() > 0 {
        lemma_positional_correspondence(cat, ps.drop_last(), include_receiver);
    }
    let k = kept(ps, include_receiver);
    assert forall|i: int| 0 <= i < k.len() implies {
        &&& #[trigger] param_items(cat, ps, include_receiver)[i] == param_decl(cat, k[i])
        &&& arg_items(cat, ps, include_receiver)[i] == call_arg(cat, k[i])
    } by {
        if ps.len() > 0 && i < kept(ps.drop_last(), include_receiver).len() {
            assert(param_items(cat, ps.drop_last(), include_receiver)[i] == param_decl(
                cat,
                kept(ps.drop_last(), include_receiver)[i],
            ));
        }
    }
    assert forall|i: int| 0 <= i < k.len() implies match #[trigger] k[i] {
        Param::Named { name, ty } => (name@ != self_ident() && lookup(cat, ty.name@) is Some)
            ==> {
            &&& param_items(cat, ps, include_receiver)[i] == "_ "@ + name@ + ": "@ + lookup(
                cat,
                ty.name@,
            )->0
            &&& arg_items(cat, ps, include_receiver)[i] == name@
        },
        Param::Receiver(_) => true,
    } by {
        assert(param_items(cat, ps, include_receiver)[i] == param_decl(cat, k[i]));
    }
}

} // verus!
