use vstd::prelude::*;
use crate::builtin::{lookup, BuiltInTypes, Classification};
use crate::signature::{is_receiver, Param, ParsedExternFn, TypeRef};

verus! {

/// The Swift spelling of an untyped mutable pointer, which stands for every
/// opaque handle.
pub open spec fn opaque_pointer() -> Seq<char> {
    "UnsafeMutableRawPointer"@
}

/// The parameter that takes the place of the receiver in a declaration.
pub open spec fn receiver_decl() -> Seq<char> {
    "_ this: "@ + opaque_pointer()
}

/// The argument that forwards the receiver's handle.
pub open spec fn receiver_arg() -> Seq<char> {
    "ptr"@
}

/// The Swift name of a parameter's type: its spelling when built in, else its
/// base name with every reference qualifier dropped.
pub open spec fn swift_param_type(cat: Seq<(Seq<char>, Seq<char>)>, ty: TypeRef) -> Seq<char> {
    match lookup(cat, ty.name@) {
        Some(s) => s,
        None => ty.name@,
    }
}

/// How one parameter is declared on the Swift side.
pub open spec fn param_decl(cat: Seq<(Seq<char>, Seq<char>)>, p: Param) -> Seq<char> {
    if is_receiver(p) {
        receiver_decl()
    } else {
        match p {
            Param::Named { name, ty } => "_ "@ + name@ + ": "@ + swift_param_type(cat, ty),
            Param::Receiver(_) => receiver_decl(),
        }
    }
}

/// How one parameter is passed on when Swift calls into Rust: a built-in value
/// as it is, an opaque value by its handle field.
pub open spec fn call_arg(cat: Seq<(Seq<char>, Seq<char>)>, p: Param) -> Seq<char> {
    if is_receiver(p) {
        receiver_arg()
    } else {
        match p {
            Param::Named { name, ty } => match lookup(cat, ty.name@) {
                Some(_) => name@,
                None => name@ + ".ptr"@,
            },
            Param::Receiver(_) => receiver_arg(),
        }
    }
}

/// Whether a parameter shows up in the rendered lists.
pub open spec fn is_rendered(p: Param, include_receiver: bool) -> bool {
    include_receiver || !is_receiver(p)
}

/// The parameters that show up in the rendered lists, in their order.
pub open spec fn kept(ps: Seq<Param>, include_receiver: bool) -> Seq<Param>
    decreases ps.len(),
{
    if ps.len() == 0 {
        ps
    } else {
        let rest = kept(ps.drop_last(), include_receiver);
        if is_rendered(ps.last(), include_receiver) {
            rest.push(ps.last())
        } else {
            rest
        }
    }
}

/// The declarations of the rendered parameters, in their order.
pub open spec fn param_items(
    cat: Seq<(Seq<char>, Seq<char>)>,
    ps: Seq<Param>,
    include_receiver: bool,
) -> Seq<Seq<char>>
    decreases ps.len(),
{
    if ps.len() == 0 {
        Seq::empty()
    } else {
        let rest = param_items(cat, ps.drop_last(), include_receiver);
        if is_rendered(ps.last(), include_receiver) {
            rest.push(param_decl(cat, ps.last()))
        } else {
            rest
        }
    }
}

/// The forwarded arguments of the rendered parameters, in their order.
pub open spec fn arg_items(
    cat: Seq<(Seq<char>, Seq<char>)>,
    ps: Seq<Param>,
    include_receiver: bool,
) -> Seq<Seq<char>>
    decreases ps.len(),
{
    if ps.len() == 0 {
        Seq::empty()
    } else {
        let rest = arg_items(cat, ps.drop_last(), include_receiver);
        if is_rendered(ps.last(), include_receiver) {
            rest.push(call_arg(cat, ps.last()))
        } else {
            rest
        }
    }
}

/// The items joined by ", ".
pub open spec fn join(items: Seq<Seq<char>>) -> Seq<char>
    decreases items.len(),
{
    if items.len() == 0 {
        Seq::empty()
    } else if items.len() == 1 {
        items[0]
    } else {
        join(items.drop_last()) + ", "@ + items.last()
    }
}

/// The return clause of a Swift declaration: none without a return type, the
/// spelling of a built-in type, and the opaque pointer for any other type,
/// whatever its reference qualifier.
pub open spec fn return_clause(cat: Seq<(Seq<char>, Seq<char>)>, output: Option<TypeRef>) -> Seq<
    char,
> {
    match output {
        None => Seq::empty(),
        Some(ty) => " -> "@ + match lookup(cat, ty.name@) {
            Some(s) => s,
            None => opaque_pointer(),
        },
    }
}

proof fn lemma_join_push(items: Seq<Seq<char>>, d: Seq<char>)
    ensures
        join(items.push(d)) == if items.len() == 0 {
            d
        } else {
            join(items) + ", "@ + d
        },
{
    assert(items.push(d).drop_last() =~= items);
}

/// Appends `item` to a list joined by ", " that holds items already when `any`.
fn append_item(out: &mut String, any: bool, item: &String)
    ensures
        final(out)@ == if any {
            old(out)@ + ", "@ + item@
        } else {
            old(out)@ + item@
        },
{
    if any {
        out.append(", ");
    }
    out.append(item.as_str());
}

/// The Swift declaration of one parameter.
fn render_param(builtins: &BuiltInTypes, p: &Param) -> (r: String)
    ensures
        r@ == param_decl(builtins@, *p),
{
    let mut r = String::new();
    if p.is_receiver() {
        r.append("_ this: ");
        r.append("UnsafeMutableRawPointer");
    } else {
        match p {
            Param::Named { name, ty } => {
                r.append("_ ");
                r.append(name.as_str());
                r.append(": ");
                match builtins.with_type(ty) {
                    Classification::BuiltIn(s) => r.append(s.as_str()),
                    Classification::Opaque => r.append(ty.name.as_str()),
                }
            },
            Param::Receiver(_) => {},
        }
    }
    r
}

/// The argument that forwards one parameter.
fn render_arg(builtins: &BuiltInTypes, p: &Param) -> (r: String)
    ensures
        r@ == call_arg(builtins@, *p),
{
    let mut r = String::new();
    if p.is_receiver() {
        r.append("ptr");
    } else {
        match p {
            Param::Named { name, ty } => {
                r.append(name.as_str());
                match builtins.with_type(ty) {
                    Classification::BuiltIn(_) => {},
                    Classification::Opaque => r.append(".ptr"),
                }
            },
            Param::Receiver(_) => {},
        }
    }
    r
}

impl ParsedExternFn {
    /// The Swift parameter list, such as `_ this: UnsafeMutableRawPointer, _ a: UInt8`.
    /// The receiver, in any spelling, becomes the untyped pointer `this` when
    /// `include_receiver_if_present` holds and is left out otherwise.
    pub fn to_swift_param_names_and_types(
        &self,
        builtins: &BuiltInTypes,
        include_receiver_if_present: bool,
    ) -> (r: String)
        ensures
            r@ == join(param_items(builtins@, self.inputs@, include_receiver_if_present)),
    {
        let ghost ps = self.inputs@;
        let mut out = String::new();
        let mut any = false;
        let mut i: usize = 0;
        while i < self.inputs.len()
            invariant
                i <= ps.len(),
                ps == self.inputs@,
                out@ == join(param_items(builtins@, ps.subrange(0, i as int), include_receiver_if_present)),
                any == (param_items(builtins@, ps.subrange(0, i as int), include_receiver_if_present).len() > 0),
            decreases ps.len() - i,
        {
            let ghost pre = ps.subrange(0, i as int);
            assert(ps.subrange(0, i + 1).drop_last() =~= pre);
            let p = &self.inputs[i];
            if include_receiver_if_present || !p.is_receiver() {
                let item = render_param(builtins, p);
                proof {
                    lemma_join_push(param_items(builtins@, pre, include_receiver_if_present), item@);
                }
                append_item(&mut out, any, &item);
                any = true;
            }
            i = i + 1;
        }
        assert(ps.subrange(0, ps.len() as int) =~= ps);
        out
    }

    /// The arguments that forward a call from Swift into Rust, such as
    /// `ptr, a, other.ptr`, in the order of `to_swift_param_names_and_types`.
    pub fn to_swift_call_args(&self, builtins: &BuiltInTypes, include_receiver_if_present: bool) -> (r:
        String)
        ensures
            r@ == join(arg_items(builtins@, self.inputs@, include_receiver_if_present)),
    {
        let ghost ps = self.inputs@;
        let mut out = String::new();
        let mut any = false;
        let mut i: usize = 0;
        while i < self.inputs.len()
            invariant
                i <= ps.len(),
                ps == self.inputs@,
                out@ == join(arg_items(builtins@, ps.subrange(0, i as int), include_receiver_if_present)),
                any == (arg_items(builtins@, ps.subrange(0, i as int), include_receiver_if_present).len() > 0),
            decreases ps.len() - i,
        {
            let ghost pre = ps.subrange(0, i as int);
            assert(ps.subrange(0, i + 1).drop_last() =~= pre);
            let p = &self.inputs[i];
            if include_receiver_if_present || !p.is_receiver() {
                let item = render_arg(builtins, p);
                proof {
                    lemma_join_push(arg_items(builtins@, pre, include_receiver_if_present), item@);
                }
                append_item(&mut out, any, &item);
                any = true;
            }
            i = i + 1;
        }
        assert(ps.subrange(0, ps.len() as int) =~= ps);
        out
    }

    /// The Swift return clause, such as ` -> UInt8`; empty without a return type.
    pub fn to_swift_return(&self, builtins: &BuiltInTypes) -> (r: String)
        ensures
            r@ == return_clause(builtins@, self.output),
            self.output is None ==> r@ == Seq::<char>::empty(),
    {
        match &self.output {
            None => String::new(),
            Some(ty) => {
                let mut r = String::new();
                r.append(" -> ");
                match builtins.with_type(ty) {
                    Classification::BuiltIn(s) => r.append(s.as_str()),
                    Classification::Opaque => r.append("UnsafeMutableRawPointer"),
                }
                r
            },
        }
    }
}

} // verus!
