use vstd::prelude::*;

verus! {

/// How a type, or a receiver, is bound: by value, by shared reference or by
/// mutable reference.
#[derive(Clone, Copy, Debug, PartialEq, Eq, Structural)]
pub enum RefKind {
    Owned,
    Shared,
    Mutable,
}

/// A type as written in a signature position: its base name together with the
/// reference qualifier that stands in front of it.
#[derive(Debug)]
pub struct TypeRef {
    pub name: String,
    pub kind: RefKind,
}

/// One entry of a parameter list.
///
/// `self`, `&self` and `&mut self` are `Receiver`; `self: Foo`, `self: &Foo`
/// and `self: &mut Foo` arrive as `Named` parameters called `self`.
#[derive(Debug)]
pub enum Param {
    Receiver(RefKind),
    Named { name: String, ty: TypeRef },
}

/// The signature of a function declared across the bridge.
#[derive(Debug)]
pub struct ParsedExternFn {
    pub inputs: Vec<Param>,
    pub output: Option<TypeRef>,
}

/// The reserved identifier of a receiver.
pub open spec fn self_ident() -> Seq<char> {
    seq!['s', 'e', 'l', 'f']
}

/// A parameter stands for the receiver when it is one, or when it is named
/// `self`, whatever its declared type.
pub open spec fn is_receiver(p: Param) -> bool {
    match p {
        Param::Receiver(_) => true,
        Param::Named { name, .. } => name@ == self_ident(),
    }
}

impl TypeRef {
    pub fn new(name: String, kind: RefKind) -> (r: TypeRef)
        ensures
            r.name@ == name@,
            r.kind == kind,
    {
        TypeRef { name, kind }
    }
}

impl Param {
    /// A parameter `name: ty`.
    pub fn named(name: String, ty: TypeRef) -> (r: Param)
        ensures
            r matches Param::Named { name: n, ty: t } && n@ == name@ && t.name@ == ty.name@
                && t.kind == ty.kind,
    {
        Param::Named { name, ty }
    }

    /// Whether this parameter is the receiver, in any of its spellings.
    pub fn is_receiver(&self) -> (r: bool)
        ensures
            r == is_receiver(*self),
    {
        match self {
            Param::Receiver(_) => true,
            Param::Named { name, .. } => {
                let reserved = String::from_str("self");
                proof {
                    reveal_strlit("self");
                    assert(reserved@ =~= self_ident());
                }
                *name == reserved
            },
        }
    }
}

} // verus!
