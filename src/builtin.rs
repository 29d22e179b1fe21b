use vstd::prelude::*;
use crate::signature::TypeRef;

verus! {

/// How a type crosses the bridge: by value, with its Swift spelling, or as an
/// opaque handle.
#[derive(Debug)]
pub enum Classification {
    BuiltIn(String),
    Opaque,
}

/// The catalog of types that cross the bridge by value: pairs of a Rust type
/// name and its Swift spelling. The first entry of a name decides.
#[derive(Debug)]
pub struct BuiltInTypes {
    entries: Vec<(String, String)>,
}

/// The Swift spelling that a catalog gives a Rust type name, if any: the one of
/// its first entry of that name.
pub open spec fn lookup(entries: Seq<(Seq<char>, Seq<char>)>, name: Seq<char>) -> Option<
    Seq<char>,
>
    decreases entries.len(),
{
    if entries.len() == 0 {
        None
    } else if entries[0].0 == name {
        Some(entries[0].1)
    } else {
        lookup(entries.drop_first(), name)
    }
}

impl View for BuiltInTypes {
    type V = Seq<(Seq<char>, Seq<char>)>;

    closed spec fn view(&self) -> Seq<(Seq<char>, Seq<char>)> {
        self.entries@.map_values(|e: (String, String)| (e.0@, e.1@))
    }
}

impl Classification {
    /// The spelling of a built-in type, or `None` for an opaque one.
    pub open spec fn spelling(self) -> Option<Seq<char>> {
        match self {
            Classification::BuiltIn(s) => Some(s@),
            Classification::Opaque => None,
        }
    }
}

impl BuiltInTypes {
    /// An empty catalog: every type is opaque.
    pub fn new() -> (r: BuiltInTypes)
        ensures
            r@ == Seq::<(Seq<char>, Seq<char>)>::empty(),
    {
        let r = BuiltInTypes { entries: Vec::new() };
        assert(r@ =~= Seq::<(Seq<char>, Seq<char>)>::empty());
        r
    }

    /// Appends the entry `rust` => `swift`.
    pub fn add(&mut self, rust: String, swift: String)
        ensures
            final(self)@ == old(self)@.push((rust@, swift@)),
    {
        let ghost before = self@;
        self.entries.push((rust, swift));
        assert(self@ =~= before.push((rust@, swift@)));
    }

    /// Classifies a type by its base name; reference qualifiers play no part.
    pub fn with_type(&self, ty: &TypeRef) -> (r: Classification)
        ensures
            r.spelling() == lookup(self@, ty.name@),
    {
        let n = self.entries.len();
        let mut i: usize = 0;
        assert(self@.subrange(0, n as int) =~= self@);
        while i < n
            invariant
                n == self.entries@.len(),
                n == self@.len(),
                i <= n,
                lookup(self@, ty.name@) == lookup(self@.subrange(i as int, n as int), ty.name@),
            decreases n - i,
        {
            let ghost rest = self@.subrange(i as int, n as int);
            assert(rest.drop_first() =~= self@.subrange(i + 1, n as int));
            if self.entries[i].0 == ty.name {
                return Classification::BuiltIn(self.entries[i].1.clone());
            }
            i = i + 1;
        }
        assert(self@.subrange(n as int, n as int) =~= Seq::<(Seq<char>, Seq<char>)>::empty());
        Classification::Opaque
    }
}

} // verus!
