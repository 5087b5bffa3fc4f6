use vstd::prelude::*;

verus! {

/// A Python type annotation as the compiler sees it.
#[derive(Debug, PartialEq)]
pub enum TypeAnnotation {
    Int,
    Float,
    Str,
    Bool,
    Bytes,
    /// The type of `None`.
    NoneType,
    List(Box<TypeAnnotation>),
    Dict(Box<TypeAnnotation>, Box<TypeAnnotation>),
    Tuple(Vec<TypeAnnotation>),
    /// `set[T]`.
    SetOf(Box<TypeAnnotation>),
    Optional(Box<TypeAnnotation>),
    Union(Vec<TypeAnnotation>),
    Class(String),
    Callable { params: Vec<TypeAnnotation>, ret: Box<TypeAnnotation> },
    Any,
    /// Placeholder that type inference has not yet replaced.
    Unknown,
}

impl TypeAnnotation {
    /// `int` and `float` are the numeric types.
    pub open spec fn numeric(self) -> bool {
        self is Int || self is Float
    }

    /// A type is resolved when no `Unknown` occurs anywhere inside it.
    pub open spec fn resolved(self) -> bool
        decreases self,
    {
        match self {
            TypeAnnotation::Unknown => false,
            TypeAnnotation::List(inner) => inner.resolved(),
            TypeAnnotation::Optional(inner) => inner.resolved(),
            TypeAnnotation::SetOf(inner) => inner.resolved(),
            TypeAnnotation::Dict(k, v) => k.resolved() && v.resolved(),
            TypeAnnotation::Tuple(elems) => forall|i: int|
                0 <= i < elems@.len() ==> (#[trigger] elems@[i]).resolved(),
            TypeAnnotation::Union(elems) => forall|i: int|
                0 <= i < elems@.len() ==> (#[trigger] elems@[i]).resolved(),
            TypeAnnotation::Callable { params, ret } => (forall|i: int|
                0 <= i < params@.len() ==> (#[trigger] params@[i]).resolved()) && ret.resolved(),
            _ => true,
        }
    }

    pub fn is_numeric(&self) -> (r: bool)
        ensures
            r == self.numeric(),
    {
        match self {
            TypeAnnotation::Int | TypeAnnotation::Float => true,
            _ => false,
        }
    }

    /// `self` and `o` are the same type, component by component.
    pub open spec fn same(self, o: TypeAnnotation) -> bool
        decreases self,
    {
        match self {
            TypeAnnotation::List(a) => o is List && a.same(*o->List_0),
            TypeAnnotation::SetOf(a) => o is SetOf && a.same(*o->SetOf_0),
            TypeAnnotation::Optional(a) => o is Optional && a.same(*o->Optional_0),
            TypeAnnotation::Dict(k, v) => o is Dict && k.same(*o->Dict_0) && v.same(*o->Dict_1),
            TypeAnnotation::Tuple(a) => o is Tuple && a@.len() == o->Tuple_0@.len() && forall|i: int|
                0 <= i < a@.len() ==> (#[trigger] a@[i]).same(o->Tuple_0@[i]),
            TypeAnnotation::Union(a) => o is Union && a@.len() == o->Union_0@.len() && forall|i: int|
                0 <= i < a@.len() ==> (#[trigger] a@[i]).same(o->Union_0@[i]),
            TypeAnnotation::Callable { params, ret } => o is Callable && params@.len()
                == o->params@.len() && (forall|i: int|
                0 <= i < params@.len() ==> (#[trigger] params@[i]).same(o->params@[i])) && ret.same(
                *o->ret,
            ),
            _ => self == o,
        }
    }

    /// A copy of this type.
    pub fn duplicate(&self) -> (r: TypeAnnotation)
        ensures
            r.same(*self),
        decreases self,
    {
        match self {
            TypeAnnotation::Int => TypeAnnotation::Int,
            TypeAnnotation::Float => TypeAnnotation::Float,
            TypeAnnotation::Str => TypeAnnotation::Str,
            TypeAnnotation::Bool => TypeAnnotation::Bool,
            TypeAnnotation::Bytes => TypeAnnotation::Bytes,
            TypeAnnotation::NoneType => TypeAnnotation::NoneType,
            TypeAnnotation::List(inner) => TypeAnnotation::List(Box::new(inner.duplicate())),
            TypeAnnotation::Dict(k, v) => TypeAnnotation::Dict(
                Box::new(k.duplicate()),
                Box::new(v.duplicate()),
            ),
            TypeAnnotation::Tuple(elems) => TypeAnnotation::Tuple(duplicate_types(elems)),
            TypeAnnotation::SetOf(inner) => TypeAnnotation::SetOf(Box::new(inner.duplicate())),
            TypeAnnotation::Optional(inner) => TypeAnnotation::Optional(Box::new(inner.duplicate())),
            TypeAnnotation::Union(elems) => TypeAnnotation::Union(duplicate_types(elems)),
            TypeAnnotation::Class(name) => TypeAnnotation::Class(name.clone()),
            TypeAnnotation::Callable { params, ret } => TypeAnnotation::Callable {
                params: duplicate_types(params),
                ret: Box::new(ret.duplicate()),
            },
            TypeAnnotation::Any => TypeAnnotation::Any,
            TypeAnnotation::Unknown => TypeAnnotation::Unknown,
        }
    }

    pub fn is_resolved(&self) -> (r: bool)
        ensures
            r == self.resolved(),
        decreases self,
    {
        match self {
            TypeAnnotation::Unknown => false,
            TypeAnnotation::List(inner) => inner.is_resolved(),
            TypeAnnotation::Optional(inner) => inner.is_resolved(),
            TypeAnnotation::SetOf(inner) => inner.is_resolved(),
            TypeAnnotation::Dict(k, v) => k.is_resolved() && v.is_resolved(),
            TypeAnnotation::Tuple(elems) => all_resolved(elems),
            TypeAnnotation::Union(elems) => all_resolved(elems),
            TypeAnnotation::Callable { params, ret } => all_resolved(params) && ret.is_resolved(),
            _ => true,
        }
    }
}

/// A copy of a list of types.
pub fn duplicate_types(elems: &Vec<TypeAnnotation>) -> (r: Vec<TypeAnnotation>)
    ensures
        r@.len() == elems@.len(),
        forall|i: int| 0 <= i < elems@.len() ==> (#[trigger] r@[i]).same(elems@[i]),
    decreases elems,
{
    let mut out: Vec<TypeAnnotation> = Vec::new();
    let mut i: usize = 0;
    while i < elems.len()
        invariant
            i <= elems@.len(),
            out@.len() == i,
            forall|j: int| 0 <= j < i ==> (#[trigger] out@[j]).same(elems@[j]),
        decreases elems@.len() - i,
    {
        assert(decreases_to!(elems => elems@[i as int]));
        out.push(elems[i].duplicate());
        i = i + 1;
    }
    out
}

/// Whether every type in `elems` is resolved.
fn all_resolved(elems: &Vec<TypeAnnotation>) -> (r: bool)
    ensures
        r == (forall|i: int| 0 <= i < elems@.len() ==> (#[trigger] elems@[i]).resolved()),
    decreases elems,
{
    let mut i: usize = 0;
    while i < elems.len()
        invariant
            i <= elems@.len(),
            forall|j: int| 0 <= j < i ==> (#[trigger] elems@[j]).resolved(),
        decreases elems@.len() - i,
    {
        assert(decreases_to!(elems => elems@[i as int]));
        if !elems[i].is_resolved() {
            return false;
        }
        i = i + 1;
    }
    true
}

} // verus!
