//! The target of a derive and the parsed attribute, as plain values.
use crate::attrs::{CollectionSet, TupleRange};
use vstd::prelude::*;

verus! {

/// What the generator reads of a declared source type: where it names
/// lifetimes. Everything else about the type is carried by the caller.
#[derive(Debug, PartialEq, Eq)]
pub enum TypeShape {
    /// `&'a T` or `&T`.
    Ref { lifetime: Option<String>, elem: Box<TypeShape> },
    /// A path such as `Vec<T>` or `<T as Trait>::Out`: its qualified self type,
    /// then the angle-bracketed arguments of all its segments in order.
    Path { qself: Option<Box<TypeShape>>, args: Vec<TypeShape> },
    /// A lifetime given as an argument of a path.
    LifetimeArg(String),
    /// `(A, B, ...)`.
    Tuple(Vec<TypeShape>),
    /// `[T; N]`.
    Array(Box<TypeShape>),
    /// `[T]`.
    Slice(Box<TypeShape>),
    /// `dyn A + B + 'a` or `impl A + 'a`: its bounds in order, each a path
    /// (with its arguments and associated-type bindings) or a lifetime.
    Bounds(Vec<TypeShape>),
    /// `fn(A, B) -> C`: its parameter types, then its return type.
    FnPtr(Vec<TypeShape>),
    /// Any other type; it names no lifetime that the generator looks for.
    Other,
}

/// The lifetimes a type names, in the order in which they are written,
/// repeats included.
pub open spec fn lifetimes_in(t: TypeShape) -> Seq<String>
    decreases t,
{
    match t {
        TypeShape::Ref { lifetime, elem } => match lifetime {
            Some(l) => seq![l] + lifetimes_in(*elem),
            None => lifetimes_in(*elem),
        },
        TypeShape::Path { qself, args } => match qself {
            Some(q) => lifetimes_in(*q) + lifetimes_in_list(args@),
            None => lifetimes_in_list(args@),
        },
        TypeShape::LifetimeArg(l) => seq![l],
        TypeShape::Tuple(elems) => lifetimes_in_list(elems@),
        TypeShape::Array(elem) => lifetimes_in(*elem),
        TypeShape::Slice(elem) => lifetimes_in(*elem),
        TypeShape::Bounds(bounds) => lifetimes_in_list(bounds@),
        TypeShape::FnPtr(parts) => lifetimes_in_list(parts@),
        TypeShape::Other => Seq::empty(),
    }
}

/// The lifetimes named by a list of types, one after the other.
pub open spec fn lifetimes_in_list(s: Seq<TypeShape>) -> Seq<String>
    decreases s,
{
    if s.len() == 0 {
        Seq::empty()
    } else {
        lifetimes_in_list(s.drop_last()) + lifetimes_in(s.last())
    }
}

/// Copies a lifetime name.
fn copy_name(s: &String) -> (r: String)
    ensures
        r == *s,
{
    s.clone()
}

/// Appends the lifetimes that `t` names to `out`, in written order.
pub fn extract_lifetimes(t: &TypeShape, out: &mut Vec<String>)
    ensures
        final(out)@ == old(out)@ + lifetimes_in(*t),
    decreases t,
{
    match t {
        TypeShape::Ref { lifetime, elem } => {
            match lifetime {
                Some(l) => out.push(copy_name(l)),
                None => {},
            }
            extract_lifetimes(elem, out);
        },
        TypeShape::Path { qself, args } => {
            match qself {
                Some(q) => extract_lifetimes(q, out),
                None => {},
            }
            extract_lifetimes_list(args, out);
        },
        TypeShape::LifetimeArg(l) => out.push(copy_name(l)),
        TypeShape::Tuple(elems) => extract_lifetimes_list(elems, out),
        TypeShape::Array(elem) => extract_lifetimes(elem, out),
        TypeShape::Slice(elem) => extract_lifetimes(elem, out),
        TypeShape::Bounds(bounds) => extract_lifetimes_list(bounds, out),
        TypeShape::FnPtr(parts) => extract_lifetimes_list(parts, out),
        TypeShape::Other => {},
    }
    assert(final(out)@ =~= old(out)@ + lifetimes_in(*t));
}

/// Appends the lifetimes named by each type of `ts`, in order.
fn extract_lifetimes_list(ts: &Vec<TypeShape>, out: &mut Vec<String>)
    ensures
        final(out)@ == old(out)@ + lifetimes_in_list(ts@),
    decreases ts,
{
    let ghost start = out@;
    let mut i: usize = 0;
    while i < ts.len()
        invariant
            i <= ts@.len(),
            out@ == start + lifetimes_in_list(ts@.take(i as int)),
        decreases ts@.len() - i,
    {
        proof {
            vstd::std_specs::vec::axiom_vec_index_decreases(*ts, i as int);
        }
        extract_lifetimes(&ts[i], out);
        assert(ts@.take(i + 1).drop_last() =~= ts@.take(i as int));
        assert(out@ =~= start + lifetimes_in_list(ts@.take(i + 1)));
        i = i + 1;
    }
    assert(ts@.take(i as int) =~= ts@);
}

/// The kind of one generic parameter.
#[derive(Debug, Clone, Copy, PartialEq, Eq, Structural)]
pub enum ParamKind {
    Lifetime,
    Type,
    Const,
}

/// One generic parameter that the target declares; its bounds are carried by
/// the caller and copied verbatim.
#[derive(Debug, PartialEq, Eq)]
pub struct TargetParam {
    pub kind: ParamKind,
    pub name: String,
}

/// One declared source type: a key that is equal for two entries exactly
/// when they name the same type (the type's canonical text), and where it
/// names lifetimes.
#[derive(Debug, PartialEq, Eq)]
pub struct DeclaredType {
    pub key: String,
    pub shape: TypeShape,
}

/// The parsed `items_from(...)` attribute.
#[derive(Debug, PartialEq, Eq)]
pub struct Attributes {
    /// Source types converted one value at a time; a type declared twice
    /// is converted once.
    pub types: Vec<DeclaredType>,
    /// Tuple arities converted position by position.
    pub tuples: Option<TupleRange>,
    /// Collection kinds converted element by element.
    pub collections: CollectionSet,
    /// Whether `error_type(E)` fixes the error type of the fallible
    /// conversions; without it each gets a generic error parameter.
    pub fixed_error: bool,
}

/// Everything the generator reads about one derive.
#[derive(Debug, PartialEq, Eq)]
pub struct Context {
    /// The target's own generic parameters in declaration order.
    pub params: Vec<TargetParam>,
    /// How many predicates the target's own `where` clause holds.
    pub n_predicates: usize,
    pub attributes: Attributes,
}

impl Context {
    /// The attribute is usable: a tuple range, if any, is well formed (and
    /// the list of declared types is no longer than a `Vec` can be).
    pub open spec fn wf(&self) -> bool {
        &&& match self.attributes.tuples {
            Some(r) => r.wf(),
            None => true,
        }
        &&& self.attributes.types@.len() <= usize::MAX
    }
}

} // verus!
