//! The shape of a type as written in source, as far as a registry reads it.
//!
//! Whatever is only carried along as text such as a const expression or a
//! list of trait bounds is kept as text.

use vstd::prelude::*;

verus! {

/// A calling convention as written: the `extern` keyword, with or without a
/// name.
#[derive(Clone, Debug, PartialEq, Eq)]
pub struct Abi {
    /// The name, quotes included, exactly as written. `None` for a bare
    /// `extern`.
    pub name: Option<String>,
}

/// One parameter of a function-pointer type.
#[derive(Debug, PartialEq, Eq)]
pub struct BareFnArg {
    /// The parameter's name, where one is written.
    pub name: Option<String>,
    /// The parameter's type.
    pub ty: Type,
}

/// A function-pointer type: lifetime binder, qualifiers, calling convention,
/// parameters and return type.
#[derive(Debug, PartialEq, Eq)]
pub struct BareFn {
    /// The lifetimes bound by `for<..>`; `None` where no binder is written.
    pub lifetimes: Option<Vec<String>>,
    /// Whether the pointer is to an `unsafe` function.
    pub unsafety: bool,
    /// The calling convention, where one is written.
    pub abi: Option<Abi>,
    /// The parameters, in order.
    pub inputs: Vec<BareFnArg>,
    /// The return type; `None` for a function that returns `()` implicitly.
    pub output: Option<Box<Type>>,
}

/// One generic argument between angle brackets.
#[derive(Debug, PartialEq, Eq)]
pub enum GenericArgument {
    /// A type argument.
    Type(Type),
    /// Any other argument: a lifetime, a const, a binding or a constraint.
    Other(String),
}

/// The arguments that follow a path segment.
#[derive(Debug, PartialEq, Eq)]
pub enum PathArguments {
    /// No arguments.
    Absent,
    /// Arguments between angle brackets, as in `Vec<T>`.
    AngleBracketed(Vec<GenericArgument>),
    /// Arguments between parentheses, as in `Fn(A) -> B`.
    Parenthesized(String),
}

/// One segment of a path.
#[derive(Debug, PartialEq, Eq)]
pub struct PathSegment {
    /// The segment's name.
    pub ident: String,
    /// The segment's arguments.
    pub arguments: PathArguments,
}

/// A type as written in source.
#[derive(Debug, PartialEq, Eq)]
pub enum Type {
    /// `[T; n]`, with the length kept as text.
    Array(Box<Type>, String),
    /// A function pointer.
    BareFn(BareFn),
    /// A type inside invisible delimiters.
    Group(Box<Type>),
    /// `impl Bounds`.
    ImplTrait(String),
    /// `_`.
    Infer,
    /// A macro in type position.
    Macro(String),
    /// `!`.
    Never,
    /// `(T)`.
    Paren(Box<Type>),
    /// A path, with its self type where it is qualified: `<T as Trait>::Name`.
    Path(Option<Box<Type>>, Vec<PathSegment>),
    /// `*const T` or `*mut T`.
    Ptr(bool, Box<Type>),
    /// `&'a T` or `&'a mut T`.
    Reference(Option<String>, bool, Box<Type>),
    /// `[T]`.
    Slice(Box<Type>),
    /// `dyn Bounds`.
    TraitObject(String),
    /// `(A, B, ..)`.
    Tuple(Vec<Type>),
    /// Tokens that were not interpreted.
    Verbatim(String),
}

} // verus!
