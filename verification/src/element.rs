//! Contributing to a registry: what is accepted as a contribution, and what
//! a contribution expands to.
//!
//! A plain contribution is a function whose address is stored in the region
//! as a value. A generic contribution cannot be stored as a value, since each
//! instantiation is a function of its own; it is given a trampoline whose
//! machine code is placed in the region instead.

use crate::declaration::c_abi_name;
use crate::linker::sort_key;
use crate::linker::spec_sort_key;
use crate::text::views;
use crate::ty::Abi;
use crate::ty::BareFn;
use crate::ty::BareFnArg;
use crate::ty::Type;
use vstd::prelude::*;

verus! {

/// One generic parameter of a function, by kind and name.
#[derive(Clone, Debug, PartialEq, Eq)]
pub enum GenericParam {
    /// A lifetime parameter, written with its leading quote.
    Lifetime(String),
    /// A type parameter.
    Type(String),
    /// A const parameter.
    Const(String),
}

/// An item that is offered as a contribution, as the surface syntax read it.
#[derive(Debug, PartialEq, Eq)]
pub struct FnItem {
    /// Whether the item opens with `static`.
    pub is_static: bool,
    /// Whether the item is `const`.
    pub constness: bool,
    /// Whether the item is `async`.
    pub asyncness: bool,
    /// Whether the item is `unsafe`.
    pub unsafety: bool,
    /// The calling convention, where one is written.
    pub abi: Option<Abi>,
    /// Whether the `fn` keyword follows the qualifiers.
    pub is_fn: bool,
    /// The function's name.
    pub ident: String,
    /// The function's generic parameters, in order.
    pub generics: Vec<GenericParam>,
    /// The function's parameters, in order.
    pub inputs: Vec<BareFnArg>,
    /// The return type, where one is written.
    pub output: Option<Box<Type>>,
    /// Whether a `where` clause follows the signature.
    pub has_where_clause: bool,
}

/// Why an item is no contribution.
#[derive(Clone, Copy, Debug, PartialEq, Eq, Structural)]
pub enum ElementError {
    /// The item is a `static`.
    Static,
    /// The item is no function.
    NotFn,
    /// The function is `const`.
    Const,
    /// The function is `async`.
    Async,
    /// The function has a generic parameter that is no lifetime.
    Generic,
    /// The function has a `where` clause.
    WhereClause,
}

/// A plain contribution: a function stored in the region by value.
#[derive(Debug, PartialEq, Eq)]
pub struct Element {
    /// Name of the static that holds the function pointer.
    pub ident: String,
    /// The pointer type of the function.
    pub ty: BareFn,
    /// The function's name, which is the static's initializer.
    pub expr: String,
}

/// A generic contribution: a function reached through a trampoline.
#[derive(Debug, PartialEq, Eq)]
pub struct Element2 {
    /// The function's name.
    pub ident: String,
    /// The function's generic parameters, in order.
    pub generics: Vec<GenericParam>,
    /// The pointer type of the trampoline: that of the function, with the C
    /// calling convention.
    pub ty: BareFn,
}

/// Where and how a plain contribution is placed.
#[derive(Debug, PartialEq, Eq)]
pub struct Placement {
    /// Path of the registry contributed to.
    pub path: String,
    /// Sort key appended to the content section's name, where an ordinal was
    /// given.
    pub sort_key: Option<String>,
    /// The contribution itself.
    pub element: Element,
}

/// What a generic contribution expands to.
#[derive(Debug, PartialEq, Eq)]
pub struct Trampoline {
    /// Path of the registry contributed to.
    pub path: String,
    /// Sort key appended to the content section's name, where an ordinal was
    /// given.
    pub sort_key: Option<String>,
    /// Name of the function that holds the contribution's body.
    pub inner_impl_name: String,
    /// Name of the trampoline, whose code is placed in the region.
    pub outer_impl_name: String,
    /// The function's lifetime parameters, in order.
    pub lifetime_params: Vec<String>,
    /// The function's type and const parameters, in order.
    pub type_and_const_params: Vec<String>,
    /// The names of the function's parameters, in order.
    pub arguments: Vec<String>,
    /// The trampoline's body: the call that forwards every argument and the
    /// result through an opaque read.
    pub forward: String,
    /// The body left in place of the function: a plain call of the
    /// trampoline.
    pub call: String,
    /// The pointer type of the trampoline.
    pub ty: BareFn,
}

/// The lifetime parameters among `params`, in order.
pub open spec fn spec_lifetimes(params: Seq<GenericParam>) -> Seq<String>
    decreases params.len(),
{
    if params.len() == 0 {
        Seq::empty()
    } else {
        let front = spec_lifetimes(params.drop_last());
        match params.last() {
            GenericParam::Lifetime(name) => front.push(name),
            _ => front,
        }
    }
}

/// The type and const parameters among `params`, in order.
pub open spec fn spec_type_and_const_params(params: Seq<GenericParam>) -> Seq<String>
    decreases params.len(),
{
    if params.len() == 0 {
        Seq::empty()
    } else {
        let front = spec_type_and_const_params(params.drop_last());
        match params.last() {
            GenericParam::Lifetime(_) => front,
            GenericParam::Type(name) => front.push(name),
            GenericParam::Const(name) => front.push(name),
        }
    }
}

/// Whether every parameter among `params` is a lifetime.
pub open spec fn only_lifetimes(params: Seq<GenericParam>) -> bool {
    forall|i: int| 0 <= i < params.len() ==> params[i] is Lifetime
}

/// The names of the parameters `inputs`, in order; a parameter without a
/// name counts as `_`.
pub open spec fn spec_arguments(inputs: Seq<BareFnArg>) -> Seq<Seq<char>> {
    Seq::new(
        inputs.len(),
        |i: int|
            match inputs[i].name {
                Some(name) => name@,
                None => "_"@,
            },
    )
}

/// The lifetime binder of a pointer type for a function with generic
/// parameters `params`: none where the function has no parameters, else its
/// lifetime parameters.
pub open spec fn spec_binder(params: Seq<GenericParam>, binder: Option<Vec<String>>) -> bool {
    if params.len() == 0 {
        binder is None
    } else {
        binder matches Some(lifetimes) && lifetimes@ == spec_lifetimes(params)
    }
}

/// The first rule for plain contributions that `item` breaks, if it breaks
/// any.
pub open spec fn spec_rejection(item: FnItem) -> Option<ElementError> {
    if item.is_static {
        Some(ElementError::Static)
    } else if !item.is_fn {
        Some(ElementError::NotFn)
    } else if item.constness {
        Some(ElementError::Const)
    } else if item.asyncness {
        Some(ElementError::Async)
    } else if !only_lifetimes(item.generics@) {
        Some(ElementError::Generic)
    } else if item.has_where_clause {
        Some(ElementError::WhereClause)
    } else {
        None
    }
}

/// The first rule for generic contributions that `item` breaks, if it breaks
/// any. Generic parameters and `where` clauses are what such a contribution
/// is for.
pub open spec fn spec_rejection2(item: FnItem) -> Option<ElementError> {
    if !item.is_fn {
        Some(ElementError::NotFn)
    } else if item.constness {
        Some(ElementError::Const)
    } else if item.asyncness {
        Some(ElementError::Async)
    } else {
        None
    }
}

/// `items`, each written between `before` and `after`, one after another.
pub open spec fn spec_each(items: Seq<Seq<char>>, before: Seq<char>, after: Seq<char>) -> Seq<char>
    decreases items.len(),
{
    if items.len() == 0 {
        Seq::empty()
    } else {
        spec_each(items.drop_last(), before, after) + before + items.last() + after
    }
}

/// A call of `callee` with every generic parameter passed on by name,
/// lifetimes first, and every argument written between `before` and `after`
/// and followed by a comma.
pub open spec fn spec_call(
    callee: Seq<char>,
    lifetimes: Seq<Seq<char>>,
    params: Seq<Seq<char>>,
    arguments: Seq<Seq<char>>,
    before: Seq<char>,
    after: Seq<char>,
) -> Seq<char> {
    callee + "::<"@ + spec_each(lifetimes, Seq::empty(), ","@) + spec_each(
        params,
        Seq::empty(),
        ","@,
    ) + ">("@ + spec_each(arguments, before, after + ","@) + ")"@
}

/// The trampoline's body: the function proper is called with every argument
/// read through `volatile`, and the result is read through `volatile` too.
pub open spec fn spec_forward(
    inner: Seq<char>,
    lifetimes: Seq<Seq<char>>,
    params: Seq<Seq<char>>,
    arguments: Seq<Seq<char>>,
) -> Seq<char> {
    "volatile("@ + spec_call(inner, lifetimes, params, arguments, "volatile("@, ")"@) + ")"@
}

impl ElementError {
    /// The diagnostic that fails the build.
    pub fn message(&self) -> (text: String)
        ensures
            text@ == match *self {
                ElementError::Static =>
                    "static is not supported by distributed_fn_slice, only fn items are supported"@,
                ElementError::NotFn => "distributed element must be a function item"@,
                ElementError::Const => "const fn distributed slice element is not supported"@,
                ElementError::Async => "async fn distributed slice element is not supported"@,
                ElementError::Generic =>
                    "cannot have generic parameters on distributed slice element"@,
                ElementError::WhereClause =>
                    "where-clause is not allowed on distributed slice elements"@,
            },
    {
        match self {
            ElementError::Static => String::from_str(
                "static is not supported by distributed_fn_slice, only fn items are supported",
            ),
            ElementError::NotFn => String::from_str("distributed element must be a function item"),
            ElementError::Const => String::from_str(
                "const fn distributed slice element is not supported",
            ),
            ElementError::Async => String::from_str(
                "async fn distributed slice element is not supported",
            ),
            ElementError::Generic => String::from_str(
                "cannot have generic parameters on distributed slice element",
            ),
            ElementError::WhereClause => String::from_str(
                "where-clause is not allowed on distributed slice elements",
            ),
        }
    }
}

/// The lifetime parameters among `params`, in order.
pub fn lifetimes(params: &Vec<GenericParam>) -> (names: Vec<String>)
    ensures
        names@ == spec_lifetimes(params@),
{
    let mut names: Vec<String> = Vec::new();
    let mut i: usize = 0;
    while i < params.len()
        invariant
            i <= params.len(),
            names@ == spec_lifetimes(params@.take(i as int)),
        decreases params.len() - i,
    {
        proof {
            assert(params@.take(i + 1).drop_last() =~= params@.take(i as int));
        }
        match &params[i] {
            GenericParam::Lifetime(name) => {
                names.push(name.clone());
            },
            _ => {},
        }
        i = i + 1;
    }
    assert(params@.take(params.len() as int) =~= params@);
    names
}

/// The type and const parameters among `params`, in order.
pub fn type_and_const_params(params: &Vec<GenericParam>) -> (names: Vec<String>)
    ensures
        names@ == spec_type_and_const_params(params@),
{
    let mut names: Vec<String> = Vec::new();
    let mut i: usize = 0;
    while i < params.len()
        invariant
            i <= params.len(),
            names@ == spec_type_and_const_params(params@.take(i as int)),
        decreases params.len() - i,
    {
        proof {
            assert(params@.take(i + 1).drop_last() =~= params@.take(i as int));
        }
        match &params[i] {
            GenericParam::Lifetime(_) => {},
            GenericParam::Type(name) => {
                names.push(name.clone());
            },
            GenericParam::Const(name) => {
                names.push(name.clone());
            },
        }
        i = i + 1;
    }
    assert(params@.take(params.len() as int) =~= params@);
    names
}

/// Whether every parameter among `params` is a lifetime.
pub fn has_only_lifetimes(params: &Vec<GenericParam>) -> (only: bool)
    ensures
        only == only_lifetimes(params@),
{
    let mut i: usize = 0;
    while i < params.len()
        invariant
            i <= params.len(),
            forall|k: int| 0 <= k < i ==> params@[k] is Lifetime,
        decreases params.len() - i,
    {
        match &params[i] {
            GenericParam::Lifetime(_) => {},
            _ => {
                return false;
            },
        }
        i = i + 1;
    }
    true
}

/// The lifetime binder of the pointer type of a function with generic
/// parameters `params`.
pub fn binder(params: &Vec<GenericParam>) -> (bound: Option<Vec<String>>)
    ensures
        spec_binder(params@, bound),
{
    if params.len() == 0 {
        None
    } else {
        Some(lifetimes(params))
    }
}

/// The names of the parameters `inputs`, in order.
pub fn arguments(inputs: &Vec<BareFnArg>) -> (names: Vec<String>)
    ensures
        views(names@) == spec_arguments(inputs@),
{
    let mut names: Vec<String> = Vec::new();
    let mut i: usize = 0;
    while i < inputs.len()
        invariant
            i <= inputs.len(),
            names@.len() == i,
            forall|k: int| 0 <= k < i ==> names@[k]@ == spec_arguments(inputs@)[k],
        decreases inputs.len() - i,
    {
        match &inputs[i].name {
            Some(name) => {
                names.push(name.clone());
            },
            None => {
                names.push(String::from_str("_"));
            },
        }
        i = i + 1;
    }
    assert(views(names@) =~= spec_arguments(inputs@));
    names
}

/// Appends to `out` every one of `items`, each written between `before` and
/// `after`.
pub fn push_each(out: &mut String, items: &Vec<String>, before: &str, after: &str)
    ensures
        final(out)@ == old(out)@ + spec_each(views(items@), before@, after@),
{
    let ghost start = out@;
    let mut i: usize = 0;
    while i < items.len()
        invariant
            i <= items.len(),
            out@ == start + spec_each(views(items@).take(i as int), before@, after@),
        decreases items.len() - i,
    {
        proof {
            assert(views(items@).take(i + 1).drop_last() =~= views(items@).take(i as int));
            assert(views(items@).take(i + 1).last() == items@[i as int]@);
        }
        out.append(before);
        out.append(items[i].as_str());
        out.append(after);
        assert(out@ =~= start + spec_each(views(items@).take(i + 1), before@, after@));
        i = i + 1;
    }
    assert(views(items@).take(items.len() as int) =~= views(items@));
}

/// Writes a call of `callee` that passes on every generic parameter and every
/// argument, each argument between `before` and `after`.
pub fn call(
    callee: &str,
    lifetimes: &Vec<String>,
    params: &Vec<String>,
    arguments: &Vec<String>,
    before: &str,
    after: &str,
) -> (text: String)
    ensures
        text@ == spec_call(
            callee@,
            views(lifetimes@),
            views(params@),
            views(arguments@),
            before@,
            after@,
        ),
{
    let mut text = String::from_str(callee);
    text.append("::<");
    proof {
        reveal_strlit("");
        assert(""@ =~= Seq::<char>::empty());
    }
    push_each(&mut text, lifetimes, "", ",");
    push_each(&mut text, params, "", ",");
    text.append(">(");
    let closing = String::from_str(after).concat(",");
    push_each(&mut text, arguments, before, closing.as_str());
    text.append(")");
    text
}

impl Element {
    /// Checks an item against the rules for a plain contribution.
    ///
    /// The item must be a function and no static; the function must be
    /// neither `const` nor `async`; its generic parameters must all be
    /// lifetimes; and it must have no `where` clause. The first rule broken,
    /// in this order, is the one reported. An accepted function is described
    /// by its pointer type, which binds the function's lifetimes.
    pub fn parse(item: FnItem) -> (result: Result<Element, ElementError>)
        ensures
            match result {
                Ok(element) => {
                    &&& spec_rejection(item) is None
                    &&& element.ident@ == "_LINKME_ELEMENT_"@ + item.ident@
                    &&& element.expr == item.ident
                    &&& spec_binder(item.generics@, element.ty.lifetimes)
                    &&& element.ty.unsafety == item.unsafety
                    &&& element.ty.abi == item.abi
                    &&& element.ty.inputs == item.inputs
                    &&& element.ty.output == item.output
                },
                Err(error) => spec_rejection(item) == Some(error),
            },
    {
        if item.is_static {
            return Err(ElementError::Static);
        }
        if !item.is_fn {
            return Err(ElementError::NotFn);
        }
        if item.constness {
            return Err(ElementError::Const);
        }
        if item.asyncness {
            return Err(ElementError::Async);
        }
        if !has_only_lifetimes(&item.generics) {
            return Err(ElementError::Generic);
        }
        if item.has_where_clause {
            return Err(ElementError::WhereClause);
        }
        let lifetimes = binder(&item.generics);
        let ident = String::from_str("_LINKME_ELEMENT_").concat(item.ident.as_str());
        let ty = BareFn {
            lifetimes,
            unsafety: item.unsafety,
            abi: item.abi,
            inputs: item.inputs,
            output: item.output,
        };
        Ok(Element { ident, ty, expr: item.ident })
    }
}

impl Element2 {
    /// Checks an item against the rules for a generic contribution.
    ///
    /// The item must be a function that is neither `const` nor `async`. The
    /// first rule broken, in this order, is the one reported. An accepted
    /// function is described by its name, its generic parameters and the
    /// pointer type of its trampoline: the function's own, with the C calling
    /// convention and binding the function's lifetimes.
    pub fn parse(item: FnItem) -> (result: Result<Element2, ElementError>)
        ensures
            match result {
                Ok(element) => {
                    &&& spec_rejection2(item) is None
                    &&& element.ident == item.ident
                    &&& element.generics == item.generics
                    &&& spec_binder(item.generics@, element.ty.lifetimes)
                    &&& element.ty.unsafety == item.unsafety
                    &&& element.ty.abi matches Some(abi) && abi.name matches Some(name) && name@
                        == c_abi_name()
                    &&& element.ty.inputs == item.inputs
                    &&& element.ty.output == item.output
                },
                Err(error) => spec_rejection2(item) == Some(error),
            },
    {
        if !item.is_fn {
            return Err(ElementError::NotFn);
        }
        if item.constness {
            return Err(ElementError::Const);
        }
        if item.asyncness {
            return Err(ElementError::Async);
        }
        let lifetimes = binder(&item.generics);
        let ty = BareFn {
            lifetimes,
            unsafety: item.unsafety,
            abi: Some(Abi { name: Some(String::from_str("\"C\"")) }),
            inputs: item.inputs,
            output: item.output,
        };
        Ok(Element2 { ident: item.ident, generics: item.generics, ty })
    }
}

/// The sort key of an ordinal, where one is given.
pub open spec fn spec_key(pos: Option<usize>, key: Option<String>) -> bool {
    match pos {
        Some(pos) => key matches Some(key) && key@ == spec_sort_key(pos as nat),
        None => key is None,
    }
}

/// The sort key of an ordinal, where one is given.
pub fn key_of(pos: Option<usize>) -> (key: Option<String>)
    ensures
        spec_key(pos, key),
{
    match pos {
        Some(pos) => Some(sort_key(pos)),
        None => None,
    }
}

/// Expands a generic contribution to registry `path`.
///
/// The function's body moves to `<name>_inner_impl`. The trampoline
/// `<name>_outer_impl` takes its place in the region, at the position the
/// ordinal gives; it forwards every generic parameter and every argument to
/// the inner function, reading arguments and result through `volatile` so
/// that no two trampolines compile to the same code. The function itself is
/// left as a plain call of its trampoline.
pub fn expand2(path: &str, pos: Option<usize>, input: Element2) -> (plan: Trampoline)
    ensures
        plan.path@ == path@,
        spec_key(pos, plan.sort_key),
        plan.inner_impl_name@ == input.ident@ + "_inner_impl"@,
        plan.outer_impl_name@ == input.ident@ + "_outer_impl"@,
        plan.lifetime_params@ == spec_lifetimes(input.generics@),
        plan.type_and_const_params@ == spec_type_and_const_params(input.generics@),
        views(plan.arguments@) == spec_arguments(input.ty.inputs@),
        plan.forward@ == spec_forward(
            plan.inner_impl_name@,
            views(plan.lifetime_params@),
            views(plan.type_and_const_params@),
            views(plan.arguments@),
        ),
        plan.call@ == spec_call(
            plan.outer_impl_name@,
            views(plan.lifetime_params@),
            views(plan.type_and_const_params@),
            views(plan.arguments@),
            Seq::empty(),
            Seq::empty(),
        ),
        plan.ty == input.ty,
{
    let lifetime_params = lifetimes(&input.generics);
    let type_and_const_params = type_and_const_params(&input.generics);
    let arguments = arguments(&input.ty.inputs);
    let inner_impl_name = String::from_str(input.ident.as_str()).concat("_inner_impl");
    let outer_impl_name = String::from_str(input.ident.as_str()).concat("_outer_impl");
    let inner_call = call(
        inner_impl_name.as_str(),
        &lifetime_params,
        &type_and_const_params,
        &arguments,
        "volatile(",
        ")",
    );
    let forward = String::from_str("volatile(").concat(inner_call.as_str()).concat(")");
    proof {
        reveal_strlit("");
        assert(""@ =~= Seq::<char>::empty());
    }
    let call = call(
        outer_impl_name.as_str(),
        &lifetime_params,
        &type_and_const_params,
        &arguments,
        "",
        "",
    );
    Trampoline {
        path: String::from_str(path),
        sort_key: key_of(pos),
        inner_impl_name,
        outer_impl_name,
        lifetime_params,
        type_and_const_params,
        arguments,
        forward,
        call,
        ty: input.ty,
    }
}

/// Expands a plain contribution to registry `path`: the contribution is
/// placed as it is, at the position the ordinal gives.
pub fn expand(path: &str, pos: Option<usize>, input: Element) -> (placement: Placement)
    ensures
        placement.path@ == path@,
        spec_key(pos, placement.sort_key),
        placement.element == input,
{
    do_expand(path, pos, input)
}

fn do_expand(path: &str, pos: Option<usize>, input: Element) -> (placement: Placement)
    ensures
        placement.path@ == path@,
        spec_key(pos, placement.sort_key),
        placement.element == input,
{
    Placement { path: String::from_str(path), sort_key: key_of(pos), element: input }
}

} // verus!
