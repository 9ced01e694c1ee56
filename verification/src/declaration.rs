//! Declaring a registry: what is accepted as a declaration, and which names
//! the declaration lays claim to on every platform.

use crate::linker::Platform;
use crate::linker::RegionNames;
use crate::linker::UnsupportedPlatform;
use crate::text::text_eq;
use crate::ty::Abi;
use crate::ty::BareFn;
use crate::ty::GenericArgument;
use crate::ty::PathArguments;
use crate::ty::PathSegment;
use crate::ty::Type;
use vstd::prelude::*;

verus! {

/// A `static` item as the surface syntax read it: what stands between
/// `static` and `=`.
#[derive(Debug, PartialEq, Eq)]
pub struct StaticItem {
    /// Whether the item is `static mut`.
    pub mutable: bool,
    /// The item's name.
    pub ident: String,
    /// The item's declared type.
    pub ty: Type,
    /// What the item is initialized with.
    pub initializer: Initializer,
}

/// The initializer of a `static` item, as far as a declaration cares. The
/// contributions fill the registry, so a declaration writes `[..]` and
/// nothing else.
#[derive(Clone, Copy, Debug, PartialEq, Eq, Structural)]
pub enum Initializer {
    /// Exactly `[..]`.
    Rest,
    /// Square brackets around anything else.
    Bracketed,
    /// Anything that is not in square brackets.
    Other,
}

/// A registry declaration that passed every check.
#[derive(Debug, PartialEq, Eq)]
pub struct Declaration {
    /// The registry's name.
    pub ident: String,
    /// The registry's type: a slice of function pointers with the C calling
    /// convention.
    pub ty: Type,
}

/// Why an item is no registry declaration.
#[derive(Clone, Copy, Debug, PartialEq, Eq, Structural)]
pub enum DeclarationError {
    /// The item is `static mut`.
    StaticMut,
    /// The declared type is no slice.
    NotSlice,
    /// The slice's element type is no function pointer.
    NotBareFn,
    /// The function pointer names a calling convention other than C.
    NotCAbi,
    /// The initializer is not in square brackets.
    NotBracketed,
    /// The square brackets of the initializer hold something other than `..`.
    NotRest,
}

/// The section and boundary names of a registry on one platform.
#[derive(Clone, Debug, PartialEq, Eq)]
pub struct PlatformLayout {
    /// The region that holds the contributions.
    pub content: RegionNames,
    /// The region that holds one word per declaration.
    pub dupcheck: RegionNames,
}

/// Everything a declaration expands to, for every supported platform.
#[derive(Debug, PartialEq, Eq)]
pub struct Expansion {
    /// The registry's name.
    pub name: String,
    /// The registry's type.
    pub ty: Type,
    /// Name of the helper macro through which contributions are placed.
    pub link_section_macro: String,
    /// Layout on ELF targets.
    pub linux: PlatformLayout,
    /// Layout on Mach-O targets.
    pub macho: PlatformLayout,
    /// Layout on PE/COFF targets.
    pub windows: PlatformLayout,
    /// Layout on illumos.
    pub illumos: PlatformLayout,
    /// Layout on FreeBSD.
    pub freebsd: PlatformLayout,
}

/// The name of the C calling convention as it is written in source.
pub open spec fn c_abi_name() -> Seq<char> {
    "\"C\""@
}

/// Whether a calling convention, as written, is the C one: a bare `extern`
/// or `extern "C"`.
pub open spec fn spec_is_c(abi: Abi) -> bool {
    match abi.name {
        None => true,
        Some(name) => name@ == c_abi_name(),
    }
}

/// The first rule that `item` breaks, if it breaks any.
pub open spec fn spec_rejection(item: StaticItem) -> Option<DeclarationError> {
    if item.mutable {
        Some(DeclarationError::StaticMut)
    } else {
        match item.ty {
            Type::Slice(elem) => match *elem {
                Type::BareFn(pointer) => match pointer.abi {
                    Some(abi) if !spec_is_c(abi) => Some(DeclarationError::NotCAbi),
                    _ => match item.initializer {
                        Initializer::Rest => None,
                        Initializer::Bracketed => Some(DeclarationError::NotRest),
                        Initializer::Other => Some(DeclarationError::NotBracketed),
                    },
                },
                _ => Some(DeclarationError::NotBareFn),
            },
            _ => Some(DeclarationError::NotSlice),
        }
    }
}

/// `after` is `before` with the C calling convention written out where
/// `before` names none.
pub open spec fn with_c_abi(before: BareFn, after: BareFn) -> bool {
    &&& after.lifetimes == before.lifetimes
    &&& after.unsafety == before.unsafety
    &&& after.inputs == before.inputs
    &&& after.output == before.output
    &&& match before.abi {
        Some(_) => after.abi == before.abi,
        None => after.abi matches Some(abi) && abi.name matches Some(name) && name@
            == c_abi_name(),
    }
}

/// `declaration` is what `item` is accepted as.
pub open spec fn accepts(item: StaticItem, declaration: Declaration) -> bool {
    &&& declaration.ident == item.ident
    &&& item.ty matches Type::Slice(elem)
    &&& *elem matches Type::BareFn(before)
    &&& declaration.ty matches Type::Slice(declared)
    &&& *declared matches Type::BareFn(after)
    &&& with_c_abi(before, after)
}

/// The macro name of registry `ident`.
pub open spec fn spec_link_section_macro(ident: Seq<char>) -> Seq<char> {
    "_generic_linkme_macro_"@ + ident
}

impl PlatformLayout {
    /// The layout of registry `ident` on `platform`.
    pub open spec fn spec_of(platform: Platform, ident: Seq<char>) -> (
        crate::linker::RegionNamesView,
        crate::linker::RegionNamesView,
    ) {
        (platform.spec_content(ident), platform.spec_dupcheck(ident))
    }

    /// The names of both regions.
    pub open spec fn names(self) -> (
        crate::linker::RegionNamesView,
        crate::linker::RegionNamesView,
    ) {
        (self.content@, self.dupcheck@)
    }

    /// The layout of registry `ident` on `platform`.
    pub fn of(platform: Platform, ident: &str) -> (layout: PlatformLayout)
        ensures
            layout.names() == Self::spec_of(platform, ident@),
    {
        PlatformLayout { content: platform.content(ident), dupcheck: platform.dupcheck(ident) }
    }
}

impl DeclarationError {
    /// The diagnostic that fails the build.
    pub fn message(&self) -> (text: String)
        ensures
            text@ == match *self {
                DeclarationError::StaticMut => "static mut is not supported by distributed_fn_slice"@,
                DeclarationError::NotSlice => "distributed_fn_slice must be a slice"@,
                DeclarationError::NotBareFn =>
                    "distributed_fn_slice can only contain bare function pointers"@,
                DeclarationError::NotCAbi =>
                    "distributed_fn_slice can only contain function pointers that use C ABI"@,
                DeclarationError::NotBracketed => "expected square brackets"@,
                DeclarationError::NotRest => "expected `..`"@,
            },
    {
        match self {
            DeclarationError::StaticMut => String::from_str(
                "static mut is not supported by distributed_fn_slice",
            ),
            DeclarationError::NotSlice => String::from_str("distributed_fn_slice must be a slice"),
            DeclarationError::NotBareFn => String::from_str(
                "distributed_fn_slice can only contain bare function pointers",
            ),
            DeclarationError::NotCAbi => String::from_str(
                "distributed_fn_slice can only contain function pointers that use C ABI",
            ),
            DeclarationError::NotBracketed => String::from_str("expected square brackets"),
            DeclarationError::NotRest => String::from_str("expected `..`"),
        }
    }
}

/// Whether a calling convention, as written, is the C one.
pub fn is_c(abi: &Abi) -> (c: bool)
    ensures
        c == spec_is_c(*abi),
{
    match &abi.name {
        None => true,
        Some(name) => text_eq(name.as_str(), "\"C\""),
    }
}

impl Declaration {
    /// Checks an item against the rules for a registry declaration.
    ///
    /// The item must not be `static mut`; its type must be a slice; the
    /// slice's elements must be function pointers; the pointers must use the
    /// C calling convention, which is filled in where none is written; and
    /// the initializer must be `[..]`. The first rule broken, in this order,
    /// is the one reported.
    pub fn parse(item: StaticItem) -> (result: Result<Declaration, DeclarationError>)
        ensures
            match result {
                Ok(declaration) => spec_rejection(item) is None && accepts(item, declaration),
                Err(error) => spec_rejection(item) == Some(error),
            },
    {
        if item.mutable {
            return Err(DeclarationError::StaticMut);
        }
        let StaticItem { mutable: _, ident, ty, initializer } = item;
        let elem = match ty {
            Type::Slice(elem) => elem,
            _ => {
                return Err(DeclarationError::NotSlice);
            },
        };
        let mut pointer = match *elem {
            Type::BareFn(pointer) => pointer,
            _ => {
                return Err(DeclarationError::NotBareFn);
            },
        };
        let ghost before = pointer;
        match &pointer.abi {
            None => {
                pointer.abi = Some(Abi { name: Some(String::from_str("\"C\"")) });
            },
            Some(abi) => {
                if !is_c(abi) {
                    return Err(DeclarationError::NotCAbi);
                }
            },
        }
        match initializer {
            Initializer::Rest => {},
            Initializer::Bracketed => {
                return Err(DeclarationError::NotRest);
            },
            Initializer::Other => {
                return Err(DeclarationError::NotBracketed);
            },
        }
        assert(with_c_abi(before, pointer));
        Ok(Declaration { ident, ty: Type::Slice(Box::new(Type::BareFn(pointer))) })
    }
}

impl Expansion {
    /// The layout that the build for operating system `target_os` uses.
    /// Fails, rather than yield an empty registry, exactly where no platform
    /// covers `target_os`.
    pub fn select(&self, target_os: &str) -> (layout: Result<&PlatformLayout, UnsupportedPlatform>)
        ensures
            match layout {
                Ok(layout) => crate::linker::spec_resolve(target_os@) matches Some(platform)
                    && *layout == self.spec_layout(platform),
                Err(_) => crate::linker::spec_resolve(target_os@) is None,
            },
    {
        match Platform::resolve(target_os) {
            Ok(Platform::Linux) => Ok(&self.linux),
            Ok(Platform::MachO) => Ok(&self.macho),
            Ok(Platform::Windows) => Ok(&self.windows),
            Ok(Platform::Illumos) => Ok(&self.illumos),
            Ok(Platform::FreeBsd) => Ok(&self.freebsd),
            Err(error) => Err(error),
        }
    }

    /// The layout held for `platform`.
    pub open spec fn spec_layout(self, platform: Platform) -> PlatformLayout {
        match platform {
            Platform::Linux => self.linux,
            Platform::MachO => self.macho,
            Platform::Windows => self.windows,
            Platform::Illumos => self.illumos,
            Platform::FreeBsd => self.freebsd,
        }
    }

    /// The expansion is that of registry `ident`: it names the registry, its
    /// helper macro, and on every platform the regions that the section
    /// locator derives.
    pub open spec fn is_for(self, ident: Seq<char>) -> bool {
        &&& self.name@ == ident
        &&& self.link_section_macro@ == spec_link_section_macro(ident)
        &&& forall|platform: Platform| #[trigger]
            self.spec_layout(platform).names() == PlatformLayout::spec_of(platform, ident)
    }
}

/// Expands an item into a registry declaration.
///
/// An item that breaks a rule fails with the first rule it breaks. An
/// accepted item keeps its type, with the calling convention written out, and
/// is laid out on every platform under its own name.
pub fn expand(input: StaticItem) -> (result: Result<Expansion, DeclarationError>)
    ensures
        match result {
            Ok(expansion) => {
                &&& spec_rejection(input) is None
                &&& expansion.is_for(input.ident@)
                &&& accepts(input, Declaration { ident: input.ident, ty: expansion.ty })
            },
            Err(error) => spec_rejection(input) == Some(error),
        },
{
    let declaration = match Declaration::parse(input) {
        Ok(declaration) => declaration,
        Err(error) => {
            return Err(error);
        },
    };
    let Declaration { ident, ty } = declaration;
    let mut ty = ty;
    let ghost declared = ty;
    populate_static_lifetimes(&mut ty);
    proof {
        reveal_with_fuel(populated, 2);
        assert(populated(declared, ty));
    }
    let name = ident.as_str();
    let linux = PlatformLayout::of(Platform::Linux, name);
    let macho = PlatformLayout::of(Platform::MachO, name);
    let windows = PlatformLayout::of(Platform::Windows, name);
    let illumos = PlatformLayout::of(Platform::Illumos, name);
    let freebsd = PlatformLayout::of(Platform::FreeBsd, name);
    let link_section_macro = String::from_str("_generic_linkme_macro_").concat(name);
    let expansion = Expansion {
        name: String::from_str(name),
        ty,
        link_section_macro,
        linux,
        macho,
        windows,
        illumos,
        freebsd,
    };
    assert forall|platform: Platform| #[trigger]
        expansion.spec_layout(platform).names() == PlatformLayout::spec_of(
            platform,
            input.ident@,
        ) by {
        match platform {
            Platform::Linux => {},
            Platform::MachO => {},
            Platform::Windows => {},
            Platform::Illumos => {},
            Platform::FreeBsd => {},
        }
    }
    Ok(expansion)
}

/// `after` is `before` with `'static` written into every reference that
/// names no lifetime. References are looked for in the elements of arrays,
/// slices, tuples, groups and parentheses, behind pointers and references, in
/// the self type of a qualified path and among the type arguments of a path.
/// Function pointers, trait objects and every other kind of type are left as
/// they are.
pub open spec fn populated(before: Type, after: Type) -> bool
    decreases before,
{
    match before {
        Type::Array(elem, len) => after matches Type::Array(elem2, len2) && len2 == len
            && populated(*elem, *elem2),
        Type::Group(elem) => after matches Type::Group(elem2) && populated(*elem, *elem2),
        Type::Paren(elem) => after matches Type::Paren(elem2) && populated(*elem, *elem2),
        Type::Path(qself, segments) => {
            &&& after matches Type::Path(qself2, segments2)
            &&& match qself {
                Some(ty) => qself2 matches Some(ty2) && populated(*ty, *ty2),
                None => qself2 is None,
            }
            &&& segments2.len() == segments.len()
            &&& forall|i: int|
                0 <= i < segments.len() ==> populated_segment(segments[i], #[trigger] segments2[i])
        },
        Type::Ptr(mutable, elem) => after matches Type::Ptr(mutable2, elem2) && mutable2
            == mutable && populated(*elem, *elem2),
        Type::Reference(lifetime, mutable, elem) => {
            &&& after matches Type::Reference(lifetime2, mutable2, elem2)
            &&& match lifetime {
                Some(_) => lifetime2 == lifetime,
                None => lifetime2 matches Some(name) && name@ == "'static"@,
            }
            &&& mutable2 == mutable
            &&& populated(*elem, *elem2)
        },
        Type::Slice(elem) => after matches Type::Slice(elem2) && populated(*elem, *elem2),
        Type::Tuple(elems) => {
            &&& after matches Type::Tuple(elems2)
            &&& elems2.len() == elems.len()
            &&& forall|i: int| 0 <= i < elems.len() ==> populated(elems[i], #[trigger] elems2[i])
        },
        _ => after == before,
    }
}

/// The same for one segment of a path: its name stays, and so do arguments
/// that are not between angle brackets.
pub open spec fn populated_segment(before: PathSegment, after: PathSegment) -> bool
    decreases before,
{
    &&& after.ident == before.ident
    &&& match before.arguments {
        PathArguments::AngleBracketed(args) => {
            &&& after.arguments matches PathArguments::AngleBracketed(args2)
            &&& args2.len() == args.len()
            &&& forall|i: int|
                0 <= i < args.len() ==> populated_argument(args[i], #[trigger] args2[i])
        },
        _ => after.arguments == before.arguments,
    }
}

/// The same for one generic argument: only a type argument is looked into.
pub open spec fn populated_argument(before: GenericArgument, after: GenericArgument) -> bool
    decreases before,
{
    match before {
        GenericArgument::Type(ty) => after matches GenericArgument::Type(ty2) && populated(
            ty,
            ty2,
        ),
        _ => after == before,
    }
}

fn populate(ty: Type) -> (out: Type)
    ensures
        populated(ty, out),
    decreases ty,
{
    match ty {
        Type::Array(elem, len) => Type::Array(Box::new(populate(*elem)), len),
        Type::Group(elem) => Type::Group(Box::new(populate(*elem))),
        Type::Paren(elem) => Type::Paren(Box::new(populate(*elem))),
        Type::Path(qself, segments) => {
            let qself = match qself {
                Some(ty) => Some(Box::new(populate(*ty))),
                None => None,
            };
            Type::Path(qself, populate_segments(segments))
        },
        Type::Ptr(mutable, elem) => Type::Ptr(mutable, Box::new(populate(*elem))),
        Type::Reference(lifetime, mutable, elem) => {
            let lifetime = match lifetime {
                Some(name) => Some(name),
                None => Some(String::from_str("'static")),
            };
            Type::Reference(lifetime, mutable, Box::new(populate(*elem)))
        },
        Type::Slice(elem) => Type::Slice(Box::new(populate(*elem))),
        Type::Tuple(elems) => Type::Tuple(populate_types(elems)),
        other => other,
    }
}

fn populate_types(elems: Vec<Type>) -> (out: Vec<Type>)
    ensures
        out.len() == elems.len(),
        forall|i: int| 0 <= i < elems.len() ==> populated(elems[i], #[trigger] out[i]),
    decreases elems,
{
    let ghost before = elems;
    let mut rest = elems;
    let mut out: Vec<Type> = Vec::new();
    while rest.len() > 0
        invariant
            before == elems,
            out.len() + rest.len() == before.len(),
            rest@ == before@.subrange(out.len() as int, before.len() as int),
            forall|i: int| 0 <= i < out.len() ==> populated(before[i], #[trigger] out[i]),
        decreases rest.len(),
    {
        let ty = rest.remove(0);
        assert(ty == before[out.len() as int]);
        assert(decreases_to!(elems => ty));
        out.push(populate(ty));
        assert(rest@ =~= before@.subrange(out.len() as int, before.len() as int));
    }
    out
}

fn populate_segments(segments: Vec<PathSegment>) -> (out: Vec<PathSegment>)
    ensures
        out.len() == segments.len(),
        forall|i: int|
            0 <= i < segments.len() ==> populated_segment(segments[i], #[trigger] out[i]),
    decreases segments,
{
    let ghost before = segments;
    let mut rest = segments;
    let mut out: Vec<PathSegment> = Vec::new();
    while rest.len() > 0
        invariant
            before == segments,
            out.len() + rest.len() == before.len(),
            rest@ == before@.subrange(out.len() as int, before.len() as int),
            forall|i: int| 0 <= i < out.len() ==> populated_segment(before[i], #[trigger] out[i]),
        decreases rest.len(),
    {
        let segment = rest.remove(0);
        assert(segment == before[out.len() as int]);
        assert(decreases_to!(segments => segment));
        let PathSegment { ident, arguments } = segment;
        let arguments = match arguments {
            PathArguments::AngleBracketed(args) => PathArguments::AngleBracketed(
                populate_arguments(args),
            ),
            other => other,
        };
        out.push(PathSegment { ident, arguments });
        assert(rest@ =~= before@.subrange(out.len() as int, before.len() as int));
    }
    out
}

fn populate_arguments(args: Vec<GenericArgument>) -> (out: Vec<GenericArgument>)
    ensures
        out.len() == args.len(),
        forall|i: int| 0 <= i < args.len() ==> populated_argument(args[i], #[trigger] out[i]),
    decreases args,
{
    let ghost before = args;
    let mut rest = args;
    let mut out: Vec<GenericArgument> = Vec::new();
    while rest.len() > 0
        invariant
            before == args,
            out.len() + rest.len() == before.len(),
            rest@ == before@.subrange(out.len() as int, before.len() as int),
            forall|i: int| 0 <= i < out.len() ==> populated_argument(before[i], #[trigger] out[i]),
        decreases rest.len(),
    {
        let arg = rest.remove(0);
        assert(arg == before[out.len() as int]);
        assert(decreases_to!(args => arg));
        let arg = match arg {
            GenericArgument::Type(ty) => GenericArgument::Type(populate(ty)),
            other => other,
        };
        out.push(arg);
        assert(rest@ =~= before@.subrange(out.len() as int, before.len() as int));
    }
    out
}

/// Writes `'static` into every reference in `ty` that names no lifetime.
pub fn populate_static_lifetimes(ty: &mut Type)
    ensures
        populated(*old(ty), *final(ty)),
{
    let mut taken = Type::Never;
    core::mem::swap(ty, &mut taken);
    *ty = populate(taken);
}

/// Every reference that population looks at names a lifetime.
pub open spec fn settled(ty: Type) -> bool
    decreases ty,
{
    match ty {
        Type::Array(elem, _) => settled(*elem),
        Type::Group(elem) => settled(*elem),
        Type::Paren(elem) => settled(*elem),
        Type::Path(qself, segments) => {
            &&& qself matches Some(ty) ==> settled(*ty)
            &&& forall|i: int| 0 <= i < segments.len() ==> settled_segment(#[trigger] segments[i])
        },
        Type::Ptr(_, elem) => settled(*elem),
        Type::Reference(lifetime, _, elem) => lifetime is Some && settled(*elem),
        Type::Slice(elem) => settled(*elem),
        Type::Tuple(elems) => forall|i: int| 0 <= i < elems.len() ==> settled(#[trigger] elems[i]),
        _ => true,
    }
}

/// The same for one segment of a path.
pub open spec fn settled_segment(segment: PathSegment) -> bool
    decreases segment,
{
    match segment.arguments {
        PathArguments::AngleBracketed(args) => forall|i: int|
            0 <= i < args.len() ==> settled_argument(#[trigger] args[i]),
        _ => true,
    }
}

/// The same for one generic argument.
pub open spec fn settled_argument(argument: GenericArgument) -> bool
    decreases argument,
{
    match argument {
        GenericArgument::Type(ty) => settled(ty),
        _ => true,
    }
}

/// Population leaves no reference behind: in a populated type every
/// reference that population looks at names a lifetime.
pub proof fn lemma_populated_is_settled(before: Type, after: Type)
    requires
        populated(before, after),
    ensures
        settled(after),
    decreases before,
{
    match before {
        Type::Array(elem, _) => {
            lemma_populated_is_settled(*elem, *after->Array_0);
        },
        Type::Group(elem) => {
            lemma_populated_is_settled(*elem, *after->Group_0);
        },
        Type::Paren(elem) => {
            lemma_populated_is_settled(*elem, *after->Paren_0);
        },
        Type::Path(qself, segments) => {
            let segments2 = after->Path_1;
            match qself {
                Some(ty) => {
                    lemma_populated_is_settled(*ty, *after->Path_0->0);
                },
                None => {},
            }
            assert forall|i: int| 0 <= i < segments2.len() implies settled_segment(
                #[trigger] segments2[i],
            ) by {
                lemma_populated_segment_is_settled(segments[i], segments2[i]);
            }
        },
        Type::Ptr(_, elem) => {
            lemma_populated_is_settled(*elem, *after->Ptr_1);
        },
        Type::Reference(_, _, elem) => {
            lemma_populated_is_settled(*elem, *after->Reference_2);
        },
        Type::Slice(elem) => {
            lemma_populated_is_settled(*elem, *after->Slice_0);
        },
        Type::Tuple(elems) => {
            let elems2 = after->Tuple_0;
            assert forall|i: int| 0 <= i < elems2.len() implies settled(#[trigger] elems2[i]) by {
                lemma_populated_is_settled(elems[i], elems2[i]);
            }
        },
        _ => {},
    }
}

proof fn lemma_populated_segment_is_settled(before: PathSegment, after: PathSegment)
    requires
        populated_segment(before, after),
    ensures
        settled_segment(after),
    decreases before,
{
    match before.arguments {
        PathArguments::AngleBracketed(args) => {
            let args2 = after.arguments->AngleBracketed_0;
            assert forall|i: int| 0 <= i < args2.len() implies settled_argument(
                #[trigger] args2[i],
            ) by {
                match args[i] {
                    GenericArgument::Type(ty) => {
                        lemma_populated_is_settled(ty, args2[i]->Type_0);
                    },
                    _ => {},
                }
            }
        },
        _ => {},
    }
}

} // verus!
