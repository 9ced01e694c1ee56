//! A registry of function pointers assembled at link time.
//!
//! Contributions to a registry are compiled, each on its own, into one named
//! memory region that the linker merges; nothing registers them at run time
//! and no list of contributors exists anywhere. A generic function cannot be
//! stored in such a region as a value, because every instantiation is a
//! function of its own. It is stored as code instead: a trampoline that does
//! nothing but jump to the instantiation. The registry is recovered at run
//! time by decoding the region and collecting the destinations of its calls
//! and jumps.
//!
//! * [`linker`] names the regions and their boundaries on every platform.
//! * [`declaration`] and [`element`] say what counts as a declaration and as
//!   a contribution, and what each expands to.
//! * [`link`] holds the guard behind which contributions are called so that
//!   no toolchain drops them.
//! * [`disasm`] and [`distributed_fn_slice`] recover the registry from the
//!   region's bytes.

pub mod declaration;
pub mod disasm;
pub mod distributed_fn_slice;
pub mod element;
pub mod hash;
pub mod link;
pub mod linker;
pub mod text;
pub mod ty;

pub use crate::distributed_fn_slice::DistributedFnSlice;
pub use crate::link::link;
