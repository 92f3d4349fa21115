//! A capability model for mediating an embedded script runtime's access to
//! host resources.
//!
//! Grants accumulate in a [`vm::VmBuilder`], are frozen into an immutable
//! snapshot by [`vm::VmBuilder::build`], and the snapshot answers every
//! mediated resource request through [`vm::UninitializedVm::check_open`]
//! and [`vm::UninitializedVm::check_http`].

pub mod capabilities;
pub mod stdlib;
pub mod vm;
