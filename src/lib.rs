//! Game stats that reset every frame, in the manner of an immediate-mode GUI.
//!
//! A [`Stat`] holds a persistent base and two transient modifiers, a bonus
//! and a multiplier. Modifiers are applied during a frame, the total is read,
//! and [`StatContainer::reset_modifiers`] clears them before the next frame.
//! The [`derive`] module computes, from a description of an aggregate type,
//! the body of a `reset_modifiers` that propagates the reset into every
//! stat-bearing field.
use vstd::prelude::*;

pub mod number;
pub mod ratio;
pub mod stat;
pub mod shape;
pub mod classify;
pub mod derive;
pub mod plugin;
pub mod render;
pub mod schedule;
pub mod text;

pub use number::StatNum;
pub use plugin::{
    register_systems, AttrArgs, AttrMeta, AutoPluginAttributes, MetaItem, PluginPath,
    PluginPathError, RegistrationKind,
};
pub use classify::FieldOptions;
pub use derive::{
    reset_enum, reset_struct, stat_container_derive, Diagnostic, FieldRef, GenerateError,
    Generated, ResetPlan, VariantPlan,
};
pub use ratio::Ratio;
pub use schedule::{PauseStatReset, StatSystems};
pub use shape::{Declaration, FieldShape, ShapeData, VariantShape};
pub use stat::{Modifier, Stat};

verus! {

/// Types that hold stats whose transient modifiers are reset every frame.
pub trait StatContainer: Sized {
    /// The value that resetting `self` leaves behind. By default the value
    /// itself, as for a type that holds nothing to reset.
    open spec fn reset_of(self) -> Self {
        self
    }

    /// Resets every stat bonus to zero and every stat multiplier to one.
    fn reset_modifiers(&mut self)
        ensures
            *final(self) == old(self).reset_of(),
    ;
}

} // verus!
