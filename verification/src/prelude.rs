//! The names that ordinary use of the library needs, in one place.

pub use crate::param::{Parameter, ParameterContent};
pub use crate::slots::Slots;
pub use crate::{lazy, lazyf, Expression, Lazy};
