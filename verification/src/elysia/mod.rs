//! Models made by Elysia.
pub mod karacter;
pub mod museq;
pub mod nvelope;
pub mod xfilter;
