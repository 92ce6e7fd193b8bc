//! Mock synthesis for trait and foreign-function declarations.
//!
//! The crate models a declaration (a trait, or an `extern` block) as plain
//! data, classifies each method's receiver and arguments, and synthesizes a
//! description of the companion mock: one call tracker per method, getter and
//! setter names, fallback delegation rules, and the global storage used for
//! static and foreign functions. The call tracker itself is implemented here
//! as a verified state machine: scripted per-invocation results, a dynamic
//! result source, and call-count bounds enforced at call time and at
//! finalization.

pub mod classify;
pub mod dispatch;
pub mod entry;
pub mod foreign;
pub mod mock_method;
pub mod mock_trait;
pub mod model;
pub mod names;
pub mod registry;
pub mod synth;
pub mod tracker;
