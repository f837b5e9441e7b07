//! A quantitative-finance core library built around a verified reverse-mode
//! automatic-differentiation engine.
//!
//! Scalars are IEEE-754 binary64 values carried everywhere as raw `u64` bit
//! patterns, so that the recorded computation graph, the reverse sweep and
//! the gradient selectors are fully verified while the floating-point
//! arithmetic itself is delegated to software implementations behind narrow
//! trusted boundaries.
//!
//! - [`bits`]: exact bit-level scalar logic (negation, absolute value,
//!   sign, comparison, and the decode/encode of mantissa-exponent forms).
//! - [`scalar`]: the trusted arithmetic boundary, one named operation per
//!   outside call.
//! - [`tape`]: the append-only node arena, `Graph` and `Variable`.
//! - [`ops`]: the operator set that records nodes with their partials.
//! - [`sweep`]: the reverse accumulator.
//! - [`theory`]: the exact-arithmetic proof that the sweep composes the
//!   chain rule correctly.
//! - [`gradient`]: the `Gradient` selector trait.
//! - [`distributions`], [`pricing`], [`instruments`], [`orders`]: the
//!   statistics and instrument layers built on the same scalars.

pub mod bits;
pub mod scalar;
pub mod tape;
pub mod ops;
pub mod sweep;
pub mod gradient;
pub mod theory;
pub mod orders;
pub mod instruments;
pub mod pricing;
pub mod distributions;
