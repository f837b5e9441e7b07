//! Instrument descriptions: equity records and Asian-option parameters.

use vstd::prelude::*;

verus! {

/// What kind of instrument a record describes.
#[derive(Clone, Copy, Debug, PartialEq, Eq, Structural)]
pub enum InstrumentType {
    /// Common stock.
    Stock,
}

/// The currency an instrument is quoted in, by ISO code.
#[derive(Debug)]
pub struct Currency {
    /// ISO 4217 alphabetic code.
    pub code: String,
}

/// A common stock record.
#[allow(non_snake_case)]
#[derive(Debug)]
pub struct PyCommonStock {
    /// The kind of instrument.
    pub instrument_type: InstrumentType,
    /// Exchange ticker.
    pub ticker: String,
    /// Company name.
    pub name: String,
    /// Quote currency.
    pub currency: Currency,
    /// International Securities Identification Number.
    pub ISIN: String,
}

/// Type of Asian option (fixed or floating strike).
#[derive(Clone, Copy, Debug, PartialEq, Eq, Structural)]
pub enum PyAsianStrike {
    /// Floating strike Asian option.
    /// Payoffs:
    /// - Call: `max(S_T - A, 0)`
    /// - Put: `max(A - S_T, 0)`
    Floating,
    /// Fixed strike Asian option.
    /// Payoffs:
    /// - Call: `max(A - K, 0)`
    /// - Put: `max(K - A, 0)`
    Fixed,
}

/// Method of averaging (arithmetic or geometric, and continuous or
/// discrete).
#[derive(Clone, Copy, Debug, PartialEq, Eq, Structural)]
pub enum AveragingMethod {
    /// Arithmetic Asian option with discrete averaging.
    ArithmeticDiscrete,
    /// Arithmetic Asian option with continuous averaging.
    ArithmeticContinuous,
    /// Geometric Asian option with discrete averaging.
    GeometricDiscrete,
    /// Geometric Asian option with continuous averaging.
    GeometricContinuous,
}

} // verus!
