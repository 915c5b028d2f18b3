//! One-pole filter: coefficient record and integrator state, in binary64 bit
//! patterns.
use vstd::prelude::*;

verus! {

/// Recurrence constants of a one-pole filter, each a binary64 bit pattern.
///
/// `a` is the linear amplitude, `g` the prewarped cutoff, `a1` the feedback
/// coefficient, `m0` and `m1` the output mix.
#[derive(Copy, Clone, Debug)]
pub struct IIR1Coefficients {
    pub a: u64,
    pub g: u64,
    pub a1: u64,
    pub m0: u64,
    pub m1: u64,
}

impl IIR1Coefficients {
    /// The record whose five constants are all positive zero.
    pub fn empty() -> (c: IIR1Coefficients)
        ensures
            c == (IIR1Coefficients { a: 0, g: 0, a1: 0, m0: 0, m1: 0 }),
    {
        IIR1Coefficients { a: 0, g: 0, a1: 0, m0: 0, m1: 0 }
    }
}

/// What a one-pole filter is at one instant: the integrator register and the
/// coefficients in force.
pub struct IIR1State {
    pub ic1eq: u64,
    pub coeffs: IIR1Coefficients,
}

/// A one-pole filter. Only `advance` writes the register.
#[derive(Copy, Clone, Debug)]
pub struct IIR1 {
    ic1eq: u64,
    pub coeffs: IIR1Coefficients,
}

impl View for IIR1 {
    type V = IIR1State;

    closed spec fn view(&self) -> IIR1State {
        IIR1State { ic1eq: self.ic1eq, coeffs: self.coeffs }
    }
}

impl IIR1 {
    /// A filter at rest: the register is positive zero and the coefficients
    /// are the ones given.
    pub fn from(coefficients: IIR1Coefficients) -> (filter: IIR1)
        ensures
            filter@ == (IIR1State { ic1eq: 0, coeffs: coefficients }),
    {
        IIR1 { ic1eq: 0, coeffs: coefficients }
    }

    /// Reads the integrator register.
    pub fn ic1eq(&self) -> (bits: u64)
        ensures
            bits == self@.ic1eq,
    {
        self.ic1eq
    }

    /// Reads the coefficients in force.
    pub fn coefficients(&self) -> (c: IIR1Coefficients)
        ensures
            c == self@.coeffs,
    {
        self.coeffs
    }

    /// Stores the register value that the recurrence produced for the sample
    /// just processed. The coefficients stay as they are.
    pub fn advance(&mut self, ic1eq: u64)
        ensures
            final(self)@ == (IIR1State { ic1eq: ic1eq, coeffs: old(self)@.coeffs }),
    {
        self.ic1eq = ic1eq;
    }

    /// Puts new coefficients in force. The register keeps its bits, so the
    /// output stays continuous across the change.
    pub fn update(&mut self, new_coefficients: IIR1Coefficients)
        ensures
            final(self)@ == (IIR1State { ic1eq: old(self)@.ic1eq, coeffs: new_coefficients }),
    {
        self.coeffs = new_coefficients;
    }
}

} // verus!
