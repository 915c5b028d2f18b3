//! Two-pole filter: coefficient record and integrator state, in binary32 bit
//! patterns.
use vstd::prelude::*;

verus! {

/// Recurrence constants of a two-pole filter, each a binary32 bit pattern.
///
/// `a` is the linear amplitude, `g` the prewarped cutoff, `gpow2` its square,
/// `k` the damping, `a1`, `a2`, `a3` the feedback coefficients, `m0`, `m1`,
/// `m2` the output mix.
#[derive(Copy, Clone, Debug)]
pub struct IIR2Coefficients {
    pub a: u32,
    pub g: u32,
    pub gpow2: u32,
    pub k: u32,
    pub a1: u32,
    pub a2: u32,
    pub a3: u32,
    pub m0: u32,
    pub m1: u32,
    pub m2: u32,
}

/// What a two-pole filter is at one instant: the two integrator registers and
/// the coefficients in force.
pub struct IIR2State {
    pub ic1eq: u32,
    pub ic2eq: u32,
    pub coeffs: IIR2Coefficients,
}

/// A two-pole filter. Only `advance` writes the registers.
#[derive(Copy, Clone, Debug)]
pub struct IIR2 {
    ic1eq: u32,
    ic2eq: u32,
    pub coeffs: IIR2Coefficients,
}

impl View for IIR2 {
    type V = IIR2State;

    closed spec fn view(&self) -> IIR2State {
        IIR2State { ic1eq: self.ic1eq, ic2eq: self.ic2eq, coeffs: self.coeffs }
    }
}

impl IIR2 {
    /// A filter at rest: both registers are positive zero and the
    /// coefficients are the ones given.
    pub fn from(coefficients: IIR2Coefficients) -> (filter: IIR2)
        ensures
            filter@ == (IIR2State { ic1eq: 0, ic2eq: 0, coeffs: coefficients }),
    {
        IIR2 { ic1eq: 0, ic2eq: 0, coeffs: coefficients }
    }

    /// Reads the first integrator register.
    pub fn ic1eq(&self) -> (bits: u32)
        ensures
            bits == self@.ic1eq,
    {
        self.ic1eq
    }

    /// Reads the second integrator register.
    pub fn ic2eq(&self) -> (bits: u32)
        ensures
            bits == self@.ic2eq,
    {
        self.ic2eq
    }

    /// Reads the coefficients in force.
    pub fn coefficients(&self) -> (c: IIR2Coefficients)
        ensures
            c == self@.coeffs,
    {
        self.coeffs
    }

    /// Stores the register values that the recurrence produced for the sample
    /// just processed. The coefficients stay as they are.
    pub fn advance(&mut self, ic1eq: u32, ic2eq: u32)
        ensures
            final(self)@ == (IIR2State {
                ic1eq: ic1eq,
                ic2eq: ic2eq,
                coeffs: old(self)@.coeffs,
            }),
    {
        self.ic1eq = ic1eq;
        self.ic2eq = ic2eq;
    }

    /// Puts new coefficients in force. Both registers keep their bits, so the
    /// output stays continuous across the change.
    pub fn update(&mut self, new_coefficients: IIR2Coefficients)
        ensures
            final(self)@ == (IIR2State {
                ic1eq: old(self)@.ic1eq,
                ic2eq: old(self)@.ic2eq,
                coeffs: new_coefficients,
            }),
    {
        self.coeffs = new_coefficients;
    }
}

} // verus!
