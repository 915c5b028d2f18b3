//! State bookkeeping for first- and second-order state-variable filters.
//!
//! Every real number is carried as the bit pattern of its IEEE-754 encoding:
//! binary64 in a `u64` for the first-order filter, binary32 in a `u32` for the
//! second-order filter. The all-zero pattern is positive zero in both. Nothing
//! here does arithmetic on those numbers; the host computes each sample's
//! recurrence and hands back the registers.
pub mod first_order_iir;
pub mod second_order_iir;
