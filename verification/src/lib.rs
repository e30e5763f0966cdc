//! Factorials on 32-bit signed integers, and the fixed run of the first nine
//! of them that a host prints in order.

pub mod factorial;
pub mod run;
