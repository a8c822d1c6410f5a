//! The registers of the picture processing unit.

pub mod addrreg;
pub mod controlreg;
pub mod maskreg;
pub mod scrollreg;
pub mod statusreg;
