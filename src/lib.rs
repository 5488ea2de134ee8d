//! Host-side core of a KVM keep: vCPU id allocation, register-state
//! initialisation for 64-bit entry, the per-vCPU shared channel page and the
//! decisions taken on each VM exit.

pub mod cpu_id;
pub mod dispatch;
pub mod offset;
pub mod regs;
pub mod sallyport;
