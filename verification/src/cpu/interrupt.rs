//! The interrupts that the processor services.

use vstd::prelude::*;

verus! {

#[derive(Debug, Clone, Copy, PartialEq, Eq, Structural)]
pub enum InterruptType {
    NMI,
}

/// What servicing an interrupt needs to know.
#[derive(Debug, Clone, Copy, PartialEq, Eq, Structural)]
pub struct Interrupt {
    pub itype: InterruptType,
    /// Where the address of the handler is kept.
    pub vector_addr: u16,
    /// The bits 5 and 4 of the status that is pushed.
    pub b_flag_mask: u8,
    /// Cycles that entering the handler costs.
    pub cpu_cycles: u8,
}

/// The interrupt that the picture processor raises at vertical blanking.
pub open spec fn nmi() -> Interrupt {
    Interrupt { itype: InterruptType::NMI, vector_addr: 0xFFFA, b_flag_mask: 0b0010_0000, cpu_cycles: 2 }
}

/// The interrupt that the picture processor raises at vertical blanking.
pub fn non_maskable() -> (interrupt: Interrupt)
    ensures
        interrupt == nmi(),
{
    Interrupt { itype: InterruptType::NMI, vector_addr: 0xFFFA, b_flag_mask: 0b0010_0000, cpu_cycles: 2 }
}

} // verus!
