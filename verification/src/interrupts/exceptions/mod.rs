//! Exception handlers in the vector table.

use vstd::prelude::*;

use super::{Vector, VectorTable};
use crate::interrupts::vector::with_entry;

verus! {

/// Addresses of the exception handlers of a core.
#[derive(Clone, Copy)]
pub struct ExceptionHandlers {
    pub nmi: usize,
    pub hardfault: usize,
    pub memfault: usize,
    pub busfault: usize,
    pub usefault: usize,
    pub secure: usize,
    pub svcall: usize,
    pub pendsv: usize,
    pub systick: usize,
}

/// The table `table` with the exception handlers installed.
pub open spec fn init_spec(table: Seq<usize>, h: ExceptionHandlers) -> Seq<usize> {
    let t = with_entry(table, 2, h.nmi);
    let t = with_entry(t, 3, h.hardfault);
    let t = with_entry(t, 4, h.memfault);
    let t = with_entry(t, 5, h.busfault);
    let t = with_entry(t, 6, h.usefault);
    let t = with_entry(t, 7, h.secure);
    let t = with_entry(t, 11, h.svcall);
    let t = with_entry(t, 14, h.pendsv);
    with_entry(t, 15, h.systick)
}

/// Each handler lands at the ARMv8-M exception number of its exception (NMI 2, HardFault 3,
/// MemManage 4, BusFault 5, UsageFault 6, SecureFault 7, SVCall 11, PendSV 14, SysTick 15),
/// and every other entry of the table (the stack pointer, the reset vector, the reserved
/// entries and the interrupts) is left as it was.
pub proof fn lemma_init_places_handlers(table: Seq<usize>, h: ExceptionHandlers)
    requires
        table.len() >= 16,
    ensures
        ({
            let t = init_spec(table, h);
            &&& t.len() == table.len()
            &&& t[2] == h.nmi
            &&& t[3] == h.hardfault
            &&& t[4] == h.memfault
            &&& t[5] == h.busfault
            &&& t[6] == h.usefault
            &&& t[7] == h.secure
            &&& t[11] == h.svcall
            &&& t[14] == h.pendsv
            &&& t[15] == h.systick
            &&& forall|i: int|
                0 <= i < table.len() && !(2 <= i <= 7 || i == 11 || i == 14 || i == 15) ==> #[trigger] t[i]
                    == table[i]
        }),
{
}

/// Initializes the exception entries of the vector table of the current core.
pub fn init(vtable: &mut VectorTable, handlers: ExceptionHandlers)
    ensures
        final(vtable)@ == init_spec(old(vtable)@, handlers),
{
    vtable.index_mut(2, Vector::target(handlers.nmi));
    vtable.index_mut(3, Vector::target(handlers.hardfault));
    vtable.index_mut(4, Vector::target(handlers.memfault));
    vtable.index_mut(5, Vector::target(handlers.busfault));
    vtable.index_mut(6, Vector::target(handlers.usefault));
    vtable.index_mut(7, Vector::target(handlers.secure));
    vtable.index_mut(11, Vector::target(handlers.svcall));
    vtable.index_mut(14, Vector::target(handlers.pendsv));
    vtable.index_mut(15, Vector::target(handlers.systick));
}

} // verus!
