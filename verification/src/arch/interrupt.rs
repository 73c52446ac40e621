//! Per-hart trap state.
use vstd::prelude::*;
use crate::config::INTERRUPT_STACK_COUNT;
use crate::utils::Bss;

verus! {

/// The registers saved when a trap is taken.
#[derive(Clone, Copy)]
pub struct RegisterEnv {
    xregs: [usize; 31],
    status: usize,
    epc: usize,
    cause: usize,
    tval: usize,
}

impl RegisterEnv {
    /// Whether every saved register is zero.
    pub closed spec fn is_zero(&self) -> bool {
        &&& forall|i: int| 0 <= i < 31 ==> #[trigger] self.xregs@[i] == 0
        &&& self.status == 0
        &&& self.epc == 0
        &&& self.cause == 0
        &&& self.tval == 0
    }
}

impl Bss for RegisterEnv {
    fn zero() -> (z: Self)
        ensures
            z.is_zero(),
    {
        RegisterEnv { xregs: [0usize; 31], status: 0, epc: 0, cause: 0, tval: 0 }
    }
}

/// Byte alignment of a hart's trap context.
pub const HART_CONTEXT_ALIGN: usize = 4096;

/// The trap state of one hart: its id and a stack of saved register frames.
pub struct HartContext {
    hart_id: usize,
    env_stack: [RegisterEnv; INTERRUPT_STACK_COUNT],
}

impl HartContext {
    /// Id of the hart this context belongs to.
    pub closed spec fn spec_hart_id(&self) -> usize {
        self.hart_id
    }

    /// The saved register frames.
    pub closed spec fn frames(&self) -> Seq<RegisterEnv> {
        self.env_stack@
    }

    /// Whether every saved frame is zero.
    pub closed spec fn frames_zero(&self) -> bool {
        forall|i: int| 0 <= i < INTERRUPT_STACK_COUNT ==> #[trigger] self.env_stack@[i].is_zero()
    }

    /// Id of the hart this context belongs to.
    pub fn hart_id(&self) -> (r: usize)
        ensures
            r == self.spec_hart_id(),
    {
        self.hart_id
    }
}

impl Bss for HartContext {
    fn zero() -> (z: Self)
        ensures
            z.spec_hart_id() == 0,
            z.frames_zero(),
    {
        let frame = RegisterEnv::zero();
        HartContext { hart_id: 0, env_stack: [frame, frame, frame, frame] }
    }
}

/// Records in the trap context of hart `hart_id` which hart it belongs to.
pub fn init_hart_context(contexts: &mut Vec<HartContext>, hart_id: usize)
    requires
        hart_id < old(contexts).len(),
    ensures
        final(contexts).len() == old(contexts).len(),
        final(contexts)@[hart_id as int].spec_hart_id() == hart_id,
        final(contexts)@[hart_id as int].frames() == old(contexts)@[hart_id as int].frames(),
        forall|i: int|
            0 <= i < final(contexts).len() && i != hart_id ==> final(contexts)@[i] == old(contexts)@[i],
{
    contexts[hart_id].hart_id = hart_id;
}

} // verus!
