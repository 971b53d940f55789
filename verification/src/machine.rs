use vstd::prelude::*;
use vstd::pervasive::VecAdditionalExecFns;

use crate::errors::VmError;
use crate::memory::{high_byte, low_byte, word_at, LinearMemory};
use crate::op::{parse_instruction, spec_decode, Op};
use crate::register::Register;

verus! {

/// Capacity in bytes of a machine's memory.
pub const MEM_SIZE: usize = 8192;

/// Mathematical state of a machine core: the eight register values, the
/// memory contents, and the halt flag.
#[verifier::ext_equal]
pub struct CoreView {
    pub regs: Seq<u16>,
    pub mem: Seq<u8>,
    pub halt: bool,
}

impl CoreView {
    /// Eight registers and a memory of the fixed capacity.
    pub open spec fn wf(self) -> bool {
        self.regs.len() == 8 && self.mem.len() == MEM_SIZE
    }

    /// The value of register `r`.
    pub open spec fn reg(self, r: Register) -> u16 {
        self.regs[r.spec_idx()]
    }

    /// This state with register `r` set to `v`.
    pub open spec fn with_reg(self, r: Register, v: u16) -> CoreView {
        CoreView { regs: self.regs.update(r.spec_idx(), v), mem: self.mem, halt: self.halt }
    }
}

/// 16-bit addition with wraparound modulo 65536.
pub open spec fn wrap_add(a: u16, b: u16) -> u16 {
    ((a + b) % 0x10000) as u16
}

/// Push: the word is written at the stack pointer, low byte first, and the
/// stack pointer advances by two. When the write would run out of bounds
/// nothing changes and a write fault carrying the stack pointer is returned.
pub open spec fn spec_push(c: CoreView, v: u16) -> (CoreView, Result<(), VmError>) {
    let sp = c.reg(Register::SP);
    if sp + 1 < MEM_SIZE {
        (
            CoreView {
                regs: c.regs.update(Register::SP.spec_idx(), (sp + 2) as u16),
                mem: c.mem.update(sp as int, low_byte(v)).update(sp as int + 1, high_byte(v)),
                halt: c.halt,
            },
            Ok(()),
        )
    } else {
        (c, Err(VmError::WriteFault(sp)))
    }
}

/// Pop: a stack pointer below two is an underflow fault, caught before any
/// arithmetic; an out-of-bounds read is a read fault. Either failure leaves
/// the stack pointer unchanged. Otherwise the stack pointer retreats by two
/// and the word at the new offset is returned.
pub open spec fn spec_pop(c: CoreView) -> (CoreView, Result<u16, VmError>) {
    let sp = c.reg(Register::SP);
    if sp < 2 {
        (c, Err(VmError::StackUnderflow(sp)))
    } else if sp - 1 < MEM_SIZE {
        (c.with_reg(Register::SP, (sp - 2) as u16), Ok(word_at(c.mem, sp - 2)))
    } else {
        (c, Err(VmError::ReadFault((sp - 2) as u16)))
    }
}

/// PopRegister: a pop, whose value is then stored into register `r`. The
/// store happens after the stack pointer retreats, so popping into SP leaves
/// the popped value there.
pub open spec fn spec_pop_register(c: CoreView, r: Register) -> (CoreView, Result<(), VmError>) {
    let (c1, res) = spec_pop(c);
    match res {
        Ok(v) => (c1.with_reg(r, v), Ok(())),
        Err(e) => (c1, Err(e)),
    }
}

/// AddStack: pop `a`, pop `b`, push `(a + b) mod 65536`. A failure part way
/// through is not rolled back: both values may already be off the stack when
/// the final push faults.
pub open spec fn spec_add_stack(c: CoreView) -> (CoreView, Result<(), VmError>) {
    let (c1, r1) = spec_pop(c);
    match r1 {
        Err(e) => (c1, Err(e)),
        Ok(a) => {
            let (c2, r2) = spec_pop(c1);
            match r2 {
                Err(e) => (c2, Err(e)),
                Ok(b) => spec_push(c2, wrap_add(a, b)),
            }
        },
    }
}

/// AddRegister: register `r1` gains register `r2`, modulo 65536.
pub open spec fn spec_add_register(c: CoreView, r1: Register, r2: Register) -> CoreView {
    c.with_reg(r1, wrap_add(c.reg(r1), c.reg(r2)))
}

/// The unconditional program-counter advance of a step: PC moves forward by
/// two before the decoded operation executes.
pub open spec fn spec_advance_pc(c: CoreView) -> CoreView {
    c.with_reg(Register::PC, (c.reg(Register::PC) + 2) as u16)
}

/// The machine core owned by one engine: register file, memory, halt flag.
/// Signal handlers receive exclusive mutable access to exactly this much, so
/// a handler can mutate registers, memory, or the halt flag, but never the
/// handler table it was dispatched from.
pub struct MachineCore {
    registers: Vec<u16>,
    memory: LinearMemory,
    halt: bool,
}

impl View for MachineCore {
    type V = CoreView;

    closed spec fn view(&self) -> CoreView {
        CoreView { regs: self.registers@, mem: self.memory@, halt: self.halt }
    }
}

impl MachineCore {
    /// Well-formed: eight registers, memory of the fixed capacity.
    pub open spec fn wf(&self) -> bool {
        self@.wf()
    }

    /// A fresh core: zeroed registers, zero-filled memory, not halted.
    pub fn new() -> (c: Self)
        ensures
            c.wf(),
            !c@.halt,
            forall|i: int| 0 <= i < 8 ==> c@.regs[i] == 0u16,
            forall|i: int| 0 <= i < MEM_SIZE ==> c@.mem[i] == 0u8,
    {
        let mut registers: Vec<u16> = Vec::new();
        let mut i: usize = 0;
        while i < 8
            invariant
                i <= 8,
                registers@.len() == i,
                forall|k: int| 0 <= k < i ==> registers@[k] == 0u16,
            decreases 8 - i,
        {
            registers.push(0);
            i += 1;
        }
        MachineCore { registers, memory: LinearMemory::new(MEM_SIZE), halt: false }
    }

    /// The value of register `r`.
    pub fn get_register(&self, r: Register) -> (v: u16)
        requires
            self.wf(),
        ensures
            v == self@.reg(r),
    {
        self.registers[r.index()]
    }

    /// Sets register `r` to `v`.
    pub fn set_register(&mut self, r: Register, v: u16)
        requires
            old(self).wf(),
        ensures
            final(self).wf(),
            final(self)@ == old(self)@.with_reg(r, v),
    {
        self.registers.set(r.index(), v);
    }

    /// Whether the halt flag is set.
    pub fn is_halted(&self) -> (h: bool)
        ensures
            h == self@.halt,
    {
        self.halt
    }

    /// Sets the halt flag. The flag only ever moves from false to true; no
    /// operation of the machine resets it.
    pub fn set_halt(&mut self)
        ensures
            final(self)@ == (CoreView { halt: true, regs: old(self)@.regs, mem: old(self)@.mem }),
    {
        self.halt = true;
    }

    /// Reads the instruction word spanning `addr` and `addr + 1` of memory.
    pub fn read_word(&self, addr: u16) -> (r: Option<u16>)
        requires
            self.wf(),
        ensures
            r == (if addr as int + 1 < MEM_SIZE {
                Some(word_at(self@.mem, addr as int))
            } else {
                None::<u16>
            }),
    {
        self.memory.read2(addr)
    }

    /// Pushes `v` onto the operand stack, which lives at the low end of
    /// memory and grows upward.
    pub fn push(&mut self, v: u16) -> (r: Result<(), VmError>)
        requires
            old(self).wf(),
        ensures
            final(self).wf(),
            ({
                let s = spec_push(old(self)@, v);
                final(self)@ == s.0 && r == s.1
            }),
    {
        let sp = self.get_register(Register::SP);
        if self.memory.write2(sp, v) {
            self.set_register(Register::SP, sp + 2);
            Ok(())
        } else {
            Err(VmError::WriteFault(sp))
        }
    }

    /// Pops the top word off the operand stack.
    pub fn pop(&mut self) -> (r: Result<u16, VmError>)
        requires
            old(self).wf(),
        ensures
            final(self).wf(),
            ({
                let s = spec_pop(old(self)@);
                final(self)@ == s.0 && r == s.1
            }),
    {
        let sp = self.get_register(Register::SP);
        if sp < 2 {
            return Err(VmError::StackUnderflow(sp));
        }
        match self.memory.read2(sp - 2) {
            Some(v) => {
                self.set_register(Register::SP, sp - 2);
                Ok(v)
            },
            None => Err(VmError::ReadFault(sp - 2)),
        }
    }

    /// Loads a program: copies `prog` into memory starting at `origin`,
    /// refusing the whole copy when it would run past the end.
    pub fn load_from_vec(&mut self, prog: &Vec<u8>, origin: u16) -> (ok: bool)
        requires
            old(self).wf(),
        ensures
            final(self).wf(),
            final(self)@.regs == old(self)@.regs,
            final(self)@.halt == old(self)@.halt,
            ok == (origin as int + prog@.len() <= MEM_SIZE),
            ok ==> final(self)@.mem == old(self)@.mem.take(origin as int) + prog@ + old(
                self,
            )@.mem.skip(origin as int + prog@.len()),
            !ok ==> final(self)@.mem == old(self)@.mem,
    {
        self.memory.load_from_vec(prog, origin)
    }
}

/// The conventional halt handler body: sets the halt flag and succeeds.
pub fn signal_halt(core: &mut MachineCore) -> (r: Result<(), VmError>)
    ensures
        final(core)@ == (CoreView { halt: true, regs: old(core)@.regs, mem: old(core)@.mem }),
        r == Ok::<(), VmError>(()),
{
    core.set_halt();
    Ok(())
}

/// A host-supplied handler for one signal code. `handle_spec` is the
/// handler's own contract: `handle` must relate the core as it was handed
/// over, the core as it is left, and the returned result by it. The engine's
/// step contract exposes exactly this relation for dispatched signals.
pub trait SignalHandler: Sized {
    /// The relation this handler promises between the core before and after
    /// an invocation and the result it returns.
    spec fn handle_spec(&self, pre: CoreView, post: CoreView, r: Result<(), VmError>) -> bool;

    /// Handles one signal with exclusive mutable access to the machine core.
    /// Any failure it returns is propagated by the engine unchanged.
    fn handle(&self, core: &mut MachineCore) -> (r: Result<(), VmError>)
        requires
            old(core).wf(),
        ensures
            final(core).wf(),
            self.handle_spec(old(core)@, final(core)@, r),
    ;
}

/// The handler conventionally bound to signal code 0xF0: it only sets the
/// halt flag.
pub struct HaltHandler;

impl SignalHandler for HaltHandler {
    open spec fn handle_spec(&self, pre: CoreView, post: CoreView, r: Result<(), VmError>) -> bool {
        post == (CoreView { halt: true, regs: pre.regs, mem: pre.mem }) && r == Ok::<(), VmError>(
            (),
        )
    }

    fn handle(&self, core: &mut MachineCore) -> (r: Result<(), VmError>) {
        signal_halt(core)
    }
}

/// What executing one decoded operation leaves behind: `post` and `r` are the
/// core state and result after executing `op` from core state `pre` with the
/// signal-handler table `handlers`.
pub open spec fn op_post<H: SignalHandler>(
    op: Op,
    handlers: Seq<Option<H>>,
    pre: CoreView,
    post: CoreView,
    r: Result<(), VmError>,
) -> bool {
    match op {
        Op::Nop => post == pre && r == Ok::<(), VmError>(()),
        Op::Push(imm) => {
            let s = spec_push(pre, imm as u16);
            post == s.0 && r == s.1
        },
        Op::PopRegister(rg) => {
            let s = spec_pop_register(pre, rg);
            post == s.0 && r == s.1
        },
        Op::AddStack => {
            let s = spec_add_stack(pre);
            post == s.0 && r == s.1
        },
        Op::AddRegister(r1, r2) => post == spec_add_register(pre, r1, r2) && r == Ok::<
            (),
            VmError,
        >(()),
        Op::Signal(code) => match handlers[code as int] {
            None => post == pre && r == Err::<(), VmError>(VmError::UnknownSignal(code)),
            Some(h) => h.handle_spec(pre, post, r),
        },
    }
}

/// The execution engine: a machine core plus the signal-handler table, owned
/// and driven by one host.
pub struct Machine<H> {
    core: MachineCore,
    handlers: Vec<Option<H>>,
}

impl<H: SignalHandler> Machine<H> {
    /// The mathematical state of the core.
    pub closed spec fn core_view(&self) -> CoreView {
        self.core@
    }

    /// Well-formed: a well-formed core and one table slot per 8-bit code.
    pub open spec fn wf(&self) -> bool {
        self.core_view().wf() && self.handlers_view().len() == 256
    }

    /// The handler table as a sequence of 256 slots, one per code.
    pub closed spec fn handlers_view(&self) -> Seq<Option<H>> {
        self.handlers@
    }

    /// The handler registered for `code`, if any.
    pub open spec fn handler_at(&self, code: u8) -> Option<H> {
        self.handlers_view()[code as int]
    }

    /// A fresh machine: zeroed registers, zero-filled memory, halt flag
    /// clear, and an empty handler table.
    pub fn new() -> (m: Self)
        ensures
            m.wf(),
            !m.core_view().halt,
            forall|i: int| 0 <= i < 8 ==> m.core_view().regs[i] == 0u16,
            forall|i: int| 0 <= i < MEM_SIZE ==> m.core_view().mem[i] == 0u8,
            forall|c: u8| m.handler_at(c) is None,
    {
        let core = MachineCore::new();
        let mut handlers: Vec<Option<H>> = Vec::new();
        let mut i: usize = 0;
        while i < 256
            invariant
                i <= 256,
                handlers@.len() == i,
                forall|k: int| 0 <= k < i ==> handlers@[k] is None,
            decreases 256 - i,
        {
            handlers.push(None);
            i += 1;
        }
        Machine { core, handlers }
    }

    /// The value of register `r`.
    pub fn get_register(&self, r: Register) -> (v: u16)
        requires
            self.wf(),
        ensures
            v == self.core_view().reg(r),
    {
        self.core.get_register(r)
    }

    /// Whether the machine has halted. The caller's run loop is expected to
    /// stop stepping once this is true.
    pub fn is_halted(&self) -> (h: bool)
        ensures
            h == self.core_view().halt,
    {
        self.core.is_halted()
    }

    /// Registers `f` as the handler for signal code `index`, overwriting any
    /// handler registered for that code before.
    pub fn define_handler(&mut self, index: u8, f: H)
        requires
            old(self).wf(),
        ensures
            final(self).wf(),
            final(self).core_view() == old(self).core_view(),
            forall|c: u8|
                final(self).handler_at(c) == (if c == index {
                    Some(f)
                } else {
                    old(self).handler_at(c)
                }),
    {
        self.handlers.set(index as usize, Some(f));
    }

    /// Loads a program into memory at `origin`; refused whole, with nothing
    /// written, when it would run past the end of memory.
    pub fn load_from_vec(&mut self, prog: &Vec<u8>, origin: u16) -> (ok: bool)
        requires
            old(self).wf(),
        ensures
            final(self).wf(),
            final(self).handlers_view() == old(self).handlers_view(),
            final(self).core_view().regs == old(self).core_view().regs,
            final(self).core_view().halt == old(self).core_view().halt,
            ok == (origin as int + prog@.len() <= MEM_SIZE),
            ok ==> final(self).core_view().mem == old(self).core_view().mem.take(origin as int)
                + prog@ + old(self).core_view().mem.skip(origin as int + prog@.len()),
            !ok ==> final(self).core_view().mem == old(self).core_view().mem,
    {
        self.core.load_from_vec(prog, origin)
    }

    /// Pushes `v` onto the operand stack.
    pub fn push(&mut self, v: u16) -> (r: Result<(), VmError>)
        requires
            old(self).wf(),
        ensures
            final(self).wf(),
            final(self).handlers_view() == old(self).handlers_view(),
            ({
                let s = spec_push(old(self).core_view(), v);
                final(self).core_view() == s.0 && r == s.1
            }),
    {
        self.core.push(v)
    }

    /// Pops the top word off the operand stack.
    pub fn pop(&mut self) -> (r: Result<u16, VmError>)
        requires
            old(self).wf(),
        ensures
            final(self).wf(),
            final(self).handlers_view() == old(self).handlers_view(),
            ({
                let s = spec_pop(old(self).core_view());
                final(self).core_view() == s.0 && r == s.1
            }),
    {
        self.core.pop()
    }

    /// Executes one already-decoded operation. The reserved AddRegister is
    /// executable here by direct construction even though no instruction word
    /// decodes to it.
    pub fn execute(&mut self, op: Op) -> (r: Result<(), VmError>)
        requires
            old(self).wf(),
        ensures
            final(self).wf(),
            final(self).handlers_view() == old(self).handlers_view(),
            op_post(
                op,
                old(self).handlers_view(),
                old(self).core_view(),
                final(self).core_view(),
                r,
            ),
    {
        match op {
            Op::Nop => Ok(()),
            Op::Push(imm) => self.core.push(imm as u16),
            Op::PopRegister(rg) => {
                match self.core.pop() {
                    Ok(v) => {
                        self.core.set_register(rg, v);
                        Ok(())
                    },
                    Err(e) => Err(e),
                }
            },
            Op::AddStack => {
                let a = match self.core.pop() {
                    Ok(v) => v,
                    Err(e) => {
                        return Err(e);
                    },
                };
                let b = match self.core.pop() {
                    Ok(v) => v,
                    Err(e) => {
                        return Err(e);
                    },
                };
                let sum32: u32 = a as u32 + b as u32;
                let sum: u16 = (sum32 % 0x10000) as u16;
                self.core.push(sum)
            },
            Op::AddRegister(r1, r2) => {
                let v1 = self.core.get_register(r1);
                let v2 = self.core.get_register(r2);
                let sum32: u32 = v1 as u32 + v2 as u32;
                self.core.set_register(r1, (sum32 % 0x10000) as u16);
                Ok(())
            },
            Op::Signal(code) => {
                match &self.handlers[code as usize] {
                    None => Err(VmError::UnknownSignal(code)),
                    Some(h) => h.handle(&mut self.core),
                }
            },
        }
    }

    /// One fetch-decode-execute cycle. The word at PC is fetched (a fetch
    /// fault leaves the machine unchanged); PC then advances by two
    /// unconditionally; the word is decoded (a decode failure leaves only the
    /// advanced PC behind); the decoded operation executes as `op_post`
    /// describes. The first failure is returned and nothing is retried.
    pub fn step(&mut self) -> (r: Result<(), VmError>)
        requires
            old(self).wf(),
        ensures
            final(self).wf(),
            final(self).handlers_view() == old(self).handlers_view(),
            ({
                let pre = old(self).core_view();
                let pc = pre.reg(Register::PC);
                if pc as int + 1 < MEM_SIZE {
                    let word = word_at(pre.mem, pc as int);
                    let adv = spec_advance_pc(pre);
                    match spec_decode(word) {
                        Err(e) => final(self).core_view() == adv && r == Err::<(), VmError>(e),
                        Ok(op) => op_post(
                            op,
                            old(self).handlers_view(),
                            adv,
                            final(self).core_view(),
                            r,
                        ),
                    }
                } else {
                    final(self).core_view() == pre && r == Err::<(), VmError>(VmError::FetchFault(pc))
                }
            }),
    {
        let pc = self.core.get_register(Register::PC);
        let word = match self.core.read_word(pc) {
            Some(w) => w,
            None => {
                return Err(VmError::FetchFault(pc));
            },
        };
        self.core.set_register(Register::PC, pc + 2);
        let op = match parse_instruction(word) {
            Ok(op) => op,
            Err(e) => {
                return Err(e);
            },
        };
        self.execute(op)
    }
}

/// Pushing a word and then popping yields that word again, with the stack
/// pointer, and the whole register file, back at its pre-push value. Holds
/// whenever there is stack space for the push.
pub proof fn lemma_push_pop(c: CoreView, v: u16)
    requires
        c.wf(),
        c.reg(Register::SP) as int + 1 < MEM_SIZE,
    ensures
        ({
            let (c1, r1) = spec_push(c, v);
            let (c2, r2) = spec_pop(c1);
            r1 == Ok::<(), VmError>(()) && r2 == Ok::<u16, VmError>(v) && c2.regs == c.regs
                && c2.halt == c.halt
        }),
{
    let sp = c.reg(Register::SP);
    let (c1, r1) = spec_push(c, v);
    let (c2, r2) = spec_pop(c1);
    assert(c1.mem[sp as int] == low_byte(v));
    assert(c1.mem[sp as int + 1] == high_byte(v));
    assert(low_byte(v) + 256 * high_byte(v) == v);
    assert(c2.regs =~= c.regs);
}

/// AddStack is exactly: pop `a`, pop `b`, push `(a + b) mod 65536`, with a
/// failure anywhere returned as is and nothing rolled back.
pub proof fn lemma_add_stack_pops_then_pushes(c: CoreView)
    ensures
        ({
            let (c1, r1) = spec_pop(c);
            match r1 {
                Err(e) => spec_add_stack(c) == (c1, Err::<(), VmError>(e)),
                Ok(a) => {
                    let (c2, r2) = spec_pop(c1);
                    match r2 {
                        Err(e) => spec_add_stack(c) == (c2, Err::<(), VmError>(e)),
                        Ok(b) => spec_add_stack(c) == spec_push(c2, ((a + b) % 0x10000) as u16),
                    }
                },
            }
        }),
{
}

/// A Signal operation dispatched to a registered HaltHandler sets the halt
/// flag, succeeds, and touches neither registers nor memory; with no handler
/// registered for the code it fails naming that code and changes nothing.
pub proof fn lemma_signal_halt_dispatch(
    code: u8,
    handlers: Seq<Option<HaltHandler>>,
    pre: CoreView,
    post: CoreView,
    r: Result<(), VmError>,
)
    requires
        0 <= code < handlers.len(),
        op_post(Op::Signal(code), handlers, pre, post, r),
    ensures
        handlers[code as int] is Some ==> post == (CoreView {
            halt: true,
            regs: pre.regs,
            mem: pre.mem,
        }) && r == Ok::<(), VmError>(()),
        handlers[code as int] is None ==> post == pre && r == Err::<(), VmError>(
            VmError::UnknownSignal(code),
        ),
{
}

/// The halt flag never reverts: no operation of the machine itself clears
/// it. Every operation other than Signal leaves the flag exactly as it was;
/// only a handler can change it at all.
pub proof fn lemma_ops_preserve_halt<H: SignalHandler>(
    op: Op,
    handlers: Seq<Option<H>>,
    pre: CoreView,
    post: CoreView,
    r: Result<(), VmError>,
)
    requires
        !(op is Signal),
        op_post(op, handlers, pre, post, r),
    ensures
        post.halt == pre.halt,
{
}

/// Popping with a stack pointer below two fails with an underflow fault and
/// leaves the whole state, the stack pointer included, unchanged: the fault
/// is caught before any arithmetic, so the pointer cannot wrap around.
pub proof fn lemma_pop_underflow(c: CoreView)
    requires
        c.reg(Register::SP) < 2,
    ensures
        spec_pop(c) == (c, Err::<u16, VmError>(VmError::StackUnderflow(c.reg(Register::SP)))),
{
}

} // verus!
