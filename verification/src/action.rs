//! What operations do, told apart from how they are lowered.
//!
//! An [`Action`] names an effect and where its operands come from. `perform` carries
//! it out on a [`Machine`]: the frame slots, the three accumulators, and everything
//! outside of the function, which is reached through [`Residuals`].

use vstd::prelude::*;
use vstd::arithmetic::power2::pow2;

verus! {

/// Where an operand comes from.
pub enum Src {
    /// A frame slot.
    Slot(u16),
    /// The integer accumulator.
    Ireg,
    /// The f64 accumulator.
    Freg64,
    /// The f32 accumulator.
    Freg32,
    /// The operation itself.
    Imm(i64),
}

/// An accumulator.
pub enum Reg {
    /// The integer accumulator.
    Ireg,
    /// The f64 accumulator.
    Freg64,
    /// The f32 accumulator.
    Freg32,
}

/// An integer function of two operands. A 32-bit function reads the low 32 bits of
/// its operands, and its result is sign-extended; a comparison yields 0 or 1.
pub enum BinOp {
    I32Add,
    I32Sub,
    I32Mul,
    I32And,
    I32Or,
    I32Xor,
    I32Shl,
    U32Shr,
    I32Rotl,
    I32Rotr,
    I64Add,
    I64Sub,
    I64Mul,
    I64And,
    I64Or,
    I64Xor,
    I64Shl,
    U64Shr,
    I32Eq,
    I32Ne,
    I32Lt,
    I32Le,
    U32Lt,
    U32Le,
    I64Eq,
    I64Ne,
    I64Lt,
    I64Le,
    U64Lt,
    U64Le,
}

/// The low 32 bits of `x`, as a number from 0 on.
pub open spec fn low32(x: int) -> int {
    x % 0x1_0000_0000
}

/// The low 32 bits of `x`, sign-extended.
pub open spec fn wrap32(x: int) -> i64 {
    if low32(x) < 0x8000_0000 {
        low32(x) as i64
    } else {
        (low32(x) - 0x1_0000_0000) as i64
    }
}

/// The low 64 bits of `x`, as a number from 0 on.
pub open spec fn low64(x: int) -> int {
    x % 0x1_0000_0000_0000_0000
}

/// The low 64 bits of `x`, as a signed number.
pub open spec fn wrap64(x: int) -> i64 {
    if low64(x) < 0x8000_0000_0000_0000 {
        low64(x) as i64
    } else {
        (low64(x) - 0x1_0000_0000_0000_0000) as i64
    }
}

/// The low 32 bits of `x`, rotated left by `k`.
pub open spec fn rotl32(x: int, k: nat) -> i64 {
    wrap32(low32(x) * pow2(k) as int + low32(x) / pow2((32 - k) as nat) as int)
}

/// 1 if the statement holds, 0 if not.
pub open spec fn truth(b: bool) -> i64 {
    if b {
        1
    } else {
        0
    }
}

/// Whether `x` is a 32-bit value in the form in which cells hold one: sign-extended.
pub open spec fn canonical(x: i64) -> bool {
    i32::MIN <= x <= i32::MAX
}

impl BinOp {
    /// The value of the function.
    #[verifier::opaque]
    pub open spec fn eval(self, a: i64, b: i64) -> i64 {
        match self {
            BinOp::I32Add => wrap32(a + b),
            BinOp::I32Sub => wrap32(a - b),
            BinOp::I32Mul => wrap32(a * b),
            BinOp::I32And => wrap32((a & b) as int),
            BinOp::I32Or => wrap32((a | b) as int),
            BinOp::I32Xor => wrap32((a ^ b) as int),
            BinOp::I32Shl => wrap32(a * pow2((b as int % 32) as nat)),
            BinOp::U32Shr => wrap32(low32(a as int) / pow2((b as int % 32) as nat) as int),
            BinOp::I32Rotl => rotl32(a as int, (b as int % 32) as nat),
            BinOp::I32Rotr => rotl32(a as int, ((32 - b as int % 32) % 32) as nat),
            BinOp::I64Add => wrap64(a + b),
            BinOp::I64Sub => wrap64(a - b),
            BinOp::I64Mul => wrap64(a * b),
            BinOp::I64And => a & b,
            BinOp::I64Or => a | b,
            BinOp::I64Xor => a ^ b,
            BinOp::I64Shl => wrap64(a * pow2((b as int % 64) as nat)),
            BinOp::U64Shr => wrap64(low64(a as int) / pow2((b as int % 64) as nat) as int),
            BinOp::I32Eq => truth(wrap32(a as int) == wrap32(b as int)),
            BinOp::I32Ne => truth(wrap32(a as int) != wrap32(b as int)),
            BinOp::I32Lt => truth(wrap32(a as int) < wrap32(b as int)),
            BinOp::I32Le => truth(wrap32(a as int) <= wrap32(b as int)),
            BinOp::U32Lt => truth(low32(a as int) < low32(b as int)),
            BinOp::U32Le => truth(low32(a as int) <= low32(b as int)),
            BinOp::I64Eq => truth(a == b),
            BinOp::I64Ne => truth(a != b),
            BinOp::I64Lt => truth(a < b),
            BinOp::I64Le => truth(a <= b),
            BinOp::U64Lt => truth(low64(a as int) < low64(b as int)),
            BinOp::U64Le => truth(low64(a as int) <= low64(b as int)),
        }
    }
}

/// A division or remainder. It can trap.
#[derive(Clone, Copy, Debug, PartialEq, Eq, Structural)]
pub enum DivRem {
    I32DivS,
    I32DivU,
    I32RemS,
    I32RemU,
    I64DivS,
    I64DivU,
    I64RemS,
    I64RemU,
}

impl DivRem {
    /// Whether the operands and the result have 32 bits.
    pub open spec fn is_32(self) -> bool {
        self is I32DivS || self is I32DivU || self is I32RemS || self is I32RemU
    }
}

/// A count of bits.
#[derive(Clone, Copy, Debug, PartialEq, Eq, Structural)]
pub enum BitCount {
    /// Leading zeros.
    Clz,
    /// Trailing zeros.
    Ctz,
    /// Ones.
    Popcnt,
}

/// The width of an integer.
#[derive(Clone, Copy, Debug, PartialEq, Eq, Structural)]
pub enum IntWidth {
    W32,
    W64,
}

/// The width of a float.
#[derive(Clone, Copy, Debug, PartialEq, Eq, Structural)]
pub enum FloatWidth {
    F32,
    F64,
}

/// A float function of two floats.
#[derive(Clone, Copy, Debug, PartialEq, Eq, Structural)]
pub enum FloatBin {
    Add,
    Sub,
    Mul,
    Div,
    Min,
    Max,
    /// The magnitude of the left operand with the sign of the right one.
    Copysign,
}

/// A comparison of two floats.
#[derive(Clone, Copy, Debug, PartialEq, Eq, Structural)]
pub enum FloatCompare {
    Lt,
    Le,
    Eq,
    NotEq,
}

/// A float function of one float.
#[derive(Clone, Copy, Debug, PartialEq, Eq, Structural)]
pub enum FloatUnary {
    Abs,
    Neg,
    Sqrt,
    Ceil,
    Floor,
    Trunc,
    Nearest,
}

/// An integer type as the source or the result of a conversion.
#[derive(Clone, Copy, Debug, PartialEq, Eq, Structural)]
pub enum IntKind {
    I32,
    U32,
    I64,
    U64,
}

/// A conversion with a float on one side at least.
#[derive(Clone, Copy, Debug, PartialEq, Eq, Structural)]
pub enum Conversion {
    /// Integer to float.
    Convert(FloatWidth, IntKind),
    /// Float to integer; a value without a counterpart traps.
    Trunc(FloatWidth, IntKind),
    /// Float to integer; a value without a counterpart saturates.
    TruncSat(FloatWidth, IntKind),
    /// f32 to f64.
    Promote,
    /// f64 to f32.
    Demote,
}

/// The part of memory that a load reads, and how it is extended.
#[derive(Clone, Copy, Debug, PartialEq, Eq, Structural)]
pub enum Loaded {
    U8,
    I8,
    U16,
    I16,
    I32,
    U32,
    I64,
}

impl Loaded {
    /// Whether what is loaded is a 32-bit value, in the form in which cells hold one.
    pub open spec fn is_canonical(self) -> bool {
        self != Loaded::U32 && self != Loaded::I64
    }
}

/// The part of memory that a store writes.
#[derive(Clone, Copy, Debug, PartialEq, Eq, Structural)]
pub enum Stored {
    B8,
    B16,
    B32,
    B64,
}

/// The callee of a call.
pub enum Callee {
    /// A function of the module, by address.
    Internal(i64),
    /// An imported function, by index.
    Imported(i64),
    /// The function in a table at a dynamic index: table, type, index.
    Indirect(i64, i64, i64),
}

/// The functions outside of the program. `W` is the state that they read and write:
/// the linear memory, the globals, the trap flag and the machine of the callees.
#[verifier::reject_recursive_types(W)]
pub struct Residuals<W> {
    /// Reads memory at an effective address. A 32-bit read is sign-extended.
    pub load: spec_fn(W, Loaded, int) -> (W, i64),
    /// Writes memory at an effective address.
    pub store: spec_fn(W, Stored, int, i64) -> W,
    /// The size of the memory in pages.
    pub memory_size: spec_fn(W) -> i64,
    /// Copies within the memory: destination, source, length.
    pub memory_copy: spec_fn(W, i64, i64, i64) -> W,
    /// Reads a global.
    pub global_get: spec_fn(W, i64) -> i64,
    /// Writes a global.
    pub global_set: spec_fn(W, i64, i64) -> W,
    /// Divides.
    pub div_rem: spec_fn(W, DivRem, i64, i64) -> (W, i64),
    /// Counts bits.
    pub bit_count: spec_fn(IntWidth, BitCount, i64) -> i64,
    /// Computes on two floats.
    pub float_bin: spec_fn(FloatWidth, FloatBin, i64, i64) -> i64,
    /// Compares two floats.
    pub float_compare: spec_fn(FloatWidth, FloatCompare, i64, i64) -> bool,
    /// Computes on a float.
    pub float_unary: spec_fn(FloatWidth, FloatUnary, i64) -> i64,
    /// Converts.
    pub convert: spec_fn(W, Conversion, i64) -> (W, i64),
    /// Calls a function with these parameters.
    pub call: spec_fn(W, Callee, Seq<i64>) -> (W, i64),
}

impl<W> Residuals<W> {
    /// Whether a float function yields the same for two operands in either order.
    pub open spec fn order_free(self, width: FloatWidth, op: FloatBin, a: i64, b: i64) -> bool {
        (self.float_bin)(width, op, a, b) == (self.float_bin)(width, op, b, a)
    }

    /// Whether the functions that yield 32-bit values yield them sign-extended: loads of 32-bit
    /// values, 32-bit divisions and remainders, and counts of bits.
    pub open spec fn sign_extends(self) -> bool {
        &&& forall|w: W, part: Loaded, at: int|
            part.is_canonical() ==> canonical((#[trigger] (self.load)(w, part, at)).1)
        &&& forall|w: W, op: DivRem, a: i64, b: i64|
            op.is_32() ==> canonical((#[trigger] (self.div_rem)(w, op, a, b)).1)
        &&& forall|w: IntWidth, op: BitCount, v: i64|
            canonical(#[trigger] (self.bit_count)(w, op, v))
    }
}

/// A cell of the kernel's array.
pub enum Cell {
    /// The cell of a frame slot.
    Frame(u16),
    /// A scratch cell.
    Scratch(u8),
}

/// The state that operations and instructions work on.
pub struct Machine<W> {
    /// The cells.
    pub cells: Map<Cell, i64>,
    /// The integer accumulator.
    pub ireg: i64,
    /// The f64 accumulator, as bits.
    pub freg64: i64,
    /// The f32 accumulator, as bits.
    pub freg32: i64,
    /// The state outside of the program.
    pub world: W,
}

/// Where control goes.
pub enum Flow {
    /// To what follows.
    Next,
    /// To the operation at this distance in bytes.
    Jump(i32),
    /// Back to the caller, with a result.
    Return(i64),
    /// To the stock executor, from the start of the function.
    Bail,
    /// To the stock executor, at this operation.
    Yield,
    /// Out, with this trap code.
    Trap(i64),
}

impl<W> Machine<W> {
    pub open spec fn slot(self, s: u16) -> i64 {
        self.cells[Cell::Frame(s)]
    }

    pub open spec fn set_cell(self, c: Cell, v: i64) -> Machine<W> {
        Machine { cells: self.cells.insert(c, v), ..self }
    }

    pub open spec fn reg(self, r: Reg) -> i64 {
        match r {
            Reg::Ireg => self.ireg,
            Reg::Freg64 => self.freg64,
            Reg::Freg32 => self.freg32,
        }
    }

    pub open spec fn set_reg(self, r: Reg, v: i64) -> Machine<W> {
        match r {
            Reg::Ireg => Machine { ireg: v, ..self },
            Reg::Freg64 => Machine { freg64: v, ..self },
            Reg::Freg32 => Machine { freg32: v, ..self },
        }
    }

    pub open spec fn set_world(self, world: W) -> Machine<W> {
        Machine { world, ..self }
    }

    pub open spec fn value(self, s: Src) -> i64 {
        match s {
            Src::Slot(s) => self.slot(s),
            Src::Ireg => self.ireg,
            Src::Freg64 => self.freg64,
            Src::Freg32 => self.freg32,
            Src::Imm(v) => v,
        }
    }

    /// The values of `len` slots from `head` on.
    pub open spec fn params(self, head: u16, len: u16) -> Seq<i64> {
        Seq::new(len as nat, |k: int| self.slot((head + k) as u16))
    }
}

/// The accumulator of a float type.
pub open spec fn float_reg(w: FloatWidth) -> Reg {
    match w {
        FloatWidth::F32 => Reg::Freg32,
        FloatWidth::F64 => Reg::Freg64,
    }
}

/// Where a conversion puts its result.
pub open spec fn conversion_reg(c: Conversion) -> Reg {
    match c {
        Conversion::Convert(w, _) => float_reg(w),
        Conversion::Trunc(_, _) => Reg::Ireg,
        Conversion::TruncSat(_, _) => Reg::Ireg,
        Conversion::Promote => Reg::Freg64,
        Conversion::Demote => Reg::Freg32,
    }
}

/// The effective address for a pointer and an offset: the pointer is an unsigned
/// 32-bit number.
pub open spec fn effective(ptr: i64, offset: int) -> int {
    low32(ptr as int) + offset
}

/// What an operation does.
pub enum Action {
    /// `slots[result] = value`.
    SetSlot { result: u16, value: Src },
    /// `reg = value`.
    SetReg { reg: Reg, value: Src },
    /// `ireg = op(lhs, rhs)`, and the same into a slot.
    Bin { op: BinOp, lhs: Src, rhs: Src, tee: Option<u16> },
    /// `ireg = op(lhs, rhs)`.
    DivRem { op: DivRem, lhs: Src, rhs: Src },
    /// `ireg = op(value)`.
    BitCount { width: IntWidth, op: BitCount, value: Src },
    /// `ireg = sign_extend(low 32 bits of value)`.
    Sext32 { value: Src },
    /// `freg32 = low 32 bits of ireg`.
    Low32ToFreg32,
    /// `ireg = if condition { if_true } else { if_false }`, on a 32-bit condition.
    Select { condition: Src, if_true: Src, if_false: Src },
    /// `freg = op(lhs, rhs)`.
    FloatBin { width: FloatWidth, op: FloatBin, lhs: Src, rhs: Src },
    /// `ireg = op(lhs, rhs)`, or the opposite.
    FloatCompare { width: FloatWidth, op: FloatCompare, lhs: Src, rhs: Src, negate: bool },
    /// `freg = op(value)`.
    FloatUnary { width: FloatWidth, op: FloatUnary, value: Src },
    /// `reg = op(value)`.
    Convert { op: Conversion, value: Src },
    /// `reg = memory[ptr + offset]`.
    Load { reg: Reg, part: Loaded, ptr: Src, offset: int },
    /// `ireg = memory[address]`.
    LoadAt { part: Loaded, address: int },
    /// `memory[ptr + offset] = value`.
    Store { part: Stored, ptr: Src, offset: int, value: Src },
    /// `memory[address] = value`.
    StoreAt { part: Stored, address: int, value: Src },
    /// `ireg = pages of memory`.
    MemorySize,
    /// `memory[dst..] = memory[src..src + len]`.
    MemoryCopy { dst: u16, src: u16, len: u16 },
    /// `reg = globals[index]`, the low 32 bits of it for the f32 accumulator.
    GlobalGet { reg: Reg, index: i64 },
    /// `globals[index] = value`.
    GlobalSet { index: i64, value: Src },
    /// Jump, if the test holds.
    Branch { test: Option<(BinOp, Src, Src)>, offset: i32 },
    /// Call a function; the result goes to the accumulator.
    CallInternal { func: i64, head: u16, len: u16 },
    /// Call a function; the result goes to the first slot of the parameters.
    CallImported { func: i64, head: u16, len: u16 },
    /// Call a function of a table; the result goes to the first slot of the parameters.
    CallIndirect { table: i64, func_type: i64, index: Src, head: u16, len: u16 },
    /// Return a value.
    Return { value: Src },
    /// Leave to the stock executor, from the start of the function.
    Bail,
    /// Leave to the stock executor, at this operation.
    Yield,
    /// Trap.
    Trap { code: i64 },
}

/// What a load yields: `Residuals::load` sign-extends 32-bit values.
pub open spec fn load<W>(res: Residuals<W>, world: W, part: Loaded, at: int) -> (W, i64) {
    match part {
        Loaded::U32 => {
            let (world, value) = (res.load)(world, Loaded::I32, at);
            (world, low32(value as int) as i64)
        },
        _ => (res.load)(world, part, at),
    }
}

/// Carries out an action.
pub open spec fn perform<W>(a: Action, m: Machine<W>, res: Residuals<W>) -> (Machine<W>, Flow) {
    match a {
        Action::SetSlot { result, value } => (
            m.set_cell(Cell::Frame(result), m.value(value)),
            Flow::Next,
        ),
        Action::SetReg { reg, value } => (m.set_reg(reg, m.value(value)), Flow::Next),
        Action::Bin { op, lhs, rhs, tee } => {
            let v = op.eval(m.value(lhs), m.value(rhs));
            let done = m.set_reg(Reg::Ireg, v);
            match tee {
                Some(result) => (done.set_cell(Cell::Frame(result), v), Flow::Next),
                None => (done, Flow::Next),
            }
        },
        Action::DivRem { op, lhs, rhs } => {
            let (world, v) = (res.div_rem)(m.world, op, m.value(lhs), m.value(rhs));
            (m.set_world(world).set_reg(Reg::Ireg, v), Flow::Next)
        },
        Action::BitCount { width, op, value } => (
            m.set_reg(Reg::Ireg, (res.bit_count)(width, op, m.value(value))),
            Flow::Next,
        ),
        Action::Sext32 { value } => (
            m.set_reg(Reg::Ireg, wrap32(m.value(value) as int)),
            Flow::Next,
        ),
        Action::Low32ToFreg32 => (m.set_reg(Reg::Freg32, low32(m.ireg as int) as i64), Flow::Next),
        Action::Select { condition, if_true, if_false } => (
            m.set_reg(
                Reg::Ireg,
                if wrap32(m.value(condition) as int) != 0 {
                    m.value(if_true)
                } else {
                    m.value(if_false)
                },
            ),
            Flow::Next,
        ),
        Action::FloatBin { width, op, lhs, rhs } => (
            m.set_reg(float_reg(width), (res.float_bin)(width, op, m.value(lhs), m.value(rhs))),
            Flow::Next,
        ),
        Action::FloatCompare { width, op, lhs, rhs, negate } => (
            m.set_reg(
                Reg::Ireg,
                truth((res.float_compare)(width, op, m.value(lhs), m.value(rhs)) != negate),
            ),
            Flow::Next,
        ),
        Action::FloatUnary { width, op, value } => (
            m.set_reg(float_reg(width), (res.float_unary)(width, op, m.value(value))),
            Flow::Next,
        ),
        Action::Convert { op, value } => {
            let (world, v) = (res.convert)(m.world, op, m.value(value));
            (m.set_world(world).set_reg(conversion_reg(op), v), Flow::Next)
        },
        Action::Load { reg, part, ptr, offset } => {
            let (world, v) = load(res, m.world, part, effective(m.value(ptr), offset));
            (m.set_world(world).set_reg(reg, v), Flow::Next)
        },
        Action::Store { part, ptr, offset, value } => (
            m.set_world(
                (res.store)(m.world, part, effective(m.value(ptr), offset), m.value(value)),
            ),
            Flow::Next,
        ),
        Action::LoadAt { part, address } => {
            let (world, v) = load(res, m.world, part, address);
            (m.set_world(world).set_reg(Reg::Ireg, v), Flow::Next)
        },
        Action::StoreAt { part, address, value } => (
            m.set_world((res.store)(m.world, part, address, m.value(value))),
            Flow::Next,
        ),
        Action::MemorySize => (m.set_reg(Reg::Ireg, (res.memory_size)(m.world)), Flow::Next),
        Action::MemoryCopy { dst, src, len } => (
            m.set_world((res.memory_copy)(m.world, m.slot(dst), m.slot(src), m.slot(len))),
            Flow::Next,
        ),
        Action::GlobalGet { reg, index } => {
            let v = (res.global_get)(m.world, index);
            (
                m.set_reg(
                    reg,
                    if reg is Freg32 {
                        low32(v as int) as i64
                    } else {
                        v
                    },
                ),
                Flow::Next,
            )
        },
        Action::GlobalSet { index, value } => (
            m.set_world((res.global_set)(m.world, index, m.value(value))),
            Flow::Next,
        ),
        Action::Branch { test, offset } => match test {
            None => (m, Flow::Jump(offset)),
            Some((op, lhs, rhs)) => (
                m,
                if op.eval(m.value(lhs), m.value(rhs)) != 0 {
                    Flow::Jump(offset)
                } else {
                    Flow::Next
                },
            ),
        },
        Action::CallInternal { func, head, len } => {
            let (world, v) = (res.call)(m.world, Callee::Internal(func), m.params(head, len));
            (m.set_world(world).set_reg(Reg::Ireg, v), Flow::Next)
        },
        Action::CallImported { func, head, len } => {
            let (world, v) = (res.call)(m.world, Callee::Imported(func), m.params(head, len));
            (m.set_world(world).set_cell(Cell::Frame(head), v), Flow::Next)
        },
        Action::CallIndirect { table, func_type, index, head, len } => {
            let callee = Callee::Indirect(table, func_type, m.value(index));
            let (world, v) = (res.call)(m.world, callee, m.params(head, len));
            (m.set_world(world).set_cell(Cell::Frame(head), v), Flow::Next)
        },
        Action::Return { value } => (m, Flow::Return(m.value(value))),
        Action::Bail => (m, Flow::Bail),
        Action::Yield => (m, Flow::Yield),
        Action::Trap { code } => (m, Flow::Trap(code)),
    }
}

} // verus!
