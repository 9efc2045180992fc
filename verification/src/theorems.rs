//! Theorems about the instruction set, proved from the definitions in
//! [`crate::machine`].

use vstd::prelude::*;
use crate::machine::Machine;
use crate::opcode::family_of;
use crate::status::Status;
use crate::vm::{DISPLAY_SIZE, FLAG, KEY_COUNT, MEMORY_SIZE, V_REG_SIZE};

verus! {

/// A word written to memory is read back as it was written, and it lies in
/// memory with its high byte at the lower address.
pub proof fn theorem_word_round_trip(m: Machine, address: int, value: u16)
    requires
        m.wf(),
        0 <= address,
        address + 1 < MEMORY_SIZE,
    ensures
        m.with_word(address, value).word_at(address) == value,
        m.with_word(address, value).memory[address] == value / 256,
        m.with_word(address, value).memory[address + 1] == value % 256,
        forall|a: int|
            0 <= a < MEMORY_SIZE && a != address && a != address + 1 ==> m.with_word(
                address,
                value,
            ).memory[a] == m.memory[a],
{
}

/// `ADD Vx, Vy` leaves the low eight bits of the sum in `Vx`. Unless `Vx` is
/// the flag register itself, the flag register then holds 1 if the sum was
/// above 255 and 0 if it was not.
pub proof fn theorem_add_carry(m: Machine, x: u8, y: u8)
    requires
        m.wf(),
        x < V_REG_SIZE,
        y < V_REG_SIZE,
        x != FLAG,
    ensures
        m.add_reg(x, y).v[x as int] == (m.v[x as int] + m.v[y as int]) % 256,
        m.add_reg(x, y).v[FLAG as int] == 1 <==> m.v[x as int] + m.v[y as int] > 255,
        m.add_reg(x, y).v[FLAG as int] == 0 <==> m.v[x as int] + m.v[y as int] <= 255,
{
}

/// `SUB Vx, Vy` leaves the difference in `Vx`, reduced modulo 256. Unless
/// `Vx` is the flag register itself, the flag register then holds 1 if `Vx`
/// was greater than `Vy` and 0 if it was not. `SUBN Vx, Vy` does the same with
/// the operands exchanged.
pub proof fn theorem_sub_borrow(m: Machine, x: u8, y: u8)
    requires
        m.wf(),
        x < V_REG_SIZE,
        y < V_REG_SIZE,
        x != FLAG,
    ensures
        m.sub_reg(x, y).v[x as int] == (m.v[x as int] - m.v[y as int]) % 256,
        m.sub_reg(x, y).v[FLAG as int] == 1 <==> m.v[x as int] > m.v[y as int],
        m.sub_reg(x, y).v[FLAG as int] == 0 <==> m.v[x as int] <= m.v[y as int],
        m.subn_reg(x, y).v[x as int] == (m.v[y as int] - m.v[x as int]) % 256,
        m.subn_reg(x, y).v[FLAG as int] == 1 <==> m.v[y as int] > m.v[x as int],
        m.subn_reg(x, y).v[FLAG as int] == 0 <==> m.v[y as int] <= m.v[x as int],
{
}

/// `SHL Vx` and `SHR Vx` shift `Vx` by one bit within its eight bits. Unless
/// `Vx` is the flag register itself, the flag register then holds the bit
/// that left the register: bit 7 for `SHL` and bit 0 for `SHR`, as they were
/// before the shift.
pub proof fn theorem_shift_flag(m: Machine, x: u8)
    requires
        m.wf(),
        x < V_REG_SIZE,
        x != FLAG,
    ensures
        m.shift_left(x).v[x as int] == m.v[x as int] << 1,
        m.shift_left(x).v[FLAG as int] == (m.v[x as int] >> 7) & 1,
        m.shift_right(x).v[x as int] == m.v[x as int] >> 1,
        m.shift_right(x).v[FLAG as int] == m.v[x as int] & 1,
{
    let a = m.v[x as int];
    assert(a << 1 == (a * 2) % 256) by (bit_vector);
    assert((a >> 7) & 1 == (if a >= 128 { 1u8 } else { 0u8 })) by (bit_vector);
    assert(a >> 1 == a / 2) by (bit_vector);
    assert(a & 1 == (if a % 2 == 1 { 1u8 } else { 0u8 })) by (bit_vector);
}

/// `LD [I], Vx` followed by `LD Vx, [I]`, with `V0` to `Vx` fitting in memory
/// at `I`: the bytes from `I` on hold the registers `V0` to `Vx`, every other
/// byte is as it was, and the second instruction changes no register and no
/// byte. All that the pair changes besides those bytes is the program
/// counter, which is two instructions on.
pub proof fn theorem_store_load_round_trip(m: Machine, x: u8)
    requires
        m.wf(),
        m.fetchable(),
        x < V_REG_SIZE,
        m.i + x < MEMORY_SIZE,
    ensures
        forall|r: int| 0 <= r <= x ==> m.store_regs(x).memory[m.i + r] == m.v[r],
        forall|a: int|
            0 <= a < MEMORY_SIZE && !(m.i <= a <= m.i + x) ==> m.store_regs(x).memory[a]
                == m.memory[a],
        m.store_regs(x).load_regs(x).v == m.v,
        m.store_regs(x).load_regs(x).memory == m.store_regs(x).memory,
        m.store_regs(x).load_regs(x).pc == m.pc + 4,
        m.store_regs(x).load_regs(x) == (Machine {
            memory: m.store_regs(x).memory,
            pc: m.store_regs(x).load_regs(x).pc,
            ..m
        }),
{
}

/// A skip instruction moves the program counter on by 4 where its condition
/// holds and by 2 where it does not, whichever registers it compares, and
/// changes nothing else.
pub proof fn theorem_skip_distance(m: Machine, x: u8, y: u8, kk: u8)
    requires
        m.wf(),
        m.fetchable(),
        x < V_REG_SIZE,
        y < V_REG_SIZE,
    ensures
        m.skip_eq_byte(x, kk).pc == m.pc + if m.v[x as int] == kk { 4int } else { 2int },
        m.skip_ne_byte(x, kk).pc == m.pc + if m.v[x as int] != kk { 4int } else { 2int },
        m.skip_eq_reg(x, y).pc == m.pc + if m.v[x as int] == m.v[y as int] { 4int } else { 2int },
        m.skip_ne_reg(x, y).pc == m.pc + if m.v[x as int] != m.v[y as int] { 4int } else { 2int },
        m.skip_key_down(x).pc == m.pc + if m.keys[(m.v[x as int] % 16) as int] {
            4int
        } else {
            2int
        },
        m.skip_key_up(x).pc == m.pc + if !m.keys[(m.v[x as int] % 16) as int] {
            4int
        } else {
            2int
        },
        m.skip_eq_byte(x, kk) == (Machine { pc: m.skip_eq_byte(x, kk).pc, ..m }),
        m.skip_ne_byte(x, kk) == (Machine { pc: m.skip_ne_byte(x, kk).pc, ..m }),
        m.skip_eq_reg(x, y) == (Machine { pc: m.skip_eq_reg(x, y).pc, ..m }),
        m.skip_ne_reg(x, y) == (Machine { pc: m.skip_ne_reg(x, y).pc, ..m }),
        m.skip_key_down(x) == (Machine { pc: m.skip_key_down(x).pc, ..m }),
        m.skip_key_up(x) == (Machine { pc: m.skip_key_up(x).pc, ..m }),
{
}

/// `CALL addr` followed by `RET`, with room on the stack for the call: the
/// program counter is on the instruction behind the call, the stack pointer
/// is where it was, the slot that held the return address is zero, and
/// nothing else has changed.
pub proof fn theorem_call_then_ret(m: Machine, nnn: u16)
    requires
        m.wf(),
        m.fetchable(),
        m.sp > 0,
    ensures
        m.call(nnn).stack[m.sp - 1] == m.pc + 2,
        m.call(nnn).sp == m.sp - 1,
        m.call(nnn).ret().pc == m.pc + 2,
        m.call(nnn).ret().sp == m.sp,
        m.call(nnn).ret().stack == m.stack.update(m.sp - 1, 0u16),
        m.call(nnn).ret() == (Machine {
            pc: m.call(nnn).ret().pc,
            stack: m.call(nnn).ret().stack,
            ..m
        }),
{
}

/// `DRW Vx, Vy, n` twice over, with the sprite inside memory and neither
/// coordinate in the flag register: the display is as it was before the first
/// of the two, and the second raises the flag exactly if the first lit a
/// pixel, that is, if the sprite has a set bit over a pixel that was off.
pub proof fn theorem_draw_twice(m: Machine, x: u8, y: u8, n: u8)
    requires
        m.wf(),
        m.fetchable(),
        x < V_REG_SIZE,
        y < V_REG_SIZE,
        x != FLAG,
        y != FLAG,
        n == 0 || m.i + n <= MEMORY_SIZE,
    ensures
        m.draw(x, y, n).draw(x, y, n).display == m.display,
        m.draw(x, y, n).draw(x, y, n).v[FLAG as int] == 1 <==> exists|p: int|
            0 <= p < DISPLAY_SIZE && !m.display[p] && #[trigger] m.sprite_covers(x, y, n, p),
        m.draw(x, y, n).draw(x, y, n).v[FLAG as int] == 0 <==> forall|p: int|
            0 <= p < DISPLAY_SIZE && #[trigger] m.sprite_covers(x, y, n, p) ==> m.display[p],
{
    let first = m.draw(x, y, n);
    assert forall|p: int| #[trigger]
        first.sprite_covers(x, y, n, p) == m.sprite_covers(x, y, n, p) by {}
    if first.sprite_collides(x, y, n) {
        let p = choose|p: int|
            0 <= p < DISPLAY_SIZE && first.display[p] && #[trigger] first.sprite_covers(x, y, n, p);
        assert(!m.display[p] && m.sprite_covers(x, y, n, p));
    }
    if exists|p: int|
        0 <= p < DISPLAY_SIZE && !m.display[p] && #[trigger] m.sprite_covers(x, y, n, p) {
        let p = choose|p: int|
            0 <= p < DISPLAY_SIZE && !m.display[p] && #[trigger] m.sprite_covers(x, y, n, p);
        assert(first.display[p] && first.sprite_covers(x, y, n, p));
    }
}

/// Whatever instruction word a well-formed machine is handed, it stays well
/// formed; so it does through a step, a timer tick and a key event.
pub proof fn theorem_well_formed_preserved(m: Machine, opcode: u16, key: u8)
    requires
        m.wf(),
        key < KEY_COUNT,
    ensures
        m.process(opcode).wf(),
        m.step().wf(),
        m.tick().wf(),
        m.key_down(key).wf(),
        m.key_up(key).wf(),
        m.reset().wf(),
{
}

/// The program counter after an instruction that neither halts the machine
/// nor makes it wait: a jump, a call or a return sets it; a skip instruction
/// moves it on by 2 or by 4; every other instruction moves it on by 2. An
/// instruction that halts the machine changes nothing but the status, and so
/// does one that makes it wait.
pub proof fn theorem_program_counter(m: Machine, opcode: u16)
    requires
        m.ready(),
    ensures
        m.execute(opcode).status matches Status::Halted(fault) ==> m.execute(opcode) == m.halt(
            fault,
        ),
        m.execute(opcode).status matches Status::AwaitingKey(x) ==> m.execute(opcode)
            == m.wait_key(x),
        m.execute(opcode).status is Running ==> {
            ||| sets_program_counter(opcode)
            ||| m.execute(opcode).pc == m.pc + 2
            ||| is_skip(opcode) && m.execute(opcode).pc == m.pc + 4
        },
{
}

/// The instructions that give the program counter a value of their own:
/// `JP`, `CALL`, `JP V0` and `RET`.
pub open spec fn sets_program_counter(opcode: u16) -> bool {
    ||| family_of(opcode) == 0x1
    ||| family_of(opcode) == 0x2
    ||| family_of(opcode) == 0xb
    ||| opcode == 0x00ee
}

/// The skip instructions: `SE`, `SNE`, `SKP` and `SKNP`.
pub open spec fn is_skip(opcode: u16) -> bool {
    ||| family_of(opcode) == 0x3
    ||| family_of(opcode) == 0x4
    ||| family_of(opcode) == 0x5
    ||| family_of(opcode) == 0x9
    ||| family_of(opcode) == 0xe
}

} // verus!
