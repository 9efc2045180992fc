//! The machine as a mathematical value, and what each instruction does to it.
//!
//! [`Machine`] is the view of a [`crate::vm::VM`]: the same state with
//! sequences in place of arrays. Every operation of the interpreter is
//! specified here as a function from one `Machine` to the next; the
//! executable code in [`crate::vm`] is proved to compute exactly these
//! functions.
//!
//! Arithmetic is written over the integers, and a result is reduced explicitly
//! where the hardware register would wrap.

use vstd::prelude::*;
use crate::opcode::{family_of, kk_of, n_of, nnn_of, sprite_bit, x_of, y_of};
use crate::rng::{next_byte_of, next_state, Rng, DEFAULT_SEED};
use crate::status::{Fault, Status};
use crate::vm::{
    DISPLAY_HEIGHT, DISPLAY_SIZE, DISPLAY_WIDTH, FLAG, FONT_BASE, FONT_GLYPH_SIZE, INITIAL_PC,
    KEY_COUNT, MEMORY_SIZE, STACK_SIZE, V_REG_SIZE,
};

verus! {

/// The whole state of the machine.
#[verifier::ext_equal]
pub struct Machine {
    /// The 4096 bytes of memory.
    pub memory: Seq<u8>,
    /// The 16 slots of the call stack. The slots at `sp` and above hold the
    /// pending return addresses, the innermost call at `sp`.
    pub stack: Seq<u16>,
    /// The general registers `V0` to `VF`.
    pub v: Seq<u8>,
    /// The address register `I`.
    pub i: u16,
    /// The program counter.
    pub pc: u16,
    /// The stack pointer: `STACK_SIZE` when the stack is empty, 0 when full.
    pub sp: u16,
    /// The delay timer.
    pub delay_timer: u8,
    /// The sound timer.
    pub sound_timer: u8,
    /// The pixels, row by row: the pixel in column `x` of row `y` is at
    /// `y * DISPLAY_WIDTH + x`.
    pub display: Seq<bool>,
    /// Which of the 16 keys are held down.
    pub keys: Seq<bool>,
    /// The source of the bytes that `RND` draws.
    pub rng: Rng,
    /// Whether the machine runs, waits for a key or has halted.
    pub status: Status,
}

impl Machine {
    /// The sequences have the lengths of the hardware, the stack pointer is
    /// within the stack, and a pending key wait names a register and sits on an
    /// instruction inside memory.
    pub open spec fn wf(self) -> bool {
        &&& self.memory.len() == MEMORY_SIZE
        &&& self.stack.len() == STACK_SIZE
        &&& self.v.len() == V_REG_SIZE
        &&& self.display.len() == DISPLAY_SIZE
        &&& self.keys.len() == KEY_COUNT
        &&& self.sp <= STACK_SIZE
        &&& (self.status matches Status::AwaitingKey(x) ==> x < V_REG_SIZE && self.fetchable())
    }

    /// The program counter addresses a whole instruction word inside memory.
    pub open spec fn fetchable(self) -> bool {
        self.pc + 1 < MEMORY_SIZE
    }

    /// The machine can execute an instruction: it is well formed and running,
    /// and its program counter is on an instruction inside memory.
    pub open spec fn ready(self) -> bool {
        self.wf() && self.status is Running && self.fetchable()
    }

    /// The big-endian word at `address`: the high byte is the one at the lower
    /// address.
    pub open spec fn word_at(self, address: int) -> u16 {
        (self.memory[address] * 256 + self.memory[address + 1]) as u16
    }

    /// A machine as it is built: everything zero, no pixel lit, no key down,
    /// the program counter at the start of program memory and the stack empty.
    pub open spec fn initial() -> Machine {
        Machine {
            memory: Seq::new(MEMORY_SIZE as nat, |a: int| 0u8),
            stack: Seq::new(STACK_SIZE as nat, |s: int| 0u16),
            v: Seq::new(V_REG_SIZE as nat, |r: int| 0u8),
            i: 0,
            pc: INITIAL_PC,
            sp: STACK_SIZE as u16,
            delay_timer: 0,
            sound_timer: 0,
            display: Seq::new(DISPLAY_SIZE as nat, |p: int| false),
            keys: Seq::new(KEY_COUNT as nat, |k: int| false),
            rng: Rng { state: DEFAULT_SEED },
            status: Status::Running,
        }
    }

    /// The machine after a reset: memory, call stack and registers are as in
    /// [`Machine::initial`] and the machine runs again. The display, the keys
    /// and the random source are left as they are.
    pub open spec fn reset(self) -> Machine {
        Machine {
            display: self.display,
            keys: self.keys,
            rng: self.rng,
            ..Machine::initial()
        }
    }

    /// The machine stopped by `fault`, nothing else changed.
    pub open spec fn halt(self, fault: Fault) -> Machine {
        Machine { status: Status::Halted(fault), ..self }
    }

    /// The program counter moved to the following instruction.
    pub open spec fn next(self) -> Machine {
        Machine { pc: (self.pc + 2) as u16, ..self }
    }

    /// The program counter moved to the following instruction, and past that
    /// one too if `condition` holds.
    pub open spec fn skip_if(self, condition: bool) -> Machine {
        if condition {
            Machine { pc: (self.pc + 4) as u16, ..self }
        } else {
            self.next()
        }
    }

    /// Register `x` set to `value`.
    pub open spec fn set_reg(self, x: u8, value: u8) -> Machine {
        Machine { v: self.v.update(x as int, value), ..self }
    }

    /// The flag register set to 1 if `raised`, to 0 otherwise.
    pub open spec fn set_flag(self, raised: bool) -> Machine {
        self.set_reg(FLAG, if raised { 1u8 } else { 0u8 })
    }

    // ---- control flow ----

    /// `CLS`: every pixel off.
    pub open spec fn clear_screen(self) -> Machine {
        Machine { display: Seq::new(DISPLAY_SIZE as nat, |p: int| false), ..self }.next()
    }

    /// `RET`: the innermost return address becomes the program counter as it
    /// is, and its slot is zeroed. With nothing on the stack the machine
    /// halts.
    pub open spec fn ret(self) -> Machine {
        if self.sp >= STACK_SIZE {
            self.halt(Fault::StackUnderflow)
        } else {
            Machine {
                pc: self.stack[self.sp as int],
                stack: self.stack.update(self.sp as int, 0u16),
                sp: (self.sp + 1) as u16,
                ..self
            }
        }
    }

    /// `SYS addr`: does nothing but move on.
    pub open spec fn sys(self) -> Machine {
        self.next()
    }

    /// `JP addr`.
    pub open spec fn jump(self, nnn: u16) -> Machine {
        Machine { pc: nnn, ..self }
    }

    /// `CALL addr`: the address of the following instruction goes on the
    /// stack. With the stack full the machine halts.
    pub open spec fn call(self, nnn: u16) -> Machine {
        if self.sp == 0 {
            self.halt(Fault::StackOverflow)
        } else {
            Machine {
                stack: self.stack.update(self.sp - 1, (self.pc + 2) as u16),
                sp: (self.sp - 1) as u16,
                pc: nnn,
                ..self
            }
        }
    }

    /// `SE Vx, byte`.
    pub open spec fn skip_eq_byte(self, x: u8, kk: u8) -> Machine {
        self.skip_if(self.v[x as int] == kk)
    }

    /// `SNE Vx, byte`.
    pub open spec fn skip_ne_byte(self, x: u8, kk: u8) -> Machine {
        self.skip_if(self.v[x as int] != kk)
    }

    /// `SE Vx, Vy`.
    pub open spec fn skip_eq_reg(self, x: u8, y: u8) -> Machine {
        self.skip_if(self.v[x as int] == self.v[y as int])
    }

    /// `SNE Vx, Vy`.
    pub open spec fn skip_ne_reg(self, x: u8, y: u8) -> Machine {
        self.skip_if(self.v[x as int] != self.v[y as int])
    }

    /// `JP V0, addr`: a target outside memory halts the machine.
    pub open spec fn jump_offset(self, nnn: u16) -> Machine {
        if self.v[0] + nnn >= MEMORY_SIZE {
            self.halt(Fault::AddressOutOfRange)
        } else {
            Machine { pc: (self.v[0] + nnn) as u16, ..self }
        }
    }

    // ---- registers ----

    /// `LD Vx, byte`.
    pub open spec fn load_byte(self, x: u8, kk: u8) -> Machine {
        self.set_reg(x, kk).next()
    }

    /// `ADD Vx, byte`: wraps at 8 bits and leaves the flag register alone.
    pub open spec fn add_byte(self, x: u8, kk: u8) -> Machine {
        self.set_reg(x, ((self.v[x as int] + kk) % 256) as u8).next()
    }

    /// `LD Vx, Vy`.
    pub open spec fn copy_reg(self, x: u8, y: u8) -> Machine {
        self.set_reg(x, self.v[y as int]).next()
    }

    /// `OR Vx, Vy`.
    pub open spec fn or_reg(self, x: u8, y: u8) -> Machine {
        self.set_reg(x, self.v[x as int] | self.v[y as int]).next()
    }

    /// `AND Vx, Vy`.
    pub open spec fn and_reg(self, x: u8, y: u8) -> Machine {
        self.set_reg(x, self.v[x as int] & self.v[y as int]).next()
    }

    /// `XOR Vx, Vy`.
    pub open spec fn xor_reg(self, x: u8, y: u8) -> Machine {
        self.set_reg(x, self.v[x as int] ^ self.v[y as int]).next()
    }

    /// `ADD Vx, Vy`: the flag is the carry out of 8 bits. The flag is written
    /// first and the sum second, so with `x` the flag register the sum stays.
    pub open spec fn add_reg(self, x: u8, y: u8) -> Machine {
        let sum = self.v[x as int] + self.v[y as int];
        self.set_flag(sum > 255).set_reg(x, (sum % 256) as u8).next()
    }

    /// `SUB Vx, Vy`: the flag says that `Vx` was greater than `Vy`; the
    /// difference wraps at 8 bits.
    pub open spec fn sub_reg(self, x: u8, y: u8) -> Machine {
        let a = self.v[x as int];
        let b = self.v[y as int];
        self.set_flag(a > b).set_reg(x, ((a - b) % 256) as u8).next()
    }

    /// `SHR Vx`: the flag is the bit shifted out at the bottom.
    pub open spec fn shift_right(self, x: u8) -> Machine {
        let a = self.v[x as int];
        self.set_flag(a % 2 == 1).set_reg(x, a / 2).next()
    }

    /// `SUBN Vx, Vy`: as `SUB` with the operands exchanged; the result still
    /// goes to `Vx`.
    pub open spec fn subn_reg(self, x: u8, y: u8) -> Machine {
        let a = self.v[x as int];
        let b = self.v[y as int];
        self.set_flag(b > a).set_reg(x, ((b - a) % 256) as u8).next()
    }

    /// `SHL Vx`: the flag is the bit shifted out at the top.
    pub open spec fn shift_left(self, x: u8) -> Machine {
        let a = self.v[x as int];
        self.set_flag(a >= 128).set_reg(x, ((a * 2) % 256) as u8).next()
    }

    /// `RND Vx, byte`: the next byte of the random source, masked by `kk`.
    pub open spec fn random(self, x: u8, kk: u8) -> Machine {
        Machine { rng: Rng { state: next_state(self.rng.state) }, ..self }.set_reg(
            x,
            next_byte_of(self.rng.state) & kk,
        ).next()
    }

    // ---- address register and memory ----

    /// `LD I, addr`.
    pub open spec fn load_index(self, nnn: u16) -> Machine {
        Machine { i: nnn, ..self }.next()
    }

    /// `ADD I, Vx`: wraps at 16 bits and touches no flag.
    pub open spec fn add_index(self, x: u8) -> Machine {
        Machine { i: ((self.i + self.v[x as int]) % 0x1_0000) as u16, ..self }.next()
    }

    /// `LD F, Vx`: the address of the sprite for the low nibble of `Vx`.
    pub open spec fn font_address(self, x: u8) -> Machine {
        Machine {
            i: (FONT_BASE + FONT_GLYPH_SIZE * (self.v[x as int] % 16)) as u16,
            ..self
        }.next()
    }

    /// `LD B, Vx`: the hundreds, tens and units of `Vx` go to the three bytes
    /// from `I` on. If they do not all lie in memory the machine halts.
    pub open spec fn store_bcd(self, x: u8) -> Machine {
        if self.i + 2 >= MEMORY_SIZE {
            self.halt(Fault::AddressOutOfRange)
        } else {
            let a = self.v[x as int];
            Machine {
                memory: self.memory.update(self.i as int, a / 100).update(
                    self.i + 1,
                    (a / 10) % 10,
                ).update(self.i + 2, a % 10),
                ..self
            }.next()
        }
    }

    /// `LD [I], Vx`: registers `V0` to `Vx` go to the bytes from `I` on; `I`
    /// stays. If the bytes do not all lie in memory the machine halts.
    pub open spec fn store_regs(self, x: u8) -> Machine {
        if self.i + x >= MEMORY_SIZE {
            self.halt(Fault::AddressOutOfRange)
        } else {
            Machine {
                memory: Seq::new(
                    MEMORY_SIZE as nat,
                    |a: int|
                        if self.i <= a <= self.i + x {
                            self.v[a - self.i]
                        } else {
                            self.memory[a]
                        },
                ),
                ..self
            }.next()
        }
    }

    /// `LD Vx, [I]`: registers `V0` to `Vx` are read from the bytes from `I`
    /// on; `I` stays. If the bytes do not all lie in memory the machine halts.
    pub open spec fn load_regs(self, x: u8) -> Machine {
        if self.i + x >= MEMORY_SIZE {
            self.halt(Fault::AddressOutOfRange)
        } else {
            Machine {
                v: Seq::new(
                    V_REG_SIZE as nat,
                    |r: int|
                        if r <= x {
                            self.memory[self.i + r]
                        } else {
                            self.v[r]
                        },
                ),
                ..self
            }.next()
        }
    }

    // ---- timers and keys ----

    /// `LD Vx, DT`.
    pub open spec fn read_delay(self, x: u8) -> Machine {
        self.set_reg(x, self.delay_timer).next()
    }

    /// `LD DT, Vx`.
    pub open spec fn set_delay(self, x: u8) -> Machine {
        Machine { delay_timer: self.v[x as int], ..self }.next()
    }

    /// `LD ST, Vx`.
    pub open spec fn set_sound(self, x: u8) -> Machine {
        Machine { sound_timer: self.v[x as int], ..self }.next()
    }

    /// `SKP Vx`: skips if the key named by the low nibble of `Vx` is down.
    pub open spec fn skip_key_down(self, x: u8) -> Machine {
        self.skip_if(self.keys[(self.v[x as int] % 16) as int])
    }

    /// `SKNP Vx`: skips if the key named by the low nibble of `Vx` is up.
    pub open spec fn skip_key_up(self, x: u8) -> Machine {
        self.skip_if(!self.keys[(self.v[x as int] % 16) as int])
    }

    /// `LD Vx, K`: the machine stops executing and waits for a key press. The
    /// program counter stays on the instruction until the key arrives.
    pub open spec fn wait_key(self, x: u8) -> Machine {
        Machine { status: Status::AwaitingKey(x), ..self }
    }

    // ---- display ----

    /// The column of a sprite that lies over the pixel at index `pixel` when
    /// the sprite's left edge is at display column `left` (taken modulo the
    /// width): columns wrap round the right edge.
    pub open spec fn sprite_col(left: u8, pixel: int) -> int {
        (pixel % (DISPLAY_WIDTH as int) - left) % (DISPLAY_WIDTH as int)
    }

    /// The row of a sprite that lies over the pixel at index `pixel` when the
    /// sprite's top edge is at display row `top` (taken modulo the height):
    /// rows wrap round the bottom edge.
    pub open spec fn sprite_row(top: u8, pixel: int) -> int {
        (pixel / (DISPLAY_WIDTH as int) - top) % (DISPLAY_HEIGHT as int)
    }

    /// Whether `DRW Vx, Vy, n` has a set sprite bit on the pixel at index
    /// `pixel`. The sprite's top left corner is at column `Vx`, row `Vy`. A
    /// sprite is at most 8 by 15 pixels, so it covers a pixel at most once.
    pub open spec fn sprite_covers(self, x: u8, y: u8, n: u8, pixel: int) -> bool {
        let col = Self::sprite_col(self.v[x as int], pixel);
        let row = Self::sprite_row(self.v[y as int], pixel);
        col < 8 && row < n && sprite_bit(self.memory[self.i + row], col as u8)
    }

    /// Whether `DRW Vx, Vy, n` turns off a pixel that is on.
    pub open spec fn sprite_collides(self, x: u8, y: u8, n: u8) -> bool {
        exists|pixel: int|
            0 <= pixel < DISPLAY_SIZE && self.display[pixel] && #[trigger] self.sprite_covers(
                x,
                y,
                n,
                pixel,
            )
    }

    /// `DRW Vx, Vy, n`: the `n` bytes from `I` on are the rows of a sprite.
    /// Every pixel under a set sprite bit is inverted, and the flag says
    /// whether one of them went off. If the sprite's bytes do not all lie in
    /// memory the machine halts.
    pub open spec fn draw(self, x: u8, y: u8, n: u8) -> Machine {
        if n > 0 && self.i + n > MEMORY_SIZE {
            self.halt(Fault::AddressOutOfRange)
        } else {
            Machine {
                display: Seq::new(
                    DISPLAY_SIZE as nat,
                    |pixel: int| self.display[pixel] != self.sprite_covers(x, y, n, pixel),
                ),
                ..self
            }.set_flag(self.sprite_collides(x, y, n)).next()
        }
    }

    // ---- decode and dispatch ----

    /// The instructions of family 0, told apart by the low twelve bits.
    pub open spec fn execute_0(self, opcode: u16) -> Machine {
        let nnn = nnn_of(opcode);
        if nnn == 0x0ee {
            self.ret()
        } else if nnn == 0x0e0 {
            self.clear_screen()
        } else {
            self.sys()
        }
    }

    /// The instructions of family 8, told apart by the low nibble.
    pub open spec fn execute_8(self, opcode: u16) -> Machine {
        let x = x_of(opcode);
        let y = y_of(opcode);
        let op = n_of(opcode);
        if op == 0x0 {
            self.copy_reg(x, y)
        } else if op == 0x1 {
            self.or_reg(x, y)
        } else if op == 0x2 {
            self.and_reg(x, y)
        } else if op == 0x3 {
            self.xor_reg(x, y)
        } else if op == 0x4 {
            self.add_reg(x, y)
        } else if op == 0x5 {
            self.sub_reg(x, y)
        } else if op == 0x6 {
            self.shift_right(x)
        } else if op == 0x7 {
            self.subn_reg(x, y)
        } else if op == 0xe {
            self.shift_left(x)
        } else {
            self.halt(Fault::Decode)
        }
    }

    /// The instructions of family E, told apart by the low byte.
    pub open spec fn execute_e(self, opcode: u16) -> Machine {
        let x = x_of(opcode);
        let op = kk_of(opcode);
        if op == 0x9e {
            self.skip_key_down(x)
        } else if op == 0xa1 {
            self.skip_key_up(x)
        } else {
            self.halt(Fault::Decode)
        }
    }

    /// The instructions of family F, told apart by the low byte.
    pub open spec fn execute_f(self, opcode: u16) -> Machine {
        let x = x_of(opcode);
        let op = kk_of(opcode);
        if op == 0x07 {
            self.read_delay(x)
        } else if op == 0x0a {
            self.wait_key(x)
        } else if op == 0x15 {
            self.set_delay(x)
        } else if op == 0x18 {
            self.set_sound(x)
        } else if op == 0x1e {
            self.add_index(x)
        } else if op == 0x29 {
            self.font_address(x)
        } else if op == 0x33 {
            self.store_bcd(x)
        } else if op == 0x55 {
            self.store_regs(x)
        } else if op == 0x65 {
            self.load_regs(x)
        } else {
            self.halt(Fault::Decode)
        }
    }

    /// What the instruction `opcode` does to a running machine whose program
    /// counter is on an instruction inside memory.
    pub open spec fn execute(self, opcode: u16) -> Machine {
        let family = family_of(opcode);
        let x = x_of(opcode);
        let y = y_of(opcode);
        let kk = kk_of(opcode);
        let nnn = nnn_of(opcode);
        if family == 0x0 {
            self.execute_0(opcode)
        } else if family == 0x1 {
            self.jump(nnn)
        } else if family == 0x2 {
            self.call(nnn)
        } else if family == 0x3 {
            self.skip_eq_byte(x, kk)
        } else if family == 0x4 {
            self.skip_ne_byte(x, kk)
        } else if family == 0x5 {
            self.skip_eq_reg(x, y)
        } else if family == 0x6 {
            self.load_byte(x, kk)
        } else if family == 0x7 {
            self.add_byte(x, kk)
        } else if family == 0x8 {
            self.execute_8(opcode)
        } else if family == 0x9 {
            self.skip_ne_reg(x, y)
        } else if family == 0xa {
            self.load_index(nnn)
        } else if family == 0xb {
            self.jump_offset(nnn)
        } else if family == 0xc {
            self.random(x, kk)
        } else if family == 0xd {
            self.draw(x, y, n_of(opcode))
        } else if family == 0xe {
            self.execute_e(opcode)
        } else {
            self.execute_f(opcode)
        }
    }

    /// What handing the machine the instruction `opcode` does. A machine that
    /// is halted or waiting for a key does not change. A running machine
    /// whose program counter is not on an instruction inside memory halts.
    /// Otherwise the instruction is executed.
    pub open spec fn process(self, opcode: u16) -> Machine {
        if !(self.status is Running) {
            self
        } else if !self.fetchable() {
            self.halt(Fault::AddressOutOfRange)
        } else {
            self.execute(opcode)
        }
    }

    /// One step: the instruction at the program counter is fetched and
    /// processed.
    pub open spec fn step(self) -> Machine {
        self.process(self.word_at(self.pc as int))
    }

    // ---- the host's side ----

    /// One tick of the 60 Hz clock: each timer that is not zero goes down by
    /// one.
    pub open spec fn tick(self) -> Machine {
        Machine {
            delay_timer: if self.delay_timer > 0 {
                (self.delay_timer - 1) as u8
            } else {
                0u8
            },
            sound_timer: if self.sound_timer > 0 {
                (self.sound_timer - 1) as u8
            } else {
                0u8
            },
            ..self
        }
    }

    /// The host reports that `key` went down. The key is marked as held. If
    /// the machine was waiting for a key, the key's index goes to the waiting
    /// register, the program counter moves past the wait instruction, and the
    /// machine runs again.
    pub open spec fn key_down(self, key: u8) -> Machine {
        let held = Machine { keys: self.keys.update(key as int, true), ..self };
        match self.status {
            Status::AwaitingKey(x) => Machine { status: Status::Running, ..held }.set_reg(
                x,
                key,
            ).next(),
            _ => held,
        }
    }

    /// The host reports that `key` went up.
    pub open spec fn key_up(self, key: u8) -> Machine {
        Machine { keys: self.keys.update(key as int, false), ..self }
    }

    /// The byte at `address` replaced by `value`.
    pub open spec fn with_byte(self, address: int, value: u8) -> Machine {
        Machine { memory: self.memory.update(address, value), ..self }
    }

    /// The bytes at `address` and `address + 1` replaced by the big-endian
    /// encoding of `value`.
    pub open spec fn with_word(self, address: int, value: u16) -> Machine {
        self.with_byte(address, (value / 256) as u8).with_byte(address + 1, (value % 256) as u8)
    }
}

} // verus!
