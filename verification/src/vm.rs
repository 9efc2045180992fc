//! The executable machine.
//!
//! A [`VM`] owns its memory, registers, call stack, display, key states and
//! random source. The host drives it: it writes a program into memory, calls
//! [`VM::step`] for each instruction and [`VM::tick_timers`] sixty times a
//! second, reports key events with [`VM::key_down`] and [`VM::key_up`], and
//! reads `display` and `status`. Nothing here blocks or panics: a wait for a
//! key and a fault are both states of the machine.
//!
//! [`VM::process_opcode`] tests for every fault before it executes anything.
//! The rule of each instruction is a function of its own, which can also be
//! called directly; its `requires` leaves out the machines on which the
//! instruction is fatal, and [`VM::fault_of`] tests for them.

use vstd::prelude::*;
use crate::machine::Machine;
use crate::opcode::{
    address, byte, family, kk_of, n_of, nibble, nnn_of, reg_x, reg_y, sprite_bit, x_of, y_of,
};
use crate::rng::{Rng, DEFAULT_SEED};
use crate::status::{Fault, Status};

verus! {

/// Bytes of memory.
pub const MEMORY_SIZE: usize = 4096;

/// Slots of the call stack.
pub const STACK_SIZE: usize = 16;

/// General registers.
pub const V_REG_SIZE: usize = 16;

/// Address at which a program starts.
pub const INITIAL_PC: u16 = 0x200;

/// Index of `VF`, the register that instructions use to report carry, borrow,
/// the bit shifted out, or a sprite collision.
pub const FLAG: u8 = 0xf;

/// Pixels in a row of the display.
pub const DISPLAY_WIDTH: usize = 64;

/// Rows of the display.
pub const DISPLAY_HEIGHT: usize = 32;

/// Pixels of the display.
pub const DISPLAY_SIZE: usize = 2048;

/// Keys of the keypad.
pub const KEY_COUNT: usize = 16;

/// Address of the sprite for the hexadecimal digit 0. The sprites of the 16
/// digits follow one another from here.
pub const FONT_BASE: u16 = 0x050;

/// Bytes in the sprite of one hexadecimal digit.
pub const FONT_GLYPH_SIZE: u16 = 5;

pub struct Registers {
    /// The general registers `V0` to `VF`.
    pub v: [u8; V_REG_SIZE],
    /// The address register `I`.
    pub i: u16,
    /// The program counter.
    pub pc: u16,
    /// The stack pointer: `STACK_SIZE` when the call stack is empty, 0 when it
    /// is full.
    pub sp: u16,
    pub delay_timer: u8,
    pub sound_timer: u8,
}

pub struct VM {
    pub memory: [u8; MEMORY_SIZE],
    /// The call stack. The slots at `regs.sp` and above hold the pending
    /// return addresses.
    pub stack: [u16; STACK_SIZE],
    pub regs: Registers,
    /// The pixels, row by row: the pixel in column `x` of row `y` is at
    /// `y * DISPLAY_WIDTH + x`.
    pub display: [bool; DISPLAY_SIZE],
    /// Which keys are held down.
    pub keys: [bool; KEY_COUNT],
    /// The source of the bytes that `RND` draws.
    pub rng: Rng,
    /// Whether the machine runs, waits for a key or has halted on a fault.
    pub status: Status,
}

impl Registers {
    /// The registers hold their power-on values: everything zero, but the
    /// program counter at the start of program memory and the stack pointer at
    /// the empty position.
    pub open spec fn is_reset(&self) -> bool {
        &&& forall|r: int| 0 <= r < V_REG_SIZE ==> self.v@[r] == 0
        &&& self.i == 0
        &&& self.pc == INITIAL_PC
        &&& self.sp == STACK_SIZE
        &&& self.delay_timer == 0
        &&& self.sound_timer == 0
    }

    /// Puts every register back to its power-on value.
    pub fn reset(&mut self)
        ensures
            final(self).is_reset(),
    {
        self.v = [0; V_REG_SIZE];
        self.i = 0;
        self.pc = INITIAL_PC;
        self.sp = STACK_SIZE as u16;
        self.delay_timer = 0;
        self.sound_timer = 0;
    }
}

impl View for VM {
    type V = Machine;

    open spec fn view(&self) -> Machine {
        Machine {
            memory: self.memory@,
            stack: self.stack@,
            v: self.regs.v@,
            i: self.regs.i,
            pc: self.regs.pc,
            sp: self.regs.sp,
            delay_timer: self.regs.delay_timer,
            sound_timer: self.regs.sound_timer,
            display: self.display@,
            keys: self.keys@,
            rng: self.rng,
            status: self.status,
        }
    }
}

impl VM {
    /// The stack pointer is within the stack, and a pending key wait names a
    /// register and sits on an instruction inside memory.
    pub open spec fn wf(&self) -> bool {
        self@.wf()
    }

    /// Tests [`VM::wf`], for a host that has written to the fields itself.
    pub fn is_well_formed(&self) -> (b: bool)
        ensures
            b == self.wf(),
    {
        let waits_well = match self.status {
            Status::AwaitingKey(x) => (x as usize) < V_REG_SIZE && (self.regs.pc as usize) + 1
                < MEMORY_SIZE,
            _ => true,
        };
        self.regs.sp as usize <= STACK_SIZE && waits_well
    }

    /// A machine with everything zero, the program counter at the start of
    /// program memory, the call stack empty and the random source at its
    /// default seed.
    pub fn new() -> (vm: VM)
        ensures
            vm@ == Machine::initial(),
            vm.wf(),
    {
        VM {
            memory: [0; MEMORY_SIZE],
            stack: [0; STACK_SIZE],
            regs: Registers {
                v: [0; V_REG_SIZE],
                i: 0,
                pc: INITIAL_PC,
                sp: STACK_SIZE as u16,
                delay_timer: 0,
                sound_timer: 0,
            },
            display: [false; DISPLAY_SIZE],
            keys: [false; KEY_COUNT],
            rng: Rng::new(DEFAULT_SEED),
            status: Status::Running,
        }
    }

    /// A machine as [`VM::new`] builds it, with its random source started from
    /// `seed`. Machines built with the same seed draw the same bytes.
    pub fn with_seed(seed: u32) -> (vm: VM)
        ensures
            vm@ == (Machine { rng: Rng { state: seed }, ..Machine::initial() }),
            vm.wf(),
    {
        let mut vm = VM::new();
        vm.rng = Rng::new(seed);
        vm
    }

    /// Zeroes memory and the call stack, puts the registers back to their
    /// power-on values and lets the machine run again. The display, the keys
    /// and the random source are left as they are.
    pub fn reset(&mut self)
        ensures
            final(self)@ == old(self)@.reset(),
            final(self).wf(),
    {
        self.memory = [0; MEMORY_SIZE];
        self.stack = [0; STACK_SIZE];
        self.regs.reset();
        self.status = Status::Running;
    }

    /// The big-endian word at `address`.
    pub fn read_u16(&self, address: usize) -> (word: u16)
        requires
            address + 1 < MEMORY_SIZE,
        ensures
            word == self@.word_at(address as int),
    {
        let high: u16 = self.memory[address] as u16;
        let low: u16 = self.memory[address + 1] as u16;
        assert((high << 8) | low == high * 256 + low) by (bit_vector)
            requires
                high < 256,
                low < 256,
        ;
        (high << 8) | low
    }

    /// Stores `value` at `address`, high byte first.
    pub fn write_u16(&mut self, address: usize, value: u16)
        requires
            address + 1 < MEMORY_SIZE,
        ensures
            final(self)@ == old(self)@.with_word(address as int, value),
            final(self).wf() == old(self).wf(),
    {
        assert(value >> 8 == value / 256 && (value >> 8) < 256) by (bit_vector);
        assert(value & 0xff == value % 256 && (value & 0xff) < 256) by (bit_vector);
        self.memory[address] = (value >> 8) as u8;
        self.memory[address + 1] = (value & 0xff) as u8;
    }

    /// The byte at `address`.
    pub fn read_u8(&self, address: usize) -> (value: u8)
        requires
            address < MEMORY_SIZE,
        ensures
            value == self@.memory[address as int],
    {
        self.memory[address]
    }

    /// Stores `value` at `address`.
    pub fn write_u8(&mut self, address: usize, value: u8)
        requires
            address < MEMORY_SIZE,
        ensures
            final(self)@ == old(self)@.with_byte(address as int, value),
            final(self).wf() == old(self).wf(),
    {
        self.memory[address] = value;
    }

    /// Executes the instruction at the program counter. A machine that is
    /// halted or waiting for a key does nothing. A fault halts the machine and
    /// changes nothing else.
    pub fn step(&mut self)
        requires
            old(self).wf(),
        ensures
            final(self)@ == old(self)@.step(),
            final(self).wf(),
    {
        let opcode: u16 = if self.regs.pc as usize + 1 < MEMORY_SIZE {
            self.read_u16(self.regs.pc as usize)
        } else {
            0
        };
        self.process_opcode(opcode);
    }

    /// Executes `opcode` as the instruction at the program counter. A machine
    /// that is halted or waiting for a key does nothing. A fault halts the
    /// machine and changes nothing else.
    pub fn process_opcode(&mut self, opcode: u16)
        requires
            old(self).wf(),
        ensures
            final(self)@ == old(self)@.process(opcode),
            final(self).wf(),
    {
        match self.status {
            Status::Running => {},
            _ => {
                return ;
            },
        }
        if self.regs.pc as usize + 1 >= MEMORY_SIZE {
            self.halt(Fault::AddressOutOfRange);
            return ;
        }
        // Every fault is raised here. The rules below are reached only with an
        // instruction that raises none.
        match self.fault_of(opcode) {
            Some(fault) => {
                self.halt(fault);
                return ;
            },
            None => {},
        }
        let op: u8 = family(opcode);

        match op {
            0x0 => self.process_opcode_0(opcode),
            0x1 => self.process_opcode_1nnn(opcode),
            0x2 => self.process_opcode_2nnn(opcode),
            0x3 => self.process_opcode_3xkk(opcode),
            0x4 => self.process_opcode_4xkk(opcode),
            0x5 => self.process_opcode_5xy0(opcode),
            0x6 => self.process_opcode_6xkk(opcode),
            0x7 => self.process_opcode_7xkk(opcode),
            0x8 => self.process_opcode_8(opcode),
            0x9 => self.process_opcode_9xy0(opcode),
            0xa => self.process_opcode_annn(opcode),
            0xb => self.process_opcode_bnnn(opcode),
            0xc => self.process_opcode_cxkk(opcode),
            0xd => self.process_opcode_dxyn(opcode),
            0xe => self.process_opcode_e(opcode),
            0xf => self.process_opcode_f(opcode),
            _ => unreached(),
        }
    }

    /// The fault that executing `opcode` would raise on this running machine,
    /// if it would raise one: a decode fault for a word that is no
    /// instruction, a stack fault for a call with the stack full or a return
    /// with it empty, an address fault for a jump target or a memory operand
    /// outside memory.
    pub fn fault_of(&self, opcode: u16) -> (fault: Option<Fault>)
        requires
            self.status is Running,
        ensures
            fault == (match self@.execute(opcode).status {
                Status::Halted(raised) => Some(raised),
                _ => None,
            }),
    {
        let op: u8 = family(opcode);
        let x: u8 = reg_x(opcode);
        let n: u8 = nibble(opcode);
        let kk: u8 = byte(opcode);
        let nnn: u16 = address(opcode);
        let index: usize = self.regs.i as usize;

        if op == 0x0 {
            if nnn == 0x00ee && self.regs.sp as usize >= STACK_SIZE {
                return Some(Fault::StackUnderflow);
            }
        } else if op == 0x2 {
            if self.regs.sp == 0 {
                return Some(Fault::StackOverflow);
            }
        } else if op == 0x8 {
            if !(n <= 7 || n == 0xe) {
                return Some(Fault::Decode);
            }
        } else if op == 0xb {
            if self.regs.v[0] as usize + nnn as usize >= MEMORY_SIZE {
                return Some(Fault::AddressOutOfRange);
            }
        } else if op == 0xd {
            if n > 0 && index + n as usize > MEMORY_SIZE {
                return Some(Fault::AddressOutOfRange);
            }
        } else if op == 0xe {
            if !(kk == 0x9e || kk == 0xa1) {
                return Some(Fault::Decode);
            }
        } else if op == 0xf {
            if kk == 0x33 {
                if index + 2 >= MEMORY_SIZE {
                    return Some(Fault::AddressOutOfRange);
                }
            } else if kk == 0x55 || kk == 0x65 {
                if index + x as usize >= MEMORY_SIZE {
                    return Some(Fault::AddressOutOfRange);
                }
            } else if !(kk == 0x07 || kk == 0x0a || kk == 0x15 || kk == 0x18 || kk == 0x1e || kk
                == 0x29) {
                return Some(Fault::Decode);
            }
        }
        None
    }

    /// One tick of the 60 Hz clock: each timer that is not zero goes down by
    /// one.
    pub fn tick_timers(&mut self)
        ensures
            final(self)@ == old(self)@.tick(),
            final(self).wf() == old(self).wf(),
    {
        if self.regs.delay_timer > 0 {
            self.regs.delay_timer -= 1;
        }
        if self.regs.sound_timer > 0 {
            self.regs.sound_timer -= 1;
        }
    }

    /// Records that `key` went down. If the machine was waiting for a key, the
    /// key's index goes to the waiting register and the machine runs again,
    /// behind the wait instruction.
    pub fn key_down(&mut self, key: u8)
        requires
            old(self).wf(),
            key < KEY_COUNT,
        ensures
            final(self)@ == old(self)@.key_down(key),
            final(self).wf(),
    {
        self.keys[key as usize] = true;
        match self.status {
            Status::AwaitingKey(x) => {
                self.regs.v[x as usize] = key;
                self.regs.pc += 2;
                self.status = Status::Running;
            },
            _ => {},
        }
    }

    /// Records that `key` went up.
    pub fn key_up(&mut self, key: u8)
        requires
            key < KEY_COUNT,
        ensures
            final(self)@ == old(self)@.key_up(key),
            final(self).wf() == old(self).wf(),
    {
        self.keys[key as usize] = false;
    }

    /// The fault that halted the machine, if one did.
    pub fn fault(&self) -> (fault: Option<Fault>)
        ensures
            fault == (match self.status {
                Status::Halted(raised) => Some(raised),
                _ => None,
            }),
    {
        match self.status {
            Status::Halted(raised) => Some(raised),
            _ => None,
        }
    }

    /// Whether the machine is waiting for a key to go down.
    pub fn is_awaiting_key(&self) -> (waiting: bool)
        ensures
            waiting == (self.status is AwaitingKey),
    {
        match self.status {
            Status::AwaitingKey(_) => true,
            _ => false,
        }
    }

    /// Stops the machine with `fault`.
    fn halt(&mut self, fault: Fault)
        requires
            old(self).wf(),
            old(self).status is Running,
        ensures
            final(self)@ == old(self)@.halt(fault),
            final(self).wf(),
    {
        self.status = Status::Halted(fault);
    }

    /// Family 0: `RET`, `CLS`, and `SYS` for every other word. A return needs
    /// a return address on the stack.
    pub fn process_opcode_0(&mut self, opcode: u16)
        requires
            old(self)@.ready(),
            nnn_of(opcode) == 0x0ee ==> old(self)@.sp < STACK_SIZE,
        ensures
            final(self)@ == old(self)@.execute_0(opcode),
            final(self).wf(),
    {
        let value: u16 = address(opcode);
        match value {
            0x00ee => self.process_opcode_00ee(),
            0x00e0 => self.process_opcode_00e0(),
            _ => self.process_opcode_0nnn(value),
        }
    }

    /// `CLS`: every pixel off.
    pub fn process_opcode_00e0(&mut self)
        requires
            old(self)@.ready(),
        ensures
            final(self)@ == old(self)@.clear_screen(),
            final(self).wf(),
    {
        self.display = [false; DISPLAY_SIZE];
        self.regs.pc += 2;
    }

    /// `RET`, with a return address on the stack: the program counter is that
    /// address, the slot that held it is zero and the stack pointer is one
    /// slot up.
    pub fn process_opcode_00ee(&mut self)
        requires
            old(self)@.ready(),
            old(self)@.sp < STACK_SIZE,
        ensures
            final(self)@ == old(self)@.ret(),
            final(self).wf(),
            final(self).regs.pc == old(self).stack@[old(self).regs.sp as int],
            final(self).regs.sp == old(self).regs.sp + 1,
            final(self).stack@ == old(self).stack@.update(old(self).regs.sp as int, 0u16),
    {
        self.regs.pc = self.stack[self.regs.sp as usize];
        self.stack[self.regs.sp as usize] = 0;
        self.regs.sp += 1;
    }

    /// `SYS addr`: nothing but the move to the following instruction.
    pub fn process_opcode_0nnn(&mut self, _opcode: u16)
        requires
            old(self)@.ready(),
        ensures
            final(self)@ == old(self)@.sys(),
            final(self).wf(),
    {
        self.regs.pc += 2;
    }

    /// `JP addr`.
    pub fn process_opcode_1nnn(&mut self, opcode: u16)
        requires
            old(self)@.ready(),
        ensures
            final(self)@ == old(self)@.jump(nnn_of(opcode)),
            final(self).wf(),
    {
        self.regs.pc = address(opcode);
    }

    /// `CALL addr`, with room on the stack: the address of the following
    /// instruction is in the slot below the stack pointer, the stack pointer
    /// is on that slot and the program counter is `addr`.
    pub fn process_opcode_2nnn(&mut self, opcode: u16)
        requires
            old(self)@.ready(),
            old(self)@.sp > 0,
        ensures
            final(self)@ == old(self)@.call(nnn_of(opcode)),
            final(self).wf(),
            final(self).regs.pc == nnn_of(opcode),
            final(self).regs.sp == old(self).regs.sp - 1,
            final(self).stack@ == old(self).stack@.update(
                old(self).regs.sp - 1,
                (old(self).regs.pc + 2) as u16,
            ),
    {
        self.regs.pc += 2;
        self.regs.sp -= 1;
        self.stack[self.regs.sp as usize] = self.regs.pc;
        self.regs.pc = address(opcode);
    }

    /// `SE Vx, byte`: moves on by 4 if `Vx` equals the byte, by 2 if not.
    pub fn process_opcode_3xkk(&mut self, opcode: u16)
        requires
            old(self)@.ready(),
        ensures
            final(self)@ == old(self)@.skip_eq_byte(x_of(opcode), kk_of(opcode)),
            final(self).wf(),
            final(self).regs.pc == old(self).regs.pc + if old(self).regs.v@[x_of(opcode) as int]
                == kk_of(opcode) {
                4int
            } else {
                2int
            },
    {
        let x: u8 = reg_x(opcode);
        let kk: u8 = byte(opcode);

        self.regs.pc += 2;

        if self.regs.v[x as usize] == kk {
            self.regs.pc += 2;
        }
    }

    /// `SNE Vx, byte`: moves on by 4 if `Vx` differs from the byte, by 2 if not.
    pub fn process_opcode_4xkk(&mut self, opcode: u16)
        requires
            old(self)@.ready(),
        ensures
            final(self)@ == old(self)@.skip_ne_byte(x_of(opcode), kk_of(opcode)),
            final(self).wf(),
            final(self).regs.pc == old(self).regs.pc + if old(self).regs.v@[x_of(opcode) as int]
                != kk_of(opcode) {
                4int
            } else {
                2int
            },
    {
        let x: u8 = reg_x(opcode);
        let kk: u8 = byte(opcode);

        self.regs.pc += 2;

        if self.regs.v[x as usize] != kk {
            self.regs.pc += 2;
        }
    }

    /// `SE Vx, Vy`: moves on by 4 if the registers are equal, by 2 if not.
    pub fn process_opcode_5xy0(&mut self, opcode: u16)
        requires
            old(self)@.ready(),
        ensures
            final(self)@ == old(self)@.skip_eq_reg(x_of(opcode), y_of(opcode)),
            final(self).wf(),
            final(self).regs.pc == old(self).regs.pc + if old(self).regs.v@[x_of(opcode) as int]
                == old(self).regs.v@[y_of(opcode) as int] {
                4int
            } else {
                2int
            },
    {
        let x: u8 = reg_x(opcode);
        let y: u8 = reg_y(opcode);

        self.regs.pc += 2;

        if self.regs.v[x as usize] == self.regs.v[y as usize] {
            self.regs.pc += 2;
        }
    }

    /// `LD Vx, byte`.
    pub fn process_opcode_6xkk(&mut self, opcode: u16)
        requires
            old(self)@.ready(),
        ensures
            final(self)@ == old(self)@.load_byte(x_of(opcode), kk_of(opcode)),
            final(self).wf(),
    {
        let x: u8 = reg_x(opcode);
        let kk: u8 = byte(opcode);

        self.regs.pc += 2;
        self.regs.v[x as usize] = kk;
    }

    /// `ADD Vx, byte`: wraps at 8 bits and leaves the flag register alone.
    pub fn process_opcode_7xkk(&mut self, opcode: u16)
        requires
            old(self)@.ready(),
        ensures
            final(self)@ == old(self)@.add_byte(x_of(opcode), kk_of(opcode)),
            final(self).wf(),
    {
        let x: u8 = reg_x(opcode);
        let kk: u8 = byte(opcode);
        let sum: u16 = self.regs.v[x as usize] as u16 + kk as u16;

        self.regs.pc += 2;
        self.regs.v[x as usize] = (sum % 256) as u8;
    }

    /// Family 8, the register operations, told apart by the low nibble. The
    /// low nibble has to be one of the nine that name an operation.
    pub fn process_opcode_8(&mut self, opcode: u16)
        requires
            old(self)@.ready(),
            n_of(opcode) <= 7 || n_of(opcode) == 0xe,
        ensures
            final(self)@ == old(self)@.execute_8(opcode),
            final(self).wf(),
    {
        let x: u8 = reg_x(opcode);
        let y: u8 = reg_y(opcode);
        let op: u8 = nibble(opcode);

        match op {
            0x0 => self.process_opcode_8xy0(x, y),
            0x1 => self.process_opcode_8xy1(x, y),
            0x2 => self.process_opcode_8xy2(x, y),
            0x3 => self.process_opcode_8xy3(x, y),
            0x4 => self.process_opcode_8xy4(x, y),
            0x5 => self.process_opcode_8xy5(x, y),
            0x6 => self.process_opcode_8xy6(x, y),
            0x7 => self.process_opcode_8xy7(x, y),
            0xe => self.process_opcode_8xye(x, y),
            _ => unreached(),
        }
    }

    /// `LD Vx, Vy`.
    pub fn process_opcode_8xy0(&mut self, x: u8, y: u8)
        requires
            old(self)@.ready(),
            x < V_REG_SIZE,
            y < V_REG_SIZE,
        ensures
            final(self)@ == old(self)@.copy_reg(x, y),
            final(self).wf(),
    {
        self.regs.pc += 2;
        self.regs.v[x as usize] = self.regs.v[y as usize];
    }

    /// `OR Vx, Vy`.
    pub fn process_opcode_8xy1(&mut self, x: u8, y: u8)
        requires
            old(self)@.ready(),
            x < V_REG_SIZE,
            y < V_REG_SIZE,
        ensures
            final(self)@ == old(self)@.or_reg(x, y),
            final(self).wf(),
    {
        self.regs.pc += 2;
        self.regs.v[x as usize] = self.regs.v[x as usize] | self.regs.v[y as usize];
    }

    /// `AND Vx, Vy`.
    pub fn process_opcode_8xy2(&mut self, x: u8, y: u8)
        requires
            old(self)@.ready(),
            x < V_REG_SIZE,
            y < V_REG_SIZE,
        ensures
            final(self)@ == old(self)@.and_reg(x, y),
            final(self).wf(),
    {
        self.regs.pc += 2;
        self.regs.v[x as usize] = self.regs.v[x as usize] & self.regs.v[y as usize];
    }

    /// `XOR Vx, Vy`.
    pub fn process_opcode_8xy3(&mut self, x: u8, y: u8)
        requires
            old(self)@.ready(),
            x < V_REG_SIZE,
            y < V_REG_SIZE,
        ensures
            final(self)@ == old(self)@.xor_reg(x, y),
            final(self).wf(),
    {
        self.regs.pc += 2;
        self.regs.v[x as usize] = self.regs.v[x as usize] ^ self.regs.v[y as usize];
    }

    /// `ADD Vx, Vy`: `Vx` holds the sum modulo 256 and, unless `Vx` is the flag
    /// register itself, the flag register holds the carry.
    pub fn process_opcode_8xy4(&mut self, x: u8, y: u8)
        requires
            old(self)@.ready(),
            x < V_REG_SIZE,
            y < V_REG_SIZE,
        ensures
            final(self)@ == old(self)@.add_reg(x, y),
            final(self).wf(),
            final(self).regs.v@[x as int] == (old(self).regs.v@[x as int]
                + old(self).regs.v@[y as int]) % 256,
            x != FLAG ==> final(self).regs.v@[FLAG as int] == (if old(self).regs.v@[x as int]
                + old(self).regs.v@[y as int] > 255 {
                1u8
            } else {
                0u8
            }),
    {
        let sum: u16 = self.regs.v[x as usize] as u16 + self.regs.v[y as usize] as u16;

        self.regs.pc += 2;
        self.regs.v[FLAG as usize] = if sum > 255 { 1 } else { 0 };
        self.regs.v[x as usize] = (sum % 256) as u8;
    }

    /// `SUB Vx, Vy`: `Vx` holds the difference modulo 256 and, unless `Vx` is the
    /// flag register itself, the flag register says whether `Vx` was greater
    /// than `Vy`.
    pub fn process_opcode_8xy5(&mut self, x: u8, y: u8)
        requires
            old(self)@.ready(),
            x < V_REG_SIZE,
            y < V_REG_SIZE,
        ensures
            final(self)@ == old(self)@.sub_reg(x, y),
            final(self).wf(),
            final(self).regs.v@[x as int] == (old(self).regs.v@[x as int]
                - old(self).regs.v@[y as int]) % 256,
            x != FLAG ==> final(self).regs.v@[FLAG as int] == (if old(self).regs.v@[x as int]
                > old(self).regs.v@[y as int] {
                1u8
            } else {
                0u8
            }),
    {
        let a: u8 = self.regs.v[x as usize];
        let b: u8 = self.regs.v[y as usize];
        let difference: u16 = (a as u16 + 256 - b as u16) % 256;

        self.regs.pc += 2;
        self.regs.v[FLAG as usize] = if a > b { 1 } else { 0 };
        self.regs.v[x as usize] = difference as u8;
    }

    /// `SHR Vx {, Vy}`: `Vx` is shifted right by one bit and, unless `Vx` is the
    /// flag register itself, the flag register holds the bit that was bit 0.
    /// `Vy` plays no part.
    pub fn process_opcode_8xy6(&mut self, x: u8, _y: u8)
        requires
            old(self)@.ready(),
            x < V_REG_SIZE,
        ensures
            final(self)@ == old(self)@.shift_right(x),
            final(self).wf(),
            final(self).regs.v@[x as int] == old(self).regs.v@[x as int] >> 1,
            x != FLAG ==> final(self).regs.v@[FLAG as int] == old(self).regs.v@[x as int] & 1,
    {
        let a: u8 = self.regs.v[x as usize];
        assert(a & 1 == a % 2 && a >> 1 == a / 2) by (bit_vector);

        self.regs.pc += 2;
        self.regs.v[FLAG as usize] = a & 1;
        self.regs.v[x as usize] = a >> 1;
    }

    /// `SUBN Vx, Vy`: `Vx` holds `Vy - Vx` modulo 256 and, unless `Vx` is the flag
    /// register itself, the flag register says whether `Vy` was greater than
    /// `Vx`.
    pub fn process_opcode_8xy7(&mut self, x: u8, y: u8)
        requires
            old(self)@.ready(),
            x < V_REG_SIZE,
            y < V_REG_SIZE,
        ensures
            final(self)@ == old(self)@.subn_reg(x, y),
            final(self).wf(),
            final(self).regs.v@[x as int] == (old(self).regs.v@[y as int]
                - old(self).regs.v@[x as int]) % 256,
            x != FLAG ==> final(self).regs.v@[FLAG as int] == (if old(self).regs.v@[y as int]
                > old(self).regs.v@[x as int] {
                1u8
            } else {
                0u8
            }),
    {
        let a: u8 = self.regs.v[x as usize];
        let b: u8 = self.regs.v[y as usize];
        let difference: u16 = (b as u16 + 256 - a as u16) % 256;

        self.regs.pc += 2;
        self.regs.v[FLAG as usize] = if b > a { 1 } else { 0 };
        self.regs.v[x as usize] = difference as u8;
    }

    /// `SHL Vx {, Vy}`: `Vx` is shifted left by one bit within its eight bits
    /// and, unless `Vx` is the flag register itself, the flag register holds
    /// the bit that was bit 7. `Vy` plays no part.
    pub fn process_opcode_8xye(&mut self, x: u8, _y: u8)
        requires
            old(self)@.ready(),
            x < V_REG_SIZE,
        ensures
            final(self)@ == old(self)@.shift_left(x),
            final(self).wf(),
            final(self).regs.v@[x as int] == old(self).regs.v@[x as int] << 1,
            x != FLAG ==> final(self).regs.v@[FLAG as int] == (old(self).regs.v@[x as int] >> 7)
                & 1,
    {
        let a: u8 = self.regs.v[x as usize];
        assert(a >> 7 == (if a >= 128 { 1u8 } else { 0u8 }) && a << 1 == (a * 2) % 256 && (a >> 7)
            & 1 == a >> 7) by (bit_vector);

        self.regs.pc += 2;
        self.regs.v[FLAG as usize] = a >> 7;
        self.regs.v[x as usize] = a << 1;
    }

    /// `SNE Vx, Vy`: moves on by 4 if the registers differ, by 2 if not.
    pub fn process_opcode_9xy0(&mut self, opcode: u16)
        requires
            old(self)@.ready(),
        ensures
            final(self)@ == old(self)@.skip_ne_reg(x_of(opcode), y_of(opcode)),
            final(self).wf(),
            final(self).regs.pc == old(self).regs.pc + if old(self).regs.v@[x_of(opcode) as int]
                != old(self).regs.v@[y_of(opcode) as int] {
                4int
            } else {
                2int
            },
    {
        let x: u8 = reg_x(opcode);
        let y: u8 = reg_y(opcode);

        self.regs.pc += 2;

        if self.regs.v[x as usize] != self.regs.v[y as usize] {
            self.regs.pc += 2;
        }
    }

    /// `LD I, addr`.
    pub fn process_opcode_annn(&mut self, opcode: u16)
        requires
            old(self)@.ready(),
        ensures
            final(self)@ == old(self)@.load_index(nnn_of(opcode)),
            final(self).wf(),
    {
        self.regs.pc += 2;
        self.regs.i = address(opcode);
    }

    /// `JP V0, addr`, with the target inside memory.
    pub fn process_opcode_bnnn(&mut self, opcode: u16)
        requires
            old(self)@.ready(),
            old(self)@.v[0] + nnn_of(opcode) < MEMORY_SIZE,
        ensures
            final(self)@ == old(self)@.jump_offset(nnn_of(opcode)),
            final(self).wf(),
            final(self).regs.pc == old(self).regs.v@[0] + nnn_of(opcode),
    {
        self.regs.pc = self.regs.v[0] as u16 + address(opcode);
    }

    /// `RND Vx, byte`: the next byte of the random source, masked by the byte.
    pub fn process_opcode_cxkk(&mut self, opcode: u16)
        requires
            old(self)@.ready(),
        ensures
            final(self)@ == old(self)@.random(x_of(opcode), kk_of(opcode)),
            final(self).wf(),
    {
        let x: u8 = reg_x(opcode);
        let kk: u8 = byte(opcode);
        let drawn: u8 = self.rng.next_byte();

        self.regs.pc += 2;
        self.regs.v[x as usize] = drawn & kk;
    }

    /// `DRW Vx, Vy, nibble`, with the sprite's bytes inside memory: every
    /// pixel under a set bit of the sprite is inverted, and the flag register
    /// says whether one of them went off.
    pub fn process_opcode_dxyn(&mut self, opcode: u16)
        requires
            old(self)@.ready(),
            n_of(opcode) == 0 || old(self)@.i + n_of(opcode) <= MEMORY_SIZE,
        ensures
            final(self)@ == old(self)@.draw(x_of(opcode), y_of(opcode), n_of(opcode)),
            final(self).wf(),
    {
        let x: u8 = reg_x(opcode);
        let y: u8 = reg_y(opcode);
        let n: u8 = nibble(opcode);
        let start: usize = self.regs.i as usize;
        let left: usize = self.regs.v[x as usize] as usize % DISPLAY_WIDTH;
        let top: usize = self.regs.v[y as usize] as usize % DISPLAY_HEIGHT;
        let ghost before = self@;
        let mut collision: bool = false;
        let mut row: u8 = 0;
        proof {
            lemma_drawn_rows(before, x, y, n, 0);
        }
        while row < n
            invariant
                row <= n < 16,
                before == old(self)@,
                before.wf(),
                x < V_REG_SIZE,
                y < V_REG_SIZE,
                left == before.v[x as int] % 64,
                top == before.v[y as int] % 32,
                start == before.i,
                n == 0 || start + n <= MEMORY_SIZE,
                self@ == (Machine { display: self.display@, ..before }),
                forall|p: int|
                    0 <= p < DISPLAY_SIZE ==> self.display@[p] == (before.display[p] != drawn(
                        before,
                        x,
                        y,
                        n,
                        row as int,
                        0,
                        p,
                    )),
                !collision ==> forall|p: int|
                    0 <= p < DISPLAY_SIZE ==> !(before.display[p] && drawn(
                        before,
                        x,
                        y,
                        n,
                        row as int,
                        0,
                        p,
                    )),
                collision ==> before.sprite_collides(x, y, n),
            decreases n - row,
        {
            let bits: u8 = self.memory[start + row as usize];
            let py: usize = (top + row as usize) % DISPLAY_HEIGHT;
            let mut col: u8 = 0;
            while col < 8
                invariant
                    row < n < 16,
                    col <= 8,
                    before == old(self)@,
                    before.wf(),
                    x < V_REG_SIZE,
                    y < V_REG_SIZE,
                    left == before.v[x as int] % 64,
                    top == before.v[y as int] % 32,
                    py == (top + row) % 32,
                    start == before.i,
                    start + n <= MEMORY_SIZE,
                    bits == before.memory[start + row],
                    self@ == (Machine { display: self.display@, ..before }),
                    forall|p: int|
                        0 <= p < DISPLAY_SIZE ==> self.display@[p] == (before.display[p] != drawn(
                            before,
                            x,
                            y,
                            n,
                            row as int,
                            col as int,
                            p,
                        )),
                    !collision ==> forall|p: int|
                        0 <= p < DISPLAY_SIZE ==> !(before.display[p] && drawn(
                            before,
                            x,
                            y,
                            n,
                            row as int,
                            col as int,
                            p,
                        )),
                    collision ==> before.sprite_collides(x, y, n),
                decreases 8 - col,
            {
                let px: usize = (left + col as usize) % DISPLAY_WIDTH;
                let pixel: usize = py * DISPLAY_WIDTH + px;
                proof {
                    lemma_drawn_step(before, x, y, n, row as int, col as int);
                }
                if bits & (0x80u8 >> col) != 0 {
                    if self.display[pixel] {
                        collision = true;
                    }
                    self.display[pixel] = !self.display[pixel];
                }
                col += 1;
            }
            proof {
                lemma_drawn_rows(before, x, y, n, row as int);
            }
            row += 1;
        }
        self.regs.pc += 2;
        self.regs.v[FLAG as usize] = if collision { 1 } else { 0 };
    }

    /// Family E, the key tests, told apart by the low byte. The low byte has
    /// to be one of the two that name a test.
    pub fn process_opcode_e(&mut self, opcode: u16)
        requires
            old(self)@.ready(),
            kk_of(opcode) == 0x9e || kk_of(opcode) == 0xa1,
        ensures
            final(self)@ == old(self)@.execute_e(opcode),
            final(self).wf(),
    {
        let x: u8 = reg_x(opcode);
        let op: u8 = byte(opcode);

        match op {
            0x9e => self.process_opcode_ex9e(x),
            0xa1 => self.process_opcode_exa1(x),
            _ => unreached(),
        }
    }

    /// `SKP Vx`: moves on by 4 if the key named by the low nibble of `Vx` is
    /// down, by 2 if not.
    pub fn process_opcode_ex9e(&mut self, x: u8)
        requires
            old(self)@.ready(),
            x < V_REG_SIZE,
        ensures
            final(self)@ == old(self)@.skip_key_down(x),
            final(self).wf(),
            final(self).regs.pc == old(self).regs.pc + if old(self).keys@[(old(self).regs.v@[x as int]
                % 16) as int] {
                4int
            } else {
                2int
            },
    {
        let key: u8 = self.regs.v[x as usize] % 16;

        self.regs.pc += 2;

        if self.keys[key as usize] {
            self.regs.pc += 2;
        }
    }

    /// `SKNP Vx`: moves on by 4 if the key named by the low nibble of `Vx` is up,
    /// by 2 if not.
    pub fn process_opcode_exa1(&mut self, x: u8)
        requires
            old(self)@.ready(),
            x < V_REG_SIZE,
        ensures
            final(self)@ == old(self)@.skip_key_up(x),
            final(self).wf(),
            final(self).regs.pc == old(self).regs.pc + if !old(self).keys@[(old(self).regs.v@[x as int]
                % 16) as int] {
                4int
            } else {
                2int
            },
    {
        let key: u8 = self.regs.v[x as usize] % 16;

        self.regs.pc += 2;

        if !self.keys[key as usize] {
            self.regs.pc += 2;
        }
    }

    /// Family F, told apart by the low byte. The low byte has to be one of
    /// the nine that name an operation, and the bytes that the operation reads
    /// or writes at `I` have to lie in memory.
    pub fn process_opcode_f(&mut self, opcode: u16)
        requires
            old(self)@.ready(),
            kk_of(opcode) == 0x07 || kk_of(opcode) == 0x0a || kk_of(opcode) == 0x15 || kk_of(opcode)
                == 0x18 || kk_of(opcode) == 0x1e || kk_of(opcode) == 0x29 || kk_of(opcode) == 0x33
                || kk_of(opcode) == 0x55 || kk_of(opcode) == 0x65,
            kk_of(opcode) == 0x33 ==> old(self)@.i + 2 < MEMORY_SIZE,
            kk_of(opcode) == 0x55 || kk_of(opcode) == 0x65 ==> old(self)@.i + x_of(opcode)
                < MEMORY_SIZE,
        ensures
            final(self)@ == old(self)@.execute_f(opcode),
            final(self).wf(),
    {
        let x: u8 = reg_x(opcode);
        let op: u8 = byte(opcode);

        match op {
            0x07 => self.process_opcode_fx07(x),
            0x0a => self.process_opcode_fx0a(x),
            0x15 => self.process_opcode_fx15(x),
            0x18 => self.process_opcode_fx18(x),
            0x1e => self.process_opcode_fx1e(x),
            0x29 => self.process_opcode_fx29(x),
            0x33 => self.process_opcode_fx33(x),
            0x55 => self.process_opcode_fx55(x),
            0x65 => self.process_opcode_fx65(x),
            _ => unreached(),
        }
    }

    /// `LD Vx, DT`.
    pub fn process_opcode_fx07(&mut self, x: u8)
        requires
            old(self)@.ready(),
            x < V_REG_SIZE,
        ensures
            final(self)@ == old(self)@.read_delay(x),
            final(self).wf(),
    {
        self.regs.pc += 2;
        self.regs.v[x as usize] = self.regs.delay_timer;
    }

    /// `LD Vx, K`: the machine waits for a key to go down. The program counter
    /// stays on the instruction.
    pub fn process_opcode_fx0a(&mut self, x: u8)
        requires
            old(self)@.ready(),
            x < V_REG_SIZE,
        ensures
            final(self)@ == old(self)@.wait_key(x),
            final(self).wf(),
    {
        self.status = Status::AwaitingKey(x);
    }

    /// `LD DT, Vx`.
    pub fn process_opcode_fx15(&mut self, x: u8)
        requires
            old(self)@.ready(),
            x < V_REG_SIZE,
        ensures
            final(self)@ == old(self)@.set_delay(x),
            final(self).wf(),
    {
        self.regs.pc += 2;
        self.regs.delay_timer = self.regs.v[x as usize];
    }

    /// `LD ST, Vx`.
    pub fn process_opcode_fx18(&mut self, x: u8)
        requires
            old(self)@.ready(),
            x < V_REG_SIZE,
        ensures
            final(self)@ == old(self)@.set_sound(x),
            final(self).wf(),
    {
        self.regs.pc += 2;
        self.regs.sound_timer = self.regs.v[x as usize];
    }

    /// `ADD I, Vx`: wraps at 16 bits and touches no flag.
    pub fn process_opcode_fx1e(&mut self, x: u8)
        requires
            old(self)@.ready(),
            x < V_REG_SIZE,
        ensures
            final(self)@ == old(self)@.add_index(x),
            final(self).wf(),
    {
        let sum: u32 = self.regs.i as u32 + self.regs.v[x as usize] as u32;

        self.regs.pc += 2;
        self.regs.i = (sum % 0x1_0000) as u16;
    }

    /// `LD F, Vx`: `I` is the address of the sprite for the low nibble of `Vx`.
    pub fn process_opcode_fx29(&mut self, x: u8)
        requires
            old(self)@.ready(),
            x < V_REG_SIZE,
        ensures
            final(self)@ == old(self)@.font_address(x),
            final(self).wf(),
    {
        let digit: u16 = (self.regs.v[x as usize] % 16) as u16;

        self.regs.pc += 2;
        self.regs.i = FONT_BASE + FONT_GLYPH_SIZE * digit;
    }

    /// `LD B, Vx`, with the three bytes at `I` inside memory: they hold the
    /// hundreds, the tens and the units of `Vx`.
    pub fn process_opcode_fx33(&mut self, x: u8)
        requires
            old(self)@.ready(),
            x < V_REG_SIZE,
            old(self)@.i + 2 < MEMORY_SIZE,
        ensures
            final(self)@ == old(self)@.store_bcd(x),
            final(self).wf(),
    {
        let start: usize = self.regs.i as usize;
        let a: u8 = self.regs.v[x as usize];

        self.regs.pc += 2;
        self.memory[start] = a / 100;
        self.memory[start + 1] = (a / 10) % 10;
        self.memory[start + 2] = a % 10;
    }

    /// `LD [I], Vx`, with the bytes for `V0` to `Vx` inside memory: the bytes
    /// from `I` on hold `V0` to `Vx`, every other byte and every register is
    /// as it was.
    pub fn process_opcode_fx55(&mut self, x: u8)
        requires
            old(self)@.ready(),
            x < V_REG_SIZE,
            old(self)@.i + x < MEMORY_SIZE,
        ensures
            final(self)@ == old(self)@.store_regs(x),
            final(self).wf(),
            forall|r: int|
                0 <= r <= x ==> final(self).memory@[old(self).regs.i + r] == old(self).regs.v@[r],
            forall|a: int|
                0 <= a < MEMORY_SIZE && !(old(self).regs.i <= a <= old(self).regs.i + x)
                    ==> final(self).memory@[a] == old(self).memory@[a],
            final(self).regs.v@ == old(self).regs.v@,
            final(self).regs.i == old(self).regs.i,
    {
        let start: usize = self.regs.i as usize;
        let mut r: usize = 0;
        while r <= x as usize
            invariant
                r <= x + 1,
                x < V_REG_SIZE,
                start == old(self).regs.i,
                start + x < MEMORY_SIZE,
                forall|a: int|
                    0 <= a < MEMORY_SIZE ==> self.memory@[a] == (if start <= a < start + r {
                        old(self).regs.v@[a - start]
                    } else {
                        old(self).memory@[a]
                    }),
                self.stack == old(self).stack,
                self.regs == old(self).regs,
                self.display == old(self).display,
                self.keys == old(self).keys,
                self.rng == old(self).rng,
                self.status == old(self).status,
            decreases x + 1 - r,
        {
            self.memory[start + r] = self.regs.v[r];
            r += 1;
        }
        self.regs.pc += 2;
    }

    /// `LD Vx, [I]`, with the bytes for `V0` to `Vx` inside memory: `V0` to
    /// `Vx` hold the bytes from `I` on, every other register and every byte is
    /// as it was.
    pub fn process_opcode_fx65(&mut self, x: u8)
        requires
            old(self)@.ready(),
            x < V_REG_SIZE,
            old(self)@.i + x < MEMORY_SIZE,
        ensures
            final(self)@ == old(self)@.load_regs(x),
            final(self).wf(),
            forall|r: int|
                0 <= r <= x ==> final(self).regs.v@[r] == old(self).memory@[old(self).regs.i + r],
            forall|r: int| x < r < V_REG_SIZE ==> final(self).regs.v@[r] == old(self).regs.v@[r],
            final(self).memory@ == old(self).memory@,
            final(self).regs.i == old(self).regs.i,
    {
        let start: usize = self.regs.i as usize;
        let mut r: usize = 0;
        while r <= x as usize
            invariant
                r <= x + 1,
                x < V_REG_SIZE,
                start == old(self).regs.i,
                start + x < MEMORY_SIZE,
                forall|k: int|
                    0 <= k < V_REG_SIZE ==> self.regs.v@[k] == (if k < r {
                        old(self).memory@[start + k]
                    } else {
                        old(self).regs.v@[k]
                    }),
                self.memory == old(self).memory,
                self.stack == old(self).stack,
                self.regs.i == old(self).regs.i,
                self.regs.pc == old(self).regs.pc,
                self.regs.sp == old(self).regs.sp,
                self.regs.delay_timer == old(self).regs.delay_timer,
                self.regs.sound_timer == old(self).regs.sound_timer,
                self.display == old(self).display,
                self.keys == old(self).keys,
                self.rng == old(self).rng,
                self.status == old(self).status,
            decreases x + 1 - r,
        {
            self.regs.v[r] = self.memory[start + r];
            r += 1;
        }
        self.regs.pc += 2;
    }
}

/// While `DRW Vx, Vy, n` is under way: whether the sprite bit over the pixel
/// `p` is set and has been applied already, when the rows above `row` are
/// done and, of row `row`, the columns left of `col`.
#[verifier::opaque]
spec fn drawn(before: Machine, x: u8, y: u8, n: u8, row: int, col: int, p: int) -> bool {
    let r = Machine::sprite_row(before.v[y as int], p);
    let c = Machine::sprite_col(before.v[x as int], p);
    before.sprite_covers(x, y, n, p) && (r < row || (r == row && c < col))
}

/// On a ring of 64 places, `a` lies `offset` places after `origin` exactly if
/// it is the place reached by stepping `offset` places on from `origin`.
proof fn lemma_wrap_columns(origin: int, offset: int, a: int)
    requires
        0 <= offset < 64,
        0 <= a < 64,
    ensures
        (a - origin) % 64 == offset <==> a == (origin % 64 + offset) % 64,
{
}

/// On a ring of 32 places, `a` lies `offset` places after `origin` exactly if
/// it is the place reached by stepping `offset` places on from `origin`.
proof fn lemma_wrap_rows(origin: int, offset: int, a: int)
    requires
        0 <= offset < 32,
        0 <= a < 32,
    ensures
        (a - origin) % 32 == offset <==> a == (origin % 32 + offset) % 32,
{
}

/// Applying the sprite bit in row `row`, column `col` touches exactly one
/// pixel, which had not been touched before.
proof fn lemma_drawn_step(before: Machine, x: u8, y: u8, n: u8, row: int, col: int)
    requires
        0 <= row < n <= DISPLAY_HEIGHT,
        0 <= col < 8,
        before.wf(),
        x < V_REG_SIZE,
        y < V_REG_SIZE,
    ensures
        ({
            let pixel = ((before.v[y as int] % 32 + row) % 32) * 64 + (before.v[x as int] % 64
                + col) % 64;
            &&& 0 <= pixel < DISPLAY_SIZE
            &&& before.sprite_covers(x, y, n, pixel) == sprite_bit(
                before.memory[before.i + row],
                col as u8,
            )
            &&& !drawn(before, x, y, n, row, col, pixel)
            &&& forall|p: int|
                0 <= p < DISPLAY_SIZE ==> #[trigger] drawn(before, x, y, n, row, col + 1, p) == (
                drawn(before, x, y, n, row, col, p) || (p == pixel && before.sprite_covers(
                    x,
                    y,
                    n,
                    pixel,
                )))
        }),
{
    reveal(drawn);
    let vx = before.v[x as int];
    let vy = before.v[y as int];
    let pixel = ((vy % 32 + row) % 32) * 64 + (vx % 64 + col) % 64;
    lemma_wrap_rows(vy as int, row, pixel / 64);
    lemma_wrap_columns(vx as int, col, pixel % 64);
    assert forall|p: int| 0 <= p < DISPLAY_SIZE implies #[trigger] drawn(
        before,
        x,
        y,
        n,
        row,
        col + 1,
        p,
    ) == (drawn(before, x, y, n, row, col, p) || (p == pixel && before.sprite_covers(
        x,
        y,
        n,
        pixel,
    ))) by {
        lemma_wrap_rows(vy as int, row, p / 64);
        lemma_wrap_columns(vx as int, col, p % 64);
    }
}

/// Nothing is applied before the first row; a row whose eight columns are
/// done is a finished row; and when all `n` rows are done every set sprite
/// bit has been applied.
proof fn lemma_drawn_rows(before: Machine, x: u8, y: u8, n: u8, row: int)
    requires
        0 <= row,
    ensures
        forall|p: int| !#[trigger] drawn(before, x, y, n, 0, 0, p),
        forall|p: int|
            #[trigger] drawn(before, x, y, n, row, 8, p) == drawn(before, x, y, n, row + 1, 0, p),
        forall|p: int|
            #[trigger] drawn(before, x, y, n, n as int, 0, p) == before.sprite_covers(x, y, n, p),
{
    reveal(drawn);
}

} // verus!
