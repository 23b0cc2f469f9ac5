//! The machine state and the fetch, decode and execution units.

use vstd::prelude::*;

use crate::model::{
    address, alu_result, call_result, key_result, loaded_gprs, low_byte, misc_result,
    misc_status, reg_x, reg_y, return_result, saved_memory, set_pc, set_reg, skip_if, word_at,
    alu_known, key_known, bcd_memory, execute_frame, execute_result, execute_status,
    is_draw, low_nibble, CpuState, SCREEN_CELLS, ExecStatus, PROGRAM_START, RAM_SIZE, STACK_LENGTH,
};

verus! {

/// The interpreter's architectural state.
///
/// The program counter wraps at 16 bits. The return-address stack wraps too:
/// a seventeenth nested call overwrites the oldest entry, and a return with no
/// call pending takes the stack pointer from 0 to 15.
pub struct CPU {
    /// Address of the next instruction.
    pub pc: u16,
    /// Where execution started.
    pub prev_pc: u16,
    /// Address register for memory-relative instructions.
    pub index_reg: u16,
    pub memory: [u8; 4096],
    /// Return addresses.
    pub stack: [u16; 16],
    /// The next free slot of `stack`.
    pub stack_pointer: u8,
    pub sound_timer: u8,
    pub delay_timer: u8,
    /// `V0` to `VF`; `VF` also takes carry, borrow and collision flags.
    pub gprs: [u8; 16],
    /// The key held down, if any.
    pub key_pressed: Option<u8>,
    /// Shifts act on `VX` itself rather than on a copy of `VY`.
    pub quirk_shift: bool,
    /// Sprites are cut off at the screen edges rather than wrapped.
    pub clipping: bool,
}

impl View for CPU {
    type V = CpuState;

    open spec fn view(&self) -> CpuState {
        CpuState {
            pc: self.pc,
            prev_pc: self.prev_pc,
            index_reg: self.index_reg,
            memory: self.memory@,
            stack: self.stack@,
            stack_pointer: self.stack_pointer,
            sound_timer: self.sound_timer,
            delay_timer: self.delay_timer,
            gprs: self.gprs@,
            key_pressed: self.key_pressed,
            quirk_shift: self.quirk_shift,
            clipping: self.clipping,
        }
    }
}

/// The X register named by an instruction.
pub(crate) fn field_x(instruction: u16) -> (r: usize)
    ensures
        r as int == reg_x(instruction),
        r < 16,
{
    proof {
        assert((instruction & 0x0F00u16) >> 8u16 == instruction / 256 % 16) by (bit_vector);
    }
    ((instruction & 0x0F00) >> 8) as usize
}

/// The Y register named by an instruction.
pub(crate) fn field_y(instruction: u16) -> (r: usize)
    ensures
        r as int == reg_y(instruction),
        r < 16,
{
    proof {
        assert((instruction & 0x00F0u16) >> 4u16 == instruction / 16 % 16) by (bit_vector);
    }
    ((instruction & 0x00F0) >> 4) as usize
}

/// The low nibble N of an instruction.
pub(crate) fn field_n(instruction: u16) -> (r: usize)
    ensures
        r as int == low_nibble(instruction),
        r < 16,
{
    proof {
        assert(instruction & 0x000Fu16 == instruction % 16) by (bit_vector);
    }
    (instruction & 0x000F) as usize
}

/// The immediate byte NN of an instruction.
pub(crate) fn field_nn(instruction: u16) -> (r: u8)
    ensures
        r as int == low_byte(instruction),
{
    proof {
        assert(instruction & 0x00FFu16 == instruction % 256) by (bit_vector);
    }
    (instruction & 0x00FF) as u8
}

/// The address NNN of an instruction.
pub(crate) fn field_nnn(instruction: u16) -> (r: u16)
    ensures
        r as int == address(instruction),
{
    proof {
        assert(instruction & 0x0FFFu16 == instruction % 4096) by (bit_vector);
    }
    instruction & 0x0FFF
}

/// Sets every cell of the frame buffer to 0.
pub fn clear_screen(frame_buffer: &mut [u8])
    ensures
        final(frame_buffer)@ == Seq::new(old(frame_buffer)@.len(), |cell: int| 0u8),
{
    let n = frame_buffer.len();
    let mut i: usize = 0;
    while i < n
        invariant
            i <= n,
            frame_buffer@.len() == n,
            n == old(frame_buffer)@.len(),
            forall|j: int| 0 <= j < i ==> frame_buffer@[j] == 0u8,
        decreases n - i,
    {
        frame_buffer[i] = 0;
        i = i + 1;
    }
    assert(frame_buffer@ =~= Seq::new(n as nat, |cell: int| 0u8));
}

impl CPU {
    /// The stack pointer names a slot of the stack.
    pub open spec fn wf(&self) -> bool {
        self.stack_pointer < STACK_LENGTH
    }

    /// A fresh machine: `pc` at the program start, zeroed memory, stack and
    /// timers, no key pressed, and the two compatibility settings given.
    pub fn new(quirk_shift: bool, clipping: bool) -> (r: Self)
        ensures
            r.wf(),
            r.pc == PROGRAM_START,
            r.prev_pc == PROGRAM_START,
            r.index_reg == 0,
            r.memory@ == Seq::new(RAM_SIZE as nat, |a: int| 0u8),
            r.stack@ == Seq::new(STACK_LENGTH as nat, |a: int| 0u16),
            r.stack_pointer == 0,
            r.sound_timer == 0,
            r.delay_timer == 0,
            r.gprs@ == Seq::new(16, |k: int| k as u8),
            r.key_pressed is None,
            r.quirk_shift == quirk_shift,
            r.clipping == clipping,
    {
        let r = CPU {
            pc: 0x200,
            prev_pc: 0x200,
            index_reg: 0,
            memory: [0; 4096],
            stack: [0; 16],
            sound_timer: 0,
            stack_pointer: 0,
            delay_timer: 0,
            gprs: [0, 1, 2, 3, 4, 5, 6, 7, 8, 9, 10, 11, 12, 13, 14, 15],
            key_pressed: None,
            quirk_shift,
            clipping,
        };
        assert(r.memory@ =~= Seq::new(RAM_SIZE as nat, |a: int| 0u8));
        assert(r.stack@ =~= Seq::new(STACK_LENGTH as nat, |a: int| 0u16));
        assert(r.gprs@ =~= Seq::new(16, |k: int| k as u8));
        r
    }

    /// Reads the big-endian instruction word at `pc` and advances `pc` by 2.
    pub fn fetch(&mut self) -> (r: u16)
        requires
            old(self).pc + 1 < RAM_SIZE,
        ensures
            r as int == word_at(old(self).memory@, old(self).pc as int),
            final(self)@ == set_pc(old(self)@, old(self).pc + 2),
    {
        let high_bits = self.memory[self.pc as usize];
        let low_bits = self.memory[self.pc as usize + 1];
        let shifted_bytes = (high_bits as u16) << 8;
        let instruction = shifted_bytes | (low_bits as u16);
        proof {
            assert(((high_bits as u16) << 8u16) | (low_bits as u16) == (high_bits as u16) * 256
                + (low_bits as u16)) by (bit_vector);
        }
        self.pc = self.pc + 2;
        instruction
    }
    /// Executes one instruction word. `00E0` and `00EE` are matched whole;
    /// every other word is dispatched on its top nibble. A word outside the
    /// instruction set changes nothing and is reported, as is a memory access
    /// that would pass the end of memory.
    pub fn execute(&mut self, instruction: u16, frame_buffer: &mut [u8]) -> (r: ExecStatus)
        requires
            old(self).wf(),
            is_draw(instruction) ==> old(frame_buffer)@.len() == SCREEN_CELLS,
        ensures
            final(self).wf(),
            final(self)@ == execute_result(old(self)@, instruction, old(frame_buffer)@),
            final(frame_buffer)@ == execute_frame(old(self)@, instruction, old(frame_buffer)@),
            r == execute_status(old(self)@, instruction),
    {
        proof {
            reveal(execute_result);
            reveal(execute_frame);
            reveal(execute_status);
        }
        match instruction {
            0x00E0 => {
                clear_screen(frame_buffer);
                ExecStatus::Executed
            },
            0x00EE => {
                self.return_from_subroutine();
                ExecStatus::Executed
            },
            _ => {
                let nibble = instruction & 0xF000;
                self.execute_instruction(nibble, instruction, frame_buffer)
            },
        }
    }

    #[verifier::rlimit(50)]
    fn execute_instruction(&mut self, nibble: u16, instruction: u16, frame_buffer: &mut [u8]) -> (r:
        ExecStatus)
        requires
            old(self).wf(),
            nibble == instruction & 0xF000,
            instruction != 0x00E0,
            instruction != 0x00EE,
            is_draw(instruction) ==> old(frame_buffer)@.len() == SCREEN_CELLS,
        ensures
            final(self).wf(),
            final(self)@ == execute_result(old(self)@, instruction, old(frame_buffer)@),
            final(frame_buffer)@ == execute_frame(old(self)@, instruction, old(frame_buffer)@),
            r == execute_status(old(self)@, instruction),
    {
        proof {
            reveal(execute_result);
            reveal(execute_frame);
            reveal(execute_status);
            assert(instruction & 0xF000u16 == (instruction / 4096) * 4096) by (bit_vector);
        }
        match nibble {
            0x1000 => self.pc = field_nnn(instruction),
            0x2000 => self.call_subroutine(instruction),
            0x3000 => self.skip_if_vx_equal(instruction),
            0x4000 => self.skip_if_vx_not_equal(instruction),
            0x5000 => self.skip_if_vx_vy_equal(instruction),
            0x6000 => self.set_vx_register(instruction),
            0x7000 => self.add_to_vx_register(instruction),
            0x8000 => {
                return self.execute_8xy_instruction(instruction);
            },
            0x9000 => self.skip_if_vx_vy_not_equal(instruction),
            0xA000 => self.index_reg = field_nnn(instruction),
            0xB000 => self.jump_with_offset(instruction),
            0xD000 => {
                let refused = self.index_reg as usize + field_n(instruction) > RAM_SIZE;
                self.draw(instruction, frame_buffer);
                if refused {
                    return ExecStatus::MemoryRefused;
                }
            },
            0xE000 => {
                return self.execute_ex_instruction(instruction);
            },
            0xF000 => {
                return self.execute_fx_instruction(instruction);
            },
            _ => {
                return ExecStatus::UnknownInstruction;
            },
        }
        ExecStatus::Executed
    }

    /// Copies `program` into memory from the program start on, as far as memory
    /// reaches, and returns how many bytes were copied.
    pub fn load(&mut self, program: &[u8]) -> (r: usize)
        ensures
            r == if program@.len() < RAM_SIZE - PROGRAM_START {
                program@.len() as int
            } else {
                RAM_SIZE - PROGRAM_START
            },
            final(self)@ == (CpuState {
                memory: Seq::new(
                    RAM_SIZE as nat,
                    |a: int|
                        if PROGRAM_START <= a < PROGRAM_START + r {
                            program@[a - PROGRAM_START]
                        } else {
                            old(self).memory@[a]
                        },
                ),
                ..old(self)@
            }),
    {
        let count = if program.len() < RAM_SIZE - PROGRAM_START {
            program.len()
        } else {
            RAM_SIZE - PROGRAM_START
        };
        let ghost m0 = self.memory@;
        let mut i: usize = 0;
        while i < count
            invariant
                i <= count,
                count <= program@.len(),
                count <= RAM_SIZE - PROGRAM_START,
                m0 == old(self).memory@,
                self@ == (CpuState { memory: self.memory@, ..old(self)@ }),
                forall|a: int|
                    0 <= a < RAM_SIZE ==> self.memory@[a] == if PROGRAM_START <= a < PROGRAM_START
                        + i {
                        program@[a - PROGRAM_START]
                    } else {
                        m0[a]
                    },
            decreases count - i,
        {
            self.memory[PROGRAM_START + i] = program[i];
            i = i + 1;
        }
        assert(self.memory@ =~= Seq::new(
            RAM_SIZE as nat,
            |a: int|
                if PROGRAM_START <= a < PROGRAM_START + count {
                    program@[a - PROGRAM_START]
                } else {
                    m0[a]
                },
        ));
        count
    }

    /// One timer tick: each timer that is not zero counts down by one.
    pub fn tick_timers(&mut self)
        ensures
            final(self)@ == (CpuState {
                delay_timer: if old(self).delay_timer > 0 {
                    (old(self).delay_timer - 1) as u8
                } else {
                    0
                },
                sound_timer: if old(self).sound_timer > 0 {
                    (old(self).sound_timer - 1) as u8
                } else {
                    0
                },
                ..old(self)@
            }),
    {
        if self.delay_timer > 0 {
            self.delay_timer = self.delay_timer - 1;
        }
        if self.sound_timer > 0 {
            self.sound_timer = self.sound_timer - 1;
        }
    }

    /// `2NNN`: pushes `pc`, advances the stack pointer modulo the stack size, jumps to NNN.
    fn call_subroutine(&mut self, instruction: u16)
        requires
            old(self).wf(),
        ensures
            final(self).wf(),
            final(self)@ == call_result(old(self)@, instruction),
    {
        proof {
            reveal(call_result);
        }
        let address = field_nnn(instruction);
        self.stack[self.stack_pointer as usize] = self.pc;
        self.stack_pointer = (self.stack_pointer + 1) % (STACK_LENGTH as u8);
        self.pc = address;
    }

    /// `00EE`: moves the stack pointer back one slot, modulo the stack size, and
    /// jumps to the address stored there.
    fn return_from_subroutine(&mut self)
        requires
            old(self).wf(),
        ensures
            final(self).wf(),
            final(self)@ == return_result(old(self)@),
    {
        proof {
            reveal(return_result);
        }
        self.stack_pointer = (self.stack_pointer + STACK_LENGTH as u8 - 1) % (STACK_LENGTH as u8);
        self.pc = self.stack[self.stack_pointer as usize];
    }

    /// `3XNN`: skips the next instruction when `VX == NN`.
    fn skip_if_vx_equal(&mut self, instruction: u16)
        ensures
            final(self)@ == skip_if(
                old(self)@,
                old(self).gprs@[reg_x(instruction)] as int == low_byte(instruction),
            ),
    {
        let vx_register = field_x(instruction);
        let value = field_nn(instruction);
        if self.gprs[vx_register] == value {
            self.pc = self.pc.wrapping_add(2);
        }
    }

    /// `4XNN`: skips the next instruction when `VX != NN`.
    fn skip_if_vx_not_equal(&mut self, instruction: u16)
        ensures
            final(self)@ == skip_if(
                old(self)@,
                old(self).gprs@[reg_x(instruction)] as int != low_byte(instruction),
            ),
    {
        let vx_register = field_x(instruction);
        let value = field_nn(instruction);
        if self.gprs[vx_register] != value {
            self.pc = self.pc.wrapping_add(2);
        }
    }

    /// `5XY0`: skips the next instruction when `VX == VY`.
    fn skip_if_vx_vy_equal(&mut self, instruction: u16)
        ensures
            final(self)@ == skip_if(
                old(self)@,
                old(self).gprs@[reg_x(instruction)] == old(self).gprs@[reg_y(instruction)],
            ),
    {
        let vx_register = field_x(instruction);
        let vy_register = field_y(instruction);
        if self.gprs[vx_register] == self.gprs[vy_register] {
            self.pc = self.pc.wrapping_add(2);
        }
    }

    /// `9XY0`: skips the next instruction when `VX != VY`.
    fn skip_if_vx_vy_not_equal(&mut self, instruction: u16)
        ensures
            final(self)@ == skip_if(
                old(self)@,
                old(self).gprs@[reg_x(instruction)] != old(self).gprs@[reg_y(instruction)],
            ),
    {
        let vx_register = field_x(instruction);
        let vy_register = field_y(instruction);
        if self.gprs[vx_register] != self.gprs[vy_register] {
            self.pc = self.pc.wrapping_add(2);
        }
    }

    /// `6XNN`: `VX = NN`.
    fn set_vx_register(&mut self, instruction: u16)
        ensures
            final(self)@ == set_reg(old(self)@, reg_x(instruction), low_byte(instruction)),
    {
        let vx_register = field_x(instruction);
        let register_value = field_nn(instruction);
        self.gprs[vx_register] = register_value;
    }

    /// `7XNN`: `VX = VX + NN`, modulo 256, with no flag.
    fn add_to_vx_register(&mut self, instruction: u16)
        ensures
            final(self)@ == set_reg(
                old(self)@,
                reg_x(instruction),
                (old(self).gprs@[reg_x(instruction)] + low_byte(instruction)) % 256,
            ),
    {
        let vx_register = field_x(instruction);
        let value = field_nn(instruction);
        self.gprs[vx_register] = self.gprs[vx_register].wrapping_add(value);
    }

    /// `BNNN`: jumps to `NNN + V0`.
    fn jump_with_offset(&mut self, instruction: u16)
        ensures
            final(self)@ == set_pc(old(self)@, address(instruction) + old(self).gprs@[0]),
    {
        let nnn = field_nnn(instruction);
        let v0 = self.gprs[0] as u16;
        self.pc = nnn + v0;
    }

    /// The register-to-register family `8XY?`. Unknown sub-opcodes change
    /// nothing and are reported.
    pub fn execute_8xy_instruction(&mut self, instruction: u16) -> (r: ExecStatus)
        ensures
            final(self)@ == alu_result(old(self)@, instruction),
            final(self).stack_pointer == old(self).stack_pointer,
            r == (if alu_known(instruction) {
                ExecStatus::Executed
            } else {
                ExecStatus::UnknownInstruction
            }),
    {
        let vx_register = field_x(instruction);
        let vy_register = field_y(instruction);
        proof {
            reveal(alu_result);
        }
        let operation = instruction & 0x000F;
        proof {
            assert(instruction & 0x000Fu16 == instruction % 16) by (bit_vector);
        }
        let vx = self.gprs[vx_register];
        let vy = self.gprs[vy_register];
        let source = if self.quirk_shift {
            vx
        } else {
            vy
        };
        match operation {
            0x0 => self.gprs[vx_register] = vy,
            0x1 => self.gprs[vx_register] = vx | vy,
            0x2 => self.gprs[vx_register] = vx & vy,
            0x3 => self.gprs[vx_register] = vx ^ vy,
            0x4 => {
                self.gprs[vx_register] = vx.wrapping_add(vy);
                self.gprs[0xF] = if vx as u16 + vy as u16 > 255 {
                    1
                } else {
                    0
                };
            },
            0x5 => {
                self.gprs[vx_register] = vx.wrapping_sub(vy);
                self.gprs[0xF] = if vx >= vy {
                    1
                } else {
                    0
                };
            },
            0x7 => {
                self.gprs[vx_register] = vy.wrapping_sub(vx);
                self.gprs[0xF] = if vy >= vx {
                    1
                } else {
                    0
                };
            },
            0x6 => {
                self.gprs[vx_register] = source >> 1;
                self.gprs[0xF] = source & 0x01;
            },
            0xE => {
                self.gprs[vx_register] = source << 1;
                self.gprs[0xF] = (source >> 7) & 0x01;
            },
            _ => {
                return ExecStatus::UnknownInstruction;
            },
        }
        ExecStatus::Executed
    }

    /// The key-conditional family `EX??`.
    fn execute_ex_instruction(&mut self, instruction: u16) -> (r: ExecStatus)
        ensures
            final(self)@ == key_result(old(self)@, instruction),
            final(self).stack_pointer == old(self).stack_pointer,
            r == (if key_known(instruction) {
                ExecStatus::Executed
            } else {
                ExecStatus::UnknownInstruction
            }),
    {
        let vx_register = field_x(instruction);
        proof {
            reveal(key_result);
        }
        let key_value = self.gprs[vx_register];
        let operation = field_nn(instruction);
        match operation {
            0x9E => {
                if let Some(pressed_key) = self.key_pressed {
                    if pressed_key == key_value {
                        self.pc = self.pc.wrapping_add(2);
                    }
                }
            },
            0xA1 => {
                if let Some(pressed_key) = self.key_pressed {
                    if pressed_key != key_value {
                        self.pc = self.pc.wrapping_add(2);
                    }
                } else {
                    self.pc = self.pc.wrapping_add(2);
                }
            },
            _ => {
                return ExecStatus::UnknownInstruction;
            },
        }
        ExecStatus::Executed
    }

    /// `FX65`: `V0..=VX` from memory at `index_reg` on.
    fn load_registers_from_memory(&mut self, vx_register: usize)
        requires
            vx_register < 16,
            old(self).index_reg + vx_register < RAM_SIZE,
        ensures
            final(self)@ == (CpuState {
                gprs: loaded_gprs(
                    old(self).memory@,
                    old(self).gprs@,
                    old(self).index_reg as int,
                    vx_register as int,
                ),
                ..old(self)@
            }),
    {
        let start_index = self.index_reg as usize;
        let ghost g0 = self.gprs@;
        let mut i: usize = 0;
        while i <= vx_register
            invariant
                vx_register < 16,
                start_index == old(self).index_reg,
                start_index + vx_register < RAM_SIZE,
                i <= vx_register + 1,
                g0 == old(self).gprs@,
                self@ == (CpuState { gprs: self.gprs@, ..old(self)@ }),
                forall|r: int|
                    0 <= r < 16 ==> self.gprs@[r] == if r < i {
                        self.memory@[start_index + r]
                    } else {
                        g0[r]
                    },
            decreases vx_register + 1 - i,
        {
            self.gprs[i] = self.memory[start_index + i];
            i = i + 1;
        }
        assert(self.gprs@ =~= loaded_gprs(
            old(self).memory@,
            g0,
            start_index as int,
            vx_register as int,
        ));
    }

    /// `FX55`: `V0..=VX` into memory at `index_reg` on.
    fn save_registers_to_memory(&mut self, vx_register: usize)
        requires
            vx_register < 16,
            old(self).index_reg + vx_register < RAM_SIZE,
        ensures
            final(self)@ == (CpuState {
                memory: saved_memory(
                    old(self).memory@,
                    old(self).gprs@,
                    old(self).index_reg as int,
                    vx_register as int,
                ),
                ..old(self)@
            }),
    {
        let start_index = self.index_reg as usize;
        let ghost m0 = self.memory@;
        let mut i: usize = 0;
        while i <= vx_register
            invariant
                vx_register < 16,
                start_index == old(self).index_reg,
                start_index + vx_register < RAM_SIZE,
                i <= vx_register + 1,
                m0 == old(self).memory@,
                self@ == (CpuState { memory: self.memory@, ..old(self)@ }),
                forall|a: int|
                    0 <= a < RAM_SIZE ==> self.memory@[a] == if start_index <= a < start_index
                        + i {
                        self.gprs@[a - start_index]
                    } else {
                        m0[a]
                    },
            decreases vx_register + 1 - i,
        {
            self.memory[start_index + i] = self.gprs[i];
            i = i + 1;
        }
        assert(self.memory@ =~= saved_memory(
            m0,
            old(self).gprs@,
            start_index as int,
            vx_register as int,
        ));
    }

    /// `FX33`: the decimal digits of `VX` at `index_reg`, `+1` and `+2`.
    fn store_bcd(&mut self, vx_register: usize)
        requires
            vx_register < 16,
            old(self).index_reg + 2 < RAM_SIZE,
        ensures
            final(self)@ == (CpuState {
                memory: bcd_memory(
                    old(self).memory@,
                    old(self).index_reg as int,
                    old(self).gprs@[vx_register as int],
                ),
                ..old(self)@
            }),
    {
        let value = self.gprs[vx_register];
        let hundreds = value / 100;
        let tens = (value / 10) % 10;
        let ones = value % 10;
        let at = self.index_reg as usize;
        self.memory[at] = hundreds;
        self.memory[at + 1] = tens;
        self.memory[at + 2] = ones;
    }

    /// `FX1E`: `index_reg = index_reg + VX`, wrapping at 16 bits.
    fn add_to_index_register(&mut self, vx_register: usize)
        requires
            vx_register < 16,
        ensures
            final(self)@ == (CpuState {
                index_reg: ((old(self).index_reg + old(self).gprs@[vx_register as int]) % 65536) as u16,
                ..old(self)@
            }),
    {
        self.index_reg = self.index_reg.wrapping_add(self.gprs[vx_register] as u16);
    }

    /// The timer, key-wait and memory-transfer family `FX??`. A transfer that
    /// would pass the end of memory is refused and changes nothing.
    pub fn execute_fx_instruction(&mut self, instruction: u16) -> (r: ExecStatus)
        ensures
            final(self)@ == misc_result(old(self)@, instruction),
            final(self).stack_pointer == old(self).stack_pointer,
            r == misc_status(old(self)@, instruction),
    {
        let vx_register = field_x(instruction);
        let operation = field_nn(instruction);
        proof {
            reveal(misc_result);
            reveal(misc_status);
        }
        let index = self.index_reg as usize;
        match operation {
            0x07 => self.gprs[vx_register] = self.delay_timer,
            0x15 => self.delay_timer = self.gprs[vx_register],
            0x18 => self.sound_timer = self.gprs[vx_register],
            0x1E => self.add_to_index_register(vx_register),
            0x33 => {
                if index + 2 >= RAM_SIZE {
                    return ExecStatus::MemoryRefused;
                }
                self.store_bcd(vx_register);
            },
            0x55 => {
                if index + vx_register >= RAM_SIZE {
                    return ExecStatus::MemoryRefused;
                }
                self.save_registers_to_memory(vx_register);
            },
            0x65 => {
                if index + vx_register >= RAM_SIZE {
                    return ExecStatus::MemoryRefused;
                }
                self.load_registers_from_memory(vx_register);
            },
            0x0A => {
                if let Some(key_value) = self.key_pressed {
                    self.gprs[vx_register] = key_value;
                } else {
                    // Not advancing: the same instruction runs again next cycle.
                    self.pc = self.pc.wrapping_sub(2);
                }
            },
            _ => {
                return ExecStatus::UnknownInstruction;
            },
        }
        ExecStatus::Executed
    }
}

} // verus!
