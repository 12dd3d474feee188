use rustation_ng::psx::cpu_instructions::{
    Add, Addi, Addu, Beq, Bne, CpuState, DecodedInstruction, HandlerKind, Instruction,
    InstructionException, InstructionFactory, Jal, Lb, Lw, MemorySize, Sw,
};

struct MockCpu {
    regs: [u32; 32],
    pc: u32,
    next_pc: u32,
    hi: u32,
    lo: u32,
    delay_slot: bool,
    memory: Vec<u8>,
}

impl MockCpu {
    fn new() -> Self {
        Self {
            regs: [0; 32],
            pc: 0,
            next_pc: 4,
            hi: 0,
            lo: 0,
            delay_slot: false,
            memory: vec![0; 0x200000],
        }
    }
}

impl CpuState for MockCpu {
    fn reg(&self, i: u32) -> u32 {
        self.get_reg(i)
    }

    fn pc(&self) -> u32 {
        self.pc
    }

    fn next_pc(&self) -> u32 {
        self.next_pc
    }

    fn delay(&self) -> bool {
        self.delay_slot
    }

    fn hi(&self) -> u32 {
        self.hi
    }

    fn lo(&self) -> u32 {
        self.lo
    }

    fn read_result(&self, addr: u32, size: MemorySize) -> Result<u32, InstructionException> {
        self.read_memory(addr, size)
    }

    fn write_result(&self, addr: u32, _value: u32, _size: MemorySize) -> Result<(), InstructionException> {
        if (addr as usize) < self.memory.len() {
            Ok(())
        } else {
            Err(InstructionException::BusError(addr))
        }
    }

    fn get_reg(&self, index: u32) -> u32 {
        if index < 32 {
            self.regs[index as usize]
        } else {
            0
        }
    }

    fn set_reg(&mut self, index: u32, value: u32) {
        if index < 32 && index != 0 {
            self.regs[index as usize] = value;
        }
    }

    fn get_pc(&self) -> u32 {
        self.pc
    }

    fn set_pc(&mut self, value: u32) {
        self.pc = value;
    }

    fn get_next_pc(&self) -> u32 {
        self.next_pc
    }

    fn set_next_pc(&mut self, value: u32) {
        self.next_pc = value;
    }

    fn read_memory(&self, addr: u32, size: MemorySize) -> Result<u32, InstructionException> {
        let addr = addr as usize;
        if addr >= self.memory.len() {
            return Err(InstructionException::BusError(addr as u32));
        }
        Ok(match size {
            MemorySize::Byte => self.memory[addr] as u32,
            MemorySize::HalfWord => u16::from_le_bytes([self.memory[addr], self.memory[addr + 1]]) as u32,
            MemorySize::Word => u32::from_le_bytes([
                self.memory[addr],
                self.memory[addr + 1],
                self.memory[addr + 2],
                self.memory[addr + 3],
            ]),
        })
    }

    fn write_memory(&mut self, addr: u32, value: u32, size: MemorySize) -> Result<(), InstructionException> {
        let addr = addr as usize;
        if addr >= self.memory.len() {
            return Err(InstructionException::BusError(addr as u32));
        }
        match size {
            MemorySize::Byte => self.memory[addr] = value as u8,
            MemorySize::HalfWord => {
                let bytes = (value as u16).to_le_bytes();
                self.memory[addr..addr + 2].copy_from_slice(&bytes);
            }
            MemorySize::Word => {
                let bytes = value.to_le_bytes();
                self.memory[addr..addr + 4].copy_from_slice(&bytes);
            }
        }
        Ok(())
    }

    fn get_hi(&self) -> u32 {
        self.hi
    }

    fn set_hi(&mut self, value: u32) {
        self.hi = value;
    }

    fn get_lo(&self) -> u32 {
        self.lo
    }

    fn set_lo(&mut self, value: u32) {
        self.lo = value;
    }

    fn in_delay_slot(&self) -> bool {
        self.delay_slot
    }

    fn set_delay_slot(&mut self, value: bool) {
        self.delay_slot = value;
    }
}

fn fields(opcode: u32, rs: u32, rt: u32, rd: u32, funct: u32, immediate: u16) -> DecodedInstruction {
    DecodedInstruction { opcode, rs, rt, rd, shamt: 0, funct, immediate, target: 0, raw: 0 }
}

#[test]
fn test_addu_instruction() {
    let mut cpu = MockCpu::new();
    cpu.set_reg(1, 10);
    cpu.set_reg(2, 20);

    let decoded = DecodedInstruction {
        opcode: 0,
        rs: 1,
        rt: 2,
        rd: 3,
        shamt: 0,
        funct: 0x21,
        immediate: 0,
        target: 0,
        raw: 0,
    };

    let instr = Addu::new(&decoded);
    instr.execute(&mut cpu).unwrap();

    assert_eq!(cpu.get_reg(3), 30);
}

#[test]
fn test_beq_taken() {
    let mut cpu = MockCpu::new();
    cpu.set_pc(0x1000);
    cpu.set_reg(1, 100);
    cpu.set_reg(2, 100);

    let decoded = DecodedInstruction {
        opcode: 0x04,
        rs: 1,
        rt: 2,
        rd: 0,
        shamt: 0,
        funct: 0,
        immediate: 0x0010,
        target: 0,
        raw: 0,
    };

    let instr = Beq::new(&decoded);
    instr.execute(&mut cpu).unwrap();

    assert_eq!(cpu.get_next_pc(), 0x1040);
    assert!(cpu.in_delay_slot());
}

#[test]
fn test_lw_instruction() {
    let mut cpu = MockCpu::new();
    cpu.set_reg(1, 0x100);
    cpu.write_memory(0x104, 0x12345678, MemorySize::Word).unwrap();

    let decoded = DecodedInstruction {
        opcode: 0x23,
        rs: 1,
        rt: 2,
        rd: 0,
        shamt: 0,
        funct: 0,
        immediate: 0x0004,
        target: 0,
        raw: 0,
    };

    let instr = Lw::new(&decoded);
    instr.execute(&mut cpu).unwrap();

    assert_eq!(cpu.get_reg(2), 0x12345678);
}

#[test]
fn decode_splits_an_instruction_word() {
    // addu $3, $1, $2
    let d = DecodedInstruction::decode(0x00221821);
    assert_eq!((d.opcode, d.rs, d.rt, d.rd, d.shamt, d.funct), (0, 1, 2, 3, 0, 0x21));
    // lw $2, -4($1)
    let d = DecodedInstruction::decode(0x8c22fffc);
    assert_eq!((d.opcode, d.rs, d.rt), (0x23, 1, 2));
    assert_eq!(d.immediate, 0xfffc);
    assert_eq!(d.sign_extend_immediate(), 0xfffffffc);
    assert_eq!(d.raw, 0x8c22fffc);
}

#[test]
fn add_traps_on_signed_overflow_and_leaves_rd() {
    let mut cpu = MockCpu::new();
    cpu.set_reg(1, 0x7fffffff);
    cpu.set_reg(2, 1);
    cpu.set_reg(3, 77);
    let r = Add::new(&fields(0, 1, 2, 3, 0x20, 0)).execute(&mut cpu);
    assert_eq!(r, Err(InstructionException::IntegerOverflow));
    assert_eq!(cpu.get_reg(3), 77);
    // ADDU wraps instead.
    Addu::new(&fields(0, 1, 2, 3, 0x21, 0)).execute(&mut cpu).unwrap();
    assert_eq!(cpu.get_reg(3), 0x80000000);
}

#[test]
fn addi_sign_extends_its_immediate() {
    let mut cpu = MockCpu::new();
    cpu.set_reg(1, 10);
    Addi::new(&fields(0x08, 1, 2, 0, 0, 0xfffe)).execute(&mut cpu).unwrap();
    assert_eq!(cpu.get_reg(2), 8);
}

#[test]
fn register_zero_stays_zero() {
    let mut cpu = MockCpu::new();
    cpu.set_reg(1, 5);
    Addu::new(&fields(0, 1, 1, 0, 0x21, 0)).execute(&mut cpu).unwrap();
    assert_eq!(cpu.get_reg(0), 0);
}

#[test]
fn bne_not_taken_leaves_next_pc() {
    let mut cpu = MockCpu::new();
    cpu.set_pc(0x1000);
    cpu.set_next_pc(0x1004);
    cpu.set_reg(1, 3);
    cpu.set_reg(2, 3);
    Bne::new(&fields(0x05, 1, 2, 0, 0, 0x10)).execute(&mut cpu).unwrap();
    assert_eq!(cpu.get_next_pc(), 0x1004);
}

#[test]
fn jal_links_the_return_address() {
    let mut cpu = MockCpu::new();
    cpu.set_pc(0x80001000);
    let mut d = fields(0x03, 0, 0, 0, 0, 0);
    d.target = 0x100;
    Jal::new(&d).execute(&mut cpu).unwrap();
    assert_eq!(cpu.get_reg(31), 0x80001008);
    assert_eq!(cpu.get_next_pc(), 0x80000400);
}

#[test]
fn misaligned_word_accesses_raise_address_errors() {
    let mut cpu = MockCpu::new();
    cpu.set_reg(1, 0x101);
    let r = Lw::new(&fields(0x23, 1, 2, 0, 0, 0)).execute(&mut cpu);
    assert_eq!(r, Err(InstructionException::AddressError(0x101)));
    let r = Sw::new(&fields(0x2b, 1, 2, 0, 0, 0)).execute(&mut cpu);
    assert_eq!(r, Err(InstructionException::AddressError(0x101)));
}

#[test]
fn store_then_load_word_round_trips() {
    let mut cpu = MockCpu::new();
    cpu.set_reg(1, 0x200);
    cpu.set_reg(2, 0xcafebabe);
    Sw::new(&fields(0x2b, 1, 2, 0, 0, 8)).execute(&mut cpu).unwrap();
    Lw::new(&fields(0x23, 1, 3, 0, 0, 8)).execute(&mut cpu).unwrap();
    assert_eq!(cpu.get_reg(3), 0xcafebabe);
}

#[test]
fn lb_sign_extends_the_byte() {
    let mut cpu = MockCpu::new();
    cpu.write_memory(0x10, 0x80, MemorySize::Byte).unwrap();
    Lb::new(&fields(0x20, 0, 4, 0, 0, 0x10)).execute(&mut cpu).unwrap();
    assert_eq!(cpu.get_reg(4), 0xffffff80);
}

#[test]
fn bus_errors_from_the_cpu_are_passed_on() {
    let mut cpu = MockCpu::new();
    cpu.set_reg(1, 0x00400000);
    let r = Lw::new(&fields(0x23, 1, 2, 0, 0, 0)).execute(&mut cpu);
    assert_eq!(r, Err(InstructionException::BusError(0x00400000)));
}

#[test]
fn factory_picks_handlers_by_opcode_and_function() {
    assert_eq!(InstructionFactory::kind(&DecodedInstruction::decode(0x00221821)), HandlerKind::Addu);
    assert_eq!(InstructionFactory::kind(&DecodedInstruction::decode(0x8c22fffc)), HandlerKind::Lw);
    assert_eq!(InstructionFactory::kind(&DecodedInstruction::decode(0xfc000000)), HandlerKind::Unknown);
    let h = InstructionFactory::create(&DecodedInstruction::decode(0x00221821));
    assert_eq!(h.mnemonic(), "ADDU");
    let mut cpu = MockCpu::new();
    let r = InstructionFactory::create(&DecodedInstruction::decode(0xfc000000)).0.execute(&mut cpu);
    assert_eq!(r, Err(InstructionException::ReservedInstruction));
}

#[test]
fn factory_handlers_execute_their_instruction() {
    let mut cpu = MockCpu::new();
    cpu.regs[1] = 5;
    cpu.regs[2] = 7;
    // add $3, $1, $2
    let h = InstructionFactory::create(&DecodedInstruction::decode(0x00221820));
    assert_eq!(h.mnemonic(), "ADD");
    assert_eq!(h.0.execute(&mut cpu), Ok(()));
    assert_eq!(cpu.regs[3], 12);
    // addi $4, $1, -1
    let h = InstructionFactory::create(&DecodedInstruction::decode(0x2024ffff));
    assert_eq!(h.0.execute(&mut cpu), Ok(()));
    assert_eq!(cpu.regs[4], 4);
}
