//! MIPS R3000 disassembly as text: the instruction formats the debugger shows, with
//! registers as `$n` and immediates and targets in hexadecimal.

use vstd::prelude::*;
use vstd::string::StringExecFns;
use crate::text::{append_dec, append_hex_digits, dec_str, hex_digits};

verus! {

/// A register operand: `$` and its number.
pub open spec fn reg(r: u32) -> Seq<char> {
    "$"@ + dec_str(r as nat)
}

/// `name $a, $b, $c`.
pub open spec fn fmt_r3(name: Seq<char>, a: u32, b: u32, c: u32) -> Seq<char> {
    name + " "@ + reg(a) + ", "@ + reg(b) + ", "@ + reg(c)
}

/// `name $a, $b, n` with `n` in decimal.
pub open spec fn fmt_shift(name: Seq<char>, a: u32, b: u32, n: u32) -> Seq<char> {
    name + " "@ + reg(a) + ", "@ + reg(b) + ", "@ + dec_str(n as nat)
}

/// `name $a, $b, 0xIIII`.
pub open spec fn fmt_imm(name: Seq<char>, a: u32, b: u32, imm: u32) -> Seq<char> {
    name + " "@ + reg(a) + ", "@ + reg(b) + ", 0x"@ + hex_digits(imm, 4)
}

/// `name $a, 0xIIII($b)`.
pub open spec fn fmt_mem(name: Seq<char>, a: u32, imm: u32, b: u32) -> Seq<char> {
    name + " "@ + reg(a) + ", 0x"@ + hex_digits(imm, 4) + "("@ + reg(b) + ")"@
}

/// `name 0xTTTTTTTT`.
pub open spec fn fmt_jump(name: Seq<char>, target: u32) -> Seq<char> {
    name + " 0x"@ + hex_digits(target, 8)
}

/// The text of an R-type instruction (opcode 0) from its fields.
pub open spec fn disasm_special(funct: u32, rs: u32, rt: u32, rd: u32, shamt: u32) -> Seq<char> {
    if funct == 0x00 {
        fmt_shift("sll"@, rd, rt, shamt)
    } else if funct == 0x02 {
        fmt_shift("srl"@, rd, rt, shamt)
    } else if funct == 0x03 {
        fmt_shift("sra"@, rd, rt, shamt)
    } else if funct == 0x08 {
        "jr "@ + reg(rs)
    } else if funct == 0x09 {
        "jalr "@ + reg(rd) + ", "@ + reg(rs)
    } else if funct == 0x20 {
        fmt_r3("add"@, rd, rs, rt)
    } else if funct == 0x21 {
        fmt_r3("addu"@, rd, rs, rt)
    } else if funct == 0x22 {
        fmt_r3("sub"@, rd, rs, rt)
    } else if funct == 0x23 {
        fmt_r3("subu"@, rd, rs, rt)
    } else if funct == 0x24 {
        fmt_r3("and"@, rd, rs, rt)
    } else if funct == 0x25 {
        fmt_r3("or"@, rd, rs, rt)
    } else if funct == 0x26 {
        fmt_r3("xor"@, rd, rs, rt)
    } else if funct == 0x27 {
        fmt_r3("nor"@, rd, rs, rt)
    } else if funct == 0x2a {
        fmt_r3("slt"@, rd, rs, rt)
    } else if funct == 0x2b {
        fmt_r3("sltu"@, rd, rs, rt)
    } else {
        "unknown R-type 0x"@ + hex_digits(funct, 2)
    }
}

/// The text of a non-R-type instruction from its fields.
pub open spec fn disasm_other(opcode: u32, rs: u32, rt: u32, imm: u32, target: u32) -> Seq<char> {
    if opcode == 0x02 {
        fmt_jump("j"@, target << 2u32)
    } else if opcode == 0x03 {
        fmt_jump("jal"@, target << 2u32)
    } else if opcode == 0x04 {
        fmt_imm("beq"@, rs, rt, imm)
    } else if opcode == 0x05 {
        fmt_imm("bne"@, rs, rt, imm)
    } else if opcode == 0x08 {
        fmt_imm("addi"@, rt, rs, imm)
    } else if opcode == 0x09 {
        fmt_imm("addiu"@, rt, rs, imm)
    } else if opcode == 0x0a {
        fmt_imm("slti"@, rt, rs, imm)
    } else if opcode == 0x0b {
        fmt_imm("sltiu"@, rt, rs, imm)
    } else if opcode == 0x0c {
        fmt_imm("andi"@, rt, rs, imm)
    } else if opcode == 0x0d {
        fmt_imm("ori"@, rt, rs, imm)
    } else if opcode == 0x0e {
        fmt_imm("xori"@, rt, rs, imm)
    } else if opcode == 0x0f {
        "lui "@ + reg(rt) + ", 0x"@ + hex_digits(imm, 4)
    } else if opcode == 0x20 {
        fmt_mem("lb"@, rt, imm, rs)
    } else if opcode == 0x21 {
        fmt_mem("lh"@, rt, imm, rs)
    } else if opcode == 0x23 {
        fmt_mem("lw"@, rt, imm, rs)
    } else if opcode == 0x24 {
        fmt_mem("lbu"@, rt, imm, rs)
    } else if opcode == 0x25 {
        fmt_mem("lhu"@, rt, imm, rs)
    } else if opcode == 0x28 {
        fmt_mem("sb"@, rt, imm, rs)
    } else if opcode == 0x29 {
        fmt_mem("sh"@, rt, imm, rs)
    } else if opcode == 0x2b {
        fmt_mem("sw"@, rt, imm, rs)
    } else {
        "unknown opcode 0x"@ + hex_digits(opcode, 2)
    }
}

/// The mnemonic of an instruction word, from its primary opcode (bits 31:26) and, for
/// opcode 0, its function field (bits 5:0); `None` for words the disassembler does not
/// know.
pub open spec fn mnemonic(i: u32) -> Option<Seq<char>> {
    let op = (i >> 26u32) & 0x3f;
    let f = i & 0x3f;
    if op == 0 {
        if f == 0x00 {
            Some("sll"@)
        } else if f == 0x02 {
            Some("srl"@)
        } else if f == 0x03 {
            Some("sra"@)
        } else if f == 0x08 {
            Some("jr"@)
        } else if f == 0x09 {
            Some("jalr"@)
        } else if f == 0x20 {
            Some("add"@)
        } else if f == 0x21 {
            Some("addu"@)
        } else if f == 0x22 {
            Some("sub"@)
        } else if f == 0x23 {
            Some("subu"@)
        } else if f == 0x24 {
            Some("and"@)
        } else if f == 0x25 {
            Some("or"@)
        } else if f == 0x26 {
            Some("xor"@)
        } else if f == 0x27 {
            Some("nor"@)
        } else if f == 0x2a {
            Some("slt"@)
        } else if f == 0x2b {
            Some("sltu"@)
        } else {
            None
        }
    } else {
        if op == 0x02 {
            Some("j"@)
        } else if op == 0x03 {
            Some("jal"@)
        } else if op == 0x04 {
            Some("beq"@)
        } else if op == 0x05 {
            Some("bne"@)
        } else if op == 0x08 {
            Some("addi"@)
        } else if op == 0x09 {
            Some("addiu"@)
        } else if op == 0x0a {
            Some("slti"@)
        } else if op == 0x0b {
            Some("sltiu"@)
        } else if op == 0x0c {
            Some("andi"@)
        } else if op == 0x0d {
            Some("ori"@)
        } else if op == 0x0e {
            Some("xori"@)
        } else if op == 0x0f {
            Some("lui"@)
        } else if op == 0x20 {
            Some("lb"@)
        } else if op == 0x21 {
            Some("lh"@)
        } else if op == 0x23 {
            Some("lw"@)
        } else if op == 0x24 {
            Some("lbu"@)
        } else if op == 0x25 {
            Some("lhu"@)
        } else if op == 0x28 {
            Some("sb"@)
        } else if op == 0x29 {
            Some("sh"@)
        } else if op == 0x2b {
            Some("sw"@)
        } else {
            None
        }
    }
}

/// The disassembly of a known word starts with its mnemonic and a space: each opcode
/// (and each function of opcode 0) is shown under its own name.
pub proof fn lemma_disasm_mnemonic(i: u32)
    ensures
        mnemonic(i) matches Some(m) ==> disasm_text(i).take(m.len() + 1int) == m + " "@,
{
    reveal_strlit("sll");
    reveal_strlit("sll ");
    reveal_strlit("srl");
    reveal_strlit("srl ");
    reveal_strlit("sra");
    reveal_strlit("sra ");
    reveal_strlit("jr");
    reveal_strlit("jr ");
    reveal_strlit("jalr");
    reveal_strlit("jalr ");
    reveal_strlit("add");
    reveal_strlit("add ");
    reveal_strlit("addu");
    reveal_strlit("addu ");
    reveal_strlit("sub");
    reveal_strlit("sub ");
    reveal_strlit("subu");
    reveal_strlit("subu ");
    reveal_strlit("and");
    reveal_strlit("and ");
    reveal_strlit("or");
    reveal_strlit("or ");
    reveal_strlit("xor");
    reveal_strlit("xor ");
    reveal_strlit("nor");
    reveal_strlit("nor ");
    reveal_strlit("slt");
    reveal_strlit("slt ");
    reveal_strlit("sltu");
    reveal_strlit("sltu ");
    reveal_strlit("j");
    reveal_strlit("j ");
    reveal_strlit("jal");
    reveal_strlit("jal ");
    reveal_strlit("beq");
    reveal_strlit("beq ");
    reveal_strlit("bne");
    reveal_strlit("bne ");
    reveal_strlit("addi");
    reveal_strlit("addi ");
    reveal_strlit("addiu");
    reveal_strlit("addiu ");
    reveal_strlit("slti");
    reveal_strlit("slti ");
    reveal_strlit("sltiu");
    reveal_strlit("sltiu ");
    reveal_strlit("andi");
    reveal_strlit("andi ");
    reveal_strlit("ori");
    reveal_strlit("ori ");
    reveal_strlit("xori");
    reveal_strlit("xori ");
    reveal_strlit("lui");
    reveal_strlit("lui ");
    reveal_strlit("lb");
    reveal_strlit("lb ");
    reveal_strlit("lh");
    reveal_strlit("lh ");
    reveal_strlit("lw");
    reveal_strlit("lw ");
    reveal_strlit("lbu");
    reveal_strlit("lbu ");
    reveal_strlit("lhu");
    reveal_strlit("lhu ");
    reveal_strlit("sb");
    reveal_strlit("sb ");
    reveal_strlit("sh");
    reveal_strlit("sh ");
    reveal_strlit("sw");
    reveal_strlit("sw ");
    reveal_strlit(" ");
    reveal_strlit(" 0x");
    if let Some(m) = mnemonic(i) {
        assert(disasm_text(i).take(m.len() + 1int) =~= m + " "@);
    }
}

/// A branch word shows its condition, its two registers (bits 25:21, then 20:16) and
/// its 16-bit offset: `beq` for opcode 4 and `bne` for opcode 5.
pub proof fn lemma_disasm_branches(i: u32)
    requires
        (i >> 26u32) & 0x3f == 4 || (i >> 26u32) & 0x3f == 5,
    ensures
        disasm_text(i) == (if (i >> 26u32) & 0x3f == 4 { "beq $"@ } else { "bne $"@ })
            + dec_str(((i >> 21u32) & 0x1f) as nat) + ", $"@ + dec_str(((i >> 16u32) & 0x1f) as nat)
            + ", 0x"@ + hex_digits(i & 0xffff, 4),
{
    reveal_strlit("beq");
    reveal_strlit("bne");
    reveal_strlit("beq $");
    reveal_strlit("bne $");
    reveal_strlit(" ");
    reveal_strlit("$");
    reveal_strlit(", ");
    reveal_strlit(", $");
    reveal_strlit(", 0x");
    let rs = dec_str(((i >> 21u32) & 0x1f) as nat);
    let rt = dec_str(((i >> 16u32) & 0x1f) as nat);
    let h = hex_digits(i & 0xffff, 4);
    let name = if (i >> 26u32) & 0x3f == 4 { "beq"@ } else { "bne"@ };
    assert(disasm_text(i) == name + " "@ + ("$"@ + rs) + ", "@ + ("$"@ + rt) + ", 0x"@ + h);
    assert(name + " "@ + ("$"@ + rs) + ", "@ + ("$"@ + rt) + ", 0x"@ + h
        =~= (if (i >> 26u32) & 0x3f == 4 { "beq $"@ } else { "bne $"@ }) + rs + ", $"@ + rt + ", 0x"@ + h);
}

/// A three-register ALU word (opcode 0, functions 0x20 to 0x2b) shows its mnemonic, then
/// its destination (bits 15:11) and its two sources (bits 25:21, then 20:16); an
/// immediate ALU word (opcodes 0x08 to 0x0e) shows its mnemonic, its destination (bits
/// 20:16), its source (bits 25:21) and its 16-bit immediate.
pub proof fn lemma_disasm_alu_operands(i: u32)
    ensures
        ({
            let op = (i >> 26u32) & 0x3f;
            let f = i & 0x3f;
            let rs = dec_str(((i >> 21u32) & 0x1f) as nat);
            let rt = dec_str(((i >> 16u32) & 0x1f) as nat);
            let rd = dec_str(((i >> 11u32) & 0x1f) as nat);
            &&& op == 0 && 0x20 <= f <= 0x2b && mnemonic(i) is Some ==> disasm_text(i)
                == mnemonic(i).unwrap() + " $"@ + rd + ", $"@ + rs + ", $"@ + rt
            &&& 0x08 <= op <= 0x0e ==> disasm_text(i)
                == mnemonic(i).unwrap() + " $"@ + rt + ", $"@ + rs + ", 0x"@ + hex_digits(i & 0xffff, 4)
        }),
{
    reveal_strlit(" ");
    reveal_strlit("$");
    reveal_strlit(", ");
    reveal_strlit(" $");
    reveal_strlit(", $");
    reveal_strlit(", 0x");
    let op = (i >> 26u32) & 0x3f;
    let f = i & 0x3f;
    let rs = dec_str(((i >> 21u32) & 0x1f) as nat);
    let rt = dec_str(((i >> 16u32) & 0x1f) as nat);
    let rd = dec_str(((i >> 11u32) & 0x1f) as nat);
    if op == 0 && 0x20 <= f <= 0x2b && mnemonic(i) is Some {
        let m = mnemonic(i).unwrap();
        assert(disasm_text(i) == m + " "@ + ("$"@ + rd) + ", "@ + ("$"@ + rs) + ", "@ + ("$"@ + rt));
        assert(m + " "@ + ("$"@ + rd) + ", "@ + ("$"@ + rs) + ", "@ + ("$"@ + rt) =~= m + " $"@ + rd + ", $"@ + rs + ", $"@ + rt);
    }
    if 0x08 <= op <= 0x0e {
        let m = mnemonic(i).unwrap();
        let h = hex_digits(i & 0xffff, 4);
        assert(disasm_text(i) == m + " "@ + ("$"@ + rt) + ", "@ + ("$"@ + rs) + ", 0x"@ + h);
        assert(m + " "@ + ("$"@ + rt) + ", "@ + ("$"@ + rs) + ", 0x"@ + h =~= m + " $"@ + rt + ", $"@ + rs + ", 0x"@ + h);
    }
}

/// The disassembly of an instruction word.
pub open spec fn disasm_text(i: u32) -> Seq<char> {
    let opcode = (i >> 26u32) & 0x3f;
    if opcode == 0 {
        disasm_special(i & 0x3f, (i >> 21u32) & 0x1f, (i >> 16u32) & 0x1f, (i >> 11u32) & 0x1f, (i >> 6u32) & 0x1f)
    } else {
        disasm_other(opcode, (i >> 21u32) & 0x1f, (i >> 16u32) & 0x1f, i & 0xffff, i & 0x3ffffff)
    }
}

fn append_reg(s: &mut String, r: u32)
    ensures
        final(s)@ == old(s)@ + reg(r),
{
    proof { reveal_strlit("$"); }
    s.append("$");
    append_dec(s, r as u64);
    assert(s@ =~= old(s)@ + reg(r));
}

fn r3(name: &str, a: u32, b: u32, c: u32) -> (r: String)
    ensures
        r@ == fmt_r3(name@, a, b, c),
{
    let mut s = String::from_str(name);
    s.append(" ");
    append_reg(&mut s, a);
    s.append(", ");
    append_reg(&mut s, b);
    s.append(", ");
    append_reg(&mut s, c);
    assert(s@ =~= fmt_r3(name@, a, b, c));
    s
}

fn shift_op(name: &str, a: u32, b: u32, n: u32) -> (r: String)
    ensures
        r@ == fmt_shift(name@, a, b, n),
{
    let mut s = String::from_str(name);
    s.append(" ");
    append_reg(&mut s, a);
    s.append(", ");
    append_reg(&mut s, b);
    s.append(", ");
    append_dec(&mut s, n as u64);
    assert(s@ =~= fmt_shift(name@, a, b, n));
    s
}

fn imm_op(name: &str, a: u32, b: u32, imm: u32) -> (r: String)
    ensures
        r@ == fmt_imm(name@, a, b, imm),
{
    let mut s = String::from_str(name);
    s.append(" ");
    append_reg(&mut s, a);
    s.append(", ");
    append_reg(&mut s, b);
    s.append(", 0x");
    append_hex_digits(&mut s, imm, 4);
    assert(s@ =~= fmt_imm(name@, a, b, imm));
    s
}

fn mem_op(name: &str, a: u32, imm: u32, b: u32) -> (r: String)
    ensures
        r@ == fmt_mem(name@, a, imm, b),
{
    let mut s = String::from_str(name);
    s.append(" ");
    append_reg(&mut s, a);
    s.append(", 0x");
    append_hex_digits(&mut s, imm, 4);
    s.append("(");
    append_reg(&mut s, b);
    s.append(")");
    assert(s@ =~= fmt_mem(name@, a, imm, b));
    s
}

fn jump_op(name: &str, target: u32) -> (r: String)
    ensures
        r@ == fmt_jump(name@, target),
{
    let mut s = String::from_str(name);
    s.append(" 0x");
    append_hex_digits(&mut s, target, 8);
    assert(s@ =~= fmt_jump(name@, target));
    s
}

fn unknown(prefix: &str, v: u32) -> (r: String)
    ensures
        r@ == prefix@ + hex_digits(v, 2),
{
    let mut s = String::from_str(prefix);
    append_hex_digits(&mut s, v, 2);
    s
}

fn special(funct: u32, rs: u32, rt: u32, rd: u32, shamt: u32) -> (r: String)
    ensures
        r@ == disasm_special(funct, rs, rt, rd, shamt),
{
    if funct == 0x00 {
        shift_op("sll", rd, rt, shamt)
    } else if funct == 0x02 {
        shift_op("srl", rd, rt, shamt)
    } else if funct == 0x03 {
        shift_op("sra", rd, rt, shamt)
    } else if funct == 0x08 {
        let mut s = String::from_str("jr ");
        append_reg(&mut s, rs);
        s
    } else if funct == 0x09 {
        let mut s = String::from_str("jalr ");
        append_reg(&mut s, rd);
        s.append(", ");
        append_reg(&mut s, rs);
        s
    } else if funct == 0x20 {
        r3("add", rd, rs, rt)
    } else if funct == 0x21 {
        r3("addu", rd, rs, rt)
    } else if funct == 0x22 {
        r3("sub", rd, rs, rt)
    } else if funct == 0x23 {
        r3("subu", rd, rs, rt)
    } else if funct == 0x24 {
        r3("and", rd, rs, rt)
    } else if funct == 0x25 {
        r3("or", rd, rs, rt)
    } else if funct == 0x26 {
        r3("xor", rd, rs, rt)
    } else if funct == 0x27 {
        r3("nor", rd, rs, rt)
    } else if funct == 0x2a {
        r3("slt", rd, rs, rt)
    } else if funct == 0x2b {
        r3("sltu", rd, rs, rt)
    } else {
        unknown("unknown R-type 0x", funct)
    }
}

fn other(opcode: u32, rs: u32, rt: u32, imm: u32, target: u32) -> (r: String)
    requires
        target <= 0x3ffffff,
    ensures
        r@ == disasm_other(opcode, rs, rt, imm, target),
{
    if opcode == 0x02 {
        jump_op("j", target << 2)
    } else if opcode == 0x03 {
        jump_op("jal", target << 2)
    } else if opcode == 0x04 {
        imm_op("beq", rs, rt, imm)
    } else if opcode == 0x05 {
        imm_op("bne", rs, rt, imm)
    } else if opcode == 0x08 {
        imm_op("addi", rt, rs, imm)
    } else if opcode == 0x09 {
        imm_op("addiu", rt, rs, imm)
    } else if opcode == 0x0a {
        imm_op("slti", rt, rs, imm)
    } else if opcode == 0x0b {
        imm_op("sltiu", rt, rs, imm)
    } else if opcode == 0x0c {
        imm_op("andi", rt, rs, imm)
    } else if opcode == 0x0d {
        imm_op("ori", rt, rs, imm)
    } else if opcode == 0x0e {
        imm_op("xori", rt, rs, imm)
    } else if opcode == 0x0f {
        let mut s = String::from_str("lui ");
        append_reg(&mut s, rt);
        s.append(", 0x");
        append_hex_digits(&mut s, imm, 4);
        s
    } else if opcode == 0x20 {
        mem_op("lb", rt, imm, rs)
    } else if opcode == 0x21 {
        mem_op("lh", rt, imm, rs)
    } else if opcode == 0x23 {
        mem_op("lw", rt, imm, rs)
    } else if opcode == 0x24 {
        mem_op("lbu", rt, imm, rs)
    } else if opcode == 0x25 {
        mem_op("lhu", rt, imm, rs)
    } else if opcode == 0x28 {
        mem_op("sb", rt, imm, rs)
    } else if opcode == 0x29 {
        mem_op("sh", rt, imm, rs)
    } else if opcode == 0x2b {
        mem_op("sw", rt, imm, rs)
    } else {
        unknown("unknown opcode 0x", opcode)
    }
}

/// Disassemble an instruction word.
pub fn disassemble_word(instruction: u32) -> (r: String)
    ensures
        r@ == disasm_text(instruction),
{
    let opcode = (instruction >> 26) & 0x3f;
    let rs = (instruction >> 21) & 0x1f;
    let rt = (instruction >> 16) & 0x1f;
    let rd = (instruction >> 11) & 0x1f;
    let shamt = (instruction >> 6) & 0x1f;
    let funct = instruction & 0x3f;
    let imm = instruction & 0xffff;
    let target = instruction & 0x3ffffff;
    proof { crate::bits::lemma_and_le(instruction, 0x3ffffff); }
    if opcode == 0 {
        special(funct, rs, rt, rd, shamt)
    } else {
        other(opcode, rs, rt, imm, target)
    }
}

} // verus!
