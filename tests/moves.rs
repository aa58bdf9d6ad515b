use i8080_core::i8080::{ExecError, I8080};
use i8080_core::pointer::Pointer;

#[test]
fn test_mov1() {
    let mut cpu = I8080::new();
    cpu.flags.0 = 0b00010000;
    cpu.b.0 = 0x33;
    cpu.c.0 = 0xff;
    // MOV A, B
    assert_eq!(cpu.mov(0x78), Ok(()));
    assert_eq!(cpu.a.0 == cpu.b.0, true);
    assert_eq!(cpu.cycles == 5, true);
}

#[test]
fn test_mov2() {
    let mut cpu = I8080::new();
    cpu.flags.0 = 0b00010000;
    cpu.b.0 = 0x33;
    cpu.c.0 = 0xff;
    // MOV C, B
    assert_eq!(cpu.mov(0x48), Ok(()));
    assert_eq!(cpu.c.0 == cpu.b.0, true);
    assert_eq!(cpu.cycles == 5, true);
}

#[test]
fn test_mov3() {
    let mut cpu = I8080::new();
    cpu.flags.0 = 0b00010000;
    cpu.a.0 = 0x33;
    cpu.d.0 = 0xff;
    // MOV D, A
    assert_eq!(cpu.mov(0x57), Ok(()));
    assert_eq!(cpu.d.0 == cpu.a.0, true);
    assert_eq!(cpu.cycles == 5, true);
}

#[test]
fn test_mov4() {
    let mut cpu = I8080::new();
    cpu.pc.0 = 0xff;
    cpu.h.0 = 0x00;
    cpu.l.0 = 0xff;
    cpu.a.0 = 0x33;
    // MOV M, A
    assert_eq!(cpu.mov(0x77), Ok(()));
    assert_eq!(cpu.mem[0xff] == cpu.a.0, true);
    assert_eq!(cpu.cycles == 7, true);
}

#[test]
fn test_mov5() {
    let mut cpu = I8080::new();
    cpu.h.0 = 0x02;
    cpu.l.0 = 0x34;
    let pointer: Pointer = Pointer(0x0234);
    pointer.store(&mut cpu.mem, 0xff);
    // MOV B, M
    assert_eq!(cpu.mov(0x46), Ok(()));
    assert_eq!(cpu.b.0 == 0xff, true);
    assert_eq!(cpu.cycles == 7, true);
}

#[test]
fn test_mov6() {
    let mut cpu = I8080::new();
    cpu.h.0 = 0xab;
    cpu.l.0 = 0xcd;
    cpu.pc.0 = 0xabcd;
    let pointer: Pointer = Pointer(0xabcd);
    // MOV M, L
    assert_eq!(cpu.mov(0x75), Ok(()));
    let val: u8 = pointer.load(&cpu.mem);
    assert_eq!(val == 0xcd, true);
    assert_eq!(cpu.cycles == 7, true);
}

fn loaded() -> I8080 {
    let mut cpu = I8080::new();
    cpu.a.0 = 0x0a;
    cpu.b.0 = 0x0b;
    cpu.c.0 = 0x0c;
    cpu.d.0 = 0x0d;
    cpu.e.0 = 0x0e;
    cpu.h.0 = 0x12;
    cpu.l.0 = 0x34;
    cpu.mem[0x1234] = 0x99;
    cpu
}

#[test]
fn mov_reads_every_source_of_the_a_block() {
    let sources: [(u8, u8); 8] = [
        (0x78, 0x0b),
        (0x79, 0x0c),
        (0x7a, 0x0d),
        (0x7b, 0x0e),
        (0x7c, 0x12),
        (0x7d, 0x34),
        (0x7e, 0x99),
        (0x7f, 0x0a),
    ];
    for (opcode, expected) in sources {
        let mut cpu = loaded();
        assert_eq!(cpu.mov(opcode), Ok(()));
        assert_eq!(cpu.a.0, expected);
        let cost: u64 = if opcode == 0x7e { 7 } else { 5 };
        assert_eq!(cpu.cycles, cost);
    }
}

#[test]
fn mov_last_opcode_of_each_block_moves_a() {
    let mut cpu = loaded();
    assert_eq!(cpu.mov(0x47), Ok(()));
    assert_eq!(cpu.b.0, 0x0a);
    assert_eq!(cpu.mov(0x4f), Ok(()));
    assert_eq!(cpu.c.0, 0x0a);
    assert_eq!(cpu.mov(0x57), Ok(()));
    assert_eq!(cpu.d.0, 0x0a);
    assert_eq!(cpu.mov(0x5f), Ok(()));
    assert_eq!(cpu.e.0, 0x0a);
    assert_eq!(cpu.mov(0x6f), Ok(()));
    assert_eq!(cpu.l.0, 0x0a);
    assert_eq!(cpu.mov(0x67), Ok(()));
    assert_eq!(cpu.h.0, 0x0a);
    assert_eq!(cpu.cycles, 30);
    assert_eq!(cpu.a.0, 0x0a);
}

#[test]
fn mov_register_to_register_leaves_source() {
    let mut cpu = loaded();
    // MOV E, H
    assert_eq!(cpu.mov(0x5c), Ok(()));
    assert_eq!(cpu.e.0, 0x12);
    assert_eq!(cpu.h.0, 0x12);
    assert_eq!(cpu.mem[0x1234], 0x99);
    assert_eq!(cpu.cycles, 5);
}

#[test]
fn mov_memory_to_memory_block_skips_halt() {
    let mut cpu = loaded();
    // MOV M, B .. MOV M, L, then MOV M, A
    let stores: [(u8, u8); 7] = [
        (0x70, 0x0b),
        (0x71, 0x0c),
        (0x72, 0x0d),
        (0x73, 0x0e),
        (0x74, 0x12),
        (0x75, 0x34),
        (0x77, 0x0a),
    ];
    for (opcode, expected) in stores {
        assert_eq!(cpu.mov(opcode), Ok(()));
        assert_eq!(cpu.mem[0x1234], expected);
    }
    assert_eq!(cpu.cycles, 49);
}

#[test]
fn mov_refuses_halt_without_change() {
    let mut cpu = loaded();
    cpu.pc.0 = 0x4321;
    assert_eq!(
        cpu.mov(0x76),
        Err(ExecError::UnimplementedOrInvalidOpcode { opcode: 0x76, pc: 0x4321 })
    );
    assert_eq!(cpu.mem[0x1234], 0x99);
    assert_eq!(cpu.cycles, 0);
    assert_eq!(cpu.pc.0, 0x4321);
}

#[test]
fn mov_refuses_opcodes_outside_its_family() {
    for opcode in [0x00u8, 0x01, 0x3f, 0x80, 0xff] {
        let mut cpu = loaded();
        assert_eq!(
            cpu.mov(opcode),
            Err(ExecError::UnimplementedOrInvalidOpcode { opcode, pc: 0 })
        );
        assert_eq!(cpu.a.0, 0x0a);
        assert_eq!(cpu.b.0, 0x0b);
        assert_eq!(cpu.c.0, 0x0c);
        assert_eq!(cpu.d.0, 0x0d);
        assert_eq!(cpu.e.0, 0x0e);
        assert_eq!(cpu.h.0, 0x12);
        assert_eq!(cpu.l.0, 0x34);
        assert_eq!(cpu.mem[0x1234], 0x99);
        assert_eq!(cpu.cycles, 0);
    }
}

#[test]
fn mov_into_memory_at_top_address() {
    let mut cpu = I8080::new();
    cpu.h.0 = 0xff;
    cpu.l.0 = 0xff;
    cpu.c.0 = 0x5a;
    // MOV M, C
    assert_eq!(cpu.mov(0x71), Ok(()));
    assert_eq!(cpu.mem[0xffff], 0x5a);
    assert_eq!(cpu.cycles, 7);
}
