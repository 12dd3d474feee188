use rustation_ng::psx_complete::Psx;
use std::time::Instant;

struct Xorshift {
    state: u32,
}

impl Xorshift {
    fn new(seed: u32) -> Self {
        Xorshift { state: seed }
    }

    fn next(&mut self) -> u32 {
        self.state ^= self.state << 13;
        self.state ^= self.state >> 17;
        self.state ^= self.state << 5;
        self.state
    }
}

#[test]
fn bench_memory_access_patterns() {
    let mut memory = Psx::new().unwrap();
    let test_size: u32 = 1024 * 1024;

    let start = Instant::now();
    for i in 0..test_size {
        memory.store8(0x80000000 + i, (i & 0xff) as u8).unwrap();
    }
    let seq_write_time = start.elapsed();

    let mut rng = Xorshift::new(12345);
    let start = Instant::now();
    for _ in 0..test_size {
        let addr = 0x80000000 + (rng.next() % test_size);
        memory.store8(addr, 0x42).unwrap();
    }
    let rand_write_time = start.elapsed();

    let ratio = rand_write_time.as_secs_f32() / seq_write_time.as_secs_f32();
    println!("Random/Sequential access ratio: {:.2}x", ratio);
    assert!(ratio < 10.0, "Random access shouldn't be >10x slower than sequential");
}
