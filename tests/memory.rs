use cortex_a_rt::attributes::VirtRange;
use cortex_a_rt::memory::{
    bss_range_inclusive, zero_bss, zero_volatile, MemWriteError, MemWriter, WordMemory,
};

#[test]
fn zero_bss_clears_both_endpoints() {
    // Words from 0x0FF8 to 0x3000: one before the region, the region, one after it.
    let n = (0x3008 - 0x0FF8) / 8;
    let mut mem = WordMemory { base: 0x0FF8, words: vec![0xAAAA_5555_AAAA_5555; n] };
    zero_bss(&mut mem, 0x1000, 0x2FFF);
    assert_eq!(mem.words[1], 0); // 0x1000
    assert_eq!(mem.words[n - 2], 0); // 0x2FF8
    assert!(mem.words[1..n - 1].iter().all(|w| *w == 0));
    assert_eq!(mem.words[0], 0xAAAA_5555_AAAA_5555); // 0x0FF8
    assert_eq!(mem.words[n - 1], 0xAAAA_5555_AAAA_5555); // 0x3000
}

#[test]
fn zero_two_words() {
    let mut mem = WordMemory { base: 0x1000, words: vec![1, 2, 3, 4] };
    zero_volatile(&mut mem, &VirtRange { start: 0x1008, end_inclusive: 0x1010 });
    assert_eq!(mem.words, vec![1, 0, 0, 4]);
}

#[test]
fn zero_single_word_range() {
    let mut mem = WordMemory { base: 0x1000, words: vec![1, 2, 3] };
    zero_volatile(&mut mem, &VirtRange { start: 0x1010, end_inclusive: 0x1010 });
    assert_eq!(mem.words, vec![1, 2, 0]);
}

#[test]
fn bss_range_is_inclusive() {
    assert_eq!(bss_range_inclusive(0x1000, 0x2FFF), VirtRange { start: 0x1000, end_inclusive: 0x2FFF });
}

#[test]
fn mem_writer_refuses_overflow() {
    let mut w = MemWriter::new(0x80000, 16);
    assert_eq!(w.write_all(10), Ok(0x80000));
    assert_eq!(w.write_all(7), Err(MemWriteError::NotEnoughSpace));
    assert_eq!(w.addr, 0x8000A);
    assert_eq!(w.write_all(6), Ok(0x8000A));
    assert_eq!(w.write_all(0), Ok(0x80010));
    assert_eq!(w.write_all(1), Err(MemWriteError::NotEnoughSpace));
}
