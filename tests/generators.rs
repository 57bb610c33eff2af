use xoroshiro128::{
    u64_from_sl, Generator, Rng, SeedError, SplitMix64Rng, XorShift1024Rng, XorShift1024Seed,
    Xoroshiro128Rng,
};

fn draws<G: Generator>(g: &mut G, n: usize) -> Vec<u64> {
    (0..n).map(|_| g.next_u64()).collect()
}

fn chunked<G: Generator>(g: &mut G, n: usize) -> Vec<u8> {
    let mut out = Vec::new();
    for _ in 0..(n + 7) / 8 {
        out.extend_from_slice(&g.next_u64().to_le_bytes());
    }
    out.truncate(n);
    out
}

fn counting_words() -> [u64; 16] {
    let mut w = [0u64; 16];
    for (i, x) in w.iter_mut().enumerate() {
        *x = i as u64 + 1;
    }
    w
}

#[test]
fn splitmix_golden_vector() {
    let mut g = SplitMix64Rng::from_seed_u64(0);
    assert_eq!(g.next_u64(), 0xe220a8397b1dcdaf);
    assert_eq!(g.next_u64(), 0x6e789e6aa1b965f4);
    assert_eq!(g.next_u64(), 0x06c45d188009454f);
}

#[test]
fn splitmix_seed_bytes_are_little_endian() {
    let mut a = SplitMix64Rng::from_seed([0x15, 0x7c, 0x4a, 0x7f, 0xb9, 0x79, 0x37, 0x9e]);
    let mut b = SplitMix64Rng::from_seed_u64(0x9e3779b97f4a7c15);
    assert_eq!(draws(&mut a, 8), draws(&mut b, 8));
    let mut c = SplitMix64Rng::from_seed([0; 8]);
    assert_eq!(c.next_u64(), 0xe220a8397b1dcdaf);
}

#[test]
fn next_u32_keeps_the_low_half() {
    let mut g = SplitMix64Rng::from_seed_u64(0);
    assert_eq!(g.next_u32(), 0x7b1dcdaf);
    assert_eq!(g.next_u32(), 0xa1b965f4);
    let mut x = Xoroshiro128Rng::from_seed_u64([1, 0]).unwrap();
    assert_eq!(x.next_u32(), 1);
    assert_eq!(x.next_u32(), 0x00004001);
}

#[test]
fn xoroshiro_zero_seed_is_rejected() {
    assert_eq!(Xoroshiro128Rng::from_seed_u64([0, 0]).err(), Some(SeedError::InvalidSeed));
    assert_eq!(Xoroshiro128Rng::from_seed([0; 16]).err(), Some(SeedError::InvalidSeed));
    assert!(Xoroshiro128Rng::from_seed_u64([0, 1]).is_ok());
    assert!(Xoroshiro128Rng::from_seed_u64([1, 0]).is_ok());
}

#[test]
fn xoroshiro_golden_vector() {
    let mut g = Xoroshiro128Rng::from_seed_u64([1, 0]).unwrap();
    assert_eq!(g.next_u64(), 1);
    assert_eq!(g.next_u64(), 0x0080001000004001);
    assert_eq!(g.next_u64(), 0x0008402018000121);
    assert_eq!(g.next_u64(), 0x8080563010444122);
}

#[test]
fn xoroshiro_seed_byte_layout() {
    let mut bytes = [0u8; 16];
    bytes[0] = 1;
    let mut a = Xoroshiro128Rng::from_seed(bytes).unwrap();
    assert_eq!(a.next_u64(), 1);
    let mut bytes = [0u8; 16];
    bytes[15] = 0x80;
    let mut b = Xoroshiro128Rng::from_seed(bytes).unwrap();
    let mut c = Xoroshiro128Rng::from_seed_u64([0, 0x8000000000000000]).unwrap();
    assert_eq!(draws(&mut b, 10), draws(&mut c, 10));
}

#[test]
fn xoroshiro_unseeded_stream() {
    let mut g = Xoroshiro128Rng::new_unseeded();
    assert_eq!(g.next_u64(), 0xb0bd7559b9e37c24);
    assert_eq!(g.next_u64(), 0x7a28d72dfad33553);
}

#[test]
fn xorshift_zero_seed_is_rejected() {
    assert_eq!(XorShift1024Rng::from_seed_u64([0; 16]).err(), Some(SeedError::InvalidSeed));
    assert_eq!(
        XorShift1024Rng::from_seed(XorShift1024Seed::default()).err(),
        Some(SeedError::InvalidSeed)
    );
}

#[test]
fn xorshift_any_nonzero_seed_is_accepted() {
    for i in 0..16 {
        let mut w = [0u64; 16];
        w[i] = 1 << (i * 4);
        assert!(XorShift1024Rng::from_seed_u64(w).is_ok());
    }
    for i in 0..128 {
        let mut s = XorShift1024Seed::default();
        s.0[i] = 1;
        assert!(XorShift1024Rng::from_seed(s).is_ok());
    }
}

#[test]
fn xorshift_golden_vector_wraps_the_pointer() {
    let mut g = XorShift1024Rng::from_seed_u64(counting_words()).unwrap();
    let expected: [u64; 18] = [
        0xc0562e31b467f91f, 0x092b6fabadaff6d4, 0x06a37d6c71bffb6a, 0xd534ffc84bb7e231,
        0x61cf9e3dc667e6c7, 0xc791485a5b500000, 0xa81ced7883bfe912, 0x16cf27199e17d905,
        0x867d5cec7d27c217, 0x092b6fabadaff6d4, 0xc6620ee1f0ffe912, 0xdb9d9d0d9537bd81,
        0x218e2fb345a7d46f, 0xc791485a5b500000, 0x67db7eee02ffd6ba, 0x9cb4e749e6178fa5,
        0xec88cd401996aaba, 0x3e5042e632ef6ec4,
    ];
    assert_eq!(draws(&mut g, 18), expected.to_vec());
}

#[test]
fn xorshift_seed_byte_layout() {
    let words = counting_words();
    let mut seed = XorShift1024Seed::default();
    for (k, w) in words.iter().enumerate() {
        seed.0[8 * k..8 * k + 8].copy_from_slice(&w.to_le_bytes());
    }
    let mut a = XorShift1024Rng::from_seed(seed).unwrap();
    let mut b = XorShift1024Rng::from_seed_u64(words).unwrap();
    assert_eq!(draws(&mut a, 40), draws(&mut b, 40));
}

#[test]
fn fill_bytes_matches_chunked_draws() {
    for &n in &[0usize, 1, 7, 8, 9, 64] {
        let mut a = SplitMix64Rng::from_seed_u64(7);
        let mut b = a;
        let mut buf = vec![0u8; n];
        a.fill_bytes(&mut buf);
        assert_eq!(buf, chunked(&mut b, n));
        assert_eq!(a.next_u64(), b.next_u64());

        let mut a = Xoroshiro128Rng::new_unseeded();
        let mut b = a;
        let mut buf = vec![0u8; n];
        a.fill_bytes(&mut buf);
        assert_eq!(buf, chunked(&mut b, n));
        assert_eq!(a.next_u64(), b.next_u64());

        let mut a = XorShift1024Rng::from_seed_u64(counting_words()).unwrap();
        let mut b = a;
        let mut buf = vec![0u8; n];
        a.fill_bytes(&mut buf);
        assert_eq!(buf, chunked(&mut b, n));
        assert_eq!(a.next_u64(), b.next_u64());
    }
}

#[test]
fn fill_bytes_exact_bytes() {
    let mut g = SplitMix64Rng::from_seed_u64(0);
    let mut buf = [0u8; 9];
    g.fill_bytes(&mut buf);
    assert_eq!(buf, [0xaf, 0xcd, 0x1d, 0x7b, 0x39, 0xa8, 0x20, 0xe2, 0xf4]);
}

#[test]
fn same_seed_same_stream() {
    let mut a = SplitMix64Rng::from_seed_u64(12345);
    let mut b = SplitMix64Rng::from_seed_u64(12345);
    assert_eq!(draws(&mut a, 1000), draws(&mut b, 1000));
    let mut a = Xoroshiro128Rng::from_seed_u64([3, 4]).unwrap();
    let mut b = Xoroshiro128Rng::from_seed_u64([3, 4]).unwrap();
    assert_eq!(draws(&mut a, 1000), draws(&mut b, 1000));
    let mut a = XorShift1024Rng::from_seed_u64(counting_words()).unwrap();
    let mut b = XorShift1024Rng::from_seed_u64(counting_words()).unwrap();
    assert_eq!(draws(&mut a, 1000), draws(&mut b, 1000));
}

#[test]
fn integer_seeding_expands_through_splitmix() {
    let mut a = Xoroshiro128Rng::seed_from_u64(42);
    let mut b = Xoroshiro128Rng::seed_from_u64(42);
    let mut c = Xoroshiro128Rng::from_seed_u64([0xbdd732262feb6e95, 0x28efe333b266f103]).unwrap();
    assert_eq!(a.next_u64(), 0xe6c71559e2525f98);
    assert_eq!(b.next_u64(), 0xe6c71559e2525f98);
    assert_eq!(c.next_u64(), 0xe6c71559e2525f98);
    assert_eq!(draws(&mut a, 100), draws(&mut b, 100));

    let mut sm = SplitMix64Rng::from_seed_u64(42);
    let mut words = [0u64; 16];
    for w in words.iter_mut() {
        *w = sm.next_u64();
    }
    let mut x = XorShift1024Rng::seed_from_u64(42);
    let mut y = XorShift1024Rng::seed_from_u64(42);
    let mut z = XorShift1024Rng::from_seed_u64(words).unwrap();
    assert_eq!(x.next_u64(), 0xb526143ab5033a10);
    assert_eq!(y.next_u64(), 0xb526143ab5033a10);
    assert_eq!(z.next_u64(), 0xb526143ab5033a10);
    assert_eq!(draws(&mut x, 100), draws(&mut y, 100));
}

#[test]
fn entropy_construction_never_gives_invalid_seed() {
    let mut firsts = Vec::new();
    for _ in 0..1000 {
        let mut x = Xoroshiro128Rng::new().unwrap();
        let mut y = XorShift1024Rng::new().unwrap();
        firsts.push(x.next_u64());
        y.next_u64();
    }
    firsts.sort();
    firsts.dedup();
    assert!(firsts.len() > 1);
}

#[test]
fn entropy_seeded_splitmix_differs() {
    let mut a = SplitMix64Rng::new().unwrap();
    let mut b = SplitMix64Rng::new().unwrap();
    assert_ne!(draws(&mut a, 4), draws(&mut b, 4));
}

#[test]
fn word_from_slice_is_little_endian() {
    assert_eq!(u64_from_sl(&[1, 2, 3, 4, 5, 6, 7, 8, 9]), 0x0807060504030201);
    assert_eq!(u64_from_sl(&[0xff; 8]), u64::MAX);
}

#[test]
fn failed_entropy_read_is_reported() {
    let r = Xoroshiro128Rng::accept_draw(Err(SeedError::EntropySourceUnavailable), [1; 16]);
    assert_eq!(r.unwrap().err(), Some(SeedError::EntropySourceUnavailable));
    let r = XorShift1024Rng::accept_draw(
        Err(SeedError::EntropySourceUnavailable),
        XorShift1024Seed([1; 128]),
    );
    assert_eq!(r.unwrap().err(), Some(SeedError::EntropySourceUnavailable));
}

#[test]
fn all_zero_draw_asks_for_another() {
    assert!(Xoroshiro128Rng::accept_draw(Ok(()), [0; 16]).is_none());
    assert!(XorShift1024Rng::accept_draw(Ok(()), XorShift1024Seed::default()).is_none());
}

#[test]
fn nonzero_draw_seeds_the_generator() {
    let mut bytes = [0u8; 16];
    bytes[0] = 1;
    let mut g = Xoroshiro128Rng::accept_draw(Ok(()), bytes).unwrap().unwrap();
    assert_eq!(g.next_u64(), 1);

    let words = counting_words();
    let mut seed = XorShift1024Seed::default();
    for (k, w) in words.iter().enumerate() {
        seed.0[8 * k..8 * k + 8].copy_from_slice(&w.to_le_bytes());
    }
    let mut a = XorShift1024Rng::accept_draw(Ok(()), seed).unwrap().unwrap();
    let mut b = XorShift1024Rng::from_seed_u64(words).unwrap();
    assert_eq!(draws(&mut a, 20), draws(&mut b, 20));
}
