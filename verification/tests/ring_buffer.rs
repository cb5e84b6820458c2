use vivarium_core::ring::SmoothingBuffer;

#[test]
fn fresh_buffer_holds_only_the_seed() {
    let b = SmoothingBuffer::new(4094);
    assert_eq!(b.len(), 1);
    assert_eq!(b.average(), 4094);
}

#[test]
fn seeded_average_of_three_writes() {
    let mut b = SmoothingBuffer::new(4094);
    b.write(100);
    b.write(200);
    b.write(300);
    // (4094 + 100 + 200 + 300) / 4, truncated.
    assert_eq!(b.average(), 1173);
}

#[test]
fn average_truncates_toward_zero() {
    let mut b = SmoothingBuffer::new(1);
    b.write(2);
    // (1 + 2) / 2 = 1.5 truncates to 1.
    assert_eq!(b.average(), 1);
}

#[test]
fn seed_survives_until_the_window_fills() {
    let mut b = SmoothingBuffer::new(4094);
    for v in 1..=15u16 {
        b.write(v);
    }
    assert_eq!(b.len(), 16);
    // Seed still present: (4094 + 1 + ... + 15) / 16.
    assert_eq!(b.average(), (4094 + 120) / 16);
}

#[test]
fn sixteenth_write_evicts_the_seed() {
    let mut b = SmoothingBuffer::new(4094);
    for v in 1..=16u16 {
        b.write(v);
    }
    assert_eq!(b.len(), 16);
    // (1 + ... + 16) / 16 = 136 / 16, truncated.
    assert_eq!(b.average(), 8);
}

#[test]
fn seventeen_writes_keep_only_the_last_sixteen() {
    let mut b = SmoothingBuffer::new(4094);
    for v in 1..=17u16 {
        b.write(v);
    }
    assert_eq!(b.len(), 16);
    // The first write (1) is gone: (2 + ... + 17) / 16 = 152 / 16 = 9.5,
    // truncated.
    assert_eq!(b.average(), 9);
}

#[test]
fn window_never_grows_past_capacity() {
    let mut b = SmoothingBuffer::new(0);
    for _ in 0..100 {
        b.write(4095);
    }
    assert_eq!(b.len(), 16);
    assert_eq!(b.average(), 4095);
}

#[test]
fn average_tracks_the_moving_window() {
    let mut b = SmoothingBuffer::new(0);
    for _ in 0..16 {
        b.write(10);
    }
    assert_eq!(b.average(), 10);
    for _ in 0..16 {
        b.write(30);
    }
    assert_eq!(b.average(), 30);
}
