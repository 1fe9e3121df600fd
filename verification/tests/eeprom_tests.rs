use flcq::calibration::QuartzSlot;
use flcq::eeprom::{
    read_word, word_from_replies, write_word, Quartz,
    image_from_replies, next_count, read_order, starts_over, Capacitance, Freq, Inductance, TEeprom, C0_SUM, CREF1_N,
    CREF1_SUM, CREF2_N, EEPROM_BYTES, ERASED_BYTE, ERASED_WORD, SIZE, TRANSFERRED,
};

fn apply(image: &mut Vec<u8>, writes: &[(u8, u8)]) {
    for &(a, d) in writes {
        if (a as usize) < image.len() {
            image[a as usize] = d;
        }
    }
}

fn sample() -> TEeprom {
    TEeprom {
        freq: Freq {
            frequency_periode: 0.1048576f64.to_bits(),
            frequency_calibration_temperature: 23.5f64.to_bits(),
            frequency_calibration_count: 42,
        },
        c: Capacitance {
            cref1: 1000.0f64.to_bits(),
            n_cref1: 1,
            cref2: 94.0f64.to_bits(),
            n_cref2: 2,
        },
        l: Inductance { c0: 12.5f64.to_bits(), l0: 82.0f64.to_bits(), n_c0_l0: 3 },
        q: Quartz {
            cq: 5.0f64.to_bits(),
            cswitch: 6.0f64.to_bits(),
            cref1: 7.0f64.to_bits(),
            cref2: 8.0f64.to_bits(),
        },
    }
}

#[test]
fn layout_addresses() {
    assert_eq!(C0_SUM, 17);
    assert_eq!(CREF1_SUM, 34);
    assert_eq!(CREF1_N, 42);
    assert_eq!(CREF2_N, 51);
    assert_eq!(TRANSFERRED, 52);
    assert_eq!(SIZE, 60);
    assert_eq!(EEPROM_BYTES, 128);
}

#[test]
fn default_is_erased() {
    let e = TEeprom::default();
    assert_eq!(e.freq.frequency_periode, ERASED_WORD);
    assert_eq!(e.freq.frequency_calibration_count, ERASED_BYTE);
    assert_eq!(e.c.n_cref1, 0xFF);
    assert_eq!(e.l.n_c0_l0, 0xFF);
    assert_eq!(e.q.cref1, ERASED_WORD);
    assert_eq!(e.q.cq, ERASED_WORD);
    // an erased word is the f64 read from eight erased bytes
    assert_eq!(f64::from_le_bytes([0xFF; 8]).to_bits(), ERASED_WORD);
}

#[test]
fn write_plan_order_and_bytes() {
    let e = sample();
    let w = e.write();
    assert_eq!(w.len(), 52);
    let periode = 0.1048576f64.to_le_bytes();
    for i in 0..8 {
        assert_eq!(w[i], (i as u8, periode[i]));
    }
    assert_eq!(w[16], (16, 42));
    // capacitance block follows the frequency block
    assert_eq!(w[17], (34, 1000.0f64.to_le_bytes()[0]));
    assert_eq!(w[25], (42, 1));
    assert_eq!(w[34], (51, 2));
    // C0 / L0 block last
    assert_eq!(w[35], (17, 12.5f64.to_le_bytes()[0]));
    assert_eq!(w[51], (33, 3));
}

#[test]
fn read_order_matches_write_plan() {
    let e = sample();
    let addresses = read_order();
    let w = e.write();
    assert_eq!(addresses.len(), w.len());
    for (a, (b, _)) in addresses.iter().zip(w.iter()) {
        assert_eq!(*a, *b);
    }
}

#[test]
fn write_then_read_restores_record() {
    let e = sample();
    let mut image = vec![0u8; EEPROM_BYTES as usize];
    apply(&mut image, &e.write());
    let mut r = TEeprom::default();
    r.read(&image);
    assert_eq!(r.freq, e.freq);
    assert_eq!(r.c, e.c);
    assert_eq!(r.l, e.l);
    // the quartz capacitances are not transferred
    assert_eq!(r.q, TEeprom::default().q);
    assert_eq!(f64::from_bits(r.freq.frequency_calibration_temperature), 23.5);
}

#[test]
fn read_matches_little_endian_f64() {
    let mut image = vec![0xFFu8; SIZE as usize];
    image[0..8].copy_from_slice(&2.5f64.to_le_bytes());
    image[34..42].copy_from_slice(&470.0f64.to_le_bytes());
    image[42] = 7;
    let mut r = TEeprom::default();
    r.read(&image);
    assert_eq!(f64::from_bits(r.freq.frequency_periode), 2.5);
    assert_eq!(f64::from_bits(r.c.cref1), 470.0);
    assert_eq!(r.c.n_cref1, 7);
    assert_eq!(r.c.cref2, ERASED_WORD);
}

#[test]
fn clear_then_read_gives_erased() {
    let e = sample();
    let writes = e.clear();
    assert_eq!(writes.len(), 128);
    assert_eq!(writes[0], (0, 0xFF));
    assert_eq!(writes[127], (127, 0xFF));
    let mut image = vec![0x11u8; EEPROM_BYTES as usize];
    apply(&mut image, &e.write());
    apply(&mut image, &writes);
    assert!(image.iter().all(|b| *b == 0xFF));
    let mut r = sample();
    r.read(&image);
    let erased = TEeprom::default();
    assert_eq!(r.freq, erased.freq);
    assert_eq!(r.c, erased.c);
    assert_eq!(r.l, erased.l);
    assert_eq!(r.q, sample().q);
}

#[test]
fn sample_counting() {
    assert!(starts_over(0));
    assert!(starts_over(0xFF));
    assert!(!starts_over(1));
    assert_eq!(next_count(0xFF), 1);
    assert_eq!(next_count(0), 1);
    assert_eq!(next_count(1), 2);
    assert_eq!(next_count(254), 255);
    let mut n = 0xFFu8;
    for k in 1..=255u32 {
        n = next_count(n);
        assert_eq!(n as u32, k);
    }
    assert_eq!(next_count(n), 1);
}

#[test]
fn accumulate_cref1_averages() {
    let mut e = TEeprom::default();
    for v in [100.0f64, 102.0, 104.0] {
        let n = e.c.n_cref1;
        let sum = if starts_over(n) { v } else { f64::from_bits(e.c.cref1) + v };
        e.accumulate_cref1(sum.to_bits());
    }
    assert_eq!(e.c.n_cref1, 3);
    assert_eq!(f64::from_bits(e.c.cref1) / e.c.n_cref1 as f64, 102.0);
    assert_eq!(e.c.n_cref2, 0xFF);
}

#[test]
fn accumulate_cref2_and_c0_l0() {
    let mut e = TEeprom::default();
    e.accumulate_cref2(47.0f64.to_bits());
    assert_eq!(e.c.n_cref2, 1);
    assert_eq!(e.c.cref2, 47.0f64.to_bits());
    e.accumulate_c0_l0(10.0f64.to_bits(), 80.0f64.to_bits());
    e.accumulate_c0_l0(21.0f64.to_bits(), 161.0f64.to_bits());
    assert_eq!(e.l.n_c0_l0, 2);
    assert_eq!(e.l.c0, 21.0f64.to_bits());
    assert_eq!(e.l.l0, 161.0f64.to_bits());
    assert_eq!(e.c.n_cref1, 0xFF);
}

#[test]
fn set_frequency_stores_values() {
    let mut e = TEeprom::default();
    e.set_frequency(0.5f64.to_bits(), 21.0f64.to_bits(), 100);
    assert_eq!(e.freq.frequency_periode, 0.5f64.to_bits());
    assert_eq!(e.freq.frequency_calibration_temperature, 21.0f64.to_bits());
    assert_eq!(e.freq.frequency_calibration_count, 100);
    assert_eq!(e.c, TEeprom::default().c);
}

#[test]
fn replies_give_device_bytes() {
    let e = sample();
    let mut device = vec![0u8; EEPROM_BYTES as usize];
    apply(&mut device, &e.write());
    let replies: Vec<Vec<u8>> = read_order()
        .iter()
        .map(|&a| vec![0x04, device[a as usize], a, 0xFF, 0xFF])
        .collect();
    let image = image_from_replies(&replies);
    assert_eq!(&image[..], &device[..52]);
    let mut r = TEeprom::default();
    r.read(&image);
    assert_eq!(r.c, e.c);
}

#[test]
fn unanswered_reads_are_erased() {
    let mut replies: Vec<Vec<u8>> = read_order()
        .iter()
        .map(|&a| vec![0x04, 0x00, a, 0xFF, 0xFF])
        .collect();
    replies[0] = Vec::new(); // address 0 not answered
    replies[17] = vec![0x04, 0x00, 0x00, 0xFF, 0xFF]; // address 34 answered for the wrong address
    let image = image_from_replies(&replies);
    assert_eq!(image[0], 0xFF);
    assert_eq!(image[34], 0xFF);
    assert_eq!(image[1], 0x00);
    assert_eq!(image[51], 0x00);
}

#[test]
fn quartz_capacitances_filed_by_answer() {
    let mut e = TEeprom::default();
    e.file_quartz_cref(&"1".to_string(), 10.0f64.to_bits());
    e.file_quartz_cref(&"2".to_string(), 20.0f64.to_bits());
    e.file_quartz_cref(&"3".to_string(), 30.0f64.to_bits());
    e.file_quartz_cref(&"4".to_string(), 40.0f64.to_bits());
    let before = e;
    e.file_quartz_cref(&"5".to_string(), 50.0f64.to_bits());
    assert_eq!(e, before);
    assert_eq!(
        e.quartz_crefs(),
        (
            10.0f64.to_bits(),
            20.0f64.to_bits(),
            30.0f64.to_bits(),
            40.0f64.to_bits()
        )
    );
    assert_eq!(e.c, TEeprom::default().c);
    e.set_quartz_cref(QuartzSlot::Cswitch, 21.0f64.to_bits());
    assert_eq!(e.q.cswitch, 21.0f64.to_bits());
    assert_eq!(e.q.cq, 10.0f64.to_bits());
}

#[test]
fn word_written_at_any_address_reads_back() {
    let v = f64::NAN.to_bits() ^ 0x0123;
    for a in [0u8, 17, 100, 248] {
        let w = write_word(a, v);
        assert_eq!(w.len(), 8);
        assert_eq!(w[0], (a, v.to_le_bytes()[0]));
        let mut image = vec![0x5Au8; 256];
        apply(&mut image, &w);
        assert_eq!(read_word(&image, a as usize), v);
        let replies: Vec<Vec<u8>> = (0..8u8)
            .map(|i| vec![0x04, image[(a + i) as usize], a + i, 0xFF, 0xFF])
            .collect();
        assert_eq!(word_from_replies(a, &replies), v);
    }
}

#[test]
fn word_from_unanswered_replies_is_erased() {
    let replies: Vec<Vec<u8>> = (0..8).map(|_| Vec::new()).collect();
    assert_eq!(word_from_replies(8, &replies), ERASED_WORD);
}
