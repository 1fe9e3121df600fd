//! The calibration record kept in the meter's EEPROM: its layout, how it is
//! read from and written to the device byte by byte, and how calibration
//! samples are accumulated in it.
//!
//! Floating-point values are held as their IEEE-754 bit patterns (`u64`),
//! which is exactly what the EEPROM stores: eight bytes, least significant
//! first.  An erased EEPROM holds `0xFF` everywhere.
use vstd::prelude::*;
use crate::calibration::{quartz_cref_choice, QuartzSlot};
use crate::protocol::{decode_read_byte, eeprom_reply_matches, spec_read_byte_value};

verus! {

// ---------------------------------------------------------------------------
// Layout
// ---------------------------------------------------------------------------

/// Address of the calibrated counting period (8 bytes).
pub const FREQUENCY_PERIODE: u8 = 0;

/// Address of the temperature at frequency calibration (8 bytes).
pub const CALIBRATION_TEMPERATURE: u8 = FREQUENCY_PERIODE + 8;

/// Address of the averaging count used at frequency calibration (1 byte).
pub const N_CALIBRATION_FREQUENCY_COUNT: u8 = CALIBRATION_TEMPERATURE + 8;

/// Address of the sum of the parasitic capacitance samples (8 bytes).
pub const C0_SUM: u8 = N_CALIBRATION_FREQUENCY_COUNT + 1;

/// Address of the sum of the inductance samples (8 bytes).
pub const L0_SUM: u8 = C0_SUM + 8;

/// Address of the number of C0 / L0 samples (1 byte).
pub const C0_L0_N: u8 = L0_SUM + 8;

/// Address of the sum of the first reference capacitor samples (8 bytes).
pub const CREF1_SUM: u8 = C0_L0_N + 1;

/// Address of the number of first reference capacitor samples (1 byte).
pub const CREF1_N: u8 = CREF1_SUM + 8;

/// Address of the sum of the second reference capacitor samples (8 bytes).
pub const CREF2_SUM: u8 = CREF1_N + 1;

/// Address of the number of second reference capacitor samples (1 byte).
pub const CREF2_N: u8 = CREF2_SUM + 8;

/// Address of the quartz reference capacitor (8 bytes); reserved, it is
/// neither read nor written.
pub const CREF1_Q: u8 = CREF2_N + 1;

/// Number of EEPROM bytes the layout uses.
pub const SIZE: u8 = CREF1_Q + 8;

/// Number of bytes transferred when the record is read or written: every
/// field up to, not including, the reserved quartz reference.
pub const TRANSFERRED: u8 = CREF1_Q;

/// Number of EEPROM bytes that clearing erases.
pub const EEPROM_BYTES: u8 = 128;

/// The fields lie one after another from address 0, the transferred ones
/// first, and the whole layout fits in the part of the EEPROM that clearing
/// erases.
pub proof fn lemma_layout()
    ensures
        FREQUENCY_PERIODE == 0,
        CALIBRATION_TEMPERATURE == FREQUENCY_PERIODE + 8,
        N_CALIBRATION_FREQUENCY_COUNT == CALIBRATION_TEMPERATURE + 8,
        C0_SUM == N_CALIBRATION_FREQUENCY_COUNT + 1,
        L0_SUM == C0_SUM + 8,
        C0_L0_N == L0_SUM + 8,
        CREF1_SUM == C0_L0_N + 1,
        CREF1_N == CREF1_SUM + 8,
        CREF2_SUM == CREF1_N + 1,
        CREF2_N == CREF2_SUM + 8,
        CREF1_Q == CREF2_N + 1,
        TRANSFERRED == CREF1_Q,
        SIZE == CREF1_Q + 8,
        CALIBRATION_TEMPERATURE == 8,
        N_CALIBRATION_FREQUENCY_COUNT == 16,
        C0_SUM == 17,
        L0_SUM == 25,
        C0_L0_N == 33,
        CREF1_SUM == 34,
        CREF1_N == 42,
        CREF2_SUM == 43,
        CREF2_N == 51,
        CREF1_Q == 52,
        TRANSFERRED == 52,
        SIZE == 60,
        EEPROM_BYTES == 128,
        SIZE <= EEPROM_BYTES,
{
}

/// The value of an erased EEPROM byte.
pub const ERASED_BYTE: u8 = 0xFF;

/// The value of an erased 8-byte field.
pub const ERASED_WORD: u64 = 0xFFFF_FFFF_FFFF_FFFF;

// ---------------------------------------------------------------------------
// Words stored as eight little-endian bytes
// ---------------------------------------------------------------------------

/// The 64-bit value of eight bytes, least significant first.
pub open spec fn word_from_bytes(
    b0: u8,
    b1: u8,
    b2: u8,
    b3: u8,
    b4: u8,
    b5: u8,
    b6: u8,
    b7: u8,
) -> u64 {
    (b0 as u64) | ((b1 as u64) << 8u64) | ((b2 as u64) << 16u64) | ((b3 as u64) << 24u64) | ((
    b4 as u64) << 32u64) | ((b5 as u64) << 40u64) | ((b6 as u64) << 48u64) | ((b7 as u64)
        << 56u64)
}

/// Byte `i` (0 = least significant) of `v`.
pub open spec fn word_byte(v: u64, i: int) -> u8 {
    ((v >> ((8 * i) as u64)) & 0xffu64) as u8
}

/// The word stored at `addr ..= addr + 7` of `image`.
pub open spec fn word_at(image: Seq<u8>, addr: int) -> u64 {
    word_from_bytes(
        image[addr],
        image[addr + 1],
        image[addr + 2],
        image[addr + 3],
        image[addr + 4],
        image[addr + 5],
        image[addr + 6],
        image[addr + 7],
    )
}

/// Splitting a word into bytes and joining them again gives the word back.
pub proof fn lemma_word_bytes_roundtrip(v: u64)
    ensures
        word_from_bytes(
            word_byte(v, 0),
            word_byte(v, 1),
            word_byte(v, 2),
            word_byte(v, 3),
            word_byte(v, 4),
            word_byte(v, 5),
            word_byte(v, 6),
            word_byte(v, 7),
        ) == v,
{
    assert(((v & 0xff) as u8 as u64) | ((((v >> 8u64) & 0xff) as u8 as u64) << 8u64) | ((((v
        >> 16u64) & 0xff) as u8 as u64) << 16u64) | ((((v >> 24u64) & 0xff) as u8 as u64)
        << 24u64) | ((((v >> 32u64) & 0xff) as u8 as u64) << 32u64) | ((((v >> 40u64) & 0xff)
        as u8 as u64) << 40u64) | ((((v >> 48u64) & 0xff) as u8 as u64) << 48u64) | ((((v
        >> 56u64) & 0xff) as u8 as u64) << 56u64) == v) by (bit_vector);
    assert(word_byte(v, 0) == ((v >> 0u64) & 0xffu64) as u8);
    assert((v >> 0u64) == v) by (bit_vector);
}

/// Eight erased bytes hold the erased word.
pub proof fn lemma_erased_word()
    ensures
        word_from_bytes(
            ERASED_BYTE,
            ERASED_BYTE,
            ERASED_BYTE,
            ERASED_BYTE,
            ERASED_BYTE,
            ERASED_BYTE,
            ERASED_BYTE,
            ERASED_BYTE,
        ) == ERASED_WORD,
{
    let b: u8 = 0xff;
    assert((b as u64) | ((b as u64) << 8u64) | ((b as u64) << 16u64) | ((b as u64) << 24u64) | ((
    b as u64) << 32u64) | ((b as u64) << 40u64) | ((b as u64) << 48u64) | ((b as u64) << 56u64)
        == 0xFFFF_FFFF_FFFF_FFFFu64) by (bit_vector)
        requires
            b == 0xff,
    ;
}

/// Reads the word stored at `addr ..= addr + 7` of `image`.
pub fn read_word(image: &[u8], addr: usize) -> (v: u64)
    requires
        addr + 8 <= image@.len(),
    ensures
        v == word_at(image@, addr as int),
{
    (image[addr] as u64) | ((image[addr + 1] as u64) << 8u64) | ((image[addr + 2] as u64)
        << 16u64) | ((image[addr + 3] as u64) << 24u64) | ((image[addr + 4] as u64) << 32u64) | ((
    image[addr + 5] as u64) << 40u64) | ((image[addr + 6] as u64) << 48u64) | ((image[addr
        + 7] as u64) << 56u64)
}

/// Byte `i` (0 = least significant) of `v`.
fn byte_of(v: u64, i: u64) -> (b: u8)
    requires
        i < 8,
    ensures
        b == word_byte(v, i as int),
{
    ((v >> (8 * i)) & 0xffu64) as u8
}

/// The byte writes that store `value` at `address ..= address + 7`, least
/// significant byte first.
pub open spec fn spec_word_writes(address: u8, value: u64) -> Seq<(u8, u8)> {
    Seq::new(8, |i: int| ((address + i) as u8, word_byte(value, i)))
}

/// The byte writes, `(address, data)`, that store `value` at
/// `address ..= address + 7`, least significant byte first.  The eight
/// addresses must not run past 255.
pub fn write_word(address: u8, value: u64) -> (writes: Vec<(u8, u8)>)
    requires
        address <= 248,
    ensures
        writes@ == spec_word_writes(address, value),
{
    let mut writes: Vec<(u8, u8)> = Vec::new();
    let mut i: u8 = 0;
    while i < 8
        invariant
            i <= 8,
            address <= 248,
            writes@ =~= spec_word_writes(address, value).take(i as int),
        decreases 8 - i,
    {
        writes.push((address + i, byte_of(value, i as u64)));
        i = i + 1;
    }
    writes
}

/// A word written at an address reads back from there: after the writes
/// that store `value` at `address ..= address + 7` are performed on an
/// EEPROM that holds those addresses, the word there is `value`, whatever
/// the EEPROM held before.
pub proof fn lemma_word_write_then_read(address: u8, value: u64, image: Seq<u8>)
    requires
        address <= 248,
        image.len() >= address + 8,
    ensures
        word_at(apply_writes(image, spec_word_writes(address, value)), address as int) == value,
{
    let w = spec_word_writes(address, value);
    assert(distinct_addresses(w));
    lemma_apply_distinct(image, w);
    let img = apply_writes(image, w);
    assert forall|i: int| 0 <= i < 8 implies #[trigger] img[address + i] == word_byte(value, i) by {
        assert(w[i].0 as int == address + i);
    }
    assert(img[address + 0] == word_byte(value, 0));
    lemma_word_bytes_roundtrip(value);
}

/// The word that the replies to the reads of `address ..= address + 7`, in
/// that order, give: each byte is read as `decode_read_byte` reads it (an
/// unaccepted reply reads as 0xFF), least significant first.
pub open spec fn spec_word_from_replies(address: u8, replies: Seq<Seq<u8>>) -> u64 {
    word_from_bytes(
        spec_read_byte_value(replies[0], address),
        spec_read_byte_value(replies[1], (address + 1) as u8),
        spec_read_byte_value(replies[2], (address + 2) as u8),
        spec_read_byte_value(replies[3], (address + 3) as u8),
        spec_read_byte_value(replies[4], (address + 4) as u8),
        spec_read_byte_value(replies[5], (address + 5) as u8),
        spec_read_byte_value(replies[6], (address + 6) as u8),
        spec_read_byte_value(replies[7], (address + 7) as u8),
    )
}

/// The word read from the replies to the reads of `address ..= address + 7`,
/// in that order.
pub fn word_from_replies(address: u8, replies: &Vec<Vec<u8>>) -> (v: u64)
    requires
        address <= 248,
        replies@.len() == 8,
    ensures
        v == spec_word_from_replies(address, replies@.map_values(|r: Vec<u8>| r@)),
{
    let ghost rs = replies@.map_values(|r: Vec<u8>| r@);
    let b0 = decode_read_byte(replies[0].as_slice(), address);
    let b1 = decode_read_byte(replies[1].as_slice(), address + 1);
    let b2 = decode_read_byte(replies[2].as_slice(), address + 2);
    let b3 = decode_read_byte(replies[3].as_slice(), address + 3);
    let b4 = decode_read_byte(replies[4].as_slice(), address + 4);
    let b5 = decode_read_byte(replies[5].as_slice(), address + 5);
    let b6 = decode_read_byte(replies[6].as_slice(), address + 6);
    let b7 = decode_read_byte(replies[7].as_slice(), address + 7);
    assert(rs[0] == replies@[0]@ && rs[1] == replies@[1]@ && rs[2] == replies@[2]@ && rs[3]
        == replies@[3]@ && rs[4] == replies@[4]@ && rs[5] == replies@[5]@ && rs[6]
        == replies@[6]@ && rs[7] == replies@[7]@);
    (b0 as u64) | ((b1 as u64) << 8u64) | ((b2 as u64) << 16u64) | ((b3 as u64) << 24u64) | ((
    b4 as u64) << 32u64) | ((b5 as u64) << 40u64) | ((b6 as u64) << 48u64) | ((b7 as u64)
        << 56u64)
}

/// A word written at an address reads back over the line: after the writes
/// that store `value` at `address ..= address + 7` are performed on an
/// EEPROM, faithful replies to the reads of those eight addresses give
/// `value`.
pub proof fn lemma_word_write_then_read_over_line(
    address: u8,
    value: u64,
    image: Seq<u8>,
    replies: Seq<Seq<u8>>,
)
    requires
        address <= 248,
        image.len() >= address + 8,
        replies.len() == 8,
        forall|i: int|
            0 <= i < 8 ==> {
                &&& eeprom_reply_matches(#[trigger] replies[i], (address + i) as u8)
                &&& replies[i][1] == apply_writes(image, spec_word_writes(address, value))[address
                    + i]
            },
    ensures
        spec_word_from_replies(address, replies) == value,
{
    lemma_word_write_then_read(address, value, image);
    let img = apply_writes(image, spec_word_writes(address, value));
    assert(eeprom_reply_matches(replies[0], (address + 0) as u8));
    assert(eeprom_reply_matches(replies[1], (address + 1) as u8));
    assert(eeprom_reply_matches(replies[2], (address + 2) as u8));
    assert(eeprom_reply_matches(replies[3], (address + 3) as u8));
    assert(eeprom_reply_matches(replies[4], (address + 4) as u8));
    assert(eeprom_reply_matches(replies[5], (address + 5) as u8));
    assert(eeprom_reply_matches(replies[6], (address + 6) as u8));
    assert(eeprom_reply_matches(replies[7], (address + 7) as u8));
    assert((address + 0) as u8 == address);
}

// ---------------------------------------------------------------------------
// The record
// ---------------------------------------------------------------------------

/// Frequency calibration.
#[derive(Debug, Clone, Copy, PartialEq, Eq, Structural)]
pub struct Freq {
    /// Counting period, as the bits of an `f64` (seconds).
    pub frequency_periode: u64,
    /// Temperature at calibration, as the bits of an `f64` (degrees Celsius).
    pub frequency_calibration_temperature: u64,
    /// Averaging count used at calibration.
    pub frequency_calibration_count: u8,
}

/// Reference capacitors: sums of samples (bits of `f64`, picofarad) and
/// sample counts.
#[derive(Debug, Clone, Copy, PartialEq, Eq, Structural)]
pub struct Capacitance {
    pub cref1: u64,
    pub n_cref1: u8,
    pub cref2: u64,
    pub n_cref2: u8,
}

/// Parasitic capacitance and inductance of the oscillator: sums of samples
/// (bits of `f64`) and their common sample count.
#[derive(Debug, Clone, Copy, PartialEq, Eq, Structural)]
pub struct Inductance {
    pub c0: u64,
    pub l0: u64,
    pub n_c0_l0: u8,
}

/// Capacitances used by the quartz crystal measurement (bits of `f64`,
/// picofarad).  They are kept in memory and never transferred.
#[derive(Debug, Clone, Copy, PartialEq, Eq, Structural)]
pub struct Quartz {
    /// Cq, the quartz crystal's own capacitance.
    pub cq: u64,
    /// Cs, the switch capacitor.
    pub cswitch: u64,
    /// The first quartz reference capacitor.
    pub cref1: u64,
    /// The second quartz reference capacitor.
    pub cref2: u64,
}

/// The calibration record mirrored from the meter's EEPROM.
#[derive(Debug, Clone, Copy, PartialEq, Eq, Structural)]
pub struct TEeprom {
    pub freq: Freq,
    pub c: Capacitance,
    pub l: Inductance,
    /// Quartz measurement capacitances; never transferred.
    pub q: Quartz,
}

/// The record of an erased EEPROM: every word `ERASED_WORD`, every count
/// `0xFF`.
pub open spec fn erased_record() -> TEeprom {
    TEeprom {
        freq: Freq {
            frequency_periode: ERASED_WORD,
            frequency_calibration_temperature: ERASED_WORD,
            frequency_calibration_count: ERASED_BYTE,
        },
        c: Capacitance {
            cref1: ERASED_WORD,
            n_cref1: ERASED_BYTE,
            cref2: ERASED_WORD,
            n_cref2: ERASED_BYTE,
        },
        l: Inductance { c0: ERASED_WORD, l0: ERASED_WORD, n_c0_l0: ERASED_BYTE },
        q: Quartz { cq: ERASED_WORD, cswitch: ERASED_WORD, cref1: ERASED_WORD, cref2: ERASED_WORD },
    }
}

impl Default for TEeprom {
    /// The record as an erased EEPROM would hold it.
    fn default() -> (e: Self)
        ensures
            e == erased_record(),
    {
        TEeprom {
            freq: Freq {
                frequency_periode: ERASED_WORD,
                frequency_calibration_temperature: ERASED_WORD,
                frequency_calibration_count: ERASED_BYTE,
            },
            c: Capacitance {
                cref1: ERASED_WORD,
                n_cref1: ERASED_BYTE,
                cref2: ERASED_WORD,
                n_cref2: ERASED_BYTE,
            },
            l: Inductance { c0: ERASED_WORD, l0: ERASED_WORD, n_c0_l0: ERASED_BYTE },
            q: Quartz {
                cq: ERASED_WORD,
                cswitch: ERASED_WORD,
                cref1: ERASED_WORD,
                cref2: ERASED_WORD,
            },
        }
    }
}

// ---------------------------------------------------------------------------
// Transfers
// ---------------------------------------------------------------------------

/// The EEPROM address of the `k`-th byte transferred.  Bytes go over the
/// line block by block: frequency (addresses 0..17), then the reference
/// capacitors (34..52), then C0 / L0 (17..34).
pub open spec fn transfer_address(k: int) -> int {
    if k < C0_SUM {
        k
    } else if k < C0_SUM + (CREF1_Q - CREF1_SUM) {
        k + (CREF1_SUM - C0_SUM)
    } else {
        k - (CREF1_Q - CREF1_SUM)
    }
}

/// Position in the transfer order of the byte at address `a`.
pub open spec fn transfer_index(a: int) -> int {
    if a < C0_SUM {
        a
    } else if a < CREF1_SUM {
        a + (CREF1_Q - CREF1_SUM)
    } else {
        a - (CREF1_SUM - C0_SUM)
    }
}

/// Every transferred address is transferred once.
pub proof fn lemma_transfer_bijective()
    ensures
        forall|k: int|
            0 <= k < TRANSFERRED ==> 0 <= #[trigger] transfer_address(k) < TRANSFERRED
                && transfer_index(transfer_address(k)) == k,
        forall|a: int|
            0 <= a < TRANSFERRED ==> 0 <= #[trigger] transfer_index(a) < TRANSFERRED
                && transfer_address(transfer_index(a)) == a,
{
}

impl TEeprom {
    /// The byte this record puts at EEPROM address `a` (for `a` below
    /// `TRANSFERRED`).
    pub open spec fn stored_byte(self, a: int) -> u8 {
        if a < CALIBRATION_TEMPERATURE {
            word_byte(self.freq.frequency_periode, a - FREQUENCY_PERIODE)
        } else if a < N_CALIBRATION_FREQUENCY_COUNT {
            word_byte(self.freq.frequency_calibration_temperature, a - CALIBRATION_TEMPERATURE)
        } else if a < C0_SUM {
            self.freq.frequency_calibration_count
        } else if a < L0_SUM {
            word_byte(self.l.c0, a - C0_SUM)
        } else if a < C0_L0_N {
            word_byte(self.l.l0, a - L0_SUM)
        } else if a < CREF1_SUM {
            self.l.n_c0_l0
        } else if a < CREF1_N {
            word_byte(self.c.cref1, a - CREF1_SUM)
        } else if a < CREF2_SUM {
            self.c.n_cref1
        } else if a < CREF2_N {
            word_byte(self.c.cref2, a - CREF2_SUM)
        } else {
            self.c.n_cref2
        }
    }

    /// The byte writes that store this record, in the order they are sent:
    /// the `k`-th write puts `stored_byte` at `transfer_address(k)`.
    pub open spec fn spec_write(self) -> Seq<(u8, u8)> {
        Seq::new(
            TRANSFERRED as nat,
            |k: int| (transfer_address(k) as u8, self.stored_byte(transfer_address(k))),
        )
    }

    /// This record after reading `image`: every transferred field takes the
    /// value stored in `image`; the quartz capacitances are kept.
    pub open spec fn spec_read(self, image: Seq<u8>) -> TEeprom {
        TEeprom {
            freq: Freq {
                frequency_periode: word_at(image, FREQUENCY_PERIODE as int),
                frequency_calibration_temperature: word_at(image, CALIBRATION_TEMPERATURE as int),
                frequency_calibration_count: image[N_CALIBRATION_FREQUENCY_COUNT as int],
            },
            c: Capacitance {
                cref1: word_at(image, CREF1_SUM as int),
                n_cref1: image[CREF1_N as int],
                cref2: word_at(image, CREF2_SUM as int),
                n_cref2: image[CREF2_N as int],
            },
            l: Inductance {
                c0: word_at(image, C0_SUM as int),
                l0: word_at(image, L0_SUM as int),
                n_c0_l0: image[C0_L0_N as int],
            },
            q: self.q,
        }
    }

    /// Fills the transferred fields from `image`, the EEPROM bytes by
    /// address; the quartz capacitances are left as they are.
    pub fn read(&mut self, image: &[u8])
        requires
            image@.len() >= TRANSFERRED,
        ensures
            *final(self) == old(self).spec_read(image@),
    {
        self.freq = Freq {
            frequency_periode: read_word(image, FREQUENCY_PERIODE as usize),
            frequency_calibration_temperature: read_word(image, CALIBRATION_TEMPERATURE as usize),
            frequency_calibration_count: image[N_CALIBRATION_FREQUENCY_COUNT as usize],
        };
        self.c = Capacitance {
            cref1: read_word(image, CREF1_SUM as usize),
            n_cref1: image[CREF1_N as usize],
            cref2: read_word(image, CREF2_SUM as usize),
            n_cref2: image[CREF2_N as usize],
        };
        self.l = Inductance {
            c0: read_word(image, C0_SUM as usize),
            l0: read_word(image, L0_SUM as usize),
            n_c0_l0: image[C0_L0_N as usize],
        };
    }

    /// The byte this record puts at EEPROM address `a`.
    fn stored_byte_at(&self, a: u8) -> (b: u8)
        requires
            a < TRANSFERRED,
        ensures
            b == self.stored_byte(a as int),
    {
        if a < CALIBRATION_TEMPERATURE {
            byte_of(self.freq.frequency_periode, (a - FREQUENCY_PERIODE) as u64)
        } else if a < N_CALIBRATION_FREQUENCY_COUNT {
            byte_of(
                self.freq.frequency_calibration_temperature,
                (a - CALIBRATION_TEMPERATURE) as u64,
            )
        } else if a < C0_SUM {
            self.freq.frequency_calibration_count
        } else if a < L0_SUM {
            byte_of(self.l.c0, (a - C0_SUM) as u64)
        } else if a < C0_L0_N {
            byte_of(self.l.l0, (a - L0_SUM) as u64)
        } else if a < CREF1_SUM {
            self.l.n_c0_l0
        } else if a < CREF1_N {
            byte_of(self.c.cref1, (a - CREF1_SUM) as u64)
        } else if a < CREF2_SUM {
            self.c.n_cref1
        } else if a < CREF2_N {
            byte_of(self.c.cref2, (a - CREF2_SUM) as u64)
        } else {
            self.c.n_cref2
        }
    }

    /// The byte writes, `(address, data)`, that store this record in the
    /// EEPROM, in the order they are sent.
    pub fn write(&self) -> (writes: Vec<(u8, u8)>)
        ensures
            writes@ == self.spec_write(),
    {
        let mut writes: Vec<(u8, u8)> = Vec::new();
        let mut k: u8 = 0;
        while k < TRANSFERRED
            invariant
                k <= TRANSFERRED,
                writes@ =~= self.spec_write().take(k as int),
            decreases TRANSFERRED - k,
        {
            let a = transfer_address_at(k);
            let b = self.stored_byte_at(a);
            writes.push((a, b));
            k = k + 1;
        }
        writes
    }

    /// The byte writes, `(address, 0xFF)` for every address below
    /// `EEPROM_BYTES` in increasing order, that erase the EEPROM.  The
    /// record itself is not changed.
    pub fn clear(&self) -> (writes: Vec<(u8, u8)>)
        ensures
            writes@ == spec_clear(),
    {
        let mut writes: Vec<(u8, u8)> = Vec::new();
        let mut i: u8 = 0;
        while i < EEPROM_BYTES
            invariant
                i <= EEPROM_BYTES,
                writes@ =~= spec_clear().take(i as int),
            decreases EEPROM_BYTES - i,
        {
            writes.push((i, ERASED_BYTE));
            i = i + 1;
        }
        writes
    }
}

/// The EEPROM address of the `k`-th byte transferred.
fn transfer_address_at(k: u8) -> (a: u8)
    requires
        k < TRANSFERRED,
    ensures
        a == transfer_address(k as int),
{
    if k < C0_SUM {
        k
    } else if k < C0_SUM + (CREF1_Q - CREF1_SUM) {
        k + (CREF1_SUM - C0_SUM)
    } else {
        k - (CREF1_Q - CREF1_SUM)
    }
}

/// The addresses read, in order, when the record is read from the EEPROM.
pub fn read_order() -> (addresses: Vec<u8>)
    ensures
        addresses@ == Seq::new(TRANSFERRED as nat, |k: int| transfer_address(k) as u8),
{
    let mut addresses: Vec<u8> = Vec::new();
    let mut k: u8 = 0;
    while k < TRANSFERRED
        invariant
            k <= TRANSFERRED,
            addresses@ =~= Seq::new(k as nat, |j: int| transfer_address(j) as u8),
        decreases TRANSFERRED - k,
    {
        addresses.push(transfer_address_at(k));
        k = k + 1;
    }
    addresses
}

/// The EEPROM bytes, by address, that the replies to the reads of
/// `read_order()` give: reply `k` answers the read of `transfer_address(k)`,
/// and an address whose reply is not accepted reads as erased (0xFF).
pub fn image_from_replies(replies: &Vec<Vec<u8>>) -> (image: Vec<u8>)
    requires
        replies@.len() == TRANSFERRED,
    ensures
        image@ == spec_image_from_replies(replies@.map_values(|r: Vec<u8>| r@)),
{
    let mut image: Vec<u8> = Vec::new();
    let mut i: u8 = 0;
    while i < TRANSFERRED
        invariant
            i <= TRANSFERRED,
            image@.len() == i,
            forall|a: int| 0 <= a < i ==> #[trigger] image@[a] == ERASED_BYTE,
        decreases TRANSFERRED - i,
    {
        image.push(ERASED_BYTE);
        i = i + 1;
    }
    proof {
        lemma_transfer_bijective();
    }
    let mut k: u8 = 0;
    while k < TRANSFERRED
        invariant
            k <= TRANSFERRED,
            replies@.len() == TRANSFERRED,
            image@.len() == TRANSFERRED,
            forall|k: int| 0 <= k < TRANSFERRED ==> 0 <= #[trigger] transfer_address(k) < TRANSFERRED
                && transfer_index(transfer_address(k)) == k,
            forall|a: int| 0 <= a < TRANSFERRED ==> 0 <= #[trigger] transfer_index(a) < TRANSFERRED
                && transfer_address(transfer_index(a)) == a,
            forall|a: int|
                0 <= a < TRANSFERRED && transfer_index(a) < k ==> #[trigger] image@[a]
                    == spec_read_byte_value(replies@[transfer_index(a)]@, a as u8),
        decreases TRANSFERRED - k,
    {
        let a = transfer_address_at(k);
        let v = decode_read_byte(replies[k as usize].as_slice(), a);
        image.set(a as usize, v);
        k = k + 1;
    }
    assert(image@ =~= spec_image_from_replies(replies@.map_values(|r: Vec<u8>| r@)));
    image
}

/// The EEPROM bytes, by address, given by `replies` to the reads of the
/// transfer order.
pub open spec fn spec_image_from_replies(replies: Seq<Seq<u8>>) -> Seq<u8> {
    Seq::new(
        TRANSFERRED as nat,
        |a: int| spec_read_byte_value(replies[transfer_index(a)], a as u8),
    )
}

/// `replies` answer the reads of the transfer order faithfully for an
/// EEPROM holding `device`: each is an accepted reply carrying the byte
/// stored at the address read.
pub open spec fn faithful_replies(replies: Seq<Seq<u8>>, device: Seq<u8>) -> bool {
    &&& replies.len() == TRANSFERRED
    &&& forall|k: int|
        0 <= k < TRANSFERRED ==> {
            &&& eeprom_reply_matches(#[trigger] replies[k], transfer_address(k) as u8)
            &&& replies[k][1] == device[transfer_address(k)]
        }
}

/// Faithful replies give back the EEPROM's bytes.
pub proof fn lemma_faithful_replies(replies: Seq<Seq<u8>>, device: Seq<u8>)
    requires
        device.len() >= TRANSFERRED,
        faithful_replies(replies, device),
    ensures
        spec_image_from_replies(replies) == device.take(TRANSFERRED as int),
{
    lemma_transfer_bijective();
    assert forall|a: int| 0 <= a < TRANSFERRED implies #[trigger] spec_image_from_replies(
        replies,
    )[a] == device[a] by {
        let k = transfer_index(a);
        assert(transfer_address(k) == a);
        assert(eeprom_reply_matches(replies[k], transfer_address(k) as u8));
    }
    assert(spec_image_from_replies(replies) =~= device.take(TRANSFERRED as int));
}

/// Reading back over the line what was written: after the writes that store
/// `e` are performed on an EEPROM, the record read from faithful replies to
/// the reads of the transfer order is `e`, except for the quartz
/// capacitances, which keep their values from `base`.
pub proof fn lemma_write_then_read_over_line(
    e: TEeprom,
    image: Seq<u8>,
    replies: Seq<Seq<u8>>,
    base: TEeprom,
)
    requires
        image.len() >= TRANSFERRED,
        faithful_replies(replies, apply_writes(image, e.spec_write())),
    ensures
        base.spec_read(spec_image_from_replies(replies)) == (TEeprom {
            q: base.q,
            ..e
        }),
{
    let device = apply_writes(image, e.spec_write());
    lemma_write_then_read(e, image, base);
    lemma_apply_writes_len(image, e.spec_write());
    lemma_faithful_replies(replies, device);
    let read = spec_image_from_replies(replies);
    assert forall|a: int| 0 <= a < TRANSFERRED implies #[trigger] read[a] == device[a] by {}
}

/// Byte writes do not change the EEPROM's size.
pub proof fn lemma_apply_writes_len(image: Seq<u8>, writes: Seq<(u8, u8)>)
    ensures
        apply_writes(image, writes).len() == image.len(),
    decreases writes.len(),
{
    if writes.len() > 0 {
        lemma_apply_writes_len(image, writes.drop_last());
    }
}

/// The writes that erase the EEPROM.
pub open spec fn spec_clear() -> Seq<(u8, u8)> {
    Seq::new(EEPROM_BYTES as nat, |i: int| (i as u8, ERASED_BYTE))
}

// ---------------------------------------------------------------------------
// The device: an array of bytes that byte writes update
// ---------------------------------------------------------------------------

/// The EEPROM contents after performing `writes` in order on `image`; a
/// write to an address past the end has no effect.
pub open spec fn apply_writes(image: Seq<u8>, writes: Seq<(u8, u8)>) -> Seq<u8>
    decreases writes.len(),
{
    if writes.len() == 0 {
        image
    } else {
        let prev = apply_writes(image, writes.drop_last());
        let w = writes.last();
        if (w.0 as int) < prev.len() {
            prev.update(w.0 as int, w.1)
        } else {
            prev
        }
    }
}

/// No two writes of `writes` go to the same address.
pub open spec fn distinct_addresses(writes: Seq<(u8, u8)>) -> bool {
    forall|i: int, j: int|
        0 <= i < writes.len() && 0 <= j < writes.len() && i != j ==> #[trigger] writes[i].0
            != #[trigger] writes[j].0
}

/// After writes to distinct addresses, each written address holds what was
/// written to it and every other address is unchanged.
pub proof fn lemma_apply_distinct(image: Seq<u8>, writes: Seq<(u8, u8)>)
    requires
        distinct_addresses(writes),
    ensures
        apply_writes(image, writes).len() == image.len(),
        forall|k: int|
            0 <= k < writes.len() && (writes[k].0 as int) < image.len() ==> #[trigger] apply_writes(
                image,
                writes,
            )[writes[k].0 as int] == writes[k].1,
        forall|a: int|
            0 <= a < image.len() && (forall|k: int|
                0 <= k < writes.len() ==> #[trigger] writes[k].0 != a) ==> apply_writes(
                image,
                writes,
            )[a] == image[a],
    decreases writes.len(),
{
    if writes.len() > 0 {
        let prefix = writes.drop_last();
        assert forall|i: int, j: int|
            0 <= i < prefix.len() && 0 <= j < prefix.len() && i != j implies #[trigger] prefix[i].0
            != #[trigger] prefix[j].0 by {
            assert(prefix[i] == writes[i]);
            assert(prefix[j] == writes[j]);
        }
        lemma_apply_distinct(image, prefix);
        let last = writes.len() - 1;
        assert forall|k: int|
            0 <= k < writes.len() && (writes[k].0 as int) < image.len() implies #[trigger] apply_writes(
            image,
            writes,
        )[writes[k].0 as int] == writes[k].1 by {
            if k < last {
                assert(prefix[k] == writes[k]);
                assert(writes[k].0 != writes[last].0);
            }
        }
        assert forall|a: int|
            0 <= a < image.len() && (forall|k: int|
                0 <= k < writes.len() ==> #[trigger] writes[k].0 != a) implies apply_writes(
            image,
            writes,
        )[a] == image[a] by {
            assert forall|k: int| 0 <= k < prefix.len() implies #[trigger] prefix[k].0 != a by {
                assert(prefix[k] == writes[k]);
            }
            assert(writes[last].0 != a);
        }
    }
}

// ---------------------------------------------------------------------------
// Laws of the transfers
// ---------------------------------------------------------------------------

/// Reading back what was written: after the writes that store `e` are
/// performed on any EEPROM content, reading the EEPROM into any record
/// `base` gives `e`, except for the quartz capacitances, which are not
/// transferred and keep their values from `base`.
pub proof fn lemma_write_then_read(e: TEeprom, image: Seq<u8>, base: TEeprom)
    requires
        image.len() >= TRANSFERRED,
    ensures
        base.spec_read(apply_writes(image, e.spec_write())) == (TEeprom {
            q: base.q,
            ..e
        }),
{
    let w = e.spec_write();
    lemma_transfer_bijective();
    assert(distinct_addresses(w)) by {
        assert forall|i: int, j: int|
            0 <= i < w.len() && 0 <= j < w.len() && i != j implies #[trigger] w[i].0
            != #[trigger] w[j].0 by {
            assert(transfer_index(transfer_address(i)) == i);
            assert(transfer_index(transfer_address(j)) == j);
        }
    }
    lemma_apply_distinct(image, w);
    let img = apply_writes(image, w);
    assert forall|a: int| 0 <= a < TRANSFERRED implies #[trigger] img[a] == e.stored_byte(a) by {
        let k = transfer_index(a);
        assert(w[k].0 as int == a);
    }
    lemma_word_bytes_roundtrip(e.freq.frequency_periode);
    lemma_word_bytes_roundtrip(e.freq.frequency_calibration_temperature);
    lemma_word_bytes_roundtrip(e.l.c0);
    lemma_word_bytes_roundtrip(e.l.l0);
    lemma_word_bytes_roundtrip(e.c.cref1);
    lemma_word_bytes_roundtrip(e.c.cref2);
}

/// Clearing erases: after the clearing writes are performed on an EEPROM of
/// at least `TRANSFERRED` bytes, reading it into any record gives the erased
/// record, except for the quartz capacitances, which keep their values.
pub proof fn lemma_clear_then_read(image: Seq<u8>, base: TEeprom)
    requires
        image.len() >= TRANSFERRED,
    ensures
        base.spec_read(apply_writes(image, spec_clear())) == (TEeprom {
            q: base.q,
            ..erased_record()
        }),
{
    let w = spec_clear();
    assert(distinct_addresses(w));
    lemma_apply_distinct(image, w);
    let img = apply_writes(image, w);
    assert forall|a: int| 0 <= a < TRANSFERRED implies #[trigger] img[a] == ERASED_BYTE by {
        assert(w[a].0 as int == a);
    }
    lemma_erased_word();
}

// ---------------------------------------------------------------------------
// Accumulating calibration samples
// ---------------------------------------------------------------------------

/// Whether adding a sample to a field whose sample count is `n` discards the
/// stored sum: a count of 0 or an erased count (0xFF) means nothing usable
/// is stored.
pub open spec fn spec_starts_over(n: u8) -> bool {
    n == 0 || n == ERASED_BYTE
}

/// The sample count after one more sample is added to a field whose count
/// is `n`.
pub open spec fn spec_next_count(n: u8) -> u8 {
    if spec_starts_over(n) {
        1
    } else {
        (n + 1) as u8
    }
}

/// Whether adding a sample to a field whose sample count is `n` discards the
/// stored sum (the new sum is the sample alone) rather than adding to it.
pub fn starts_over(n: u8) -> (r: bool)
    ensures
        r == spec_starts_over(n),
{
    n == 0 || n == ERASED_BYTE
}

/// The sample count after one more sample is added to a field whose count
/// is `n`.
pub fn next_count(n: u8) -> (r: u8)
    ensures
        r == spec_next_count(n),
{
    if n == 0 || n == ERASED_BYTE {
        1
    } else {
        n + 1
    }
}

/// The sample count after `k` samples are added, one by one, to a field
/// whose count is `n`.
pub open spec fn count_after(n: u8, k: nat) -> u8
    decreases k,
{
    if k == 0 {
        n
    } else {
        spec_next_count(count_after(n, (k - 1) as nat))
    }
}

/// After any sample is added the count lies in `1 ..= 255`, and it is 1
/// exactly when the stored sum was discarded.
pub proof fn lemma_count_after_sample(n: u8)
    ensures
        1 <= spec_next_count(n) <= 255,
        spec_next_count(n) == 1 <==> spec_starts_over(n),
{
}

/// Counting from an erased or zero count, the stored count is the number of
/// samples added, up to 255 samples; the 256th sample starts over at 1.
pub proof fn lemma_count_from_erased(n: u8, k: nat)
    requires
        spec_starts_over(n),
        1 <= k <= 256,
    ensures
        k <= 255 ==> count_after(n, k) == k,
        k == 256 ==> count_after(n, k) == 1,
    decreases k,
{
    if k > 1 {
        lemma_count_from_erased(n, (k - 1) as nat);
    } else {
        assert(count_after(n, 0) == n);
    }
}

impl TEeprom {
    /// Stores a frequency calibration: the counting period and the
    /// temperature (bits of `f64`) and the averaging count.
    pub fn set_frequency(&mut self, periode: u64, temperature: u64, count: u8)
        ensures
            *final(self) == (TEeprom {
                freq: Freq {
                    frequency_periode: periode,
                    frequency_calibration_temperature: temperature,
                    frequency_calibration_count: count,
                },
                ..*old(self)
            }),
    {
        self.freq = Freq {
            frequency_periode: periode,
            frequency_calibration_temperature: temperature,
            frequency_calibration_count: count,
        };
    }

    /// Records one more sample of the first reference capacitor: `sum` is the
    /// new sum (the sample alone when `starts_over(self.c.n_cref1)`, the old
    /// sum plus the sample otherwise) and the count advances.
    pub fn accumulate_cref1(&mut self, sum: u64)
        ensures
            *final(self) == (TEeprom {
                c: Capacitance {
                    cref1: sum,
                    n_cref1: spec_next_count(old(self).c.n_cref1),
                    ..old(self).c
                },
                ..*old(self)
            }),
    {
        self.c.n_cref1 = next_count(self.c.n_cref1);
        self.c.cref1 = sum;
    }

    /// Records one more sample of the second reference capacitor, as
    /// `accumulate_cref1` does for the first.
    pub fn accumulate_cref2(&mut self, sum: u64)
        ensures
            *final(self) == (TEeprom {
                c: Capacitance {
                    cref2: sum,
                    n_cref2: spec_next_count(old(self).c.n_cref2),
                    ..old(self).c
                },
                ..*old(self)
            }),
    {
        self.c.n_cref2 = next_count(self.c.n_cref2);
        self.c.cref2 = sum;
    }

    /// Records one more C0 / L0 sample pair: `c0` and `l0` are the new sums
    /// (the samples alone when `starts_over(self.l.n_c0_l0)`) and the common
    /// count advances.
    pub fn accumulate_c0_l0(&mut self, c0: u64, l0: u64)
        ensures
            *final(self) == (TEeprom {
                l: Inductance { c0, l0, n_c0_l0: spec_next_count(old(self).l.n_c0_l0) },
                ..*old(self)
            }),
    {
        self.l = Inductance { c0, l0, n_c0_l0: next_count(self.l.n_c0_l0) };
    }
}

impl TEeprom {
    /// The quartz measurement capacitances: Cq, Cs, first and second
    /// reference (bits of `f64`).
    pub fn quartz_crefs(&self) -> (r: (u64, u64, u64, u64))
        ensures
            r == (self.q.cq, self.q.cswitch, self.q.cref1, self.q.cref2),
    {
        (self.q.cq, self.q.cswitch, self.q.cref1, self.q.cref2)
    }

    /// Stores the capacitance `cref` (bits of `f64`) in quartz slot `slot`;
    /// nothing else changes.
    pub fn set_quartz_cref(&mut self, slot: QuartzSlot, cref: u64)
        ensures
            *final(self) == (TEeprom { q: spec_set_quartz(old(self).q, slot, cref), ..*old(self) }),
    {
        match slot {
            QuartzSlot::Cq => self.q.cq = cref,
            QuartzSlot::Cswitch => self.q.cswitch = cref,
            QuartzSlot::Cref1 => self.q.cref1 = cref,
            QuartzSlot::Cref2 => self.q.cref2 = cref,
        }
    }

    /// Files a capacitance measured for the quartz measurement where the
    /// operator's answer says: "1" Cq, "2" Cs, "3" first reference, "4"
    /// second reference; any other answer leaves the record as it is.
    pub fn file_quartz_cref(&mut self, answer: &String, cref: u64)
        ensures
            answer@ == "1"@ ==> *final(self) == (TEeprom {
                q: Quartz { cq: cref, ..old(self).q },
                ..*old(self)
            }),
            answer@ == "2"@ ==> *final(self) == (TEeprom {
                q: Quartz { cswitch: cref, ..old(self).q },
                ..*old(self)
            }),
            answer@ == "3"@ ==> *final(self) == (TEeprom {
                q: Quartz { cref1: cref, ..old(self).q },
                ..*old(self)
            }),
            answer@ == "4"@ ==> *final(self) == (TEeprom {
                q: Quartz { cref2: cref, ..old(self).q },
                ..*old(self)
            }),
            answer@ != "1"@ && answer@ != "2"@ && answer@ != "3"@ && answer@ != "4"@
                ==> *final(self) == *old(self),
    {
        if let Some(slot) = quartz_cref_choice(answer) {
            self.set_quartz_cref(slot, cref);
        }
    }
}

/// `q` with the capacitance in slot `slot` replaced by `cref`.
pub open spec fn spec_set_quartz(q: Quartz, slot: QuartzSlot, cref: u64) -> Quartz {
    match slot {
        QuartzSlot::Cq => Quartz { cq: cref, ..q },
        QuartzSlot::Cswitch => Quartz { cswitch: cref, ..q },
        QuartzSlot::Cref1 => Quartz { cref1: cref, ..q },
        QuartzSlot::Cref2 => Quartz { cref2: cref, ..q },
    }
}

// ---------------------------------------------------------------------------
// The layout, field by field
// ---------------------------------------------------------------------------

/// Byte `i` of a word is the word's `i`-th digit in base 256.
proof fn lemma_word_byte_digits(v: u64)
    ensures
        word_byte(v, 0) as int == (v as int / 1) % 256,
        word_byte(v, 1) as int == (v as int / 256) % 256,
        word_byte(v, 2) as int == (v as int / 65536) % 256,
        word_byte(v, 3) as int == (v as int / 16777216) % 256,
        word_byte(v, 4) as int == (v as int / 4294967296) % 256,
        word_byte(v, 5) as int == (v as int / 1099511627776) % 256,
        word_byte(v, 6) as int == (v as int / 281474976710656) % 256,
        word_byte(v, 7) as int == (v as int / 72057594037927936) % 256,
{
    assert(((v >> 0u64) & 0xffu64) as u8 as u64 == (v / 1u64) % 256u64) by (bit_vector);
    assert(word_byte(v, 0) == ((v >> 0u64) & 0xffu64) as u8);
    assert(((v >> 8u64) & 0xffu64) as u8 as u64 == (v / 256u64) % 256u64) by (bit_vector);
    assert(word_byte(v, 1) == ((v >> 8u64) & 0xffu64) as u8);
    assert(((v >> 16u64) & 0xffu64) as u8 as u64 == (v / 65536u64) % 256u64) by (bit_vector);
    assert(word_byte(v, 2) == ((v >> 16u64) & 0xffu64) as u8);
    assert(((v >> 24u64) & 0xffu64) as u8 as u64 == (v / 16777216u64) % 256u64) by (bit_vector);
    assert(word_byte(v, 3) == ((v >> 24u64) & 0xffu64) as u8);
    assert(((v >> 32u64) & 0xffu64) as u8 as u64 == (v / 4294967296u64) % 256u64) by (bit_vector);
    assert(word_byte(v, 4) == ((v >> 32u64) & 0xffu64) as u8);
    assert(((v >> 40u64) & 0xffu64) as u8 as u64 == (v / 1099511627776u64) % 256u64) by (bit_vector);
    assert(word_byte(v, 5) == ((v >> 40u64) & 0xffu64) as u8);
    assert(((v >> 48u64) & 0xffu64) as u8 as u64 == (v / 281474976710656u64) % 256u64) by (bit_vector);
    assert(word_byte(v, 6) == ((v >> 48u64) & 0xffu64) as u8);
    assert(((v >> 56u64) & 0xffu64) as u8 as u64 == (v / 72057594037927936u64) % 256u64) by (bit_vector);
    assert(word_byte(v, 7) == ((v >> 56u64) & 0xffu64) as u8);
}

/// Eight bytes, least significant first, make the word with those base-256
/// digits.
proof fn lemma_word_from_digits(b0: u8, b1: u8, b2: u8, b3: u8, b4: u8, b5: u8, b6: u8, b7: u8)
    ensures
        word_from_bytes(b0, b1, b2, b3, b4, b5, b6, b7) as int == b0 + 256 * b1 + 65536 * b2
            + 16777216 * b3 + 4294967296 * b4 + 1099511627776 * b5 + 281474976710656 * b6
            + 72057594037927936 * b7,
{
    assert((b0 as u64) | ((b1 as u64) << 8u64) | ((b2 as u64) << 16u64) | ((b3 as u64) << 24u64)
        | ((b4 as u64) << 32u64) | ((b5 as u64) << 40u64) | ((b6 as u64) << 48u64) | ((b7 as u64)
        << 56u64) == (b0 as u64) + 256u64 * (b1 as u64) + 65536u64 * (b2 as u64) + 16777216u64
        * (b3 as u64) + 4294967296u64 * (b4 as u64) + 1099511627776u64 * (b5 as u64)
        + 281474976710656u64 * (b6 as u64) + 72057594037927936u64 * (b7 as u64)) by (bit_vector);
}

/// Where each field goes in the EEPROM: every 8-byte field is stored least
/// significant byte first, byte `i` (the field's `i`-th digit in base 256)
/// at the field's address plus `i`; every count is stored as is at its
/// address.  The addresses are 0, 8 (count 16), 17, 25 (count 33), 34
/// (count 42), 43 (count 51).
pub proof fn lemma_stored_layout(e: TEeprom)
    ensures
        e.stored_byte(0) as int == (e.freq.frequency_periode as int / 1) % 256,
        e.stored_byte(1) as int == (e.freq.frequency_periode as int / 256) % 256,
        e.stored_byte(2) as int == (e.freq.frequency_periode as int / 65536) % 256,
        e.stored_byte(3) as int == (e.freq.frequency_periode as int / 16777216) % 256,
        e.stored_byte(4) as int == (e.freq.frequency_periode as int / 4294967296) % 256,
        e.stored_byte(5) as int == (e.freq.frequency_periode as int / 1099511627776) % 256,
        e.stored_byte(6) as int == (e.freq.frequency_periode as int / 281474976710656) % 256,
        e.stored_byte(7) as int == (e.freq.frequency_periode as int / 72057594037927936) % 256,
        e.stored_byte(8) as int == (e.freq.frequency_calibration_temperature as int / 1) % 256,
        e.stored_byte(9) as int == (e.freq.frequency_calibration_temperature as int / 256) % 256,
        e.stored_byte(10) as int == (e.freq.frequency_calibration_temperature as int / 65536) % 256,
        e.stored_byte(11) as int == (e.freq.frequency_calibration_temperature as int / 16777216) % 256,
        e.stored_byte(12) as int == (e.freq.frequency_calibration_temperature as int / 4294967296) % 256,
        e.stored_byte(13) as int == (e.freq.frequency_calibration_temperature as int / 1099511627776) % 256,
        e.stored_byte(14) as int == (e.freq.frequency_calibration_temperature as int / 281474976710656) % 256,
        e.stored_byte(15) as int == (e.freq.frequency_calibration_temperature as int / 72057594037927936) % 256,
        e.stored_byte(17) as int == (e.l.c0 as int / 1) % 256,
        e.stored_byte(18) as int == (e.l.c0 as int / 256) % 256,
        e.stored_byte(19) as int == (e.l.c0 as int / 65536) % 256,
        e.stored_byte(20) as int == (e.l.c0 as int / 16777216) % 256,
        e.stored_byte(21) as int == (e.l.c0 as int / 4294967296) % 256,
        e.stored_byte(22) as int == (e.l.c0 as int / 1099511627776) % 256,
        e.stored_byte(23) as int == (e.l.c0 as int / 281474976710656) % 256,
        e.stored_byte(24) as int == (e.l.c0 as int / 72057594037927936) % 256,
        e.stored_byte(25) as int == (e.l.l0 as int / 1) % 256,
        e.stored_byte(26) as int == (e.l.l0 as int / 256) % 256,
        e.stored_byte(27) as int == (e.l.l0 as int / 65536) % 256,
        e.stored_byte(28) as int == (e.l.l0 as int / 16777216) % 256,
        e.stored_byte(29) as int == (e.l.l0 as int / 4294967296) % 256,
        e.stored_byte(30) as int == (e.l.l0 as int / 1099511627776) % 256,
        e.stored_byte(31) as int == (e.l.l0 as int / 281474976710656) % 256,
        e.stored_byte(32) as int == (e.l.l0 as int / 72057594037927936) % 256,
        e.stored_byte(34) as int == (e.c.cref1 as int / 1) % 256,
        e.stored_byte(35) as int == (e.c.cref1 as int / 256) % 256,
        e.stored_byte(36) as int == (e.c.cref1 as int / 65536) % 256,
        e.stored_byte(37) as int == (e.c.cref1 as int / 16777216) % 256,
        e.stored_byte(38) as int == (e.c.cref1 as int / 4294967296) % 256,
        e.stored_byte(39) as int == (e.c.cref1 as int / 1099511627776) % 256,
        e.stored_byte(40) as int == (e.c.cref1 as int / 281474976710656) % 256,
        e.stored_byte(41) as int == (e.c.cref1 as int / 72057594037927936) % 256,
        e.stored_byte(43) as int == (e.c.cref2 as int / 1) % 256,
        e.stored_byte(44) as int == (e.c.cref2 as int / 256) % 256,
        e.stored_byte(45) as int == (e.c.cref2 as int / 65536) % 256,
        e.stored_byte(46) as int == (e.c.cref2 as int / 16777216) % 256,
        e.stored_byte(47) as int == (e.c.cref2 as int / 4294967296) % 256,
        e.stored_byte(48) as int == (e.c.cref2 as int / 1099511627776) % 256,
        e.stored_byte(49) as int == (e.c.cref2 as int / 281474976710656) % 256,
        e.stored_byte(50) as int == (e.c.cref2 as int / 72057594037927936) % 256,
        e.stored_byte(16) == e.freq.frequency_calibration_count,
        e.stored_byte(33) == e.l.n_c0_l0,
        e.stored_byte(42) == e.c.n_cref1,
        e.stored_byte(51) == e.c.n_cref2,
{
    lemma_word_byte_digits(e.freq.frequency_periode);
    lemma_word_byte_digits(e.freq.frequency_calibration_temperature);
    lemma_word_byte_digits(e.l.c0);
    lemma_word_byte_digits(e.l.l0);
    lemma_word_byte_digits(e.c.cref1);
    lemma_word_byte_digits(e.c.cref2);
}

/// How each field is read from the EEPROM: every 8-byte field is the number
/// whose base-256 digits, least significant first, are the eight bytes from
/// the field's address; every count is the byte at its address.  The
/// quartz capacitances are not read.
pub proof fn lemma_read_layout(base: TEeprom, image: Seq<u8>)
    requires
        image.len() >= 52,
    ensures
        base.spec_read(image).freq.frequency_periode as int == image[0] + 256 * image[1] + 65536 * image[2] + 16777216 * image[3] + 4294967296 * image[4] + 1099511627776 * image[5] + 281474976710656 * image[6] + 72057594037927936 * image[7],
        base.spec_read(image).freq.frequency_calibration_temperature as int == image[8] + 256 * image[9] + 65536 * image[10] + 16777216 * image[11] + 4294967296 * image[12] + 1099511627776 * image[13] + 281474976710656 * image[14] + 72057594037927936 * image[15],
        base.spec_read(image).l.c0 as int == image[17] + 256 * image[18] + 65536 * image[19] + 16777216 * image[20] + 4294967296 * image[21] + 1099511627776 * image[22] + 281474976710656 * image[23] + 72057594037927936 * image[24],
        base.spec_read(image).l.l0 as int == image[25] + 256 * image[26] + 65536 * image[27] + 16777216 * image[28] + 4294967296 * image[29] + 1099511627776 * image[30] + 281474976710656 * image[31] + 72057594037927936 * image[32],
        base.spec_read(image).c.cref1 as int == image[34] + 256 * image[35] + 65536 * image[36] + 16777216 * image[37] + 4294967296 * image[38] + 1099511627776 * image[39] + 281474976710656 * image[40] + 72057594037927936 * image[41],
        base.spec_read(image).c.cref2 as int == image[43] + 256 * image[44] + 65536 * image[45] + 16777216 * image[46] + 4294967296 * image[47] + 1099511627776 * image[48] + 281474976710656 * image[49] + 72057594037927936 * image[50],
        base.spec_read(image).freq.frequency_calibration_count == image[16],
        base.spec_read(image).l.n_c0_l0 == image[33],
        base.spec_read(image).c.n_cref1 == image[42],
        base.spec_read(image).c.n_cref2 == image[51],
        base.spec_read(image).q == base.q,
{
    lemma_word_from_digits(image[0], image[1], image[2], image[3], image[4], image[5], image[6], image[7]);
    lemma_word_from_digits(image[8], image[9], image[10], image[11], image[12], image[13], image[14], image[15]);
    lemma_word_from_digits(image[17], image[18], image[19], image[20], image[21], image[22], image[23], image[24]);
    lemma_word_from_digits(image[25], image[26], image[27], image[28], image[29], image[30], image[31], image[32]);
    lemma_word_from_digits(image[34], image[35], image[36], image[37], image[38], image[39], image[40], image[41]);
    lemma_word_from_digits(image[43], image[44], image[45], image[46], image[47], image[48], image[49], image[50]);
}

/// The byte writes that store a record: 52 writes, the frequency block
/// (addresses 0 to 16) first, then the reference capacitors (34 to 51), then
/// C0 / L0 (17 to 33), each address in increasing order within its block,
/// each write carrying the byte the record puts at its address.
pub proof fn lemma_write_order(e: TEeprom)
    ensures
        e.spec_write().len() == 52,
        forall|k: int| 0 <= k < 17 ==> #[trigger] e.spec_write()[k].0 == k,
        forall|k: int| 17 <= k < 35 ==> #[trigger] e.spec_write()[k].0 == k + 17,
        forall|k: int| 35 <= k < 52 ==> #[trigger] e.spec_write()[k].0 == k - 18,
        forall|k: int|
            0 <= k < 52 ==> #[trigger] e.spec_write()[k].1 == e.stored_byte(e.spec_write()[k].0 as int),
{
}

/// A word at an address is the number whose base-256 digits, least
/// significant first, are the eight bytes from that address; writing a word
/// puts its `i`-th base-256 digit at the address plus `i`, in increasing
/// address order.
pub proof fn lemma_word_layout(image: Seq<u8>, a: int, address: u8, v: u64)
    requires
        0 <= a,
        a + 8 <= image.len(),
        address <= 248,
    ensures
        word_at(image, a) as int == image[a] + 256 * image[a + 1] + 65536 * image[a + 2]
            + 16777216 * image[a + 3] + 4294967296 * image[a + 4] + 1099511627776 * image[a + 5]
            + 281474976710656 * image[a + 6] + 72057594037927936 * image[a + 7],
        spec_word_writes(address, v).len() == 8,
        forall|i: int| 0 <= i < 8 ==> #[trigger] spec_word_writes(address, v)[i].0 == address + i,
        spec_word_writes(address, v)[0].1 as int == v as int % 256,
        spec_word_writes(address, v)[1].1 as int == (v as int / 256) % 256,
        spec_word_writes(address, v)[2].1 as int == (v as int / 65536) % 256,
        spec_word_writes(address, v)[3].1 as int == (v as int / 16777216) % 256,
        spec_word_writes(address, v)[4].1 as int == (v as int / 4294967296) % 256,
        spec_word_writes(address, v)[5].1 as int == (v as int / 1099511627776) % 256,
        spec_word_writes(address, v)[6].1 as int == (v as int / 281474976710656) % 256,
        spec_word_writes(address, v)[7].1 as int == (v as int / 72057594037927936) % 256,
{
    lemma_word_from_digits(
        image[a],
        image[a + 1],
        image[a + 2],
        image[a + 3],
        image[a + 4],
        image[a + 5],
        image[a + 6],
        image[a + 7],
    );
    lemma_word_byte_digits(v);
}

/// Erasing: an erased byte is 0xFF, an erased word has every bit set, and
/// clearing writes 0xFF to each of the addresses 0 to 127, in increasing
/// order.
pub proof fn lemma_erasing()
    ensures
        ERASED_BYTE == 255,
        ERASED_WORD == 0xFFFF_FFFF_FFFF_FFFFu64,
        spec_clear().len() == 128,
        forall|i: int| 0 <= i < 128 ==> #[trigger] spec_clear()[i] == (i as u8, 255u8),
{
}

/// The sample-count rule: a count of 0 or 255 starts over at 1; any other
/// count goes up by one.
pub proof fn lemma_sample_count_rule(n: u8)
    ensures
        spec_starts_over(n) <==> (n == 0 || n == 255),
        (n == 0 || n == 255) ==> spec_next_count(n) == 1,
        (n != 0 && n != 255) ==> spec_next_count(n) == n + 1,
{
}

/// Filing a quartz capacitance replaces exactly the slot named and keeps
/// the other three.
pub proof fn lemma_set_quartz(q: Quartz, slot: QuartzSlot, cref: u64)
    ensures
        spec_set_quartz(q, slot, cref).cq == (if slot == QuartzSlot::Cq {
            cref
        } else {
            q.cq
        }),
        spec_set_quartz(q, slot, cref).cswitch == (if slot == QuartzSlot::Cswitch {
            cref
        } else {
            q.cswitch
        }),
        spec_set_quartz(q, slot, cref).cref1 == (if slot == QuartzSlot::Cref1 {
            cref
        } else {
            q.cref1
        }),
        spec_set_quartz(q, slot, cref).cref2 == (if slot == QuartzSlot::Cref2 {
            cref
        } else {
            q.cref2
        }),
{
}

} // verus!
