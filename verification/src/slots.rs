//! Slots and slot ranges: the unit of sharding. A key hashes to a slot in
//! `[0, 16384)` (CRC16/XMODEM of the key, or of its curly-brace hash tag,
//! reduced modulo the slot count), and each backend owns a set of half-open
//! slot ranges, each tagged stable, importing or migrating.

use vstd::prelude::*;
use vstd::slice::slice_subrange;

verus! {

/// Number of slots a database's key space is divided into.
pub const SLOT_COUNT: u16 = 16384;

/// The migration half a tagged range names: the peer backend, the task and
/// the epoch the task was minted at.
pub struct MigrationMeta {
    pub peer: Vec<u8>,
    pub task_id: u64,
    pub epoch: u64,
}

/// How a range takes part in migration.
pub enum SlotRangeTag {
    Stable,
    Importing(MigrationMeta),
    Migrating(MigrationMeta),
}

/// A half-open interval `[start, end)` of slots with its migration tag.
pub struct SlotRange {
    pub start: u16,
    pub end: u16,
    pub tag: SlotRangeTag,
}

/// `slot` lies in the half-open range.
pub open spec fn range_contains(r: SlotRange, slot: u16) -> bool {
    r.start <= slot < r.end
}

impl SlotRange {
    /// Decide membership of a slot.
    pub fn contains(&self, slot: u16) -> (r: bool)
        ensures
            r == range_contains(*self, slot),
    {
        self.start <= slot && slot < self.end
    }
}

/// One round of the CRC16/XMODEM shift register.
pub open spec fn crc16_round(crc: u16) -> u16 {
    if crc & 0x8000 != 0 {
        (crc << 1) ^ 0x1021
    } else {
        crc << 1
    }
}

/// `k` rounds of the shift register.
pub open spec fn crc16_rounds(crc: u16, k: nat) -> u16
    decreases k,
{
    if k == 0 {
        crc
    } else {
        crc16_rounds(crc16_round(crc), (k - 1) as nat)
    }
}

/// Fold one byte into the register.
pub open spec fn crc16_byte(crc: u16, b: u8) -> u16 {
    crc16_rounds(crc ^ ((b as u16) << 8), 8)
}

/// The register after the first `i` bytes of `s`, starting from zero.
pub open spec fn crc16_prefix(s: Seq<u8>, i: int) -> u16
    decreases i,
{
    if i <= 0 {
        0
    } else {
        crc16_byte(crc16_prefix(s, i - 1), s[i - 1])
    }
}

/// CRC16/XMODEM of a byte sequence.
pub open spec fn crc16_of(s: Seq<u8>) -> u16 {
    crc16_prefix(s, s.len() as int)
}

/// Compute CRC16/XMODEM.
pub fn crc16(s: &[u8]) -> (r: u16)
    ensures
        r == crc16_of(s@),
{
    let mut crc: u16 = 0;
    let mut i: usize = 0;
    while i < s.len()
        invariant
            i <= s@.len(),
            crc == crc16_prefix(s@, i as int),
        decreases s@.len() - i,
    {
        crc = crc ^ ((s[i] as u16) << 8u16);
        let mut k: usize = 0;
        while k < 8
            invariant
                k <= 8,
                crc == crc16_rounds(crc16_prefix(s@, i as int) ^ ((s@[i as int] as u16) << 8), (
                k as nat)),
            decreases 8 - k,
        {
            proof {
                assert(crc16_rounds(crc16_prefix(s@, i as int) ^ ((s@[i as int] as u16) << 8), (k
                    + 1) as nat) == crc16_round(crc)) by {
                    lemma_crc16_rounds_unfold(
                        crc16_prefix(s@, i as int) ^ ((s@[i as int] as u16) << 8),
                        (k + 1) as nat,
                    );
                }
            }
            if crc & 0x8000 != 0 {
                crc = (crc << 1u16) ^ 0x1021;
            } else {
                crc = crc << 1u16;
            }
            k += 1;
        }
        i += 1;
    }
    crc
}

/// Unfold `crc16_rounds` from the back: `k + 1` rounds are `k` rounds
/// followed by one.
proof fn lemma_crc16_rounds_unfold(crc: u16, k: nat)
    requires
        k > 0,
    ensures
        crc16_rounds(crc, k) == crc16_round(crc16_rounds(crc, (k - 1) as nat)),
    decreases k,
{
    if k > 1 {
        lemma_crc16_rounds_unfold(crc16_round(crc), (k - 1) as nat);
    } else {
        assert(crc16_rounds(crc, 1) == crc16_rounds(crc16_round(crc), 0));
    }
}

/// First position of `b` in `s` at or after `from`, if any.
pub open spec fn first_at(s: Seq<u8>, b: u8, from: int) -> Option<int>
    decreases s.len() - from,
{
    if from < 0 || from >= s.len() {
        None
    } else if s[from] == b {
        Some(from)
    } else {
        first_at(s, b, from + 1)
    }
}

/// Find the first position of `b` in `s` at or after `from`.
pub fn find_byte(s: &[u8], b: u8, from: usize) -> (r: Option<usize>)
    ensures
        match r {
            Some(i) => first_at(s@, b, from as int) == Some(i as int),
            None => first_at(s@, b, from as int) is None,
        },
    decreases s@.len() - from,
{
    if from >= s.len() {
        None
    } else if s[from] == b {
        Some(from)
    } else {
        find_byte(s, b, from + 1)
    }
}

/// The part of the key that is hashed: the inside of the first curly-brace
/// pair when it is non-empty, the whole key otherwise.
pub open spec fn hashed_part(key: Seq<u8>) -> Seq<u8> {
    match first_at(key, 123, 0) {
        None => key,
        Some(i) => match first_at(key, 125, i + 1) {
            None => key,
            Some(j) => if j == i + 1 {
                key
            } else {
                key.subrange(i + 1, j)
            },
        },
    }
}

/// The slot a key belongs to.
pub open spec fn slot_of(key: Seq<u8>) -> u16 {
    crc16_of(hashed_part(key)) % SLOT_COUNT
}

/// Compute the slot of a key.
pub fn key_slot(key: &[u8]) -> (r: u16)
    ensures
        r == slot_of(key@),
        r < SLOT_COUNT,
{
    let key_len = key.len();
    let part: &[u8] = match find_byte(key, 123, 0) {
        None => key,
        Some(i) => {
            proof {
                lemma_first_at_bounds(key@, 123, 0);
                assert(i < key_len);
            }
            match find_byte(key, 125, i + 1) {
                None => key,
                Some(j) => {
                    if j == i + 1 {
                        key
                    } else {
                        proof {
                            lemma_first_at_bounds(key@, 125, i + 1);
                        }
                        slice_subrange(key, i + 1, j)
                    }
                },
            }
        },
    };
    crc16(part) % SLOT_COUNT
}

/// A found position lies within the sequence, at or after the start.
proof fn lemma_first_at_bounds(s: Seq<u8>, b: u8, from: int)
    requires
        first_at(s, b, from) is Some,
    ensures
        from <= first_at(s, b, from)->Some_0 < s.len(),
    decreases s.len() - from,
{
    if !(from < 0 || from >= s.len()) && s[from] != b {
        lemma_first_at_bounds(s, b, from + 1);
    }
}

} // verus!
