use crate::musical_time::{lemma_from_view, lemma_view_determines, MusicalTime, SUPER_UNITS};
use crate::superclock_time::{lemma_superclock_from_view, lemma_superclock_view_determines};
use crate::superclock_time::{SuperclockTime, SUPERCLOCK_TICKS_PER_SECOND};
use std::sync::atomic::{AtomicU64, Ordering};
use vstd::prelude::*;

verus! {

/// A `MusicalTime` that one thread may write and others read without a lock.
///
/// The beats and super-beats share one atomic word, so a reader never sees the beats
/// of one write with the super-beats of another.
pub struct AtomicMusicalTime {
    atomic: AtomicU64,
}

/// A `SuperclockTime` that one thread may write and others read without a lock.
///
/// The seconds and ticks share one atomic word, so a reader never sees the seconds of
/// one write with the ticks of another.
pub struct AtomicSuperclockTime {
    atomic: AtomicU64,
}

/// The 64-bit word that holds `v1` in its low half and `v2` in its high half.
pub open spec fn packed_word(v1: u32, v2: u32) -> u64 {
    (v1 as u64) | ((v2 as u64) << 32)
}

/// The low and high halves of a 64-bit word, low half first.
pub open spec fn unpacked_pair(v: u64) -> (u32, u32) {
    ((v & 0xFFFF_FFFF) as u32, (v >> 32) as u32)
}

/// Packs two 32-bit values into one 64-bit word.
pub fn u32x2_to_u64(v1: u32, v2: u32) -> (word: u64)
    ensures
        word == packed_word(v1, v2),
        unpacked_pair(word) == (v1, v2),
{
    let lo: u64 = v1 as u64;
    let hi: u64 = v2 as u64;
    proof {
        lemma_unpack_pack(v1, v2);
    }
    lo | (hi << 32)
}

/// Splits a 64-bit word into the two 32-bit values it was packed from.
pub fn u64_to_u32x2(v: u64) -> (pair: (u32, u32))
    ensures
        pair == unpacked_pair(v),
        packed_word(pair.0, pair.1) == v,
{
    proof {
        lemma_pack_unpack(v);
    }
    ((v & 0xFFFF_FFFF) as u32, (v >> 32) as u32)
}

/// Unpacking a packed pair gives the pair back.
pub proof fn lemma_unpack_pack(v1: u32, v2: u32)
    ensures
        unpacked_pair(packed_word(v1, v2)) == (v1, v2),
{
    let lo = v1 as u64;
    let hi = v2 as u64;
    assert(((lo | (hi << 32)) & 0xFFFF_FFFF) == lo && ((lo | (hi << 32)) >> 32) == hi) by (bit_vector)
        requires
            lo <= 0xFFFF_FFFF,
            hi <= 0xFFFF_FFFF,
    ;
}

/// Packing the two halves of a word gives the word back.
pub proof fn lemma_pack_unpack(v: u64)
    ensures
        packed_word(unpacked_pair(v).0, unpacked_pair(v).1) == v,
{
    let lo = v & 0xFFFF_FFFF;
    let hi = v >> 32;
    assert(lo <= 0xFFFF_FFFF && hi <= 0xFFFF_FFFF && (lo | (hi << 32)) == v) by (bit_vector)
        requires
            lo == v & 0xFFFF_FFFF,
            hi == v >> 32,
    ;
}

/// The word that publishes a musical time: its beats in the low half, its super-beats
/// in the high half.
pub open spec fn musical_time_word(t: MusicalTime) -> u64 {
    packed_word((t@ / (SUPER_UNITS as nat)) as u32, (t@ % (SUPER_UNITS as nat)) as u32)
}

/// The musical time that a word publishes: the low half as beats, the high half as
/// super-beats, held to at most `SUPER_UNITS - 1`.
pub open spec fn word_musical_time(v: u64) -> MusicalTime {
    let (beats, super_beats) = unpacked_pair(v);
    MusicalTime::from_view(
        (beats * SUPER_UNITS + if super_beats < SUPER_UNITS {
            super_beats as int
        } else {
            SUPER_UNITS - 1
        }) as nat,
    )
}

/// The word that publishes a superclock time: its seconds in the low half, its ticks in
/// the high half.
pub open spec fn superclock_time_word(t: SuperclockTime) -> u64 {
    packed_word(
        (t@ / (SUPERCLOCK_TICKS_PER_SECOND as nat)) as u32,
        (t@ % (SUPERCLOCK_TICKS_PER_SECOND as nat)) as u32,
    )
}

/// The superclock time that a word publishes: the low half as seconds, the high half as
/// ticks, held to at most `SUPERCLOCK_TICKS_PER_SECOND - 1`.
pub open spec fn word_superclock_time(v: u64) -> SuperclockTime {
    let (seconds, ticks) = unpacked_pair(v);
    SuperclockTime::from_view(
        (seconds * SUPERCLOCK_TICKS_PER_SECOND + if ticks < SUPERCLOCK_TICKS_PER_SECOND {
            ticks as int
        } else {
            SUPERCLOCK_TICKS_PER_SECOND - 1
        }) as nat,
    )
}

/// The word that publishes `musical_time`.
pub fn musical_time_to_word(musical_time: MusicalTime) -> (word: u64)
    ensures
        word == musical_time_word(musical_time),
{
    u32x2_to_u64(musical_time.beats(), musical_time.ticks())
}

/// The musical time that `word` publishes.
pub fn musical_time_from_word(word: u64) -> (t: MusicalTime)
    ensures
        t.wf(),
        t == word_musical_time(word),
{
    let (beats, super_beats) = u64_to_u32x2(word);
    let t = MusicalTime::new(beats, super_beats);
    proof {
        lemma_from_view(t@);
        lemma_view_determines(t, word_musical_time(word));
    }
    t
}

/// The word that publishes `superclock_time`.
pub fn superclock_time_to_word(superclock_time: SuperclockTime) -> (word: u64)
    ensures
        word == superclock_time_word(superclock_time),
{
    u32x2_to_u64(superclock_time.seconds(), superclock_time.ticks())
}

/// The superclock time that `word` publishes.
pub fn superclock_time_from_word(word: u64) -> (t: SuperclockTime)
    ensures
        t.wf(),
        t == word_superclock_time(word),
{
    let (seconds, ticks) = u64_to_u32x2(word);
    let t = SuperclockTime::new(seconds, ticks);
    proof {
        lemma_superclock_from_view(t@);
        lemma_superclock_view_determines(t, word_superclock_time(word));
    }
    t
}

/// A musical time that is published as a word and read back is unchanged.
pub proof fn lemma_musical_time_word_round_trip(t: MusicalTime)
    requires
        t.wf(),
    ensures
        word_musical_time(musical_time_word(t)) == t,
{
    lemma_view_determines(t, t);
    let beats = (t@ / (SUPER_UNITS as nat)) as u32;
    let super_beats = (t@ % (SUPER_UNITS as nat)) as u32;
    lemma_unpack_pack(beats, super_beats);
    lemma_from_view(t@);
    lemma_view_determines(t, MusicalTime::from_view(t@));
}

/// A superclock time that is published as a word and read back is unchanged.
pub proof fn lemma_superclock_time_word_round_trip(t: SuperclockTime)
    requires
        t.wf(),
    ensures
        word_superclock_time(superclock_time_word(t)) == t,
{
    lemma_superclock_view_determines(t, t);
    let seconds = (t@ / (SUPERCLOCK_TICKS_PER_SECOND as nat)) as u32;
    let ticks = (t@ % (SUPERCLOCK_TICKS_PER_SECOND as nat)) as u32;
    lemma_unpack_pack(seconds, ticks);
    lemma_superclock_from_view(t@);
    lemma_superclock_view_determines(t, SuperclockTime::from_view(t@));
}

impl AtomicMusicalTime {
    /// A cell that holds `musical_time`.
    pub fn new(musical_time: MusicalTime) -> AtomicMusicalTime {
        AtomicMusicalTime { atomic: AtomicU64::new(musical_time_to_word(musical_time)) }
    }

    /// The time that the cell holds at the moment of the load.
    pub fn get(&self, order: Ordering) -> (t: MusicalTime)
        requires
            order != Ordering::Release,
            order != Ordering::AcqRel,
        ensures
            t.wf(),
    {
        musical_time_from_word(self.atomic.load(order))
    }

    /// Stores `musical_time` in the cell.
    pub fn set(&self, musical_time: MusicalTime, order: Ordering)
        requires
            order != Ordering::Acquire,
            order != Ordering::AcqRel,
    {
        self.atomic.store(musical_time_to_word(musical_time), order)
    }

    /// Stores `musical_time` in the cell and returns the time that it held before.
    pub fn swap(&self, musical_time: MusicalTime, order: Ordering) -> (t: MusicalTime)
        ensures
            t.wf(),
    {
        musical_time_from_word(self.atomic.swap(musical_time_to_word(musical_time), order))
    }
}

impl Default for AtomicMusicalTime {
    /// A cell that holds the start of musical time.
    fn default() -> AtomicMusicalTime {
        AtomicMusicalTime::new(MusicalTime::default())
    }
}

impl AtomicSuperclockTime {
    /// A cell that holds `superclock_time`.
    pub fn new(superclock_time: SuperclockTime) -> AtomicSuperclockTime {
        AtomicSuperclockTime { atomic: AtomicU64::new(superclock_time_to_word(superclock_time)) }
    }

    /// The time that the cell holds at the moment of the load.
    pub fn get(&self, order: Ordering) -> (t: SuperclockTime)
        requires
            order != Ordering::Release,
            order != Ordering::AcqRel,
        ensures
            t.wf(),
    {
        superclock_time_from_word(self.atomic.load(order))
    }

    /// Stores `superclock_time` in the cell.
    pub fn set(&self, superclock_time: SuperclockTime, order: Ordering)
        requires
            order != Ordering::Acquire,
            order != Ordering::AcqRel,
    {
        self.atomic.store(superclock_time_to_word(superclock_time), order)
    }

    /// Stores `superclock_time` in the cell and returns the time that it held before.
    pub fn swap(&self, superclock_time: SuperclockTime, order: Ordering) -> (t: SuperclockTime)
        ensures
            t.wf(),
    {
        superclock_time_from_word(self.atomic.swap(superclock_time_to_word(superclock_time), order))
    }
}

impl Default for AtomicSuperclockTime {
    /// A cell that holds a length of zero.
    fn default() -> AtomicSuperclockTime {
        AtomicSuperclockTime::new(SuperclockTime::default())
    }
}

} // verus!
