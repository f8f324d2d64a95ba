use std::marker::PhantomData;
use vstd::prelude::*;

use crate::layout::{fits, layout_laws, pair_lt, Epoch, Layout};
use crate::snowflake::Snowflake;

verus! {

/// Bits of a classic snowflake that hold the timestamp.
const TIMESTAMP_BITS: u64 = 41;

/// Bits of a classic snowflake that hold the machine ID.
const MACHINE_ID_BITS: u64 = 10;

/// Bits of a classic snowflake that hold the sequence number.
const SEQUENCE_NUMBER_BITS: u64 = 12;

/// The timestamp bits, which stand right behind the leading zero bit.
const TIMESTAMP_MASK: u64 = 0x7FFF_FFFF_FFC0_0000;

/// The machine ID bits, between the timestamp and the sequence number.
const MACHINE_ID_MASK: u64 = 0x3F_F000;

/// The sequence number bits, at the low end.
const SEQUENCE_NUMBER_MASK: u64 = 0xFFF;

/// The constant machine ID of a snowflake generating instance.
pub trait MachineId {
    /// The machine ID. A verified implementation defines it; the default body lets
    /// implementations in ordinary Rust leave it out.
    open spec fn spec_machine_id() -> u64 {
        arbitrary()
    }

    /// Returns this machine's unique ID. It must never change while the instance runs.
    fn machine_id() -> (r: u64)
        ensures
            r == Self::spec_machine_id(),
    ;
}

/// The classic snowflake layout: a leading `0` bit, 41 bits of timestamp in milliseconds, 10
/// bits of machine ID and 12 bits of sequence number. The leading `0` keeps snowflakes ordered
/// when they are read as signed 64-bit integers.
#[derive(Debug)]
pub struct ClassicLayout<I: MachineId> {
    _marker: PhantomData<I>,
}

/// The classic snowflake built from a timestamp, a machine ID and a sequence number.
pub open spec fn classic_snowflake(timestamp: u64, machine_id: u64, sequence_number: u64) -> u64 {
    (timestamp << 22u64) | (machine_id << 12u64) | sequence_number
}

/// The machine ID stored in a classic snowflake.
pub open spec fn classic_machine_id(input: u64) -> u64 {
    (input & 0x3F_F000u64) >> 12u64
}

/// The fields of a classic snowflake read back what was put in, and the leading bit is zero.
proof fn lemma_classic_fields(t: u64, m: u64, s: u64)
    by (bit_vector)
    requires
        t < 0x200_0000_0000u64,
        m < 0x400u64,
        s < 0x1000u64,
    ensures
        ((((t << 22u64) | (m << 12u64)) | s) & 0x7FFF_FFFF_FFC0_0000u64) >> 22u64 == t,
        (((t << 22u64) | (m << 12u64)) | s) & 0xFFFu64 == s,
        ((((t << 22u64) | (m << 12u64)) | s) & 0x3F_F000u64) >> 12u64 == m,
        (((t << 22u64) | (m << 12u64)) | s) < 0x8000_0000_0000_0000u64,
{
}

/// Classic snowflakes with one machine ID are ordered as their (timestamp, sequence number)
/// pairs.
proof fn lemma_classic_order(t1: u64, s1: u64, t2: u64, s2: u64, m: u64)
    by (bit_vector)
    requires
        t1 < 0x200_0000_0000u64,
        t2 < 0x200_0000_0000u64,
        m < 0x400u64,
        s1 < 0x1000u64,
        s2 < 0x1000u64,
        t1 < t2 || (t1 == t2 && s1 < s2),
    ensures
        (((t1 << 22u64) | (m << 12u64)) | s1) < (((t2 << 22u64) | (m << 12u64)) | s2),
{
}

impl<I: MachineId> ClassicLayout<I> {
    /// Returns the machine ID stored in a snowflake.
    pub fn get_machine_id(input: u64) -> (r: u64)
        ensures
            r == classic_machine_id(input),
            r < 0x400,
    {
        assert((input & 0x3F_F000u64) >> 12u64 < 0x400u64) by (bit_vector);
        (input & MACHINE_ID_MASK) >> SEQUENCE_NUMBER_BITS
    }

    /// Returns whether a machine ID exceeds the bits that this layout dedicates to it.
    fn exceeds_machine_id(input: u64) -> (r: bool)
        ensures
            r == (input >= 0x400),
    {
        assert(1u64 << 10u64 == 0x400u64) by (bit_vector);
        input >= 1u64 << MACHINE_ID_BITS
    }

    /// Returns whether this instance's machine ID fits into the layout.
    pub fn machine_id_fits() -> (r: bool)
        ensures
            r == Self::spec_constant_parts_valid(),
    {
        !Self::exceeds_machine_id(I::machine_id())
    }
}

impl<I: MachineId> Layout for ClassicLayout<I> {
    open spec fn spec_construct_snowflake(timestamp: u64, sequence_number: u64) -> u64 {
        classic_snowflake(timestamp, I::spec_machine_id(), sequence_number)
    }

    open spec fn spec_get_timestamp(input: u64) -> u64 {
        (input & 0x7FFF_FFFF_FFC0_0000u64) >> 22u64
    }

    open spec fn spec_exceeds_timestamp(input: u64) -> bool {
        input >= 0x200_0000_0000u64
    }

    open spec fn spec_get_sequence_number(input: u64) -> u64 {
        input & 0xFFFu64
    }

    open spec fn spec_exceeds_sequence_number(input: u64) -> bool {
        input >= 0x1000u64
    }

    open spec fn spec_is_valid_snowflake(input: u64) -> bool {
        input < 0x8000_0000_0000_0000u64
    }

    open spec fn spec_constant_parts_valid() -> bool {
        I::spec_machine_id() < 0x400u64
    }

    fn construct_snowflake(timestamp: u64, sequence_number: u64) -> (r: u64) {
        let machine_id = I::machine_id();
        (timestamp << (MACHINE_ID_BITS + SEQUENCE_NUMBER_BITS)) | (machine_id
            << SEQUENCE_NUMBER_BITS) | sequence_number
    }

    fn get_timestamp(input: u64) -> (r: u64) {
        (input & TIMESTAMP_MASK) >> (MACHINE_ID_BITS + SEQUENCE_NUMBER_BITS)
    }

    fn exceeds_timestamp(input: u64) -> (r: bool) {
        assert(1u64 << 41u64 == 0x200_0000_0000u64) by (bit_vector);
        input >= 1u64 << TIMESTAMP_BITS
    }

    fn get_sequence_number(input: u64) -> (r: u64) {
        input & SEQUENCE_NUMBER_MASK
    }

    fn exceeds_sequence_number(input: u64) -> (r: bool) {
        assert(1u64 << 12u64 == 0x1000u64) by (bit_vector);
        input >= 1u64 << SEQUENCE_NUMBER_BITS
    }

    fn is_valid_snowflake(input: u64) -> (r: bool) {
        assert(1u64 << 63u64 == 0x8000_0000_0000_0000u64) by (bit_vector);
        input < 1u64 << 63u64
    }
}

/// The classic layout obeys the layout laws.
pub proof fn lemma_classic_layout_laws<I: MachineId>()
    ensures
        layout_laws::<ClassicLayout<I>>(),
{
    let m = I::spec_machine_id();
    assert forall|t: u64, s: u64| #[trigger]
        fits::<ClassicLayout<I>>(t, s) implies {
        let c = ClassicLayout::<I>::spec_construct_snowflake(t, s);
        &&& ClassicLayout::<I>::spec_get_timestamp(c) == t
        &&& ClassicLayout::<I>::spec_get_sequence_number(c) == s
        &&& ClassicLayout::<I>::spec_is_valid_snowflake(c)
    } by {
        lemma_classic_fields(t, m, s);
    }
    assert forall|t1: u64, s1: u64, t2: u64, s2: u64|
        fits::<ClassicLayout<I>>(t1, s1) && fits::<ClassicLayout<I>>(t2, s2) && pair_lt(
            t1,
            s1,
            t2,
            s2,
        ) implies #[trigger] ClassicLayout::<I>::spec_construct_snowflake(t1, s1)
        < #[trigger] ClassicLayout::<I>::spec_construct_snowflake(t2, s2) by {
        lemma_classic_order(t1, s1, t2, s2, m);
    }
}

/// Instances with different machine IDs never build the same classic snowflake: the timestamp,
/// machine ID and sequence number can all be read back from it.
pub proof fn lemma_classic_distinct_machines(
    t1: u64,
    m1: u64,
    s1: u64,
    t2: u64,
    m2: u64,
    s2: u64,
)
    requires
        t1 < 0x200_0000_0000,
        t2 < 0x200_0000_0000,
        m1 < 0x400,
        m2 < 0x400,
        s1 < 0x1000,
        s2 < 0x1000,
        classic_snowflake(t1, m1, s1) == classic_snowflake(t2, m2, s2),
    ensures
        t1 == t2,
        m1 == m2,
        s1 == s2,
{
    lemma_classic_fields(t1, m1, s1);
    lemma_classic_fields(t2, m2, s2);
}

/// Valid classic snowflakes keep their order when read as signed 64-bit integers.
pub proof fn lemma_classic_signed_order(a: u64, b: u64)
    by (bit_vector)
    requires
        a < 0x8000_0000_0000_0000u64,
        b < 0x8000_0000_0000_0000u64,
        a < b,
    ensures
        (a as i64) < (b as i64),
        0 <= (a as i64),
{
}

/// Machine ID and signed representation of snowflakes of the classic layout.
pub trait ClassicLayoutSnowflakeExtension {
    /// Returns the snowflake's machine ID.
    fn get_machine_id(&self) -> u64;

    /// Returns the snowflake as a signed 64-bit integer. As the classic layout keeps the leading
    /// bit zero, valid snowflakes stay positive.
    fn get_i64(&self) -> i64;
}

impl<I: MachineId, E: Epoch> ClassicLayoutSnowflakeExtension for Snowflake<ClassicLayout<I>, E> {
    fn get_machine_id(&self) -> (r: u64)
        ensures
            r == classic_machine_id(self@),
    {
        ClassicLayout::<I>::get_machine_id(self.get())
    }

    fn get_i64(&self) -> (r: i64)
        ensures
            r == self@ as i64,
            ClassicLayout::<I>::spec_is_valid_snowflake(self@) ==> r == self@,
    {
        let v = self.get();
        assert(v < 0x8000_0000_0000_0000u64 ==> (v as i64) == v) by (bit_vector);
        v as i64
    }
}

} // verus!
