use vstd::prelude::*;

verus! {

/// The composition of a snowflake: how a timestamp and a sequence number are combined into a
/// 64-bit integer, and how they are read back.
///
/// Each executable function is described by a spec function of the same name with a `spec_`
/// prefix. A verified implementation states what its functions compute by overriding those spec
/// functions; unless it does, nothing is known of them. The spec functions have default bodies
/// so that implementations in ordinary Rust, which never see spec functions, need not write
/// them.
///
/// A layout must store the timestamp in front of the sequence number, and every other part of a
/// snowflake must be constant across a generating instance. [`layout_laws`] states this exactly;
/// the generator's ordering guarantees hold for every layout that obeys it.
pub trait Layout {
    /// The snowflake that `construct_snowflake` builds.
    open spec fn spec_construct_snowflake(timestamp: u64, sequence_number: u64) -> u64 {
        arbitrary()
    }

    /// The timestamp that `get_timestamp` reads from a snowflake.
    open spec fn spec_get_timestamp(input: u64) -> u64 {
        arbitrary()
    }

    /// Whether a timestamp has more bits than the layout dedicates to timestamps.
    open spec fn spec_exceeds_timestamp(input: u64) -> bool {
        arbitrary()
    }

    /// The sequence number that `get_sequence_number` reads from a snowflake.
    open spec fn spec_get_sequence_number(input: u64) -> u64 {
        arbitrary()
    }

    /// Whether a sequence number has more bits than the layout dedicates to sequence numbers.
    open spec fn spec_exceeds_sequence_number(input: u64) -> bool {
        arbitrary()
    }

    /// Whether an integer is a valid snowflake for the whole deployment.
    open spec fn spec_is_valid_snowflake(input: u64) -> bool {
        arbitrary()
    }

    /// Whether the instance-wide constant parts of the layout (such as a machine ID) fit into
    /// it. A layout without such parts keeps the default.
    open spec fn spec_constant_parts_valid() -> bool {
        true
    }

    /// Combines a timestamp and a sequence number into a snowflake.
    ///
    /// Callers must make sure that neither part exceeds the layout; an implementation may panic
    /// otherwise.
    fn construct_snowflake(timestamp: u64, sequence_number: u64) -> (r: u64)
        requires
            !Self::spec_exceeds_timestamp(timestamp),
            !Self::spec_exceeds_sequence_number(sequence_number),
            Self::spec_constant_parts_valid(),
        ensures
            r == Self::spec_construct_snowflake(timestamp, sequence_number),
    ;

    /// Returns the timestamp stored in a snowflake, in milliseconds since the snowflake's epoch.
    fn get_timestamp(input: u64) -> (r: u64)
        ensures
            r == Self::spec_get_timestamp(input),
    ;

    /// Returns whether a timestamp exceeds the bits that the layout dedicates to timestamps.
    fn exceeds_timestamp(input: u64) -> (r: bool)
        ensures
            r == Self::spec_exceeds_timestamp(input),
    ;

    /// Returns the sequence number stored in a snowflake.
    fn get_sequence_number(input: u64) -> (r: u64)
        ensures
            r == Self::spec_get_sequence_number(input),
    ;

    /// Returns whether a sequence number exceeds the bits that the layout dedicates to it.
    fn exceeds_sequence_number(input: u64) -> (r: bool)
        ensures
            r == Self::spec_exceeds_sequence_number(input),
    ;

    /// Returns whether an integer is a valid snowflake for the whole deployment (its
    /// deployment-wide constant parts are right).
    fn is_valid_snowflake(input: u64) -> (r: bool)
        ensures
            r == Self::spec_is_valid_snowflake(input),
    ;
}

/// The constant epoch of a snowflake: the first millisecond of its timestamps.
pub trait Epoch {
    /// The epoch, in milliseconds since the Unix epoch. A verified implementation defines it;
    /// the default body lets implementations in ordinary Rust leave it out.
    open spec fn spec_millis_since_unix() -> u64 {
        arbitrary()
    }

    /// Returns the epoch in milliseconds since the Unix epoch. It must never change.
    fn millis_since_unix() -> (r: u64)
        ensures
            r == Self::spec_millis_since_unix(),
    ;
}

/// Whether a timestamp and a sequence number can be combined into a snowflake of layout `L`.
pub open spec fn fits<L: Layout>(timestamp: u64, sequence_number: u64) -> bool {
    &&& !L::spec_exceeds_timestamp(timestamp)
    &&& !L::spec_exceeds_sequence_number(sequence_number)
    &&& L::spec_constant_parts_valid()
}

/// Lexicographic order on (timestamp, sequence number) pairs.
pub open spec fn pair_lt(t1: u64, s1: u64, t2: u64, s2: u64) -> bool {
    t1 < t2 || (t1 == t2 && s1 < s2)
}

/// Whether `snowflake` is the snowflake that layout `L` builds from its own timestamp and
/// sequence number.
pub open spec fn is_constructed<L: Layout>(snowflake: u64) -> bool {
    let t = L::spec_get_timestamp(snowflake);
    let s = L::spec_get_sequence_number(snowflake);
    fits::<L>(t, s) && L::spec_construct_snowflake(t, s) == snowflake
}

/// The requirements that a layout's documentation places on its implementations:
/// - the parts that fit are read back unchanged, and the result is a valid snowflake;
/// - the timestamp stands in front of the sequence number, so snowflakes are ordered as their
///   (timestamp, sequence number) pairs;
/// - the values that fit are closed downwards (they are bounded by a number of bits).
pub open spec fn layout_laws<L: Layout>() -> bool {
    &&& forall|t: u64, s: u64|
        #![trigger L::spec_construct_snowflake(t, s)]
        fits::<L>(t, s) ==> {
            &&& L::spec_get_timestamp(L::spec_construct_snowflake(t, s)) == t
            &&& L::spec_get_sequence_number(L::spec_construct_snowflake(t, s)) == s
            &&& L::spec_is_valid_snowflake(L::spec_construct_snowflake(t, s))
        }
    &&& forall|t1: u64, s1: u64, t2: u64, s2: u64|
        #![trigger L::spec_construct_snowflake(t1, s1), L::spec_construct_snowflake(t2, s2)]
        fits::<L>(t1, s1) && fits::<L>(t2, s2) && pair_lt(t1, s1, t2, s2) ==>
            L::spec_construct_snowflake(t1, s1) < L::spec_construct_snowflake(t2, s2)
    &&& forall|t1: u64, t2: u64|
        #![trigger L::spec_exceeds_timestamp(t1), L::spec_exceeds_timestamp(t2)]
        t1 <= t2 && !L::spec_exceeds_timestamp(t2) ==> !L::spec_exceeds_timestamp(t1)
    &&& forall|s1: u64, s2: u64|
        #![trigger L::spec_exceeds_sequence_number(s1), L::spec_exceeds_sequence_number(s2)]
        s1 <= s2 && !L::spec_exceeds_sequence_number(s2) ==> !L::spec_exceeds_sequence_number(s1)
}

/// Under the layout laws, the order of built snowflakes follows their (timestamp, sequence
/// number) pairs both ways: a smaller snowflake never has a later timestamp.
pub proof fn lemma_constructed_order_follows_pairs<L: Layout>(a: u64, b: u64)
    requires
        layout_laws::<L>(),
        is_constructed::<L>(a),
        is_constructed::<L>(b),
    ensures
        a < b <==> pair_lt(
            L::spec_get_timestamp(a),
            L::spec_get_sequence_number(a),
            L::spec_get_timestamp(b),
            L::spec_get_sequence_number(b),
        ),
        a < b ==> L::spec_get_timestamp(a) <= L::spec_get_timestamp(b),
{
    let (ta, sa) = (L::spec_get_timestamp(a), L::spec_get_sequence_number(a));
    let (tb, sb) = (L::spec_get_timestamp(b), L::spec_get_sequence_number(b));
    assert(L::spec_construct_snowflake(ta, sa) == a);
    assert(L::spec_construct_snowflake(tb, sb) == b);
    if pair_lt(tb, sb, ta, sa) {
        assert(b < a);
    }
    if pair_lt(ta, sa, tb, sb) {
        assert(a < b);
    }
}

} // verus!
