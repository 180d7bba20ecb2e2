//! Bit-flag words: fixed-width integers whose named bits are set from a
//! collection of flags and tested one by one.
use vstd::prelude::*;

verus! {

/// Whether bit `b` of the word `w` is set.
pub open spec fn bit(w: u16, b: u16) -> bool {
    w & (1u16 << b) != 0
}

/// A flag that names one bit of a word.
pub trait BitFlag: Copy {
    /// The bit this flag names.
    spec fn spec_position(&self) -> u16;

    /// The bit this flag names.
    fn position(&self) -> (r: u16)
        ensures
            r == self.spec_position(),
    ;
}

/// Bit `b` is set in the word that `flags` build when some flag names it.
pub open spec fn named_by<F: BitFlag>(flags: Seq<F>, b: u16) -> bool {
    exists|i: int| 0 <= i < flags.len() && (#[trigger] flags[i]).spec_position() == b
}

proof fn lemma_set_bit(x: u16, c: u16, b: u16, w: u16)
    by (bit_vector)
    requires
        c < w,
        w <= 16,
        (x as u32) < (1u32 << (w as u32)),
        b < 16,
    ensures
        ((x | (1u16 << c)) & (1u16 << b) != 0) == ((x & (1u16 << b) != 0) || b == c),
        ((x | (1u16 << c)) as u32) < (1u32 << (w as u32)),
{
}

proof fn lemma_no_bits_below(x: u16, b: u16, w: u16)
    by (bit_vector)
    requires
        w <= 16,
        (x as u32) < (1u32 << (w as u32)),
        w <= b < 16,
    ensures
        x & (1u16 << b) == 0,
{
}

/// The word with exactly the bits named by `flags` set, all of them below
/// `width`.
pub fn bits_of<F: BitFlag>(flags: &Vec<F>, width: u16) -> (r: u16)
    requires
        width <= 16,
        forall|i: int| 0 <= i < flags@.len() ==> (#[trigger] flags@[i]).spec_position() < width,
    ensures
        forall|b: u16| b < 16 ==> (bit(r, b) <==> named_by(flags@, b)),
        (r as u32) < (1u32 << (width as u32)),
        width == 7 ==> r < 128,
        width == 8 ==> r < 256,
{
    let mut value: u16 = 0;
    let mut i: usize = 0;
    assert((0u16 as u32) < (1u32 << (width as u32))) by (bit_vector)
        requires
            width <= 16,
    ;
    assert forall|b: u16| b < 16 implies (bit(0u16, b) <==> named_by(flags@.take(0), b)) by {
        assert(0u16 & (1u16 << b) == 0) by (bit_vector);
    }
    while i < flags.len()
        invariant
            0 <= i <= flags@.len(),
            width <= 16,
            forall|j: int| 0 <= j < flags@.len() ==> (#[trigger] flags@[j]).spec_position() < width,
            forall|b: u16| b < 16 ==> (bit(value, b) <==> named_by(flags@.take(i as int), b)),
            (value as u32) < (1u32 << (width as u32)),
        decreases flags@.len() - i,
    {
        let c = flags[i].position();
        let ghost old_value = value;
        value = value | (1u16 << c);
        assert forall|b: u16| b < 16 implies (bit(value, b) <==> named_by(
            flags@.take(i + 1),
            b,
        )) by {
            lemma_set_bit(old_value, c, b, width);
            assert(bit(value, b) == (bit(old_value, b) || b == c));
            assert(bit(old_value, b) <==> named_by(flags@.take(i as int), b));
            assert(flags@.take(i + 1)[i as int] == flags@[i as int]);
            if b == c {
                assert(named_by(flags@.take(i + 1), b));
            }
            if named_by(flags@.take(i as int), b) {
                let k = choose|k: int|
                    0 <= k < i && (#[trigger] flags@.take(i as int)[k]).spec_position() == b;
                assert(flags@.take(i + 1)[k] == flags@.take(i as int)[k]);
            }
            if named_by(flags@.take(i + 1), b) {
                let k = choose|k: int|
                    0 <= k < i + 1 && (#[trigger] flags@.take(i + 1)[k]).spec_position() == b;
                if k < i {
                    assert(flags@.take(i as int)[k] == flags@.take(i + 1)[k]);
                }
            }
        }
        proof {
            lemma_set_bit(old_value, c, 0, width);
        }
        i = i + 1;
    }
    assert(flags@.take(i as int) =~= flags@);
    assert((value as u32) < (1u32 << (width as u32)) ==> ((width == 7 ==> value < 128) && (width
        == 8 ==> value < 256))) by (bit_vector);
    value
}

/// A word below `2^width` has no bit set at or above `width`.
pub proof fn lemma_bits_below_width(x: u16, width: u16)
    requires
        width <= 16,
        (x as u32) < (1u32 << (width as u32)),
    ensures
        forall|b: u16| width <= b < 16 ==> !bit(x, b),
{
    assert forall|b: u16| width <= b < 16 implies !bit(x, b) by {
        lemma_no_bits_below(x, b, width);
    }
}

/// Bit `b` is named by some flag of the set `s`.
pub open spec fn set_names_bit<F: BitFlag>(s: Set<F>, b: u16) -> bool {
    exists|f: F| s.contains(f) && #[trigger] f.spec_position() == b
}

/// A list of flags names the same bits as the set of its members.
pub proof fn lemma_list_names_set_bits<F: BitFlag>(list: Seq<F>, s: Set<F>)
    requires
        list.to_set() == s,
    ensures
        forall|b: u16| #[trigger] named_by(list, b) <==> set_names_bit(s, b),
{
    assert forall|b: u16| #[trigger] named_by(list, b) <==> set_names_bit(s, b) by {
        if named_by(list, b) {
            let k = choose|k: int| 0 <= k < list.len() && (#[trigger] list[k]).spec_position() == b;
            assert(list.to_set().contains(list[k]));
        }
        if set_names_bit(s, b) {
            let f = choose|f: F| s.contains(f) && #[trigger] f.spec_position() == b;
            assert(list.contains(f));
        }
    }
}

/// The word with exactly the bits of the flags in `s` set, where `list`
/// holds the members of `s`.
pub(crate) fn word_of_flags<F: BitFlag>(list: &Vec<F>, width: u16, Ghost(s): Ghost<Set<F>>) -> (r: u16)
    requires
        list@.to_set() == s,
        width <= 16,
        forall|f: F| #[trigger] f.spec_position() < width,
        forall|f: F, g: F| f.spec_position() == g.spec_position() ==> f == g,
    ensures
        forall|b: u16| b < 16 ==> (#[trigger] bit(r, b) <==> set_names_bit(s, b)),
        forall|f: F| #[trigger] bit(r, f.spec_position()) <==> s.contains(f),
        width == 7 ==> r < 128,
        width == 8 ==> r < 256,
{
    let value = bits_of(list, width);
    proof {
        lemma_list_names_set_bits(list@, s);
        assert forall|f: F| #[trigger] bit(value, f.spec_position()) <==> s.contains(f) by {
            assert(named_by(list@, f.spec_position()) <==> set_names_bit(s, f.spec_position()));
            if set_names_bit(s, f.spec_position()) {
                let g = choose|g: F| s.contains(g) && #[trigger] g.spec_position() == f.spec_position();
                assert(g == f);
            }
        }
    }
    value
}

} // verus!
