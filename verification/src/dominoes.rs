//! A set of dominoes over the fixed universe of 91 unordered pip pairs.

use vstd::prelude::*;

verus! {

/// Largest pip value on a domino half.
pub const PIP_MAX: u8 = 12;

/// A domino is an unordered pair of pip values `(min, max)` with
/// `min <= max <= 12`.
pub open spec fn valid_domino(min: u8, max: u8) -> bool {
    min <= max && max <= PIP_MAX
}

/// A set of dominoes over the 91 valid pip pairs, held as one 16-bit row per
/// `max` value with bit `min` set when `(min, max)` is a member. Bits at
/// positions `min > max` are don't-care bits: no reader looks at them, so
/// `fill` and `inverted` are free to disturb them. Membership, add, remove
/// and toggle touch one bit each, and duplicating the whole set is a plain
/// 26-byte copy.
#[derive(Clone, Copy, PartialEq, Eq, Debug)]
pub struct DominoSet {
    rows: [u16; 13],
}

impl DominoSet {
    /// Membership of `(min, max)`, read from bit `min` of row `max`.
    pub closed spec fn spec_has(self, min: u8, max: u8) -> bool {
        (self.rows[max as int] >> (min as u16)) & 1u16 == 1u16
    }

    /// The empty set.
    pub fn new() -> (s: DominoSet)
        ensures
            forall|i: u8, j: u8| valid_domino(i, j) ==> !(#[trigger] s.spec_has(i, j)),
    {
        let s = DominoSet { rows: [0u16; 13] };
        proof {
            assert forall|i: u8, j: u8| valid_domino(i, j) implies !s.spec_has(i, j) by {
                lemma_u16_zero_bit(i as u16);
            }
        }
        s
    }

    /// Remove every domino.
    pub fn clear(&mut self)
        ensures
            forall|i: u8, j: u8| valid_domino(i, j) ==> !(#[trigger] final(self).spec_has(i, j)),
    {
        self.rows = [0u16; 13];
        proof {
            assert forall|i: u8, j: u8| valid_domino(i, j) implies !self.spec_has(i, j) by {
                lemma_u16_zero_bit(i as u16);
            }
        }
    }

    /// Insert every domino. Don't-care bits are set as well; no reader
    /// depends on them either way.
    pub fn fill(&mut self)
        ensures
            forall|i: u8, j: u8| valid_domino(i, j) ==> #[trigger] final(self).spec_has(i, j),
    {
        self.rows = [u16::MAX; 13];
        proof {
            assert forall|i: u8, j: u8| valid_domino(i, j) implies self.spec_has(i, j) by {
                lemma_u16_ones_bit(i as u16);
            }
        }
    }

    /// Membership test.
    pub fn has(&self, min: u8, max: u8) -> (r: bool)
        requires
            valid_domino(min, max),
        ensures
            r == self.spec_has(min, max),
    {
        (self.rows[max as usize] >> (min as u16)) & 1u16 == 1u16
    }

    /// Insert `(min, max)`; every other membership is unchanged.
    pub fn add(&mut self, min: u8, max: u8)
        requires
            valid_domino(min, max),
        ensures
            with_domino(*old(self), *final(self), min, max),
    {
        let row = self.rows[max as usize] | (1u16 << (min as u16));
        self.rows[max as usize] = row;
        proof {
            assert forall|i: u8, j: u8| valid_domino(i, j) implies self.spec_has(i, j) == (
            old(self).spec_has(i, j) || (i == min && j == max)) by {
                if j == max {
                    lemma_u16_bit_or(old(self).rows[max as int], min as u16, i as u16);
                }
            }
        }
    }

    /// Remove `(min, max)`; every other membership is unchanged.
    pub fn remove(&mut self, min: u8, max: u8)
        requires
            valid_domino(min, max),
        ensures
            without_domino(*old(self), *final(self), min, max),
    {
        let row = self.rows[max as usize] & !(1u16 << (min as u16));
        self.rows[max as usize] = row;
        proof {
            assert forall|i: u8, j: u8| valid_domino(i, j) implies self.spec_has(i, j) == (
            old(self).spec_has(i, j) && !(i == min && j == max)) by {
                if j == max {
                    lemma_u16_bit_and_not(old(self).rows[max as int], min as u16, i as u16);
                }
            }
        }
    }

    /// Flip the membership of `(min, max)`; every other membership is
    /// unchanged.
    pub fn toggle(&mut self, min: u8, max: u8)
        requires
            valid_domino(min, max),
        ensures
            toggled_domino(*old(self), *final(self), min, max),
    {
        let row = self.rows[max as usize] ^ (1u16 << (min as u16));
        self.rows[max as usize] = row;
        proof {
            assert forall|i: u8, j: u8| valid_domino(i, j) implies self.spec_has(i, j) == (
            if i == min && j == max {
                !old(self).spec_has(i, j)
            } else {
                old(self).spec_has(i, j)
            }) by {
                if j == max {
                    lemma_u16_bit_xor(old(self).rows[max as int], min as u16, i as u16);
                }
            }
        }
    }

    /// The complement set: every valid domino not in `self`, and no valid
    /// domino of `self`. Don't-care bits are disturbed; no reader depends on
    /// them.
    pub fn inverted(&self) -> (r: DominoSet)
        ensures
            forall|i: u8, j: u8|
                #![trigger r.spec_has(i, j)]
                #![trigger self.spec_has(i, j)]
                valid_domino(i, j) ==> (r.spec_has(i, j) <==> !self.spec_has(i, j)),
    {
        let mut rows: [u16; 13] = [0u16; 13];
        let mut k: usize = 0;
        while k < 13
            invariant
                k <= 13,
                forall|m: int| 0 <= m < k ==> rows[m] == !self.rows[m],
            decreases 13 - k,
        {
            rows[k] = !self.rows[k];
            k = k + 1;
        }
        let r = DominoSet { rows };
        proof {
            assert forall|i: u8, j: u8| valid_domino(i, j) implies (r.spec_has(i, j) <==> !self.spec_has(
                i,
                j,
            )) by {
                lemma_u16_bit_not(self.rows[j as int], i as u16);
            }
        }
        r
    }

    /// Every member, as an ordered vector of `(min, max)` pairs, ascending
    /// by `(max, min)`.
    pub fn as_vector(&self) -> (r: Vec<(u8, u8)>)
        ensures
            enumerates(*self, r@),
    {
        let mut dominoes: Vec<(u8, u8)> = Vec::new();
        let mut ma: u8 = 0;
        while ma <= PIP_MAX
            invariant
                ma <= 13,
                forall|k: int|
                    0 <= k < dominoes@.len() ==> valid_domino(#[trigger] dominoes@[k].0, dominoes@[k].1)
                        && self.spec_has(dominoes@[k].0, dominoes@[k].1) && dominoes@[k].1 < ma,
                forall|i: u8, j: u8|
                    valid_domino(i, j) && #[trigger] self.spec_has(i, j) && j < ma
                        ==> dominoes@.contains((i, j)),
                strictly_ordered(dominoes@),
            decreases 13 - ma,
        {
            let mut mi: u8 = 0;
            while mi <= ma
                invariant
                    ma <= PIP_MAX,
                    mi <= ma + 1,
                    forall|k: int|
                        0 <= k < dominoes@.len() ==> valid_domino(
                            #[trigger] dominoes@[k].0,
                            dominoes@[k].1,
                        ) && self.spec_has(dominoes@[k].0, dominoes@[k].1) && (dominoes@[k].1 < ma
                            || (dominoes@[k].1 == ma && dominoes@[k].0 < mi)),
                    forall|i: u8, j: u8|
                        valid_domino(i, j) && #[trigger] self.spec_has(i, j) && (j < ma || (j == ma
                            && i < mi)) ==> dominoes@.contains((i, j)),
                    strictly_ordered(dominoes@),
                decreases ma + 1 - mi,
            {
                if self.has(mi, ma) {
                    let ghost prefix = dominoes@;
                    dominoes.push((mi, ma));
                    proof {
                        assert forall|i: u8, j: u8|
                            valid_domino(i, j) && #[trigger] self.spec_has(i, j) && (j < ma || (j
                                == ma && i < mi + 1)) implies dominoes@.contains((i, j)) by {
                            if i == mi && j == ma {
                                assert(dominoes@[prefix.len() as int] == (i, j));
                            } else {
                                let k = choose|k: int| 0 <= k < prefix.len() && prefix[k] == (i, j);
                                assert(dominoes@[k] == (i, j));
                            }
                        }
                    }
                }
                mi = mi + 1;
            }
            ma = ma + 1;
        }
        dominoes
    }
}

/// The rank of a domino in the `(max, min)` ascending enumeration order.
pub open spec fn pair_key(p: (u8, u8)) -> int {
    (p.1 as int) * 13 + (p.0 as int)
}

/// The dominoes of `v` appear in strictly ascending `(max, min)` order.
pub open spec fn strictly_ordered(v: Seq<(u8, u8)>) -> bool {
    forall|k1: int, k2: int| 0 <= k1 < k2 < v.len() ==> pair_key(v[k1]) < pair_key(v[k2])
}

/// `v` lists exactly the members of `s`, each once, in ascending
/// `(max, min)` order.
pub open spec fn enumerates(s: DominoSet, v: Seq<(u8, u8)>) -> bool {
    &&& forall|k: int|
        0 <= k < v.len() ==> valid_domino(#[trigger] v[k].0, v[k].1) && s.spec_has(v[k].0, v[k].1)
    &&& forall|i: u8, j: u8|
        valid_domino(i, j) && #[trigger] s.spec_has(i, j) ==> v.contains((i, j))
    &&& strictly_ordered(v)
}

/// The member vectors of a set and of its complement share no domino, and
/// together cover the whole 91-element universe.
pub proof fn lemma_complement_vectors_partition(
    a: DominoSet,
    b: DominoSet,
    u: Seq<(u8, u8)>,
    v: Seq<(u8, u8)>,
)
    requires
        forall|i: u8, j: u8|
            valid_domino(i, j) ==> (#[trigger] b.spec_has(i, j) <==> !a.spec_has(i, j)),
        enumerates(a, u),
        enumerates(b, v),
    ensures
        forall|k: int| 0 <= k < u.len() ==> !v.contains(#[trigger] u[k]),
        forall|i: u8, j: u8| valid_domino(i, j) ==> u.contains((i, j)) || v.contains((i, j)),
{
    assert forall|k: int| 0 <= k < u.len() implies !v.contains(#[trigger] u[k]) by {
        if v.contains(u[k]) {
            let m = choose|m: int| 0 <= m < v.len() && v[m] == u[k];
            assert(b.spec_has(v[m].0, v[m].1));
            assert(a.spec_has(u[k].0, u[k].1));
        }
    }
    assert forall|i: u8, j: u8| valid_domino(i, j) implies u.contains((i, j)) || v.contains(
        (i, j),
    ) by {
        if a.spec_has(i, j) {
            assert(u.contains((i, j)));
        } else {
            assert(b.spec_has(i, j));
            assert(v.contains((i, j)));
        }
    }
}

/// `post` holds `(min, max)` and otherwise agrees with `pre`.
pub open spec fn with_domino(pre: DominoSet, post: DominoSet, min: u8, max: u8) -> bool {
    forall|i: u8, j: u8|
        #![trigger post.spec_has(i, j)]
        #![trigger pre.spec_has(i, j)]
        valid_domino(i, j) ==> post.spec_has(i, j) == (pre.spec_has(i, j) || (i == min && j
            == max))
}

/// `post` lacks `(min, max)` and otherwise agrees with `pre`.
pub open spec fn without_domino(pre: DominoSet, post: DominoSet, min: u8, max: u8) -> bool {
    forall|i: u8, j: u8|
        #![trigger post.spec_has(i, j)]
        #![trigger pre.spec_has(i, j)]
        valid_domino(i, j) ==> post.spec_has(i, j) == (pre.spec_has(i, j) && !(i == min && j
            == max))
}

/// `post` flips the membership of `(min, max)` and otherwise agrees with
/// `pre`.
pub open spec fn toggled_domino(pre: DominoSet, post: DominoSet, min: u8, max: u8) -> bool {
    forall|i: u8, j: u8|
        #![trigger post.spec_has(i, j)]
        #![trigger pre.spec_has(i, j)]
        valid_domino(i, j) ==> post.spec_has(i, j) == (if i == min && j == max {
            !pre.spec_has(i, j)
        } else {
            pre.spec_has(i, j)
        })
}

/// Toggling the same domino twice restores every membership.
pub proof fn lemma_toggle_twice_identity(s0: DominoSet, s1: DominoSet, s2: DominoSet, min: u8, max: u8)
    requires
        valid_domino(min, max),
        toggled_domino(s0, s1, min, max),
        toggled_domino(s1, s2, min, max),
    ensures
        forall|i: u8, j: u8|
            #![trigger s2.spec_has(i, j)]
            #![trigger s0.spec_has(i, j)]
            valid_domino(i, j) ==> s2.spec_has(i, j) == s0.spec_has(i, j),
{
}

proof fn lemma_u16_zero_bit(b: u16)
    by (bit_vector)
    requires
        b < 16,
    ensures
        (0u16 >> b) & 1u16 != 1u16,
{
}

proof fn lemma_u16_ones_bit(b: u16)
    by (bit_vector)
    requires
        b < 16,
    ensures
        (0xffffu16 >> b) & 1u16 == 1u16,
{
}

proof fn lemma_u16_bit_or(x: u16, a: u16, b: u16)
    by (bit_vector)
    requires
        a < 16,
        b < 16,
    ensures
        ((x | (1u16 << a)) >> a) & 1u16 == 1u16,
        a != b ==> ((x | (1u16 << a)) >> b) & 1u16 == (x >> b) & 1u16,
{
}

proof fn lemma_u16_bit_and_not(x: u16, a: u16, b: u16)
    by (bit_vector)
    requires
        a < 16,
        b < 16,
    ensures
        ((x & !(1u16 << a)) >> a) & 1u16 != 1u16,
        a != b ==> ((x & !(1u16 << a)) >> b) & 1u16 == (x >> b) & 1u16,
{
}

proof fn lemma_u16_bit_xor(x: u16, a: u16, b: u16)
    by (bit_vector)
    requires
        a < 16,
        b < 16,
    ensures
        (((x ^ (1u16 << a)) >> a) & 1u16 == 1u16) <==> ((x >> a) & 1u16 != 1u16),
        a != b ==> ((x ^ (1u16 << a)) >> b) & 1u16 == (x >> b) & 1u16,
{
}

proof fn lemma_u16_bit_not(x: u16, b: u16)
    by (bit_vector)
    requires
        b < 16,
    ensures
        ((!x >> b) & 1u16 == 1u16) <==> ((x >> b) & 1u16 != 1u16),
{
}

} // verus!
