use vstd::prelude::*;

use crate::error::Error;

verus! {

/// Number of bits in one storage word.
pub const ITEM_BITS: usize = 32;

/// Whether bit `b` of word `w` is set.
pub open spec fn word_has(w: u32, b: u32) -> bool {
    (w >> b) & 1u32 == 1u32
}

/// Whether value `i` is marked in `words`: bit `i % 32` of word `i / 32`.
pub open spec fn marked(words: Seq<u32>, i: nat) -> bool {
    &&& i / 32 < words.len()
    &&& word_has(words[(i / 32) as int], (i % 32) as u32)
}

/// Number of words that hold `nbits` bits.
pub open spec fn words_for(nbits: nat) -> nat {
    (nbits + 31) / 32
}

proof fn lemma_zero_word(b: u32)
    requires
        b < 32,
    ensures
        !word_has(0u32, b),
{
    assert((0u32 >> b) & 1u32 == 0u32) by (bit_vector);
}

proof fn lemma_set_bit(w: u32, b: u32, c: u32)
    requires
        b < 32,
        c < 32,
    ensures
        word_has(w | (1u32 << b), c) == (word_has(w, c) || c == b),
{
    assert(((w | (1u32 << b)) >> c) & 1u32 == 1u32 <==> ((w >> c) & 1u32 == 1u32 || c == b))
        by (bit_vector)
        requires
            b < 32,
            c < 32,
    ;
}

proof fn lemma_clear_bit(w: u32, b: u32, c: u32)
    requires
        b < 32,
        c < 32,
    ensures
        word_has(w & !(1u32 << b), c) == (word_has(w, c) && c != b),
{
    assert(((w & !(1u32 << b)) >> c) & 1u32 == 1u32 <==> ((w >> c) & 1u32 == 1u32 && c != b))
        by (bit_vector)
        requires
            b < 32,
            c < 32,
    ;
}

proof fn lemma_same_position(i: nat, j: nat)
    requires
        i / 32 == j / 32,
        i % 32 == j % 32,
    ensures
        i == j,
{
    assert(i == 32 * (i / 32) + i % 32) by (nonlinear_arith);
    assert(j == 32 * (j / 32) + j % 32) by (nonlinear_arith);
}

proof fn lemma_index_in_words(value: nat, nbits: nat)
    requires
        value < nbits,
    ensures
        value / 32 < words_for(nbits),
{
    assert(value / 32 < (nbits + 31) / 32) by (nonlinear_arith)
        requires
            value < nbits,
    ;
}

/// A set of the integers below a capacity fixed at creation, one bit each.
#[derive(Clone)]
pub struct BitSet {
    nbits: usize,
    storage: Vec<u32>,
}

impl BitSet {
    /// The largest value plus one that the set can hold.
    pub closed spec fn capacity(&self) -> nat {
        self.nbits as nat
    }

    /// The values in the set.
    pub closed spec fn elements(&self) -> Set<nat> {
        Set::new(|i: nat| i < self.nbits && marked(self.storage@, i))
    }

    /// The storage has a word for every 32 values below the capacity, and no
    /// bit is set at or above the capacity.
    pub closed spec fn wf(&self) -> bool {
        &&& self.storage@.len() == words_for(self.nbits as nat)
        &&& forall|i: nat| #[trigger] marked(self.storage@, i) ==> i < self.nbits
    }

    /// An empty set that can hold the values `0..nbits`.
    pub fn with_capacity(nbits: usize) -> (r: BitSet)
        ensures
            r.wf(),
            r.capacity() == nbits,
            r.elements() == Set::<nat>::empty(),
    {
        let n: usize = nbits / ITEM_BITS + if nbits % ITEM_BITS != 0 { 1 } else { 0 };
        let mut storage: Vec<u32> = Vec::new();
        let mut k: usize = 0;
        while k < n
            invariant
                k <= n,
                storage@.len() == k,
                forall|j: int| 0 <= j < k ==> storage@[j] == 0u32,
            decreases n - k,
        {
            storage.push(0u32);
            k = k + 1;
        }
        let r = BitSet { nbits, storage };
        assert(n == words_for(nbits as nat)) by (nonlinear_arith)
            requires
                n == nbits / 32 + if nbits % 32 != 0 { 1int } else { 0int },
        ;
        assert forall|i: nat| !#[trigger] marked(r.storage@, i) by {
            if i / 32 < r.storage@.len() {
                lemma_zero_word((i % 32) as u32);
            }
        }
        assert(r.elements() =~= Set::<nat>::empty());
        r
    }

    /// Whether `value` is in the set; `Overflow` if it is not below the
    /// capacity.
    pub fn contains(&self, value: usize) -> (r: Result<bool, Error>)
        requires
            self.wf(),
        ensures
            value < self.capacity() ==> r == Ok::<bool, Error>(self.elements().contains(value as nat)),
            value >= self.capacity() ==> r == Err::<bool, Error>(Error::Overflow),
    {
        if value < self.nbits {
            proof {
                lemma_index_in_words(value as nat, self.nbits as nat);
            }
            let word = self.storage[value / ITEM_BITS];
            let bit = (value % ITEM_BITS) as u32;
            Ok((word >> bit) & 1u32 == 1u32)
        } else {
            Err(Error::Overflow)
        }
    }

    /// Adds `value` to the set; `Overflow`, with the set unchanged, if it is
    /// not below the capacity.
    pub fn insert(&mut self, value: usize) -> (r: Result<(), Error>)
        requires
            old(self).wf(),
        ensures
            final(self).wf(),
            final(self).capacity() == old(self).capacity(),
            value < old(self).capacity() ==> r == Ok::<(), Error>(())
                && final(self).elements() == old(self).elements().insert(value as nat),
            value >= old(self).capacity() ==> r == Err::<(), Error>(Error::Overflow)
                && final(self).elements() == old(self).elements(),
    {
        let present = self.contains(value);
        match present {
            Err(e) => Err(e),
            Ok(true) => {
                assert(self.elements() =~= old(self).elements().insert(value as nat));
                Ok(())
            },
            Ok(false) => {
                proof {
                    lemma_index_in_words(value as nat, self.nbits as nat);
                }
                let k = value / ITEM_BITS;
                let b = (value % ITEM_BITS) as u32;
                let w = self.storage[k];
                self.storage.set(k, w | (1u32 << b));
                proof {
                    assert forall|i: nat| #[trigger] marked(self.storage@, i) == (marked(
                        old(self).storage@,
                        i,
                    ) || i == value) by {
                        if i / 32 == k && i / 32 < self.storage@.len() {
                            lemma_set_bit(w, b, (i % 32) as u32);
                            if i % 32 == b as nat {
                                lemma_same_position(i, value as nat);
                            }
                        }
                    }
                    assert(self.elements() =~= old(self).elements().insert(value as nat));
                }
                Ok(())
            },
        }
    }

    /// An iterator over the values of the set, in increasing order.
    pub fn iter(&self) -> (r: Iter)
        requires
            self.wf(),
        ensures
            r.wf(),
            r.remaining() == self.elements(),
    {
        let mut data: Vec<u32> = Vec::new();
        let mut k: usize = 0;
        while k < self.storage.len()
            invariant
                k <= self.storage@.len(),
                data@ == self.storage@.subrange(0, k as int),
            decreases self.storage@.len() - k,
        {
            data.push(self.storage[k]);
            k = k + 1;
        }
        assert(data@ =~= self.storage@);
        let r = Iter { data, nbits: self.nbits, offset: 0 };
        assert(r.remaining() =~= self.elements());
        r
    }

    /// Takes `value` out of the set; `Overflow`, with the set unchanged, if it
    /// is not below the capacity.
    pub fn remove(&mut self, value: usize) -> (r: Result<(), Error>)
        requires
            old(self).wf(),
        ensures
            final(self).wf(),
            final(self).capacity() == old(self).capacity(),
            value < old(self).capacity() ==> r == Ok::<(), Error>(())
                && final(self).elements() == old(self).elements().remove(value as nat),
            value >= old(self).capacity() ==> r == Err::<(), Error>(Error::Overflow)
                && final(self).elements() == old(self).elements(),
    {
        let present = self.contains(value);
        match present {
            Err(e) => Err(e),
            Ok(false) => {
                assert(self.elements() =~= old(self).elements().remove(value as nat));
                Ok(())
            },
            Ok(true) => {
                proof {
                    lemma_index_in_words(value as nat, self.nbits as nat);
                }
                let k = value / ITEM_BITS;
                let b = (value % ITEM_BITS) as u32;
                let w = self.storage[k];
                self.storage.set(k, w & !(1u32 << b));
                proof {
                    assert forall|i: nat| #[trigger] marked(self.storage@, i) == (marked(
                        old(self).storage@,
                        i,
                    ) && i != value) by {
                        if i / 32 == k && i / 32 < self.storage@.len() {
                            lemma_clear_bit(w, b, (i % 32) as u32);
                            if i % 32 == b as nat {
                                lemma_same_position(i, value as nat);
                            }
                        }
                    }
                    assert(self.elements() =~= old(self).elements().remove(value as nat));
                }
                Ok(())
            },
        }
    }
}

/// Iterator over the values of a `BitSet`, smallest first.
#[derive(Clone)]
pub struct Iter {
    data: Vec<u32>,
    nbits: usize,
    offset: usize,
}

impl Iter {
    /// The values that the iterator has yet to yield.
    pub closed spec fn remaining(&self) -> Set<nat> {
        Set::new(|i: nat| self.offset <= i < self.nbits && marked(self.data@, i))
    }

    /// The copied storage matches the capacity, and the position has not
    /// passed it.
    pub closed spec fn wf(&self) -> bool {
        &&& self.data@.len() == words_for(self.nbits as nat)
        &&& self.offset <= self.nbits
    }

    /// Yields the smallest value not yet yielded, or `None` when all have
    /// been.
    pub fn next(&mut self) -> (r: Option<usize>)
        requires
            old(self).wf(),
        ensures
            final(self).wf(),
            r is None ==> old(self).remaining() == Set::<nat>::empty()
                && final(self).remaining() == Set::<nat>::empty(),
            r matches Some(v) ==> {
                &&& old(self).remaining().contains(v as nat)
                &&& forall|u: nat| #[trigger] old(self).remaining().contains(u) ==> v <= u
                &&& final(self).remaining() == old(self).remaining().remove(v as nat)
            },
    {
        let mut i: usize = self.offset;
        while i < self.nbits
            invariant
                self.wf(),
                self.data@ == old(self).data@,
                self.nbits == old(self).nbits,
                self.offset == old(self).offset,
                self.offset <= i <= self.nbits,
                forall|j: nat| self.offset <= j < i ==> !#[trigger] marked(self.data@, j),
            decreases self.nbits - i,
        {
            proof {
                lemma_index_in_words(i as nat, self.nbits as nat);
            }
            let word = self.data[i / ITEM_BITS];
            let bit = (i % ITEM_BITS) as u32;
            if (word >> bit) & 1u32 == 1u32 {
                self.offset = i + 1;
                assert(self.remaining() =~= old(self).remaining().remove(i as nat));
                return Some(i);
            }
            i = i + 1;
        }
        assert(old(self).remaining() =~= Set::<nat>::empty());
        self.offset = self.nbits;
        assert(self.remaining() =~= Set::<nat>::empty());
        None
    }
}

} // verus!
