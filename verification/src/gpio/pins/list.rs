//! Contained list of GPIOs.

use vstd::prelude::*;

use super::{GPIOAny, GPIOTyped};

verus! {

/// The list holds pin `p`: bit `p % 32` of word `p / 32` is set.
pub open spec fn holds(words: Seq<u32>, p: int) -> bool {
    &&& 0 <= p < 64
    &&& (words[p / 32] >> (p % 32) as u32) & 1 == 1
}

/// Clearing bit `b` of a word clears that bit and keeps the others; setting it sets that
/// bit and keeps the others; bit `b` is set exactly when the word masked by `1 << b` is
/// not zero.
pub proof fn lemma_word_bits()
    ensures
        forall|w: u32, b: u32, c: u32|
            b < 32 && c < 32 ==> #[trigger] (((w & !(1u32 << b)) >> c) & 1) == if c == b {
                0u32
            } else {
                (w >> c) & 1
            },
        forall|w: u32, b: u32, c: u32|
            b < 32 && c < 32 ==> #[trigger] (((w | (1u32 << b)) >> c) & 1) == if c == b {
                1u32
            } else {
                (w >> c) & 1
            },
        forall|w: u32, b: u32| b < 32 ==> (#[trigger] (w & (1u32 << b)) != 0) == ((w >> b) & 1 == 1),
{
    assert(forall|w: u32, b: u32, c: u32|
        b < 32 && c < 32 ==> #[trigger] (((w & !(1u32 << b)) >> c) & 1) == if c == b {
            0u32
        } else {
            (w >> c) & 1
        }) by (bit_vector);
    assert(forall|w: u32, b: u32, c: u32|
        b < 32 && c < 32 ==> #[trigger] (((w | (1u32 << b)) >> c) & 1) == if c == b {
            1u32
        } else {
            (w >> c) & 1
        }) by (bit_vector);
    assert(forall|w: u32, b: u32| b < 32 ==> (#[trigger] (w & (1u32 << b)) != 0) == ((w >> b) & 1 == 1))
        by (bit_vector);
}

/// Ergonomic way to pass around a list of GPIOs: one bit per pin, in two words of 32 pins.
pub struct GPIOList([u32; 2]);

impl View for GPIOList {
    /// The pins held by the list.
    type V = Set<int>;

    closed spec fn view(&self) -> Set<int> {
        Set::new(|p: int| holds(self.0@, p))
    }
}

impl GPIOList {
    /// The list holds only pins below 64.
    pub proof fn lemma_bounded(&self)
        ensures
            forall|p: int| #[trigger] self@.contains(p) ==> 0 <= p < 64,
    {
    }

    /// Creates a list containing all pins in the system.
    pub fn all() -> (r: Self)
        ensures
            r@ == Set::new(|p: int| 0 <= p < 48),
    {
        let r = Self([0xFFFF_FFFF, 0x0000_FFFF]);
        proof {
            assert forall|p: int| 0 <= p < 64 implies holds(r.0@, p) == (p < 48) by {
                let w: u32 = if p < 32 { 0xFFFF_FFFFu32 } else { 0x0000_FFFFu32 };
                let c = (p % 32) as u32;
                assert(r.0@[p / 32] == w);
                assert(c < 32 ==> ((0xFFFF_FFFFu32 >> c) & 1 == 1)) by (bit_vector);
                assert(c < 32 ==> (((0x0000_FFFFu32 >> c) & 1 == 1) == (c < 16))) by (bit_vector);
            }
            assert(r@ =~= Set::new(|p: int| 0 <= p < 48));
        }
        r
    }

    /// Creates an empty `GPIOList`.
    pub fn empty() -> (r: Self)
        ensures
            r@ == Set::<int>::empty(),
    {
        let r = Self([0, 0]);
        proof {
            assert forall|p: int| 0 <= p < 64 implies !holds(r.0@, p) by {
                let c = (p % 32) as u32;
                assert(r.0@[p / 32] == 0);
                assert(c < 32 ==> ((0u32 >> c) & 1 == 0)) by (bit_vector);
            }
            assert(r@ =~= Set::<int>::empty());
        }
        r
    }

    /// Takes pin `n` out of the list: `Some` when the list held it.
    fn take(&mut self, n: usize) -> (r: bool)
        requires
            n < 64,
        ensures
            r == old(self)@.contains(n as int),
            final(self)@ == old(self)@.remove(n as int),
    {
        let word = n / 32;
        let bit = (n % 32) as u32;
        proof {
            lemma_word_bits();
        }
        if (self.0[word] & (1u32 << bit)) != 0 {
            let cleared = self.0[word] & !(1u32 << bit);
            self.0[word] = cleared;
            proof {
                assert forall|p: int| holds(self.0@, p) == (holds(old(self).0@, p) && p != n) by {
                    if 0 <= p < 64 {
                        let c = (p % 32) as u32;
                        let w = old(self).0@[word as int];
                        assert((((w & !(1u32 << bit)) >> c) & 1) == if c == bit { 0u32 } else { (w >> c) & 1 });
                    }
                }
                assert(self@ =~= old(self)@.remove(n as int));
            }
            return true;
        }
        proof {
            assert(old(self)@ =~= old(self)@.remove(n as int));
        }
        false
    }

    /// Puts pin `n` in the list.
    fn put(&mut self, n: usize)
        requires
            n < 64,
        ensures
            final(self)@ == old(self)@.insert(n as int),
    {
        let word = n / 32;
        let bit = (n % 32) as u32;
        proof {
            lemma_word_bits();
        }
        let set = self.0[word] | (1u32 << bit);
        self.0[word] = set;
        proof {
            assert forall|p: int| holds(self.0@, p) == (holds(old(self).0@, p) || p == n) by {
                if 0 <= p < 64 {
                    let c = (p % 32) as u32;
                    let w = old(self).0@[word as int];
                    assert((((w | (1u32 << bit)) >> c) & 1) == if c == bit { 1u32 } else { (w >> c) & 1 });
                }
            }
            assert(self@ =~= old(self)@.insert(n as int));
        }
    }

    /// Attempts to take the given `GPIOAny` from the list.
    pub fn any(&mut self, n: u8) -> (r: Option<GPIOAny>)
        requires
            n < 64,
        ensures
            r is Some <==> old(self)@.contains(n as int),
            r matches Some(pin) ==> pin@ == n,
            final(self)@ == old(self)@.remove(n as int),
    {
        if self.take(n as usize) {
            return Some(GPIOAny::new(n));
        }
        None
    }

    /// Attempts to take the given `GPIOTyped` from the list.
    pub fn typed<const N: usize>(&mut self) -> (r: Option<GPIOTyped<N>>)
        requires
            N < 64,
        ensures
            r is Some <==> old(self)@.contains(N as int),
            final(self)@ == old(self)@.remove(N as int),
    {
        if self.take(N) {
            return Some(GPIOTyped::instance());
        }
        None
    }

    /// Returns the list with the given pin added.
    pub fn add<const N: usize>(self, pin: GPIOTyped<N>) -> (r: Self)
        requires
            N < 64,
        ensures
            r@ == self@.insert(N as int),
    {
        let mut list = self;
        list.put(N);
        list
    }

    /// Adds the given pin to the list.
    pub fn add_assign<const N: usize>(&mut self, pin: GPIOTyped<N>)
        requires
            N < 64,
        ensures
            final(self)@ == old(self)@.insert(N as int),
    {
        self.put(N);
    }
}

/// A pin given back to the list can be taken again, and a pin taken from the list cannot
/// be taken a second time.
pub proof fn lemma_take_after_add(pins: Set<int>, n: int)
    ensures
        pins.insert(n).contains(n),
        !pins.remove(n).contains(n),
        pins.insert(n).remove(n) == pins.remove(n),
{
    assert(pins.insert(n).remove(n) =~= pins.remove(n));
}

} // verus!
