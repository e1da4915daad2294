//! The digest variant that keys the stream cipher.
//!
//! It follows the 160-bit Merkle-Damgard construction with two changes: the
//! extended schedule words are not rotated, and the five output words are meant
//! to be emitted as little-endian bytes.
use vstd::prelude::*;

verus! {

/// Initial chaining value.
pub const H0: u32 = 0x67452301;
pub const H1: u32 = 0xefcdab89;
pub const H2: u32 = 0x98badcfe;
pub const H3: u32 = 0x10325476;
pub const H4: u32 = 0xc3d2e1f0;

/// Round constants, one per band of twenty rounds.
pub const K0: u32 = 0x5a827999;
pub const K1: u32 = 0x6ed9eba1;
pub const K2: u32 = 0x8f1bbcdc;
pub const K3: u32 = 0xca62c1d6;

pub open spec fn initial_digest() -> Seq<u32> {
    seq![H0, H1, H2, H3, H4]
}

pub open spec fn wadd(x: u32, y: u32) -> u32 {
    vstd::wrapping::u32_specs::wrapping_add(x, y)
}

/// Rotation of a word to the left by `s` bits, `0 < s < 32`.
pub open spec fn rotl(x: u32, s: u32) -> u32 {
    (x << s) | (x >> (32 - s) as u32)
}

/// The `i`-th big-endian word of a 64-byte block.
pub open spec fn block_word(block: Seq<u8>, i: int) -> u32 {
    ((block[4 * i] as u32) << 24u32) | ((block[4 * i + 1] as u32) << 16u32) | ((block[4 * i
        + 2] as u32) << 8u32) | (block[4 * i + 3] as u32)
}

/// The message schedule: sixteen words of the block, then the bare XOR of
/// four earlier words (no rotation).
pub open spec fn schedule_word(block: Seq<u8>, i: nat) -> u32
    decreases i,
{
    if i < 16 {
        block_word(block, i as int)
    } else {
        schedule_word(block, (i - 3) as nat) ^ schedule_word(block, (i - 8) as nat)
            ^ schedule_word(block, (i - 14) as nat) ^ schedule_word(block, (i - 16) as nat)
    }
}

pub open spec fn round_mix(i: int, b: u32, c: u32, d: u32) -> u32 {
    if i < 20 {
        (b & c) | (!b & d)
    } else if i < 40 {
        b ^ c ^ d
    } else if i < 60 {
        (b & c) | (b & d) | (c & d)
    } else {
        b ^ c ^ d
    }
}

pub open spec fn round_constant(i: int) -> u32 {
    if i < 20 {
        K0
    } else if i < 40 {
        K1
    } else if i < 60 {
        K2
    } else {
        K3
    }
}

/// One round on the working state `(a, b, c, d, e)`.
pub open spec fn round(st: (u32, u32, u32, u32, u32), i: int, w: u32) -> (u32, u32, u32, u32, u32) {
    let (a, b, c, d, e) = st;
    let temp = wadd(wadd(wadd(wadd(e, rotl(a, 5)), w), round_mix(i, b, c, d)), round_constant(i));
    (temp, a, rotl(b, 30), c, d)
}

/// The working state after the first `n` rounds on `block`.
pub open spec fn rounds(st: (u32, u32, u32, u32, u32), block: Seq<u8>, n: nat) -> (u32, u32, u32, u32, u32)
    decreases n,
{
    if n == 0 {
        st
    } else {
        round(rounds(st, block, (n - 1) as nat), n - 1, schedule_word(block, (n - 1) as nat))
    }
}

/// The compression function: the chaining value after one 64-byte block.
pub open spec fn compress(h: Seq<u32>, block: Seq<u8>) -> Seq<u32> {
    let (a, b, c, d, e) = rounds((h[0], h[1], h[2], h[3], h[4]), block, 80);
    seq![wadd(h[0], a), wadd(h[1], b), wadd(h[2], c), wadd(h[3], d), wadd(h[4], e)]
}

/// The chaining value after the whole 64-byte blocks of `s`, in order.
pub open spec fn digest_of_blocks(s: Seq<u8>) -> Seq<u32>
    decreases s.len(),
{
    if s.len() < 64 {
        initial_digest()
    } else {
        compress(
            digest_of_blocks(s.subrange(0, s.len() - 64)),
            s.subrange(s.len() - 64, s.len() as int),
        )
    }
}

/// Big-endian bytes of a 64-bit value.
pub open spec fn be_u64_bytes(x: u64) -> Seq<u8> {
    seq![
        (x >> 56u64) as u8,
        (x >> 48u64) as u8,
        (x >> 40u64) as u8,
        (x >> 32u64) as u8,
        (x >> 24u64) as u8,
        (x >> 16u64) as u8,
        (x >> 8u64) as u8,
        x as u8,
    ]
}

/// Number of zero bytes between the `0x80` marker and the length footer.
pub open spec fn zero_pad_len(len: nat) -> nat {
    if len % 64 < 56 {
        (55 - len % 64) as nat
    } else {
        (119 - len % 64) as nat
    }
}

/// The message with its marker byte, zero padding and big-endian bit length.
pub open spec fn padded(msg: Seq<u8>) -> Seq<u8> {
    msg + seq![0x80u8] + Seq::new(zero_pad_len(msg.len()), |i: int| 0u8) + be_u64_bytes(
        (8 * msg.len()) as u64,
    )
}

/// The digest of a message: five words.
pub open spec fn digest(msg: Seq<u8>) -> Seq<u32> {
    digest_of_blocks(padded(msg))
}

/// Rotates a word left by `shift` bits.
pub fn left_rotate(word: u32, shift: u32) -> (r: u32)
    requires
        0 < shift < 32,
    ensures
        r == rotl(word, shift),
{
    (word << shift) | (word >> (32 - shift))
}


/// Appending one whole block to whole blocks compresses it into the chaining value.
pub proof fn lemma_digest_of_blocks_append(p: Seq<u8>, b: Seq<u8>)
    requires
        p.len() % 64 == 0,
        b.len() == 64,
    ensures
        digest_of_blocks(p + b) == compress(digest_of_blocks(p), b),
{
    let s = p + b;
    assert(s.subrange(0, s.len() - 64) =~= p);
    assert(s.subrange(s.len() - 64, s.len() as int) =~= b);
}

/// State of a running digest computation.
pub struct Sha1 {
    digest: [u32; 5],
    block: [u8; 64],
    block_index: usize,
    length: u64,
    computed: bool,
    data: Ghost<Seq<u8>>,
}

impl View for Sha1 {
    type V = Seq<u8>;

    /// The bytes absorbed so far.
    closed spec fn view(&self) -> Seq<u8> {
        self.data@
    }
}

impl Sha1 {
    /// Whether the final digest has been computed.
    pub closed spec fn is_finished(&self) -> bool {
        self.computed
    }

    pub closed spec fn wf(&self) -> bool {
        let n = self.data@.len();
        let bi = self.block_index as int;
        &&& 8 * n <= u64::MAX
        &&& self.length == 8 * n
        &&& if !self.computed {
            &&& bi < 64
            &&& bi == n % 64
            &&& self.block@.subrange(0, bi) == self.data@.subrange(n - bi, n as int)
            &&& self.digest@ == digest_of_blocks(self.data@.subrange(0, n - bi))
        } else {
            self.digest@ == digest(self.data@)
        }
    }

    /// A computation over no bytes yet.
    pub fn new() -> (r: Sha1)
        ensures
            r.wf(),
            r@ == Seq::<u8>::empty(),
            !r.is_finished(),
    {
        let st = Sha1 {
            digest: [H0, H1, H2, H3, H4],
            block: [0; 64],
            block_index: 0,
            length: 0,
            computed: false,
            data: Ghost(Seq::empty()),
        };
        proof {
            assert(st.data@.subrange(0, 0) =~= Seq::<u8>::empty());
            assert(st.block@.subrange(0, 0) =~= st.data@.subrange(0, 0));
            assert(st.digest@ =~= initial_digest());
        }
        st
    }

    /// Absorbs `data` into the computation. Once `hash` has run, the state
    /// holds the final digest rather than a chaining value for the bytes
    /// absorbed, so further bytes would yield the digest of no message: the
    /// computation must not be finished.
    pub fn update(&mut self, data: &[u8])
        requires
            old(self).wf(),
            !old(self).is_finished(),
            8 * (old(self)@.len() + data@.len()) <= u64::MAX,
        ensures
            final(self).wf(),
            !final(self).is_finished(),
            final(self)@ == old(self)@ + data@,
    {
        let mut i: usize = 0;
        while i < data.len()
            invariant
                self.wf(),
                !self.computed,
                i <= data.len(),
                self@ == old(self)@ + data@.subrange(0, i as int),
                8 * (old(self)@.len() + data@.len()) <= u64::MAX,
            decreases data.len() - i,
        {
            let b = data[i];
            let ghost prev = self.data@;
            let ghost n = prev.len() as int;
            let ghost bi = self.block_index as int;
            let ghost ob = self.block@;
            proof {
                assert forall|j: int| 0 <= j < bi implies ob[j] == prev[n - bi + j] by {
                    assert(ob.subrange(0, bi)[j] == prev.subrange(n - bi, n)[j]);
                }
            }
            self.block[self.block_index] = b;
            self.block_index = self.block_index + 1;
            self.length = self.length + 8;
            self.data = Ghost(prev.push(b));
            proof {
                let cur = self.data@;
                assert(self.block@ == ob.update(bi, b));
                assert(self.block@.subrange(0, bi + 1) =~= cur.subrange(n + 1 - (bi + 1), n + 1));
                assert(cur.subrange(0, n - bi) =~= prev.subrange(0, n - bi));
            }
            if self.block_index == 64 {
                self.process_message_block();
                proof {
                    let cur = self.data@;
                    let s = cur.subrange(0, n + 1);
                    assert(s =~= cur);
                    assert(s.subrange(0, s.len() - 64) =~= cur.subrange(0, n + 1 - 64));
                    assert(self.block@ =~= s.subrange(s.len() - 64, s.len() as int));
                    assert(cur.subrange(0, n + 1 - 0) =~= cur);
                }
            }
            proof {
                let cur = self.data@;
                let m = cur.len() as int;
                let k = self.block_index as int;
                assert(8 * m <= u64::MAX);
                assert(self.length == 8 * m);
                assert(k < 64);
                assert(k == m % 64);
                assert(self.block@.subrange(0, k) == cur.subrange(m - k, m));
                assert(self.digest@ == digest_of_blocks(cur.subrange(0, m - k)));
                assert(data@.subrange(0, i + 1) =~= data@.subrange(0, i as int).push(b));
            }
            i = i + 1;
        }
        proof {
            assert(data@.subrange(0, data@.len() as int) =~= data@);
        }
    }

    /// Computes the final digest, once; later calls return the same words.
    pub fn hash(&mut self) -> (r: [u32; 5])
        requires
            old(self).wf(),
        ensures
            final(self).wf(),
            final(self).is_finished(),
            final(self)@ == old(self)@,
            r@ == digest(old(self)@),
    {
        if !self.computed {
            self.pad_message();
            self.computed = true;
        }
        self.digest
    }

    /// Appends the marker byte, the zero padding and the bit length, and
    /// compresses what remains.
    fn pad_message(&mut self)
        requires
            old(self).wf(),
            !old(self).computed,
        ensures
            final(self).digest@ == digest(old(self).data@),
            final(self).block_index == 0,
            final(self).length == old(self).length,
            final(self).computed == old(self).computed,
            final(self).data == old(self).data,
    {
        let ghost msg = self.data@;
        let ghost n = msg.len() as int;
        let ghost bi0 = self.block_index as int;
        let ghost p = msg.subrange(0, n - bi0);
        let ghost t = msg.subrange(n - bi0, n);
        let ghost foot = be_u64_bytes(self.length);
        proof {
            assert(msg =~= p + t);
            assert forall|j: int| 0 <= j < bi0 implies self.block@[j] == t[j] by {
                assert(self.block@.subrange(0, bi0)[j] == t[j]);
            }
        }
        self.block[self.block_index] = 0x80;
        self.block_index = self.block_index + 1;
        let ghost mut prefix = p;
        if self.block_index > 56 {
            let ghost b1 = t + seq![0x80u8] + Seq::new((63 - bi0) as nat, |i: int| 0u8);
            while self.block_index < 64
                invariant
                    bi0 + 1 <= self.block_index <= 64,
                    b1.len() == 64,
                    t.len() == bi0,
                    b1 == t + seq![0x80u8] + Seq::new((63 - bi0) as nat, |i: int| 0u8),
                    forall|j: int| 0 <= j < self.block_index ==> self.block@[j] == b1[j],
                    self.length == old(self).length,
                    self.computed == old(self).computed,
                    self.data == old(self).data,
                    self.digest == old(self).digest,
                decreases 64 - self.block_index,
            {
                let ghost ob = self.block@;
                let ghost k = self.block_index as int;
                self.block[self.block_index] = 0;
                self.block_index = self.block_index + 1;
                proof {
                    assert(self.block@ == ob.update(k, 0));
                    let z = Seq::new((63 - bi0) as nat, |i: int| 0u8);
                    assert((t + seq![0x80u8]).len() == bi0 + 1);
                    assert(b1[k] == z[k - (bi0 + 1)]);
                }
            }
            proof {
                assert(self.block@ =~= b1);
            }
            self.process_message_block();
            proof {
                lemma_digest_of_blocks_append(p, b1);
                prefix = p + b1;
            }
        }
        let ghost start = self.block_index as int;
        let ghost last = if start == 0 {
            Seq::new(56, |i: int| 0u8) + foot
        } else {
            t + seq![0x80u8] + Seq::new((55 - bi0) as nat, |i: int| 0u8) + foot
        };
        proof {
            assert(last.len() == 64);
            assert forall|j: int| 0 <= j < start implies self.block@[j] == last[j] by {}
        }
        while self.block_index < 56
            invariant
                start <= self.block_index <= 56,
                last.len() == 64,
                t.len() == bi0,
                0 <= bi0 < 64,
                (start == 0 && bi0 >= 56) || (start == bi0 + 1 && bi0 < 56),
                last == if start == 0 {
                    Seq::new(56, |i: int| 0u8) + foot
                } else {
                    t + seq![0x80u8] + Seq::new((55 - bi0) as nat, |i: int| 0u8) + foot
                },
                forall|j: int| 0 <= j < self.block_index ==> self.block@[j] == last[j],
                self.length == old(self).length,
                self.computed == old(self).computed,
                self.data == old(self).data,
                self.digest@ == digest_of_blocks(prefix),
            decreases 56 - self.block_index,
        {
            let ghost ob = self.block@;
            let ghost k = self.block_index as int;
            self.block[self.block_index] = 0;
            self.block_index = self.block_index + 1;
            proof {
                assert(self.block@ == ob.update(k, 0));
                if start == 0 {
                    assert(last[k] == Seq::new(56, |i: int| 0u8)[k]);
                } else {
                    let z = Seq::new((55 - bi0) as nat, |i: int| 0u8);
                    assert((t + seq![0x80u8]).len() == bi0 + 1);
                    assert((t + seq![0x80u8] + z)[k] == z[k - (bi0 + 1)]);
                    assert(last[k] == (t + seq![0x80u8] + z)[k]);
                }
            }
        }
        let len = self.length;
        self.block[56] = (len >> 56u64) as u8;
        self.block[57] = (len >> 48u64) as u8;
        self.block[58] = (len >> 40u64) as u8;
        self.block[59] = (len >> 32u64) as u8;
        self.block[60] = (len >> 24u64) as u8;
        self.block[61] = (len >> 16u64) as u8;
        self.block[62] = (len >> 8u64) as u8;
        self.block[63] = len as u8;
        proof {
            assert(self.block@ =~= last);
        }
        self.process_message_block();
        proof {
            assert(prefix.len() % 64 == 0);
            lemma_digest_of_blocks_append(prefix, last);
            if bi0 < 56 {
                assert(padded(msg) =~= prefix + last);
            } else {
                assert(padded(msg) =~= prefix + last);
            }
        }
    }

    /// Runs the compression function on the full block held.
    fn process_message_block(&mut self)
        ensures
            final(self).digest@ == compress(old(self).digest@, old(self).block@),
            final(self).block_index == 0,
            final(self).block == old(self).block,
            final(self).length == old(self).length,
            final(self).computed == old(self).computed,
            final(self).data == old(self).data,
    {
        let ghost blk = self.block@;
        let mut w: [u32; 80] = [0; 80];
        let mut i: usize = 0;
        while i < 16
            invariant
                i <= 16,
                blk == self.block@,
                forall|j: int| 0 <= j < i ==> w@[j] == schedule_word(blk, j as nat),
            decreases 16 - i,
        {
            let v: u32 = ((self.block[4 * i] as u32) << 24u32) | ((self.block[4 * i + 1] as u32)
                << 16u32) | ((self.block[4 * i + 2] as u32) << 8u32) | (self.block[4 * i
                + 3] as u32);
            w[i] = v;
            i = i + 1;
        }
        while i < 80
            invariant
                16 <= i <= 80,
                forall|j: int| 0 <= j < i ==> w@[j] == schedule_word(blk, j as nat),
            decreases 80 - i,
        {
            let v: u32 = w[i - 3] ^ w[i - 8] ^ w[i - 14] ^ w[i - 16];
            w[i] = v;
            i = i + 1;
        }
        let mut a = self.digest[0];
        let mut b = self.digest[1];
        let mut c = self.digest[2];
        let mut d = self.digest[3];
        let mut e = self.digest[4];
        let ghost st0 = (a, b, c, d, e);
        let mut i: usize = 0;
        while i < 80
            invariant
                i <= 80,
                st0 == (old(self).digest@[0], old(self).digest@[1], old(self).digest@[2],
                    old(self).digest@[3], old(self).digest@[4]),
                forall|j: int| 0 <= j < 80 ==> w@[j] == schedule_word(blk, j as nat),
                (a, b, c, d, e) == rounds(st0, blk, i as nat),
            decreases 80 - i,
        {
            let mix: u32;
            let k: u32;
            if i < 20 {
                mix = (b & c) | (!b & d);
                k = K0;
            } else if i < 40 {
                mix = b ^ c ^ d;
                k = K1;
            } else if i < 60 {
                mix = (b & c) | (b & d) | (c & d);
                k = K2;
            } else {
                mix = b ^ c ^ d;
                k = K3;
            }
            let temp = e.wrapping_add(left_rotate(a, 5)).wrapping_add(w[i]).wrapping_add(
                mix,
            ).wrapping_add(k);
            e = d;
            d = c;
            c = left_rotate(b, 30);
            b = a;
            a = temp;
            i = i + 1;
        }
        let d0 = self.digest[0].wrapping_add(a);
        let d1 = self.digest[1].wrapping_add(b);
        let d2 = self.digest[2].wrapping_add(c);
        let d3 = self.digest[3].wrapping_add(d);
        let d4 = self.digest[4].wrapping_add(e);
        self.digest = [d0, d1, d2, d3, d4];
        proof {
            assert(self.digest@ =~= compress(old(self).digest@, blk));
        }
        self.block_index = 0;
    }
}

} // verus!
