use vstd::prelude::*;

verus! {

/// A 32-byte public key: an owner's identity, a program id or a derived address.
#[derive(Clone, Copy, Debug)]
pub struct Key {
    pub bytes: [u8; 32],
}

impl View for Key {
    type V = Seq<u8>;

    open spec fn view(&self) -> Seq<u8> {
        self.bytes@
    }
}

impl Key {
    pub fn new(bytes: [u8; 32]) -> (r: Key)
        ensures
            r.bytes == bytes,
    {
        Key { bytes }
    }

    /// Byte-wise equality of two keys.
    pub fn same_as(&self, other: &Key) -> (r: bool)
        ensures
            r == (self@ == other@),
    {
        let mut i: usize = 0;
        while i < 32
            invariant
                i <= 32,
                self@.len() == 32,
                other@.len() == 32,
                forall|j: int| 0 <= j < i ==> self@[j] == other@[j],
            decreases 32 - i,
        {
            if self.bytes[i] != other.bytes[i] {
                return false;
            }
            i = i + 1;
        }
        assert(self@ =~= other@);
        true
    }

    /// The key's bytes as a vector, for use as a seed.
    pub fn to_vec(&self) -> (r: Vec<u8>)
        ensures
            r@ == self@,
    {
        let mut r: Vec<u8> = Vec::new();
        let mut i: usize = 0;
        while i < 32
            invariant
                i <= 32,
                self@.len() == 32,
                r@ == self@.subrange(0, i as int),
            decreases 32 - i,
        {
            r.push(self.bytes[i]);
            i = i + 1;
        }
        assert(r@ =~= self@);
        r
    }
}

/// The eight little-endian bytes of `n`, least significant first.
pub open spec fn le_bytes(n: u64) -> Seq<u8>
    decreases 8nat,
{
    le_bytes_of(n as nat, 8)
}

/// The `count` low-order base-256 digits of `n`, least significant first.
pub open spec fn le_bytes_of(n: nat, count: nat) -> Seq<u8>
    decreases count,
{
    if count == 0 {
        seq![]
    } else {
        seq![(n % 256) as u8] + le_bytes_of(n / 256, (count - 1) as nat)
    }
}

/// Encodes `n` as eight little-endian bytes.
pub fn to_le_bytes(n: u64) -> (r: Vec<u8>)
    ensures
        r@ == le_bytes(n),
        r@.len() == 8,
{
    let mut r: Vec<u8> = Vec::new();
    let mut rest: u64 = n;
    let mut i: usize = 0;
    while i < 8
        invariant
            i <= 8,
            r@ + le_bytes_of(rest as nat, (8 - i) as nat) == le_bytes_of(n as nat, 8),
        decreases 8 - i,
    {
        proof {
            assert(le_bytes_of(rest as nat, (8 - i) as nat) == seq![(rest % 256) as u8]
                + le_bytes_of((rest / 256) as nat, (8 - i - 1) as nat));
        }
        let digit: u8 = (rest % 256) as u8;
        r.push(digit);
        rest = rest / 256;
        proof {
            assert(r@ + le_bytes_of(rest as nat, (8 - (i + 1)) as nat) =~= le_bytes_of(n as nat, 8));
        }
        i = i + 1;
    }
    proof {
        assert(le_bytes_of(rest as nat, 0) =~= seq![]);
        assert(r@ =~= le_bytes(n));
        lemma_le_bytes_len(n as nat, 8);
    }
    r
}

pub proof fn lemma_le_bytes_len(n: nat, count: nat)
    ensures
        le_bytes_of(n, count).len() == count,
    decreases count,
{
    if count > 0 {
        lemma_le_bytes_len(n / 256, (count - 1) as nat);
    }
}

} // verus!
