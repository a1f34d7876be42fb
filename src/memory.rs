use vstd::prelude::*;

verus! {

/// Number of bytes in the address space.
pub const MEMORY_SIZE: usize = 4096;

/// The unsigned value of `bytes` read most significant byte first.
pub open spec fn be_value(bytes: Seq<u8>) -> nat
    decreases bytes.len(),
{
    if bytes.len() == 0 {
        0
    } else {
        (be_value(bytes.drop_last()) * 256 + bytes.last()) as nat
    }
}

/// `base` with `data` written over it starting at address `beg`.
pub open spec fn overwrite(base: Seq<u8>, beg: int, data: Seq<u8>) -> Seq<u8> {
    Seq::new(
        base.len(),
        |a: int|
            if beg <= a < beg + data.len() {
                data[a - beg]
            } else {
                base[a]
            },
    )
}

/// A flat, zero-initialised address space of 4096 bytes.
#[derive(Clone, Copy)]
pub struct Memory {
    pub memory: [u8; 4096],
}

impl View for Memory {
    type V = Seq<u8>;

    open spec fn view(&self) -> Seq<u8> {
        self.memory@
    }
}

impl Default for Memory {
    fn default() -> (r: Memory)
        ensures
            r@ == Seq::new(4096, |a: int| 0u8),
    {
        Memory::new()
    }
}

impl Memory {
    /// Memory holding only zeros.
    pub fn new() -> (r: Memory)
        ensures
            r@ == Seq::new(4096, |a: int| 0u8),
    {
        let r = Memory { memory: [0u8; 4096] };
        assert(r@ =~= Seq::new(4096, |a: int| 0u8));
        r
    }

    /// Zeroed memory with `vec` written from address 0.
    pub fn from_vec(vec: Vec<u8>) -> (r: Memory)
        requires
            vec@.len() <= MEMORY_SIZE,
        ensures
            r@ == overwrite(Seq::new(4096, |a: int| 0u8), 0, vec@),
    {
        let mut memory = Memory::new();
        memory.write(0, vec.as_slice());
        memory
    }

    /// Writes `to_write` starting at address `beg`.
    pub fn write(&mut self, beg: usize, to_write: &[u8])
        requires
            beg + to_write@.len() <= MEMORY_SIZE,
        ensures
            final(self)@ == overwrite(old(self)@, beg as int, to_write@),
    {
        let mut i: usize = 0;
        while i < to_write.len()
            invariant
                beg + to_write@.len() <= MEMORY_SIZE,
                i <= to_write@.len(),
                self@.len() == 4096,
                forall|a: int|
                    0 <= a < 4096 ==> #[trigger] self@[a] == (if beg <= a < beg + i {
                        to_write@[a - beg]
                    } else {
                        old(self)@[a]
                    }),
            decreases to_write@.len() - i,
        {
            self.memory[beg + i] = to_write[i];
            i = i + 1;
        }
        assert(self@ =~= overwrite(old(self)@, beg as int, to_write@));
    }

    /// The `to_read` bytes starting at address `beg`.
    pub fn read(&self, beg: usize, to_read: usize) -> (r: Vec<u8>)
        requires
            beg + to_read <= MEMORY_SIZE,
        ensures
            r@ == self@.subrange(beg as int, beg + to_read),
    {
        let mut ret: Vec<u8> = Vec::new();
        let mut i: usize = 0;
        while i < to_read
            invariant
                beg + to_read <= MEMORY_SIZE,
                i <= to_read,
                ret@ == self@.subrange(beg as int, beg + i),
            decreases to_read - i,
        {
            ret.push(self.memory[beg + i]);
            i = i + 1;
            assert(ret@ =~= self@.subrange(beg as int, beg + i));
        }
        ret
    }

    /// Size of the address space.
    pub fn len(&self) -> (r: usize)
        ensures
            r == self@.len(),
            r == MEMORY_SIZE,
    {
        MEMORY_SIZE
    }

    /// The `size`-byte big-endian number stored from address `beg`.
    pub fn read_t(&self, beg: usize, size: usize) -> (r: u64)
        requires
            size <= 8,
            beg + size <= MEMORY_SIZE,
        ensures
            r == be_value(self@.subrange(beg as int, beg + size)),
    {
        let mut number: u64 = 0;
        let mut i: usize = 0;
        while i < size
            invariant
                size <= 8,
                beg + size <= MEMORY_SIZE,
                i <= size,
                number == be_value(self@.subrange(beg as int, beg + i)),
                number < pow256(i as nat),
            decreases size - i,
        {
            let byte = self.memory[beg + i];
            proof {
                let s = self@.subrange(beg as int, beg + i + 1);
                assert(s.drop_last() =~= self@.subrange(beg as int, beg + i));
                lemma_pow256_step(i as nat, number as nat, byte);
            }
            number = number * 256 + byte as u64;
            i = i + 1;
        }
        number
    }
}

/// `256` to the power `n`.
pub open spec fn pow256(n: nat) -> nat
    decreases n,
{
    if n == 0 {
        1
    } else {
        256 * pow256((n - 1) as nat)
    }
}

proof fn lemma_pow256_step(i: nat, number: nat, byte: u8)
    requires
        i < 8,
        number < pow256(i),
    ensures
        number * 256 + byte < pow256(i + 1),
        pow256(i + 1) <= 0x1_0000_0000_0000_0000,
    decreases i,
{
    lemma_pow256_bound(i + 1);
    assert(number * 256 + byte < pow256(i + 1)) by (nonlinear_arith)
        requires
            number < pow256(i),
            pow256(i + 1) == 256 * pow256(i),
            byte < 256,
    ;
}

proof fn lemma_pow256_bound(n: nat)
    requires
        n <= 8,
    ensures
        pow256(n) <= pow256(8),
        pow256(8) == 0x1_0000_0000_0000_0000,
    decreases 8 - n,
{
    reveal_with_fuel(pow256, 9);
    if n < 8 {
        lemma_pow256_bound(n + 1);
    }
}

} // verus!
