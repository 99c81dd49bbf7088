use vstd::prelude::*;
use vstd::arithmetic::div_mod::{lemma_add_mod_noop, lemma_small_mod};
use crate::decode::{Errors, Operation, fetch_result};
use crate::memory::{LayoutReason, Memory, MemoryError, be32, has_magic, image_error, new_error, parse_header, CHECKSUM_POS};

verus! {

pub const WORD_MOD: u64 = 0x1_0000_0000;

/// Word `i` of the image as the checksum counts it: the checksum word counts
/// as zero.
pub open spec fn checksum_word(s: Seq<u8>, i: int) -> int {
    if i == 8 {
        0
    } else {
        be32(s, 4 * i)
    }
}

/// Sum of the first `k` words as the checksum counts them.
pub open spec fn word_sum(s: Seq<u8>, k: nat) -> int
    decreases k,
{
    if k == 0 {
        0
    } else {
        word_sum(s, (k - 1) as nat) + checksum_word(s, k - 1)
    }
}

/// The checksum of an image: the sum modulo 2^32 of all its words, the
/// checksum word counting as zero.
pub open spec fn checksum_of(s: Seq<u8>) -> int {
    word_sum(s, (s.len() / 4) as nat) % 0x1_0000_0000
}

/// What loading the image `s` gives, if it fails: the size, magic and
/// layout errors of its memory, then a length that is not whole words, then a
/// checksum that does not match.
pub open spec fn load_error(s: Seq<u8>) -> Option<MemoryError> {
    match new_error(s) {
        Some(e) => Some(e),
        None => if s.len() % 4 != 0 {
            Some(MemoryError::InconsistentLayout(LayoutReason::PartialWord))
        } else if checksum_of(s) != be32(s, 32) {
            Some(MemoryError::BadChecksum(be32(s, 32) as u32, checksum_of(s) as u32))
        } else {
            None
        },
    }
}

/// The sum modulo 2^32 of the words of `s`, the checksum word counting as zero.
pub fn compute_checksum(s: &Vec<u8>) -> (r: u32)
    requires
        s@.len() >= 36,
        s@.len() % 4 == 0,
    ensures
        r as int == checksum_of(s@),
{
    let n = s.len() / 4;
    let mut acc: u32 = 0;
    let mut i: usize = 0;
    while i < n
        invariant
            n as int == s@.len() / 4,
            s@.len() % 4 == 0,
            s@.len() <= usize::MAX,
            i <= n,
            acc as int == word_sum(s@, i as nat) % 0x1_0000_0000,
        decreases n - i,
    {
        let p = 4 * i;
        let w: u32 = if p == CHECKSUM_POS as usize {
            0
        } else {
            (s[p] as u32) * 0x1000000 + (s[p + 1] as u32) * 0x10000 + (s[p + 2] as u32) * 0x100
                + (s[p + 3] as u32)
        };
        proof {
            lemma_add_mod_noop(word_sum(s@, i as nat), w as int, 0x1_0000_0000);
            lemma_small_mod(w as nat, 0x1_0000_0000);
            lemma_small_mod(acc as nat, 0x1_0000_0000);
        }
        acc = ((acc as u64 + w as u64) % WORD_MOD) as u32;
        i = i + 1;
    }
    acc
}

/// A loaded machine: its memory and its program counter.
pub struct GlulxTerp {
    memory: Memory,
    pc: u32,
}

impl GlulxTerp {
    pub closed spec fn spec_memory(&self) -> Memory {
        self.memory
    }

    pub closed spec fn spec_pc(&self) -> u32 {
        self.pc
    }

    pub open spec fn wf(&self) -> bool {
        self.spec_memory().wf()
    }

    /// Loads an image: checks its size, magic, layout and checksum, and
    /// starts at the header's `start_func`.
    pub fn from_reader(raw: Vec<u8>) -> (r: Result<GlulxTerp, Errors>)
        requires
            raw@.len() <= u32::MAX,
        ensures
            match r {
                Ok(t) => {
                    &&& load_error(raw@) is None
                    &&& t.wf()
                    &&& t.spec_pc() as int == be32(raw@, 24)
                    &&& t.spec_memory().ram_base() as int == be32(raw@, 8)
                    &&& t.spec_memory().ext_base() as int == be32(raw@, 12)
                    &&& t.spec_memory().bytes().len() == if be32(raw@, 16) > raw@.len() {
                        be32(raw@, 16)
                    } else {
                        raw@.len() as int
                    }
                    &&& t.spec_memory().bytes().subrange(0, raw@.len() as int) == raw@
                    &&& forall|i: int|
                        raw@.len() <= i < t.spec_memory().bytes().len()
                            ==> t.spec_memory().bytes()[i] == 0u8
                },
                Err(e) => exists|me: MemoryError|
                    load_error(raw@) == Some(me) && e == Errors::MemoryError(me),
            },
    {
        if let Some(e) = image_error(&raw) {
            return Err(Errors::MemoryError(e));
        }
        if raw.len() % 4 != 0 {
            return Err(Errors::MemoryError(MemoryError::InconsistentLayout(LayoutReason::PartialWord)));
        }
        let header = parse_header(&raw);
        let computed = compute_checksum(&raw);
        if computed != header.checksum {
            return Err(Errors::MemoryError(MemoryError::BadChecksum(header.checksum, computed)));
        }
        match Memory::new(raw) {
            Ok(memory) => Ok(GlulxTerp { memory, pc: header.start_func }),
            Err(e) => Err(Errors::MemoryError(e)),
        }
    }

    /// The program counter.
    pub fn pc(&self) -> (r: u32)
        ensures
            r == self.spec_pc(),
    {
        self.pc
    }

    /// The memory of the machine.
    pub fn memory(&self) -> (r: &Memory)
        ensures
            r == self.spec_memory(),
    {
        &self.memory
    }

    /// Decodes the instruction at the program counter and moves the counter
    /// past it; on an error the counter stays.
    pub fn step(&mut self) -> (r: Result<Operation, Errors>)
        requires
            old(self).wf(),
        ensures
            final(self).wf(),
            final(self).spec_memory() == old(self).spec_memory(),
            fetch_result(
                old(self).spec_memory().bytes(),
                old(self).spec_pc(),
                match r {
                    Ok(o) => Ok((o, final(self).spec_pc())),
                    Err(e) => Err(e),
                },
            ),
            r is Err ==> final(self).spec_pc() == old(self).spec_pc(),
    {
        match Operation::fetch(&self.memory, self.pc) {
            Ok((op, next)) => {
                self.pc = next;
                Ok(op)
            },
            Err(e) => Err(e),
        }
    }
}

/// Changing byte `p` changes the checksum sum by exactly the change of the
/// word that holds it.
proof fn lemma_word_sum_update(s: Seq<u8>, s2: Seq<u8>, p: int, k: nat)
    requires
        s2.len() == s.len(),
        0 <= p < s.len(),
        p / 4 != 8,
        forall|i: int| 0 <= i < s.len() && i != p ==> s2[i] == s[i],
        4 * k <= s.len(),
    ensures
        word_sum(s2, k) == word_sum(s, k) + if p / 4 < k {
            checksum_word(s2, p / 4) - checksum_word(s, p / 4)
        } else {
            0
        },
    decreases k,
{
    if k > 0 {
        lemma_word_sum_update(s, s2, p, (k - 1) as nat);
        let i = k - 1;
        if i != p / 4 {
            assert(4 * i != p && 4 * i + 1 != p && 4 * i + 2 != p && 4 * i + 3 != p);
            assert(checksum_word(s2, i) == checksum_word(s, i));
        }
    }
}

/// An image that loads fails with `BadChecksum` once any one byte outside
/// the checksum field is changed, as long as its magic and layout still hold.
pub proof fn lemma_byte_change_breaks_checksum(s: Seq<u8>, p: int, b: u8)
    requires
        load_error(s) is None,
        0 <= p < s.len(),
        !(32 <= p < 36),
        b != s[p],
        new_error(s.update(p, b)) is None,
    ensures
        load_error(s.update(p, b)) == Some(
            MemoryError::BadChecksum(be32(s, 32) as u32, checksum_of(s.update(p, b)) as u32),
        ),
{
    let s2 = s.update(p, b);
    let q = p / 4;
    let n = (s.len() / 4) as nat;
    assert(q < n);
    lemma_word_sum_update(s, s2, p, n);
    let d = checksum_word(s2, q) - checksum_word(s, q);
    assert(d != 0 && -0x1_0000_0000 < d < 0x1_0000_0000) by {
        let r = p % 4;
        assert(p == 4 * q + r);
        if r == 0 {
            assert(d == (b - s[p]) * 0x1000000);
        } else if r == 1 {
            assert(d == (b - s[p]) * 0x10000);
        } else if r == 2 {
            assert(d == (b - s[p]) * 0x100);
        } else {
            assert(d == b - s[p]);
        }
    }
    let w = word_sum(s, n);
    assert(word_sum(s2, n) == w + d);
    assert((w + d) % 0x1_0000_0000 != w % 0x1_0000_0000) by (nonlinear_arith)
        requires
            d != 0,
            -0x1_0000_0000 < d < 0x1_0000_0000,
    ;
    assert(be32(s2, 32) == be32(s, 32));
}

/// An image of at least 36 bytes without the magic `Glul` fails to load with
/// `BadMagic`, whatever its layout, length and checksum.
pub proof fn lemma_bad_magic_first(s: Seq<u8>)
    requires
        s.len() >= 36,
        !has_magic(s),
    ensures
        load_error(s) == Some(MemoryError::BadMagic),
{
}

/// An image shorter than 36 bytes fails to load with `NotEnoughData` of its
/// length.
pub proof fn lemma_short_image(s: Seq<u8>)
    requires
        s.len() < 36,
    ensures
        load_error(s) == Some(MemoryError::NotEnoughData(s.len() as usize)),
{
}

/// An image with the magic, an ordered layout that it covers, whole words, and
/// a checksum word equal to the sum of its other words, loads.
pub proof fn lemma_matching_checksum_loads(s: Seq<u8>)
    requires
        s.len() >= 36,
        s.len() % 4 == 0,
        has_magic(s),
        be32(s, 8) <= be32(s, 12) <= be32(s, 16),
        be32(s, 12) <= s.len(),
        be32(s, 32) == word_sum(s, (s.len() / 4) as nat) % 0x1_0000_0000,
    ensures
        load_error(s) is None,
{
}

} // verus!
