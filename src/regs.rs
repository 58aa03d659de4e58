//! A model of a memory-mapped bank of 32-bit registers.
//!
//! The bank keeps the value of every word and the ordered list of writes the
//! driver issued. Hardware-side changes (a status bit raised by the engine)
//! enter through `hw_set`, which is not a driver write and is not logged.
//! A host driving real hardware issues the logged writes after each step of
//! a run and refreshes the words the engines change before the next one.

use vstd::prelude::*;

verus! {

/// Size in bytes of one register bank.
pub const REG_BANK_BYTES: usize = 0x1000;

/// Number of 32-bit words in one register bank.
pub const REG_BANK_WORDS: usize = 0x400;

/// One volatile 32-bit write at a byte offset of a bank.
#[derive(Clone, Copy, Debug, PartialEq, Eq, Structural)]
pub struct RegWrite {
    pub offset: usize,
    pub value: u32,
}

pub open spec fn wr(offset: usize, value: u32) -> RegWrite {
    RegWrite { offset, value }
}

/// A word-aligned offset inside a bank.
pub open spec fn reg_offset_ok(offset: usize) -> bool {
    offset % 4 == 0 && offset < REG_BANK_BYTES
}

/// A register field whose bits are write-one-to-clear: the word at
/// `offset` keeps the `mask` bits the hardware set until a one is written
/// to them; its other bits take the written value.
#[derive(Clone, Copy, Debug, PartialEq, Eq, Structural)]
pub struct W1c {
    pub offset: usize,
    pub mask: u32,
}

/// What a word holds after `value` is written over `prior`.
pub open spec fn stored_value(c: W1c, offset: usize, prior: u32, value: u32) -> u32 {
    if offset == c.offset {
        (value & !c.mask) | (prior & c.mask & !value)
    } else {
        value
    }
}

pub open spec fn apply_write(c: W1c, words: Seq<u32>, w: RegWrite) -> Seq<u32> {
    let i = w.offset as int / 4;
    if 0 <= i < words.len() {
        words.update(i, stored_value(c, w.offset, words[i], w.value))
    } else {
        words
    }
}

/// The word values after a sequence of writes, applied in order.
pub open spec fn apply_writes(c: W1c, words: Seq<u32>, ws: Seq<RegWrite>) -> Seq<u32>
    decreases ws.len(),
{
    if ws.len() == 0 {
        words
    } else {
        apply_write(c, apply_writes(c, words, ws.drop_last()), ws.last())
    }
}

pub proof fn lemma_apply_writes_len(c: W1c, words: Seq<u32>, ws: Seq<RegWrite>)
    ensures
        apply_writes(c, words, ws).len() == words.len(),
    decreases ws.len(),
{
    if ws.len() > 0 {
        lemma_apply_writes_len(c, words, ws.drop_last());
    }
}

pub proof fn lemma_apply_writes_concat(c: W1c, words: Seq<u32>, ws1: Seq<RegWrite>, ws2: Seq<RegWrite>)
    ensures
        apply_writes(c, words, ws1 + ws2) == apply_writes(c, apply_writes(c, words, ws1), ws2),
    decreases ws2.len(),
{
    if ws2.len() == 0 {
        assert(ws1 + ws2 =~= ws1);
    } else {
        assert((ws1 + ws2).drop_last() =~= ws1 + ws2.drop_last());
        lemma_apply_writes_concat(c, words, ws1, ws2.drop_last());
    }
}

/// Writes that miss word `idx` leave it as it was.
pub proof fn lemma_apply_writes_frame(c: W1c, words: Seq<u32>, ws: Seq<RegWrite>, idx: int)
    requires
        0 <= idx < words.len(),
        forall|k: int| 0 <= k < ws.len() ==> (#[trigger] ws[k]).offset as int / 4 != idx,
    ensures
        apply_writes(c, words, ws)[idx] == words[idx],
    decreases ws.len(),
{
    if ws.len() > 0 {
        let prefix = ws.drop_last();
        assert forall|k: int| 0 <= k < prefix.len() implies (#[trigger] prefix[k]).offset as int / 4
            != idx by {
            assert(prefix[k] == ws[k]);
        }
        lemma_apply_writes_frame(c, words, prefix, idx);
        lemma_apply_writes_len(c, words, prefix);
        assert(ws.last() == ws[ws.len() - 1]);
    }
}

pub struct RegBank {
    words: Vec<u32>,
    log: Vec<RegWrite>,
    w1c: W1c,
}

impl RegBank {
    /// The current value of every word of the bank.
    pub closed spec fn words(&self) -> Seq<u32> {
        self.words@
    }

    /// Every write the driver issued to the bank, oldest first.
    pub closed spec fn log(&self) -> Seq<RegWrite> {
        self.log@
    }

    /// The bank's write-one-to-clear field.
    pub closed spec fn w1c(&self) -> W1c {
        self.w1c
    }

    pub open spec fn wf(&self) -> bool {
        self.words().len() == REG_BANK_WORDS
    }

    pub open spec fn word(&self, offset: usize) -> u32 {
        self.words()[offset as int / 4]
    }

    /// `self` is `before` followed by exactly the writes `ws`.
    pub open spec fn wrote(&self, before: RegBank, ws: Seq<RegWrite>) -> bool {
        &&& self.w1c() == before.w1c()
        &&& self.log() == before.log() + ws
        &&& self.words() == apply_writes(before.w1c(), before.words(), ws)
    }

    /// A bank whose words are all zero and which has seen no write.
    pub fn new(w1c: W1c) -> (r: RegBank)
        ensures
            r.wf(),
            r.w1c() == w1c,
            r.words() == Seq::new(REG_BANK_WORDS as nat, |i: int| 0u32),
            r.log() == Seq::<RegWrite>::empty(),
    {
        let mut words: Vec<u32> = Vec::new();
        let mut i: usize = 0;
        while i < REG_BANK_WORDS
            invariant
                i <= REG_BANK_WORDS,
                words@ == Seq::new(i as nat, |j: int| 0u32),
            decreases REG_BANK_WORDS - i,
        {
            words.push(0);
            i = i + 1;
            assert(words@ =~= Seq::new(i as nat, |j: int| 0u32));
        }
        RegBank { words, log: Vec::new(), w1c }
    }

    pub fn read(&self, offset: usize) -> (r: u32)
        requires
            self.wf(),
            reg_offset_ok(offset),
        ensures
            r == self.word(offset),
    {
        self.words[offset / 4]
    }

    pub fn write(&mut self, offset: usize, value: u32)
        requires
            old(self).wf(),
            reg_offset_ok(offset),
        ensures
            final(self).wf(),
            final(self).wrote(*old(self), seq![wr(offset, value)]),
            final(self).words() == old(self).words().update(
                offset as int / 4,
                stored_value(old(self).w1c(), offset, old(self).word(offset), value),
            ),
    {
        let ghost before = *self;
        let prior = self.words[offset / 4];
        let v = if offset == self.w1c.offset {
            (value & !self.w1c.mask) | (prior & self.w1c.mask & !value)
        } else {
            value
        };
        self.words.set(offset / 4, v);
        self.log.push(RegWrite { offset, value });
        proof {
            let ws = seq![wr(offset, value)];
            assert(ws.drop_last() =~= Seq::<RegWrite>::empty());
            assert(apply_writes(before.w1c(), before.words(), Seq::<RegWrite>::empty()) == before.words());
            assert(before.log() + ws =~= self.log());
            assert(apply_writes(before.w1c(), before.words(), ws) == apply_write(before.w1c(), before.words(), wr(offset, value)));
        }
    }

    /// Issues the writes of `ws` in order.
    pub fn write_all(&mut self, ws: &Vec<RegWrite>)
        requires
            old(self).wf(),
            forall|i: int| 0 <= i < ws@.len() ==> reg_offset_ok(#[trigger] ws@[i].offset),
        ensures
            final(self).wf(),
            final(self).wrote(*old(self), ws@),
    {
        let mut i: usize = 0;
        while i < ws.len()
            invariant
                i <= ws@.len(),
                self.wf(),
                self.wrote(*old(self), ws@.take(i as int)),
                forall|k: int| 0 <= k < ws@.len() ==> reg_offset_ok(#[trigger] ws@[k].offset),
            decreases ws@.len() - i,
        {
            let w = ws[i];
            let ghost mid = *self;
            self.write(w.offset, w.value);
            proof {
                lemma_wrote_trans(*old(self), mid, *self, ws@.take(i as int), seq![w]);
                assert(ws@.take(i as int) + seq![w] =~= ws@.take(i + 1));
            }
            i = i + 1;
        }
        proof {
            assert(ws@.take(ws@.len() as int) =~= ws@);
        }
    }

    /// A change made by the hardware itself; it is not a driver write.
    pub fn hw_set(&mut self, offset: usize, value: u32)
        requires
            old(self).wf(),
            reg_offset_ok(offset),
        ensures
            final(self).wf(),
            final(self).words() == old(self).words().update(offset as int / 4, value),
            final(self).log() == old(self).log(),
            final(self).w1c() == old(self).w1c(),
    {
        self.words.set(offset / 4, value);
    }

    /// Hands out the writes issued so far and forgets them.
    pub fn take_log(&mut self) -> (r: Vec<RegWrite>)
        requires
            old(self).wf(),
        ensures
            final(self).wf(),
            r@ == old(self).log(),
            final(self).log() == Seq::<RegWrite>::empty(),
            final(self).words() == old(self).words(),
            final(self).w1c() == old(self).w1c(),
    {
        let mut taken: Vec<RegWrite> = Vec::new();
        std::mem::swap(&mut taken, &mut self.log);
        taken
    }
}

pub proof fn lemma_wrote_trans(
    a: RegBank,
    b: RegBank,
    c: RegBank,
    ws1: Seq<RegWrite>,
    ws2: Seq<RegWrite>,
)
    requires
        b.wrote(a, ws1),
        c.wrote(b, ws2),
    ensures
        c.wrote(a, ws1 + ws2),
{
    assert(a.log() + ws1 + ws2 =~= a.log() + (ws1 + ws2));
    lemma_apply_writes_concat(a.w1c(), a.words(), ws1, ws2);
}

} // verus!
