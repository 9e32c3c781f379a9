use vstd::prelude::*;
use crate::message_ram_layout::ChipFamily;

verus! {

/// The message RAM of the chip, shared by all its channels: filter lists and
/// frame buffers of every channel, each in the regions of its own layout.
pub struct MessageRam {
    pub(crate) family: ChipFamily,
    pub(crate) words: Vec<u32>,
}

impl MessageRam {
    /// The words of the RAM.
    pub open(crate) spec fn contents(self) -> Seq<u32> {
        self.words@
    }

    /// Chip family whose RAM this is.
    pub open(crate) spec fn family_spec(self) -> ChipFamily {
        self.family
    }

    /// The RAM has its family's size.
    pub open(crate) spec fn wf(self) -> bool {
        self.words@.len() == self.family.ram_words_spec()
    }

    /// The RAM of a chip family, every word zero.
    pub(crate) fn new(family: ChipFamily) -> (r: MessageRam)
        ensures
            r.family_spec() == family,
            r.wf(),
            r.contents() == Seq::new(family.ram_words_spec(), |i: int| 0u32),
    {
        let n = family.ram_words();
        let mut words: Vec<u32> = Vec::new();
        let mut i: usize = 0;
        while i < n
            invariant
                i <= n,
                words@ == Seq::new(i as nat, |k: int| 0u32),
            decreases n - i,
        {
            words.push(0);
            i += 1;
            assert(words@ =~= Seq::new(i as nat, |k: int| 0u32));
        }
        MessageRam { family, words }
    }

    /// Chip family whose RAM this is.
    pub fn family(&self) -> (r: ChipFamily)
        ensures
            r == self.family_spec(),
    {
        self.family
    }

    /// The words of the RAM.
    pub fn words(&self) -> (r: &[u32])
        ensures
            r@ == self.contents(),
    {
        self.words.as_slice()
    }

    /// Stores a word as the hardware does, for example on reception; an
    /// index past the RAM is ignored.
    pub fn store_word(&mut self, index: usize, value: u32)
        ensures
            final(self).contents() == if index < old(self).contents().len() {
                old(self).contents().update(index as int, value)
            } else {
                old(self).contents()
            },
            final(self).family_spec() == old(self).family_spec(),
    {
        if index < self.words.len() {
            self.words.set(index, value);
        }
    }

    /// Writes zero to every word.
    pub(crate) fn zero(&mut self)
        ensures
            final(self).contents() == Seq::new(old(self).contents().len(), |i: int| 0u32),
            final(self).family_spec() == old(self).family_spec(),
    {
        let n = self.words.len();
        let mut i: usize = 0;
        while i < n
            invariant
                n == self.words@.len(),
                i <= n,
                forall|k: int| 0 <= k < i ==> self.words@[k] == 0u32,
                self.family == old(self).family,
            decreases n - i,
        {
            self.words.set(i, 0);
            i += 1;
        }
        assert(self.words@ =~= Seq::new(n as nat, |i: int| 0u32));
    }
}

} // verus!
