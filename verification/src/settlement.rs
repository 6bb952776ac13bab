//! The queue of outbound transfers and its byte encoding.

use vstd::bytes::lemma_auto_spec_u64_to_from_le_bytes;
use vstd::bytes::spec_u64_to_le_bytes;
use vstd::bytes::u64_to_le_bytes;
use vstd::prelude::*;

verus! {

/// Bytes that one queued transfer takes in the flushed buffer.
pub const ENTRY_BYTES: usize = 24;

/// One outbound transfer: the three words of the command that asked for it,
/// kept as they came.
#[derive(Clone, Copy, Debug, PartialEq, Eq)]
pub struct SettlementEntry {
    pub words: [u64; 3],
}

impl SettlementEntry {
    /// The bytes of this transfer: its three words in order, each as eight
    /// bytes, least significant first.
    pub open spec fn encoding(self) -> Seq<u8> {
        spec_u64_to_le_bytes(self.words[0]) + spec_u64_to_le_bytes(self.words[1])
            + spec_u64_to_le_bytes(self.words[2])
    }

    /// The transfer that carries `words`.
    pub fn new(words: &[u64; 3]) -> (entry: Self)
        ensures
            entry.words == *words,
    {
        SettlementEntry { words: *words }
    }

    /// Appends the bytes of this transfer to `bytes`.
    pub fn flush(&self, bytes: &mut Vec<u8>)
        ensures
            final(bytes)@ == old(bytes)@ + self.encoding(),
    {
        let mut first = u64_to_le_bytes(self.words[0]);
        let mut second = u64_to_le_bytes(self.words[1]);
        let mut third = u64_to_le_bytes(self.words[2]);
        bytes.append(&mut first);
        bytes.append(&mut second);
        bytes.append(&mut third);
        assert(bytes@ =~= old(bytes)@ + self.encoding());
    }
}

/// The bytes of a run of transfers: the encodings of its entries, one after
/// the other.
pub open spec fn encode_entries(entries: Seq<SettlementEntry>) -> Seq<u8>
    decreases entries.len(),
{
    if entries.len() == 0 {
        Seq::empty()
    } else {
        encode_entries(entries.drop_last()) + entries.last().encoding()
    }
}

/// Every transfer takes `ENTRY_BYTES` bytes: the number of entries that
/// were queued is the number of bytes flushed, divided by `ENTRY_BYTES`.
pub proof fn lemma_encoded_len(entries: Seq<SettlementEntry>)
    ensures
        encode_entries(entries).len() == ENTRY_BYTES * entries.len(),
        encode_entries(entries).len() / (ENTRY_BYTES as nat) == entries.len(),
    decreases entries.len(),
{
    lemma_auto_spec_u64_to_from_le_bytes();
    if entries.len() > 0 {
        lemma_encoded_len(entries.drop_last());
    }
}

/// Transfers that were promised and not yet handed to the external ledger.
pub struct SettlementInfo(Vec<SettlementEntry>);

impl View for SettlementInfo {
    type V = Seq<SettlementEntry>;

    /// The queued transfers, oldest first.
    closed spec fn view(&self) -> Seq<SettlementEntry> {
        self.0@
    }
}

impl SettlementInfo {
    /// An empty queue.
    pub fn new() -> (queue: Self)
        ensures
            queue@ == Seq::<SettlementEntry>::empty(),
    {
        SettlementInfo(Vec::new())
    }

    /// Puts `info` at the end of the queue.
    pub fn append_settlement(&mut self, info: SettlementEntry)
        ensures
            final(self)@ == old(self)@.push(info),
    {
        self.0.push(info);
    }

    /// The number of queued transfers.
    pub fn settlement_size(&self) -> (size: usize)
        ensures
            size == self@.len(),
    {
        self.0.len()
    }

    /// Hands out the bytes of all queued transfers, oldest first, and
    /// empties the queue.
    pub fn flush_settlement(&mut self) -> (bytes: Vec<u8>)
        ensures
            bytes@ == encode_entries(old(self)@),
            bytes@.len() == ENTRY_BYTES * old(self)@.len(),
            final(self)@ == Seq::<SettlementEntry>::empty(),
    {
        let mut bytes: Vec<u8> = Vec::new();
        let mut i: usize = 0;
        while i < self.0.len()
            invariant
                i <= self.0@.len(),
                self.0@ == old(self).0@,
                bytes@ == encode_entries(self.0@.take(i as int)),
            decreases self.0@.len() - i,
        {
            let entry = self.0[i];
            entry.flush(&mut bytes);
            proof {
                let done = self.0@.take(i + 1);
                assert(done.drop_last() =~= self.0@.take(i as int));
                assert(done.last() == entry);
            }
            i = i + 1;
        }
        proof {
            assert(self.0@.take(i as int) =~= self.0@);
            lemma_encoded_len(self.0@);
        }
        self.0 = Vec::new();
        bytes
    }
}

/// Flushing a queue that was just flushed yields no bytes.
pub proof fn lemma_empty_queue_encodes_to_nothing()
    ensures
        encode_entries(Seq::<SettlementEntry>::empty()) == Seq::<u8>::empty(),
{
}

} // verus!
