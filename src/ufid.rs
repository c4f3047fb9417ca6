use vstd::prelude::*;

use crate::encoding::{hex_lower, hex_of};
use crate::sha::{absorbed, sha256_finalize, sha256_new, sha256_update, sha256_of, Sha256State};

verus! {

/// The identifier of a file with content `content`: the lowercase hexadecimal SHA-256
/// digest of the whole content.
pub open spec fn file_id_of(content: Seq<u8>) -> Seq<char> {
    hex_of(sha256_of(content))
}

/// A whole-file identifier computed block by block, so that a file of any size can be
/// identified with a bounded buffer.
pub struct FileIdentifier {
    state: Sha256State,
}

impl FileIdentifier {
    /// The bytes fed so far, in order.
    pub closed spec fn fed(&self) -> Seq<u8> {
        absorbed(self.state)
    }

    /// An identifier that has been fed nothing.
    pub fn new() -> (r: FileIdentifier)
        ensures
            r.fed() == Seq::<u8>::empty(),
    {
        FileIdentifier { state: sha256_new() }
    }

    /// Feeds the next block of the file.
    pub fn feed(&mut self, block: &[u8])
        ensures
            final(self).fed() == old(self).fed() + block@,
    {
        sha256_update(&mut self.state, block);
    }

    /// The identifier of everything fed, whatever the blocks it came in.
    pub fn finish(self) -> (r: String)
        ensures
            r@ == file_id_of(self.fed()),
            r@.len() == 64,
    {
        let digest = sha256_finalize(self.state);
        proof {
            crate::encoding::lemma_hex_of_len(digest@);
        }
        hex_lower(&digest)
    }
}

/// The identifier of a file whose whole content is `content`.
pub fn file_id(content: &[u8]) -> (r: String)
    ensures
        r@ == file_id_of(content@),
        r@.len() == 64,
{
    let mut id = FileIdentifier::new();
    id.feed(content);
    assert(Seq::<u8>::empty() + content@ =~= content@);
    id.finish()
}

/// Feeding a file block by block: when what was fed is the concatenation of the blocks
/// so far, feeding one more block leaves the concatenation of all of them. So after any
/// cut of a content into blocks, `finish` gives the identifier of that content.
pub proof fn lemma_feed_keeps_concatenation(
    before: FileIdentifier,
    after: FileIdentifier,
    blocks: Seq<Seq<u8>>,
    block: Seq<u8>,
)
    requires
        before.fed() == blocks.flatten(),
        after.fed() == before.fed() + block,
    ensures
        after.fed() == blocks.push(block).flatten(),
{
    blocks.lemma_flatten_push(block);
}

} // verus!
