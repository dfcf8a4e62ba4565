//! The block data model: a block carries a text payload and the hash of
//! its predecessor; a chain is an append-only sequence of blocks.

use vstd::prelude::*;

verus! {

/// A single ledger entry: `previous` holds the hex digest of the
/// predecessor block, or a 64-space sentinel for a genesis block.
pub struct Block {
    pub previous: String,
    pub text: String,
}

/// Mathematical model of a [`Block`]: both fields as character sequences.
#[verifier::ext_equal]
pub ghost struct BlockModel {
    pub previous: Seq<char>,
    pub text: Seq<char>,
}

impl DeepView for Block {
    type V = BlockModel;

    open spec fn deep_view(&self) -> BlockModel {
        BlockModel { previous: self.previous@, text: self.text@ }
    }
}

impl Clone for Block {
    fn clone(&self) -> (r: Self)
        ensures
            r == *self,
    {
        Block { previous: self.previous.clone(), text: self.text.clone() }
    }
}

/// The `previous` field of a genesis block: 64 spaces, the width of a
/// hex-encoded digest.
pub open spec fn sentinel() -> Seq<char> {
    Seq::new(64, |i: int| ' ')
}

/// Builds the 64-space genesis sentinel.
pub fn sentinel_string() -> (r: String)
    ensures
        r@ == sentinel(),
{
    let mut r = String::new();
    let mut i: usize = 0;
    proof {
        reveal_strlit(" ");
    }
    while i < 64
        invariant
            i <= 64,
            r@ =~= Seq::new(i as nat, |j: int| ' '),
            " "@.len() == 1 && " "@[0] == ' ',
        decreases 64 - i,
    {
        r.append(" ");
        i = i + 1;
    }
    proof {
        assert(r@ =~= sentinel());
    }
    r
}

/// Content hash of a block: the hex-rendered SHA-256 digest of its
/// canonical encoding. A function of the block's two fields alone.
pub open spec fn hash_model(b: BlockModel) -> Seq<char> {
    crate::digest::digest_of(crate::encoding::block_json(b))
}

/// Computes the content hash of a block. The result depends on the
/// block's fields alone, so repeated calls on equal blocks agree.
pub fn hash(block: &Block) -> (r: String)
    ensures
        r@ == hash_model(block.deep_view()),
        r@.len() == 64,
{
    let encoded = crate::encoding::encoding(block);
    crate::digest::digest(&encoded)
}

/// Hashing is deterministic: any two results `hash` can return for the
/// same block agree, so repeated calls are stable.
pub proof fn lemma_hash_deterministic(b: Block, r1: String, r2: String)
    requires
        call_ensures(hash, (&b,), r1),
        call_ensures(hash, (&b,), r2),
    ensures
        r1@ == r2@,
{
}

/// The `previous` field a new block built on `chain` carries: the
/// genesis sentinel on an empty chain, else the hash of the tip.
pub open spec fn link_model(chain: Seq<BlockModel>) -> Seq<char> {
    if chain.len() == 0 {
        sentinel()
    } else {
        hash_model(chain.last())
    }
}

/// The block that building on `chain` with payload `text` yields.
pub open spec fn build_model(chain: Seq<BlockModel>, text: Seq<char>) -> BlockModel {
    BlockModel { previous: link_model(chain), text: text }
}

/// Builds a candidate block linked to the current tip: `previous` is
/// the 64-space sentinel on an empty chain, else the hash of the last
/// block; `text` is the payload verbatim. The chain is not changed and
/// the block is not yet appended.
pub fn block(chain: &Vec<Block>, text: &String) -> (b: Block)
    ensures
        b.deep_view() == build_model(chain.deep_view(), text@),
{
    let mut previous = sentinel_string();
    if chain.len() > 0 {
        previous = hash(&chain[chain.len() - 1]);
    }
    Block { previous, text: text.clone() }
}

/// Whether `push` appends `b` to `chain`: always on an empty chain,
/// else exactly when `b.previous` is the hash of the tip.
pub open spec fn accepts(b: BlockModel, chain: Seq<BlockModel>) -> bool {
    chain.len() == 0 || b.previous == hash_model(chain.last())
}

/// The chain a push attempt leaves behind: `chain` with `b` appended
/// where `accepts` holds, else `chain` unchanged.
pub open spec fn push_model(b: BlockModel, chain: Seq<BlockModel>) -> Seq<BlockModel> {
    if accepts(b, chain) {
        chain.push(b)
    } else {
        chain
    }
}

/// Validates a candidate block against the chain and appends it where
/// it links to the tip. An empty chain accepts any block, whatever its
/// `previous`; a non-empty chain appends exactly when the candidate's
/// `previous` equals the hash of the last block, and is otherwise left
/// unchanged, with no error surfaced.
pub fn push(block: &Block, chain: &mut Vec<Block>)
    ensures
        final(chain).deep_view() == push_model(block.deep_view(), old(chain).deep_view()),
        old(chain)@.len() == 0 ==> final(chain).deep_view() == old(chain).deep_view().push(
            block.deep_view(),
        ),
        old(chain)@.len() > 0 ==> (final(chain).deep_view() == old(chain).deep_view().push(
            block.deep_view(),
        ) <==> block.deep_view().previous == hash_model(old(chain).deep_view().last())),
        !accepts(block.deep_view(), old(chain).deep_view()) ==> final(chain).deep_view() == old(
            chain,
        ).deep_view(),
{
    let ghost prior = chain.deep_view();
    if chain.len() > 0 {
        let tip_hash = hash(&chain[chain.len() - 1]);
        if tip_hash == block.previous {
            chain.push(block.clone());
            proof {
                assert(chain.deep_view() =~= prior.push(block.deep_view()));
            }
        } else {
            proof {
                assert(chain.deep_view() =~= prior);
            }
        }
    } else {
        chain.push(block.clone());
        proof {
            assert(chain.deep_view() =~= prior.push(block.deep_view()));
        }
    }
    proof {
        if prior.len() > 0 && accepts(block.deep_view(), prior) {
            assert(prior.push(block.deep_view()) != prior) by {
                assert(prior.push(block.deep_view()).len() == prior.len() + 1);
            }
        }
    }
}

/// A chain is hash-linked when every block past the first carries the
/// hash of its predecessor. The first block is unconstrained: any block
/// may bootstrap a fresh node.
pub open spec fn linked(chain: Seq<BlockModel>) -> bool {
    forall|i: int| 1 <= i < chain.len() ==> chain[i].previous == hash_model(chain[i - 1])
}

/// Every push attempt preserves hash-linkage: an accepted block extends
/// the tip with its own hash link, and a rejected one leaves the chain
/// as it was.
pub proof fn lemma_push_preserves_linkage(b: BlockModel, chain: Seq<BlockModel>)
    requires
        linked(chain),
    ensures
        linked(push_model(b, chain)),
{
    if accepts(b, chain) {
        let grown = chain.push(b);
        assert forall|i: int| 1 <= i < grown.len() implies grown[i].previous == hash_model(
            grown[i - 1],
        ) by {
            if i < chain.len() {
                assert(grown[i] == chain[i] && grown[i - 1] == chain[i - 1]);
            } else {
                assert(grown[i] == b && grown[i - 1] == chain.last());
            }
        }
    }
}

/// A push attempt never shrinks the chain: it grows by one block or
/// stays as it is.
pub proof fn lemma_push_never_shrinks(b: BlockModel, chain: Seq<BlockModel>)
    ensures
        push_model(b, chain).len() >= chain.len(),
        push_model(b, chain).len() <= chain.len() + 1,
{
}

/// A rejected block is rejected for good: pushing the same unlinked
/// block again, any number of times, leaves the chain exactly as it
/// was, so repeated pushes never grow it.
pub proof fn lemma_rejected_push_idempotent(b: BlockModel, chain: Seq<BlockModel>)
    requires
        !accepts(b, chain),
    ensures
        push_model(b, chain) == chain,
        push_model(b, push_model(b, chain)) == chain,
{
}

} // verus!
