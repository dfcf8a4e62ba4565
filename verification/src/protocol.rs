//! The synchronization protocol: classified inbound broadcast messages
//! and the handler that validates blocks, answers sync requests, and
//! resolves divergence by whole-chain replacement.

use vstd::prelude::*;
use crate::chain::{Block, BlockModel, push, push_model};

verus! {

/// A sync message. With `request` set it asks for a chain (`chain` is
/// empty; an empty `receiver` lets anyone answer, a peer id restricts
/// the answer to that peer). With `request` clear it carries a chain
/// back to the peer named by `receiver`.
pub struct Letter {
    pub chain: Vec<Block>,
    pub receiver: String,
    pub request: bool,
}

/// Mathematical model of a [`Letter`].
#[verifier::ext_equal]
pub ghost struct LetterModel {
    pub chain: Seq<BlockModel>,
    pub receiver: Seq<char>,
    pub request: bool,
}

impl DeepView for Letter {
    type V = LetterModel;

    open spec fn deep_view(&self) -> LetterModel {
        LetterModel {
            chain: self.chain.deep_view(),
            receiver: self.receiver@,
            request: self.request,
        }
    }
}

/// An inbound broadcast message, already classified: either a candidate
/// block or a sync letter. Which one a frame is, is decided where the
/// bytes are decoded; no shape guessing happens here.
pub enum Message {
    Block(Block),
    Letter(Letter),
}

/// Mathematical model of a [`Message`].
pub ghost enum MessageModel {
    Block(BlockModel),
    Letter(LetterModel),
}

impl DeepView for Message {
    type V = MessageModel;

    open spec fn deep_view(&self) -> MessageModel {
        match self {
            Message::Block(b) => MessageModel::Block(b.deep_view()),
            Message::Letter(l) => MessageModel::Letter(l.deep_view()),
        }
    }
}

/// The protocol state of one node: its chain and its own peer id.
pub struct Node {
    pub chain: Vec<Block>,
    pub peer: String,
}

impl Node {
    /// A fresh node: the given peer id and an empty chain.
    pub fn new(peer: String) -> (node: Node)
        ensures
            node.chain.deep_view() == Seq::<BlockModel>::empty(),
            node.peer@ == peer@,
    {
        let node = Node { chain: Vec::new(), peer };
        proof {
            assert(node.chain.deep_view() =~= Seq::<BlockModel>::empty());
        }
        node
    }
}

/// Whether a request letter obliges this node to answer: the letter
/// asks, and names nobody or names this node.
pub open spec fn must_answer(letter: LetterModel, peer: Seq<char>) -> bool {
    letter.request && (letter.receiver.len() == 0 || letter.receiver == peer)
}

/// Whether a response letter replaces this node's chain: it answers,
/// names this node, and carries a strictly longer chain.
pub open spec fn replaces(letter: LetterModel, peer: Seq<char>, chain: Seq<BlockModel>) -> bool {
    !letter.request && letter.receiver == peer && letter.chain.len() > chain.len()
}

/// Handles one classified inbound message from `source`.
///
/// A block goes through validation and is appended exactly where it
/// links to the tip (or the chain is empty). A request this node must
/// answer yields exactly one response letter — carrying a copy of the
/// chain as it stands at receipt, addressed to the requester — which the
/// caller is to enqueue, never to send from within the handler. A
/// response addressed to this node replaces the chain wholesale when it
/// is strictly longer, with no validation of its linkage; anything else
/// leaves the node unchanged and yields nothing.
pub fn handle_message(node: &mut Node, message: Message, source: &String) -> (response: Option<
    Letter,
>)
    ensures
        final(node).peer@ == old(node).peer@,
        // The chain never shrinks: it grows by an accepted push or is
        // replaced wholesale by a strictly longer chain.
        final(node).chain.deep_view().len() >= old(node).chain.deep_view().len(),
        (match message.deep_view() {
            MessageModel::Block(b) => {
                &&& final(node).chain.deep_view() == push_model(b, old(node).chain.deep_view())
                &&& response is None
            },
            MessageModel::Letter(l) => {
                &&& l.request ==> final(node).chain.deep_view() == old(node).chain.deep_view()
                &&& must_answer(l, old(node).peer@) ==> (response matches Some(r)
                    && r.deep_view() == (LetterModel {
                    chain: old(node).chain.deep_view(),
                    receiver: source@,
                    request: false,
                }))
                &&& !must_answer(l, old(node).peer@) ==> response is None
                &&& replaces(l, old(node).peer@, old(node).chain.deep_view()) ==> final(node).chain.deep_view() == l.chain
                &&& !l.request && !replaces(l, old(node).peer@, old(node).chain.deep_view())
                    ==> final(node).chain.deep_view() == old(node).chain.deep_view()
            },
        }),
{
    match message {
        Message::Block(b) => {
            push(&b, &mut node.chain);
            None
        },
        Message::Letter(l) => {
            if l.request {
                if l.receiver.as_str().is_empty() || l.receiver == node.peer {
                    let chain_copy = node.chain.clone();
                    proof {
                        assert(chain_copy.deep_view() =~= node.chain.deep_view());
                    }
                    Some(
                        Letter {
                            chain: chain_copy,
                            receiver: source.clone(),
                            request: false,
                        },
                    )
                } else {
                    None
                }
            } else {
                if l.receiver == node.peer && l.chain.len() > node.chain.len() {
                    node.chain = l.chain;
                }
                None
            }
        },
    }
}

} // verus!
