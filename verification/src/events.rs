//! Decision logic of the node's event loop. Each loop-level event is
//! turned into one action for the surrounding runtime to perform:
//! log, enqueue on the internal replication queue, broadcast, report
//! the peer count, or exit. The handlers themselves never perform I/O
//! and never suspend; outbound replication is always deferred through
//! the queue.

use vstd::prelude::*;
use crate::chain::{Block, BlockModel, accepts, block, build_model, push};
use crate::protocol::{Letter, LetterModel, Node};
use vstd::utf8::encode_utf8;

verus! {

/// One wake of the event loop: a new listen address, the start of a
/// dial to a discovered peer, one line of user input, or a letter
/// drained from the internal replication queue.
pub enum Event {
    Address(String),
    Dialing(String),
    Input(String),
    Letter(Letter),
}

/// What the runtime is to do with an event's outcome. `Log` asks for a
/// trace line only; `Enqueue` defers a letter to the replication queue;
/// `Broadcast` and `Announce` publish a letter or a block on the
/// broadcast channel; `PeerCount` reports how many peers are currently
/// discovered; `Ignore` drops the event; `Exit` ends the loop.
pub enum Action {
    Log,
    Enqueue(Letter),
    Broadcast(Letter),
    Announce(Block),
    PeerCount,
    Ignore,
    Exit,
}

/// A sync request letter: empty chain, addressed to `receiver`.
pub open spec fn request_letter(receiver: Seq<char>) -> LetterModel {
    LetterModel { chain: Seq::empty(), receiver: receiver, request: true }
}

/// The byte length a peer id has in the identity encoding of the
/// collaborating network layer; a line of exactly this length is taken
/// for a peer id.
pub open spec fn peer_id_width() -> int {
    52
}

/// Whether `line` names one of the currently discovered peers.
pub fn find_peer(peers: &Vec<String>, line: &String) -> (found: bool)
    ensures
        found == peers.deep_view().contains(line@),
{
    let n = peers.len();
    let mut i: usize = 0;
    while i < n
        invariant
            i <= n,
            n == peers@.len(),
            forall|j: int| 0 <= j < i ==> peers.deep_view()[j] != line@,
        decreases n - i,
    {
        if peers[i] == *line {
            proof {
                assert(peers.deep_view()[i as int] == line@);
            }
            return true;
        }
        i = i + 1;
    }
    false
}

/// Handles one loop-level event against the node's state.
///
/// An address notification asks for a log line only. A dialing
/// notification enqueues a request targeted at the dialed peer when the
/// local chain is empty, so a fresh node bootstraps on connect. The
/// input line `exit` ends the loop; `size` reports the discovered-peer
/// count; a line of peer-id width naming a discovered peer broadcasts a
/// request targeted at that peer, and such a line naming no discovered
/// peer is dropped; any other line becomes a new block, appended
/// locally and announced. A letter drained from the queue is broadcast
/// as it is.
pub fn handle_event(node: &mut Node, event: Event, peers: &Vec<String>) -> (action: Action)
    ensures
        final(node).peer@ == old(node).peer@,
        (match event {
            Event::Address(_) => {
                &&& action is Log
                &&& final(node).chain.deep_view() == old(node).chain.deep_view()
            },
            Event::Dialing(p) => {
                &&& final(node).chain.deep_view() == old(node).chain.deep_view()
                &&& old(node).chain.deep_view().len() == 0 ==> (action matches Action::Enqueue(l)
                    && l.deep_view() == request_letter(p@))
                &&& old(node).chain.deep_view().len() > 0 ==> action is Log
            },
            Event::Input(line) => {
                if line@ == "exit"@ {
                    &&& action is Exit
                    &&& final(node).chain.deep_view() == old(node).chain.deep_view()
                } else if line@ == "size"@ {
                    &&& action is PeerCount
                    &&& final(node).chain.deep_view() == old(node).chain.deep_view()
                } else if encode_utf8(line@).len() == peer_id_width() {
                    &&& final(node).chain.deep_view() == old(node).chain.deep_view()
                    &&& peers.deep_view().contains(line@) ==> (action matches Action::Broadcast(l)
                        && l.deep_view() == request_letter(line@))
                    &&& !peers.deep_view().contains(line@) ==> action is Ignore
                } else {
                    &&& (action matches Action::Announce(b) && b.deep_view() == build_model(
                        old(node).chain.deep_view(),
                        line@,
                    ))
                    &&& final(node).chain.deep_view() == old(node).chain.deep_view().push(
                        build_model(old(node).chain.deep_view(), line@),
                    )
                }
            },
            Event::Letter(l) => {
                &&& (action matches Action::Broadcast(out) && out.deep_view() == l.deep_view())
                &&& final(node).chain.deep_view() == old(node).chain.deep_view()
            },
        }),
{
    match event {
        Event::Address(_) => Action::Log,
        Event::Dialing(peer_id) => {
            if node.chain.len() == 0 {
                let out = Letter { chain: Vec::new(), receiver: peer_id, request: true };
                proof {
                    assert(out.chain.deep_view() =~= Seq::<BlockModel>::empty());
                    assert(out.deep_view() =~= request_letter(out.receiver@));
                }
                Action::Enqueue(out)
            } else {
                Action::Log
            }
        },
        Event::Input(line) => {
            let exit_word = String::from_str("exit");
            let size_word = String::from_str("size");
            if line == exit_word {
                Action::Exit
            } else if line == size_word {
                Action::PeerCount
            } else if line.as_str().as_bytes().len() == 52 {
                if find_peer(peers, &line) {
                    let out = Letter { chain: Vec::new(), receiver: line, request: true };
                    proof {
                        assert(out.chain.deep_view() =~= Seq::<BlockModel>::empty());
                        assert(out.deep_view() =~= request_letter(out.receiver@));
                    }
                    Action::Broadcast(out)
                } else {
                    Action::Ignore
                }
            } else {
                let b = block(&node.chain, &line);
                proof {
                    assert(accepts(b.deep_view(), node.chain.deep_view()));
                }
                push(&b, &mut node.chain);
                Action::Announce(b)
            }
        },
        Event::Letter(letter) => Action::Broadcast(letter),
    }
}

} // verus!
