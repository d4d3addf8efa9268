use vstd::prelude::*;
use vstd::string::StrSliceExecFns;
use vstd::utf8::encode_utf8;

use crate::codec::{decode_lossy, lossy_text, parse_uuid, uuid_parse, NetplayError};
use crate::peer_msg::{kind_of, PeerId, PeerMessage, PeerState};

verus! {

/// The courtesy packet sent to each newly connected peer: the UTF-8 bytes of
/// the text `Greetings`.
pub open spec fn greeting_bytes() -> Seq<u8> {
    seq![71u8, 114u8, 101u8, 101u8, 116u8, 105u8, 110u8, 103u8, 115u8]
}

/// The packets that a batch of peer-state changes calls for: one greeting to
/// each peer that changed to connected, in the order of the changes.
pub open spec fn greeting_sends(changes: Seq<(PeerId, PeerState)>) -> Seq<(PeerId, Seq<u8>)>
    decreases changes.len(),
{
    if changes.len() == 0 {
        Seq::empty()
    } else {
        let prev = greeting_sends(changes.drop_last());
        let last = changes.last();
        if last.1 == PeerState::Connected {
            prev.push((last.0, greeting_bytes()))
        } else {
            prev
        }
    }
}

/// The outbound packets of `sends`, each packet read as its bytes.
pub open spec fn sends_view(sends: Seq<(PeerId, Vec<u8>)>) -> Seq<(PeerId, Seq<u8>)> {
    sends.map_values(|e: (PeerId, Vec<u8>)| (e.0, e.1@))
}

/// The message that the pump makes of a packet that `peer` sent as `bytes`.
pub open spec fn message_matches(m: PeerMessage, peer: PeerId, bytes: Seq<u8>) -> bool {
    &&& m.peer_id == peer
    &&& m.message@ == lossy_text(bytes)
    &&& m.peer_message_type == kind_of(lossy_text(bytes))
}

/// How many of `sends` go to `p`.
pub open spec fn sends_to(sends: Seq<(PeerId, Seq<u8>)>, p: PeerId) -> nat
    decreases sends.len(),
{
    if sends.len() == 0 {
        0
    } else {
        sends_to(sends.drop_last(), p) + if sends.last().0 == p {
            1nat
        } else {
            0nat
        }
    }
}

/// How many of `changes` report that `p` connected.
pub open spec fn connects_of(changes: Seq<(PeerId, PeerState)>, p: PeerId) -> nat
    decreases changes.len(),
{
    if changes.len() == 0 {
        0
    } else {
        connects_of(changes.drop_last(), p) + if changes.last() == (p, PeerState::Connected) {
            1nat
        } else {
            0nat
        }
    }
}

/// A poll greets each peer exactly once for each time it is seen to connect,
/// and sends nothing but greetings for the changes it observed.
pub proof fn lemma_one_greeting_per_connect(changes: Seq<(PeerId, PeerState)>, p: PeerId)
    ensures
        sends_to(greeting_sends(changes), p) == connects_of(changes, p),
        forall|i: int|
            0 <= i < greeting_sends(changes).len() ==> (#[trigger] greeting_sends(changes)[i]).1
                == greeting_bytes(),
    decreases changes.len(),
{
    if changes.len() > 0 {
        let prev = changes.drop_last();
        lemma_one_greeting_per_connect(prev, p);
        let g = greeting_sends(prev);
        let last = changes.last();
        if last.1 == PeerState::Connected {
            assert(g.push((last.0, greeting_bytes())).drop_last() =~= g);
            assert forall|i: int|
                0 <= i < greeting_sends(changes).len() implies (#[trigger] greeting_sends(
                changes,
            )[i]).1 == greeting_bytes() by {
                if i < g.len() {
                    assert(greeting_sends(changes)[i] == g[i]);
                }
            }
        }
    }
}

pub fn greeting_packet() -> (r: Vec<u8>)
    ensures
        r@ == greeting_bytes(),
{
    let r = vec![71u8, 114u8, 101u8, 101u8, 116u8, 105u8, 110u8, 103u8, 115u8];
    assert(r@ =~= greeting_bytes());
    r
}

/// The greetings to send for the peer-state changes observed in one poll.
pub fn greetings_for(changes: &Vec<(PeerId, PeerState)>) -> (r: Vec<(PeerId, Vec<u8>)>)
    ensures
        sends_view(r@) == greeting_sends(changes@),
{
    let mut r: Vec<(PeerId, Vec<u8>)> = Vec::new();
    let mut i: usize = 0;
    while i < changes.len()
        invariant
            i <= changes@.len(),
            sends_view(r@) == greeting_sends(changes@.subrange(0, i as int)),
        decreases changes@.len() - i,
    {
        let ghost before = r@;
        let (peer, state) = changes[i];
        if state == PeerState::Connected {
            r.push((peer, greeting_packet()));
            assert(sends_view(r@) =~= sends_view(before).push((peer, greeting_bytes())));
        }
        assert(changes@.subrange(0, i + 1).drop_last() =~= changes@.subrange(0, i as int));
        i = i + 1;
    }
    assert(changes@.subrange(0, changes@.len() as int) =~= changes@);
    r
}

/// One message per drained packet, in the order the packets came.
pub fn collect_messages(packets: Vec<(PeerId, Vec<u8>)>) -> (r: Vec<PeerMessage>)
    ensures
        r@.len() == packets@.len(),
        forall|i: int|
            0 <= i < r@.len() ==> message_matches(#[trigger] r@[i], packets@[i].0, packets@[i].1@),
{
    let mut r: Vec<PeerMessage> = Vec::new();
    let mut i: usize = 0;
    while i < packets.len()
        invariant
            i <= packets@.len(),
            r@.len() == i,
            forall|k: int|
                0 <= k < i ==> message_matches(#[trigger] r@[k], packets@[k].0, packets@[k].1@),
        decreases packets@.len() - i,
    {
        let text = decode_lossy(packets[i].1.as_slice());
        r.push(PeerMessage::from_text(packets[i].0, text));
        i = i + 1;
    }
    r
}

/// The packet that carries `message` to the peer whose identifier parsed as
/// `peer`, or the error for an identifier that did not parse.
pub fn outbound_packet(message: &str, peer: Option<u128>) -> (r: Result<
    (PeerId, Vec<u8>),
    NetplayError,
>)
    ensures
        peer is None ==> r == Err::<(PeerId, Vec<u8>), NetplayError>(NetplayError::MalformedPeerId),
        peer is Some ==> (r matches Ok(p) && p.0 == (PeerId { uuid: peer->0 }) && p.1@
            == encode_utf8(message@)),
{
    match peer {
        None => Err(NetplayError::MalformedPeerId),
        Some(u) => Ok((PeerId { uuid: u }, message.as_bytes_vec())),
    }
}

/// What a send asks of the transport: nothing where no session is connected,
/// else the packet for `message` to the peer named by `peer_id`, or the error
/// for an identifier that is not well-formed.
pub fn plan_send(connected: bool, message: &str, peer_id: &str) -> (r: Result<
    Option<(PeerId, Vec<u8>)>,
    NetplayError,
>)
    ensures
        !connected ==> r matches Ok(None),
        connected && uuid_parse(peer_id@) is None ==> r matches Err(
            NetplayError::MalformedPeerId,
        ),
        connected && uuid_parse(peer_id@) is Some ==> (r matches Ok(Some(p)) && p.0 == (
        PeerId { uuid: uuid_parse(peer_id@)->0 }) && p.1@ == encode_utf8(message@)),
{
    if !connected {
        return Ok(None);
    }
    match outbound_packet(message, parse_uuid(peer_id)) {
        Ok(p) => Ok(Some(p)),
        Err(e) => Err(e),
    }
}

} // verus!
