use vstd::prelude::*;
use vstd::string::StrSliceExecFns;

verus! {

/// A peer's identifier: the 128 bits of the transport's UUID.
#[derive(Clone, Copy, Debug, PartialEq, Eq, Hash, Structural)]
pub struct PeerId {
    pub uuid: u128,
}

/// A peer's connection state, as the transport reports a change of it.
#[derive(Clone, Copy, Debug, PartialEq, Eq, Structural)]
pub enum PeerState {
    Connected,
    Disconnected,
}

/// Whether `pat` occurs in `text` as a contiguous run of characters.
pub open spec fn text_contains(text: Seq<char>, pat: Seq<char>) -> bool {
    exists|i: int|
        0 <= i && i + pat.len() <= text.len() && #[trigger] text.subrange(i, i + pat.len()) == pat
}

/// The kind tag of a peer message, read from its decoded text.
#[derive(Clone, Copy, Debug, PartialEq, Eq, Structural)]
pub enum PeerMessageType {
    Ping,
    Pong,
    Archer,
    Greetings,
    RoundFinished,
    /// Text that matches none of the known tags; peers control this text,
    /// so it is never an error.
    Unknown,
}

/// The classification rule: exact matches, except `Archer`, which matches
/// anywhere in the text. The rules are tried in this order.
pub open spec fn kind_of(text: Seq<char>) -> PeerMessageType {
    if text == "Ping"@ {
        PeerMessageType::Ping
    } else if text == "Pong"@ {
        PeerMessageType::Pong
    } else if text_contains(text, "Archer"@) {
        PeerMessageType::Archer
    } else if text == "Greetings"@ {
        PeerMessageType::Greetings
    } else if text == "RoundFinished"@ {
        PeerMessageType::RoundFinished
    } else {
        PeerMessageType::Unknown
    }
}

/// The characters of `s`, in order.
fn chars_of(s: &str) -> (r: Vec<char>)
    ensures
        r@ == s@,
{
    let n = s.unicode_len();
    let mut r: Vec<char> = Vec::new();
    let mut i: usize = 0;
    while i < n
        invariant
            n == s@.len(),
            i <= n,
            r@ == s@.subrange(0, i as int),
        decreases n - i,
    {
        r.push(s.get_char(i));
        i = i + 1;
    }
    assert(r@ == s@);
    r
}

/// Whether `pat` occurs in `text` starting at position `at`.
fn matches_at(text: &Vec<char>, pat: &Vec<char>, at: usize) -> (r: bool)
    requires
        at + pat@.len() <= text@.len(),
    ensures
        r == (text@.subrange(at as int, at + pat@.len()) == pat@),
{
    let n = text.len();
    let mut j: usize = 0;
    while j < pat.len()
        invariant
            n == text@.len(),
            at + pat@.len() <= text@.len(),
            j <= pat@.len(),
            forall|k: int| 0 <= k < j ==> text@[at + k] == pat@[k],
        decreases pat@.len() - j,
    {
        if text[at + j] != pat[j] {
            assert(text@.subrange(at as int, at + pat@.len())[j as int] != pat@[j as int]);
            return false;
        }
        j = j + 1;
    }
    assert(text@.subrange(at as int, at + pat@.len()) =~= pat@);
    true
}

/// Whether `pat` occurs anywhere in `text`.
pub fn contains_chars(text: &Vec<char>, pat: &Vec<char>) -> (r: bool)
    ensures
        r == text_contains(text@, pat@),
{
    if pat.len() > text.len() {
        return false;
    }
    let last = text.len() - pat.len();
    let mut i: usize = 0;
    loop
        invariant
            last + pat@.len() == text@.len(),
            i <= last,
            forall|k: int|
                0 <= k < i ==> #[trigger] text@.subrange(k, k + pat@.len()) != pat@,
        decreases last - i,
    {
        if matches_at(text, pat, i) {
            return true;
        }
        if i == last {
            return false;
        }
        i = i + 1;
    }
}

/// Whether two character sequences are equal.
fn same_chars(a: &Vec<char>, b: &Vec<char>) -> (r: bool)
    ensures
        r == (a@ == b@),
{
    if a.len() != b.len() {
        return false;
    }
    let r = matches_at(a, b, 0);
    assert(a@.subrange(0, b@.len() as int) =~= a@);
    r
}

/// One inbound message: who sent it, its decoded text, and its kind.
#[derive(Clone, Debug)]
pub struct PeerMessage {
    pub peer_id: PeerId,
    pub message: String,
    pub peer_message_type: PeerMessageType,
}

impl PeerMessage {
    pub fn new(peer_id: PeerId, message: String, peer_message_type: PeerMessageType) -> (r:
        PeerMessage)
        ensures
            r.peer_id == peer_id,
            r.message@ == message@,
            r.peer_message_type == peer_message_type,
    {
        PeerMessage { peer_id, message, peer_message_type }
    }

    /// The message that `peer_id` sent as `message`, with the kind that
    /// the classification rule gives its text.
    pub fn from_text(peer_id: PeerId, message: String) -> (r: PeerMessage)
        ensures
            r.peer_id == peer_id,
            r.message@ == message@,
            r.peer_message_type == kind_of(message@),
    {
        let kind = PeerMessageType::classify(message.as_str());
        PeerMessage { peer_id, message, peer_message_type: kind }
    }

    pub fn peer_id(&self) -> (r: PeerId)
        ensures
            r == self.peer_id,
    {
        self.peer_id
    }

    pub fn message(&self) -> (r: String)
        ensures
            r@ == self.message@,
    {
        self.message.clone()
    }

    pub fn peer_message_type(&self) -> (r: PeerMessageType)
        ensures
            r == self.peer_message_type,
    {
        self.peer_message_type
    }
}

impl PeerMessageType {
    /// Classifies decoded message text.
    pub fn classify(text: &str) -> (r: PeerMessageType)
        ensures
            r == kind_of(text@),
    {
        let t = chars_of(text);
        if same_chars(&t, &chars_of("Ping")) {
            PeerMessageType::Ping
        } else if same_chars(&t, &chars_of("Pong")) {
            PeerMessageType::Pong
        } else if contains_chars(&t, &chars_of("Archer")) {
            PeerMessageType::Archer
        } else if same_chars(&t, &chars_of("Greetings")) {
            PeerMessageType::Greetings
        } else if same_chars(&t, &chars_of("RoundFinished")) {
            PeerMessageType::RoundFinished
        } else {
            PeerMessageType::Unknown
        }
    }

}

} // verus!
