use vstd::prelude::*;
use crate::value::{decode_received, received_outcome, Value};

verus! {

/// The kinds of I/O error that the sinks tell apart.
#[derive(Clone, Copy, Debug, PartialEq, Eq, Structural)]
pub enum IoErrorKind {
    ConnectionReset,
    ConnectionAborted,
    TimedOut,
    BrokenPipe,
    WouldBlock,
    Other,
}

/// Why a read from, or a write to, one client did not go through.
#[derive(Clone, Copy, Debug, PartialEq, Eq, Structural)]
pub enum LinkError {
    /// The operating system reported an error of this kind.
    Io(IoErrorKind),
    /// The peer closed the stream.
    Closed,
    /// The transport's protocol layer failed for another reason.
    Protocol,
}

/// Whether `e` means that the peer is gone for good.
pub open spec fn ends_link(e: LinkError) -> bool {
    match e {
        LinkError::Io(k) => match k {
            IoErrorKind::ConnectionReset | IoErrorKind::ConnectionAborted
            | IoErrorKind::TimedOut | IoErrorKind::BrokenPipe => true,
            _ => false,
        },
        LinkError::Closed => true,
        LinkError::Protocol => false,
    }
}

/// Whether a client whose last operation had outcome `fault` leaves the live set.
pub open spec fn dropped(fault: Option<LinkError>) -> bool {
    fault matches Some(e) && ends_link(e)
}

/// Tells a disconnect (reset, aborted, timed out, broken pipe, closed) from
/// an error after which the client stays.
pub fn is_disconnect(e: &LinkError) -> (r: bool)
    ensures
        r == ends_link(*e),
{
    match e {
        LinkError::Io(k) => match k {
            IoErrorKind::ConnectionReset | IoErrorKind::ConnectionAborted
            | IoErrorKind::TimedOut | IoErrorKind::BrokenPipe => true,
            _ => false,
        },
        LinkError::Closed => true,
        LinkError::Protocol => false,
    }
}

/// The clients of `cs`, in order, whose outcome in `faults` (same position)
/// does not end their link.
pub open spec fn survivors<C>(cs: Seq<C>, faults: Seq<Option<LinkError>>) -> Seq<C>
    decreases cs.len(),
{
    if cs.len() == 0 {
        seq![]
    } else {
        let rest = survivors(cs.skip(1), faults.skip(1));
        if dropped(faults[0]) {
            rest
        } else {
            seq![cs[0]].add(rest)
        }
    }
}

/// Removes from `clients` each one whose outcome in `faults` ends its link,
/// keeping the others in their order.
pub fn retain_connected<C>(clients: &mut Vec<C>, faults: &Vec<Option<LinkError>>)
    requires
        old(clients).len() == faults.len(),
    ensures
        final(clients)@ == survivors(old(clients)@, faults@),
{
    let ghost start = clients@;
    let mut i: usize = faults.len();
    proof {
        assert(start.skip(i as int) =~= seq![]);
        assert(start.take(i as int) =~= start);
        assert(start.take(i as int).add(survivors(start.skip(i as int), faults@.skip(i as int)))
            =~= start);
    }
    while i > 0
        invariant
            i <= faults.len(),
            faults.len() == start.len(),
            clients@ == start.take(i as int).add(
                survivors(start.skip(i as int), faults@.skip(i as int)),
            ),
        decreases i,
    {
        let j = i - 1;
        let ghost tail = survivors(start.skip(i as int), faults@.skip(i as int));
        proof {
            assert(start.skip(j as int).skip(1) =~= start.skip(i as int));
            assert(faults@.skip(j as int).skip(1) =~= faults@.skip(i as int));
            assert(start.skip(j as int)[0] == start[j as int]);
            assert(faults@.skip(j as int)[0] == faults@[j as int]);
        }
        let drop = match &faults[j] {
            Some(e) => is_disconnect(e),
            None => false,
        };
        if drop {
            clients.remove(j);
            proof {
                assert(clients@ =~= start.take(j as int).add(tail));
            }
        } else {
            proof {
                assert(start.take(i as int) =~= start.take(j as int).push(start[j as int]));
                assert(clients@ =~= start.take(j as int).add(seq![start[j as int]].add(tail)));
            }
        }
        i = j;
    }
    proof {
        assert(start.take(0) =~= seq![]);
        assert(start.skip(0) =~= start);
        assert(faults@.skip(0) =~= faults@);
        assert(clients@ =~= survivors(start, faults@));
    }
}

/// Every client that survives pruning was in the set before.
pub proof fn lemma_survivors_from<C>(cs: Seq<C>, faults: Seq<Option<LinkError>>, x: C)
    requires
        survivors(cs, faults).contains(x),
    ensures
        cs.contains(x),
    decreases cs.len(),
{
    if cs.len() > 0 {
        let rest = survivors(cs.skip(1), faults.skip(1));
        if rest.contains(x) {
            lemma_survivors_from(cs.skip(1), faults.skip(1), x);
            let k = choose|k: int| 0 <= k < cs.skip(1).len() && cs.skip(1)[k] == x;
            assert(cs[k + 1] == x);
        } else {
            assert(cs[0] == x);
        }
    }
}

/// After a read or write round, a client stays in the live set exactly when
/// its own outcome did not end its link: each client that remains connected
/// through the round is kept (and so takes part in the next broadcast), and
/// each one that hit a disconnect is gone (and receives no further writes).
pub proof fn lemma_pruned_exactly_disconnected<C>(
    cs: Seq<C>,
    faults: Seq<Option<LinkError>>,
    i: int,
)
    requires
        cs.no_duplicates(),
        faults.len() == cs.len(),
        0 <= i < cs.len(),
    ensures
        survivors(cs, faults).contains(cs[i]) <==> !dropped(faults[i]),
    decreases cs.len(),
{
    let rest = survivors(cs.skip(1), faults.skip(1));
    assert(cs.skip(1).no_duplicates());
    if i == 0 {
        if rest.contains(cs[0]) {
            lemma_survivors_from(cs.skip(1), faults.skip(1), cs[0]);
            let k = choose|k: int| 0 <= k < cs.skip(1).len() && cs.skip(1)[k] == cs[0];
            assert(cs[k + 1] == cs[0]);
        }
        if !dropped(faults[0]) {
            assert(seq![cs[0]].add(rest)[0] == cs[0]);
        }
    } else {
        lemma_pruned_exactly_disconnected(cs.skip(1), faults.skip(1), i - 1);
        assert(cs.skip(1)[i - 1] == cs[i]);
        assert(faults.skip(1)[i - 1] == faults[i]);
        if !dropped(faults[0]) {
            let all = seq![cs[0]].add(rest);
            if rest.contains(cs[i]) {
                let k = choose|k: int| 0 <= k < rest.len() && rest[k] == cs[i];
                assert(all[k + 1] == cs[i]);
            }
            if all.contains(cs[i]) {
                let k = choose|k: int| 0 <= k < all.len() && all[k] == cs[i];
                if k == 0 {
                    assert(cs[0] == cs[i]);
                } else {
                    assert(rest[k - 1] == cs[i]);
                }
            }
        }
    }
}

/// A client that is not in the live set does not come back through pruning.
pub proof fn lemma_pruning_admits_no_one<C>(cs: Seq<C>, faults: Seq<Option<LinkError>>, x: C)
    requires
        !cs.contains(x),
    ensures
        !survivors(cs, faults).contains(x),
{
    if survivors(cs, faults).contains(x) {
        lemma_survivors_from(cs, faults, x);
    }
}

/// What one read from a client yields: an empty read means that the peer
/// closed the stream; other bytes go through the receive-path cascade.
pub fn receive<T, F: Fn(&String) -> Option<T>>(read: Result<Vec<u8>, LinkError>, parse: F) -> (r:
    Result<Value<T>, LinkError>)
    requires
        forall|s: &String| parse.requires((s,)),
    ensures
        match read {
            Ok(bytes) => if bytes@.len() == 0 {
                r == Err::<Value<T>, LinkError>(LinkError::Closed)
            } else {
                r matches Ok(v) && received_outcome(parse, bytes@, v)
            },
            Err(e) => r == Err::<Value<T>, LinkError>(e),
        },
{
    match read {
        Ok(bytes) => {
            if bytes.len() == 0 {
                Err(LinkError::Closed)
            } else {
                Ok(decode_received(bytes, parse))
            }
        },
        Err(e) => Err(e),
    }
}

/// What polling a listener for one new connection produced.
pub enum AcceptEvent<C> {
    /// A client connected.
    Connected(C),
    /// No client is waiting, or accepting one failed; the listener goes on.
    Idle,
    /// The listener can produce no more connections.
    Exhausted,
}

/// Adds a newly connected client to the live set. Returns whether the sink
/// keeps running: an exhausted listener ends it.
pub fn on_accept<C>(clients: &mut Vec<C>, event: AcceptEvent<C>) -> (running: bool)
    ensures
        match event {
            AcceptEvent::Connected(c) => running && final(clients)@ == old(clients)@.push(c),
            AcceptEvent::Idle => running && final(clients)@ == old(clients)@,
            AcceptEvent::Exhausted => !running && final(clients)@ == old(clients)@,
        },
{
    match event {
        AcceptEvent::Connected(c) => {
            clients.push(c);
            true
        },
        AcceptEvent::Idle => true,
        AcceptEvent::Exhausted => false,
    }
}

/// Where a WebSocket handshake stands after one attempt.
pub enum Handshake<C, P> {
    /// The handshake completed and `C` is the connection.
    Done(C),
    /// The handshake would block; `P` resumes it.
    InProgress(P),
    /// The handshake failed.
    Failed,
}

/// Files a handshake attempt: a completed one joins the live set, one in
/// progress is kept to be resumed on a later round, a failed one is dropped.
pub fn settle_handshake<C, P>(clients: &mut Vec<C>, pending: &mut Vec<P>, h: Handshake<C, P>)
    ensures
        match h {
            Handshake::Done(c) => final(clients)@ == old(clients)@.push(c) && final(pending)@
                == old(pending)@,
            Handshake::InProgress(p) => final(clients)@ == old(clients)@ && final(pending)@
                == old(pending)@.push(p),
            Handshake::Failed => final(clients)@ == old(clients)@ && final(pending)@
                == old(pending)@,
        },
{
    match h {
        Handshake::Done(c) => clients.push(c),
        Handshake::InProgress(p) => pending.push(p),
        Handshake::Failed => {},
    }
}

} // verus!
