use vstd::prelude::*;

use crate::session::Side;

verus! {

/// The other socket of a pair.
pub open spec fn other(side: Side) -> Side {
    match side {
        Side::Client => Side::Destination,
        Side::Destination => Side::Client,
    }
}

/// One lockstep step of a pipe that waits on `awaiting` and read `b`: a
/// non-empty read is written to the other socket, which is read next; an
/// empty read ends the pipe.
pub open spec fn pipe_next(awaiting: Option<Side>, b: Seq<u8>) -> (Option<Side>, Option<(Side, Seq<u8>)>) {
    match awaiting {
        Some(side) => if b.len() > 0 {
            (Some(other(side)), Some((other(side), b)))
        } else {
            (None, None)
        },
        None => (None, None),
    }
}

/// A blocking byte pipe between a client socket and an upstream socket that
/// alternates one read from the client with one read from upstream.
#[derive(Debug)]
pub struct Pipe {
    awaiting: Option<Side>,
}

impl Pipe {
    pub closed spec fn spec_awaiting(&self) -> Option<Side> {
        self.awaiting
    }

    /// A pipe whose first read is from the client.
    pub fn new() -> (p: Pipe)
        ensures
            p.spec_awaiting() == Some(Side::Client),
    {
        Pipe { awaiting: Some(Side::Client) }
    }

    /// The socket to read next, or `None` once the pipe has ended.
    pub fn awaiting(&self) -> (r: Option<Side>)
        ensures
            r == self.spec_awaiting(),
    {
        self.awaiting
    }

    /// Takes what was read from the awaited socket (nothing on end of stream
    /// or error) and returns the socket to write it to, or `None` to stop.
    pub fn step(&mut self, received: Vec<u8>) -> (r: Option<(Side, Vec<u8>)>)
        ensures
            (final(self).spec_awaiting(), match r {
                Some((side, b)) => Some((side, b@)),
                None => None,
            }) == pipe_next(old(self).spec_awaiting(), received@),
    {
        match self.awaiting {
            Some(side) => {
                if received.len() > 0 {
                    let to = match side {
                        Side::Client => Side::Destination,
                        Side::Destination => Side::Client,
                    };
                    self.awaiting = Some(to);
                    Some((to, received))
                } else {
                    self.awaiting = None;
                    None
                }
            },
            None => None,
        }
    }
}

} // verus!
