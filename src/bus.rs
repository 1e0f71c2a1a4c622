//! The record of what happened on the bus, which the contracts speak of.
use vstd::prelude::*;

use crate::error::ControllerError;

verus! {

/// One byte-level exchange that the controller carried out, with its outcome.
#[derive(Debug, Clone, Copy)]
pub enum BusOp {
    /// A byte written to the command register.
    WroteCommand(u8, Result<(), ControllerError>),
    /// A byte written to the data port, that is to the keyboard channel.
    WroteData(u8, Result<(), ControllerError>),
    /// A byte routed to the mouse channel.
    WroteMouse(u8, Result<(), ControllerError>),
    /// A byte read from the data port.
    ReadData(Result<u8, ControllerError>),
}

/// One call of the host's port access.
#[derive(Debug, Clone, Copy)]
pub enum PortOp {
    /// A byte read from a port.
    Read(u16, u8),
    /// A byte written to a port.
    Write(u16, u8),
}

/// A log that grew from `a` to `b` and then to `c`: what was appended since
/// `a` is what was appended up to `b`, followed by what was appended since `b`.
pub proof fn lemma_since_split<A>(a: Seq<A>, b: Seq<A>, c: Seq<A>)
    requires
        extends(a, b),
        extends(b, c),
    ensures
        extends(a, c),
        since(a, c).take(b.len() - a.len()) == since(a, b),
        since(a, c).skip(b.len() - a.len()) == since(b, c),
{
    assert(c.take(a.len() as int) =~= a);
    assert(since(a, c).take(b.len() - a.len()) =~= since(a, b));
    assert(since(a, c).skip(b.len() - a.len()) =~= since(b, c));
}

/// Where a log stood before a call: the part before is kept, the part after
/// starts empty.
pub proof fn lemma_log_start<A>(s: Seq<A>)
    ensures
        s.skip(s.len() as int) == Seq::<A>::empty(),
        s.take(s.len() as int) == s,
{
    assert(s.skip(s.len() as int) =~= Seq::<A>::empty());
    assert(s.take(s.len() as int) =~= s);
}

/// Appending to a log appends to every suffix of it and keeps every prefix.
pub broadcast proof fn lemma_log_push<A>(s: Seq<A>, n: int, x: A)
    requires
        0 <= n <= s.len(),
    ensures
        #[trigger] s.push(x).skip(n) == s.skip(n).push(x),
        s.push(x).take(n) == s.take(n),
{
    assert(s.push(x).skip(n) =~= s.skip(n).push(x));
    assert(s.push(x).take(n) =~= s.take(n));
}

/// `new` is `old` with exchanges appended.
pub open spec fn extends<A>(old: Seq<A>, new: Seq<A>) -> bool {
    old.len() <= new.len() && new.take(old.len() as int) == old
}

/// The exchanges appended to `old` to give `new`.
pub open spec fn since<A>(old: Seq<A>, new: Seq<A>) -> Seq<A> {
    new.skip(old.len() as int)
}

/// The outcome of the read at position `i`, or `None` when there is none.
pub open spec fn read_at(t: Seq<BusOp>, i: int) -> Option<Result<u8, ControllerError>> {
    if 0 <= i < t.len() {
        match t[i] {
            BusOp::ReadData(o) => Some(o),
            _ => None,
        }
    } else {
        None
    }
}

/// The outcome of writing `b` to the mouse channel at position `i`, or `None`
/// when something else happened there.
pub open spec fn mouse_write_at(t: Seq<BusOp>, i: int, b: u8) -> Option<Result<(), ControllerError>> {
    if 0 <= i < t.len() {
        match t[i] {
            BusOp::WroteMouse(c, o) => if c == b {
                Some(o)
            } else {
                None
            },
            _ => None,
        }
    } else {
        None
    }
}

/// The outcome of writing `b` to the data port at position `i`, or `None`
/// when something else happened there.
pub open spec fn data_write_at(t: Seq<BusOp>, i: int, b: u8) -> Option<Result<(), ControllerError>> {
    if 0 <= i < t.len() {
        match t[i] {
            BusOp::WroteData(c, o) => if c == b {
                Some(o)
            } else {
                None
            },
            _ => None,
        }
    } else {
        None
    }
}

} // verus!
