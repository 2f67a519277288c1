//! Scripted, call-recording doubles of the three seam traits.
//!
//! Each double queues pre-programmed results per operation through a fluent
//! builder, plays them back strictly in first-in-first-out order, and
//! records every invocation's arguments, by value, in a parameter-capture
//! sink.  An operation may only be invoked while a result is still queued
//! for it: the readiness preconditions of the seam traits rule out the
//! misuse of running a double past the end of its script.

use vstd::prelude::*;

use crate::sockets::FreePortFactory;
use crate::sockets::UdpSocketFactory;
use crate::sockets::UdpSocketWrapper;
use crate::types::Duration;
use crate::types::IoError;
use crate::types::SocketAddress;

verus! {

/// The abstract state of a [`UdpSocketMock`]: one parameter-capture sink
/// and one queue of scripted results per operation, each a mathematical
/// sequence in the order the entries were recorded or queued.
#[verifier::ext_equal]
pub ghost struct UdpSocketMockView {
    /// One entry per `recv_from` invocation (the operation takes no
    /// recordable argument).
    pub recv_from_params: Seq<()>,
    /// Scripted `recv_from` outcomes, each with the literal bytes to copy
    /// into the caller's buffer.
    pub recv_from_results: Seq<(Result<(usize, SocketAddress), IoError>, Seq<u8>)>,
    /// The bytes and destination of every `send_to` invocation, captured at
    /// call time.
    pub send_to_params: Seq<(Seq<u8>, SocketAddress)>,
    /// Scripted `send_to` outcomes.
    pub send_to_results: Seq<Result<usize, IoError>>,
    /// The timeout argument of every `set_read_timeout` invocation.
    pub set_read_timeout_params: Seq<Option<Duration>>,
    /// Scripted `set_read_timeout` outcomes.
    pub set_read_timeout_results: Seq<Result<(), IoError>>,
}

/// A scripted double of [`UdpSocketWrapper`]: plays queued results back in
/// first-in-first-out order and records every call's arguments by value.
pub struct UdpSocketMock {
    recv_from_params: Vec<()>,
    recv_from_results: Vec<(Result<(usize, SocketAddress), IoError>, Vec<u8>)>,
    send_to_params: Vec<(Vec<u8>, SocketAddress)>,
    send_to_results: Vec<Result<usize, IoError>>,
    set_read_timeout_params: Vec<Option<Duration>>,
    set_read_timeout_results: Vec<Result<(), IoError>>,
}

impl View for UdpSocketMock {
    type V = UdpSocketMockView;

    closed spec fn view(&self) -> UdpSocketMockView {
        UdpSocketMockView {
            recv_from_params: self.recv_from_params@,
            recv_from_results: self.recv_from_results@.map_values(
                |p: (Result<(usize, SocketAddress), IoError>, Vec<u8>)| (p.0, p.1@),
            ),
            send_to_params: self.send_to_params@.map_values(
                |p: (Vec<u8>, SocketAddress)| (p.0@, p.1),
            ),
            send_to_results: self.send_to_results@,
            set_read_timeout_params: self.set_read_timeout_params@,
            set_read_timeout_results: self.set_read_timeout_results@,
        }
    }
}

/// Mapping a sequence commutes with appending one element.
proof fn lemma_map_values_push<A, B>(s: Seq<A>, f: spec_fn(A) -> B, x: A)
    ensures
        s.push(x).map_values(f) =~= s.map_values(f).push(f(x)),
{
    assert forall|i: int| 0 <= i < s.len() + 1 implies s.push(x).map_values(f)[i] == s.map_values(
        f,
    ).push(f(x))[i] by {
        if i < s.len() {
            assert(s.push(x)[i] == s[i]);
        } else {
            assert(s.push(x)[i] == x);
        }
    }
}

/// Mapping a sequence commutes with consuming its first element.
proof fn lemma_map_values_remove_first<A, B>(s: Seq<A>, f: spec_fn(A) -> B)
    requires
        s.len() > 0,
    ensures
        s.remove(0).map_values(f) =~= s.map_values(f).drop_first(),
{
    assert forall|i: int| 0 <= i < s.len() - 1 implies s.remove(0).map_values(f)[i] == s.map_values(
        f,
    ).drop_first()[i] by {
        assert(s.remove(0)[i] == s[i + 1]);
    }
}

/// Returns a fresh vector holding exactly the bytes of `src`, so that a
/// capture sink keeps its own copy of a caller's buffer.
fn copy_bytes(src: &Vec<u8>) -> (r: Vec<u8>)
    ensures
        r@ == src@,
{
    let mut r: Vec<u8> = Vec::new();
    let mut i: usize = 0;
    while i < src.len()
        invariant
            i <= src@.len(),
            r@.len() == i,
            forall|j: int| 0 <= j < i ==> r@[j] == src@[j],
        decreases src@.len() - i,
    {
        r.push(src[i]);
        i += 1;
    }
    proof {
        assert(r@ =~= src@);
    }
    r
}

impl UdpSocketMock {
    /// A double with every sink and every result queue empty.
    pub fn new() -> (r: Self)
        ensures
            r@.recv_from_params.len() == 0,
            r@.recv_from_results.len() == 0,
            r@.send_to_params.len() == 0,
            r@.send_to_results.len() == 0,
            r@.set_read_timeout_params.len() == 0,
            r@.set_read_timeout_results.len() == 0,
    {
        UdpSocketMock {
            recv_from_params: Vec::new(),
            recv_from_results: Vec::new(),
            send_to_params: Vec::new(),
            send_to_results: Vec::new(),
            set_read_timeout_params: Vec::new(),
            set_read_timeout_results: Vec::new(),
        }
    }

    /// Queues one scripted `recv_from` outcome together with the literal
    /// bytes the playback will copy into the caller's buffer.
    pub fn recv_from_result(
        self,
        result: Result<(usize, SocketAddress), IoError>,
        bytes: Vec<u8>,
    ) -> (s: Self)
        ensures
            s@ == (UdpSocketMockView {
                recv_from_results: self@.recv_from_results.push((result, bytes@)),
                ..self@
            }),
    {
        let ghost vpre = self@;
        let ghost pre = self.recv_from_results@;
        let ghost bv = bytes@;
        let mut this = self;
        this.recv_from_results.push((result, bytes));
        proof {
            lemma_map_values_push(
                pre,
                |p: (Result<(usize, SocketAddress), IoError>, Vec<u8>)| (p.0, p.1@),
                this.recv_from_results@.last(),
            );
            assert(this@ =~= (UdpSocketMockView {
                recv_from_results: vpre.recv_from_results.push((result, bv)),
                ..vpre
            }));
        }
        this
    }

    /// Queues one scripted `send_to` outcome.
    pub fn send_to_result(self, result: Result<usize, IoError>) -> (s: Self)
        ensures
            s@ == (UdpSocketMockView {
                send_to_results: self@.send_to_results.push(result),
                ..self@
            }),
    {
        let ghost vpre = self@;
        let mut this = self;
        this.send_to_results.push(result);
        proof {
            assert(this@ =~= (UdpSocketMockView {
                send_to_results: vpre.send_to_results.push(result),
                ..vpre
            }));
        }
        this
    }

    /// Queues one scripted `set_read_timeout` outcome.
    pub fn set_read_timeout_result(self, result: Result<(), IoError>) -> (s: Self)
        ensures
            s@ == (UdpSocketMockView {
                set_read_timeout_results: self@.set_read_timeout_results.push(result),
                ..self@
            }),
    {
        let ghost vpre = self@;
        let mut this = self;
        this.set_read_timeout_results.push(result);
        proof {
            assert(this@ =~= (UdpSocketMockView {
                set_read_timeout_results: vpre.set_read_timeout_results.push(result),
                ..vpre
            }));
        }
        this
    }

    /// The `recv_from` capture sink: one entry per invocation so far.
    pub fn recv_from_params(&self) -> (r: &Vec<()>)
        ensures
            r@ == self@.recv_from_params,
    {
        &self.recv_from_params
    }

    /// The `send_to` capture sink: the bytes and destination of each
    /// invocation, in invocation order.
    pub fn send_to_params(&self) -> (r: &Vec<(Vec<u8>, SocketAddress)>)
        ensures
            r@.map_values(|p: (Vec<u8>, SocketAddress)| (p.0@, p.1)) == self@.send_to_params,
    {
        &self.send_to_params
    }

    /// The `set_read_timeout` capture sink: the timeout argument of each
    /// invocation, in invocation order.
    pub fn set_read_timeout_params(&self) -> (r: &Vec<Option<Duration>>)
        ensures
            r@ == self@.set_read_timeout_params,
    {
        &self.set_read_timeout_params
    }
}

impl UdpSocketWrapper for UdpSocketMock {
    /// Playback of a receive is ready while an outcome is queued and its
    /// scripted bytes fit the caller's buffer.
    open spec fn recv_from_ready(&self, buf_len: nat) -> bool {
        &&& self@.recv_from_results.len() > 0
        &&& self@.recv_from_results[0].1.len() <= buf_len
    }

    open spec fn send_to_ready(&self) -> bool {
        self@.send_to_results.len() > 0
    }

    open spec fn set_read_timeout_ready(&self) -> bool {
        self@.set_read_timeout_results.len() > 0
    }

    /// Records the invocation, consumes the first queued outcome, copies its
    /// scripted bytes into the front of `buf` (bytes past them keep their
    /// old values), and returns the scripted result.
    fn recv_from(&mut self, buf: &mut Vec<u8>) -> (r: Result<(usize, SocketAddress), IoError>)
        ensures
            final(buf)@.len() == old(buf)@.len(),
            r == old(self)@.recv_from_results[0].0,
            final(buf)@ == old(self)@.recv_from_results[0].1 + old(buf)@.skip(
                old(self)@.recv_from_results[0].1.len() as int,
            ),
            final(self)@ == (UdpSocketMockView {
                recv_from_params: old(self)@.recv_from_params.push(()),
                recv_from_results: old(self)@.recv_from_results.drop_first(),
                ..old(self)@
            }),
    {
        let ghost buf0 = buf@;
        let ghost pre = self.recv_from_results@;
        self.recv_from_params.push(());
        let entry = self.recv_from_results.remove(0);
        let result = entry.0;
        let bytes = entry.1;
        let ghost bv = bytes@;
        let mut i: usize = 0;
        while i < bytes.len()
            invariant
                i <= bv.len(),
                bytes@ == bv,
                bv.len() <= buf@.len(),
                buf@.len() == buf0.len(),
                forall|j: int| 0 <= j < i ==> buf@[j] == bv[j],
                forall|j: int| i <= j < buf@.len() ==> buf@[j] == buf0[j],
            decreases bv.len() - i,
        {
            let b: u8 = bytes[i];
            buf[i] = b;
            i += 1;
        }
        proof {
            assert forall|j: int| 0 <= j < buf@.len() implies buf@[j] == (bv + buf0.skip(
                bv.len() as int,
            ))[j] by {
                if j < bv.len() {
                } else {
                    assert(buf0.skip(bv.len() as int)[j - bv.len()] == buf0[j]);
                }
            }
            assert(buf@ =~= bv + buf0.skip(bv.len() as int));
            lemma_map_values_remove_first(
                pre,
                |p: (Result<(usize, SocketAddress), IoError>, Vec<u8>)| (p.0, p.1@),
            );
            assert(self@ =~= (UdpSocketMockView {
                recv_from_params: old(self)@.recv_from_params.push(()),
                recv_from_results: old(self)@.recv_from_results.drop_first(),
                ..old(self)@
            }));
        }
        result
    }

    /// Captures the bytes and destination by value, consumes the first
    /// queued outcome, and returns it.
    fn send_to(&mut self, buf: &Vec<u8>, addr: SocketAddress) -> (r: Result<usize, IoError>)
        ensures
            r == old(self)@.send_to_results[0],
            final(self)@ == (UdpSocketMockView {
                send_to_params: old(self)@.send_to_params.push((buf@, addr)),
                send_to_results: old(self)@.send_to_results.drop_first(),
                ..old(self)@
            }),
    {
        let ghost pre = self.send_to_params@;
        let copied = copy_bytes(buf);
        self.send_to_params.push((copied, addr));
        let r = self.send_to_results.remove(0);
        proof {
            lemma_map_values_push(
                pre,
                |p: (Vec<u8>, SocketAddress)| (p.0@, p.1),
                self.send_to_params@.last(),
            );
            assert(self@ =~= (UdpSocketMockView {
                send_to_params: old(self)@.send_to_params.push((buf@, addr)),
                send_to_results: old(self)@.send_to_results.drop_first(),
                ..old(self)@
            }));
        }
        r
    }

    /// Captures the timeout argument, consumes the first queued outcome,
    /// and returns it.
    fn set_read_timeout(&mut self, dur: Option<Duration>) -> (r: Result<(), IoError>)
        ensures
            r == old(self)@.set_read_timeout_results[0],
            final(self)@ == (UdpSocketMockView {
                set_read_timeout_params: old(self)@.set_read_timeout_params.push(dur),
                set_read_timeout_results: old(self)@.set_read_timeout_results.drop_first(),
                ..old(self)@
            }),
    {
        self.set_read_timeout_params.push(dur);
        let r = self.set_read_timeout_results.remove(0);
        proof {
            assert(self@ =~= (UdpSocketMockView {
                set_read_timeout_params: old(self)@.set_read_timeout_params.push(dur),
                set_read_timeout_results: old(self)@.set_read_timeout_results.drop_first(),
                ..old(self)@
            }));
        }
        r
    }
}

/// The abstract state of a [`UdpSocketFactoryMock`].
#[verifier::ext_equal]
pub ghost struct UdpSocketFactoryMockView {
    /// The address of every `make` invocation, in invocation order.
    pub make_params: Seq<SocketAddress>,
    /// Scripted `make` outcomes: each a ready-to-use scripted socket double,
    /// or a failure simulating a refused bind.
    pub make_results: Seq<Result<UdpSocketMock, IoError>>,
}

/// A scripted double of [`UdpSocketFactory`]: hands out pre-built socket
/// doubles (or scripted bind failures) in first-in-first-out order and
/// records every requested address.
pub struct UdpSocketFactoryMock {
    make_params: Vec<SocketAddress>,
    make_results: Vec<Result<UdpSocketMock, IoError>>,
}

impl View for UdpSocketFactoryMock {
    type V = UdpSocketFactoryMockView;

    closed spec fn view(&self) -> UdpSocketFactoryMockView {
        UdpSocketFactoryMockView {
            make_params: self.make_params@,
            make_results: self.make_results@,
        }
    }
}

impl UdpSocketFactoryMock {
    /// A double with an empty sink and an empty result queue.
    pub fn new() -> (r: Self)
        ensures
            r@.make_params.len() == 0,
            r@.make_results.len() == 0,
    {
        UdpSocketFactoryMock { make_params: Vec::new(), make_results: Vec::new() }
    }

    /// Queues one scripted `make` outcome.
    pub fn make_result(self, result: Result<UdpSocketMock, IoError>) -> (s: Self)
        ensures
            s@ == (UdpSocketFactoryMockView {
                make_results: self@.make_results.push(result),
                ..self@
            }),
    {
        let ghost vpre = self@;
        let ghost rv = result;
        let mut this = self;
        this.make_results.push(result);
        proof {
            assert(this@ =~= (UdpSocketFactoryMockView {
                make_results: vpre.make_results.push(rv),
                ..vpre
            }));
        }
        this
    }

    /// The `make` capture sink: the address of each invocation, in
    /// invocation order.
    pub fn make_params(&self) -> (r: &Vec<SocketAddress>)
        ensures
            r@ == self@.make_params,
    {
        &self.make_params
    }
}

impl UdpSocketFactory for UdpSocketFactoryMock {
    type Socket = UdpSocketMock;

    open spec fn make_ready(&self) -> bool {
        self@.make_results.len() > 0
    }

    /// Records the requested address and hands out the first queued
    /// outcome.
    fn make(&mut self, addr: SocketAddress) -> (r: Result<UdpSocketMock, IoError>)
        ensures
            r == old(self)@.make_results[0],
            final(self)@ == (UdpSocketFactoryMockView {
                make_params: old(self)@.make_params.push(addr),
                make_results: old(self)@.make_results.drop_first(),
            }),
    {
        self.make_params.push(addr);
        let r = self.make_results.remove(0);
        proof {
            assert(self@ =~= (UdpSocketFactoryMockView {
                make_params: old(self)@.make_params.push(addr),
                make_results: old(self)@.make_results.drop_first(),
            }));
        }
        r
    }
}

/// A scripted double of [`FreePortFactory`]: plays queued port numbers back
/// in first-in-first-out order.  Its view is the queue of ports not yet
/// handed out.
pub struct FreePortFactoryMock {
    make_results: Vec<u16>,
}

impl View for FreePortFactoryMock {
    type V = Seq<u16>;

    closed spec fn view(&self) -> Seq<u16> {
        self.make_results@
    }
}

impl FreePortFactoryMock {
    /// A double with an empty result queue.
    pub fn new() -> (r: Self)
        ensures
            r@.len() == 0,
    {
        FreePortFactoryMock { make_results: Vec::new() }
    }

    /// Queues one scripted port number.
    pub fn make_result(self, result: u16) -> (s: Self)
        ensures
            s@ == self@.push(result),
    {
        let mut this = self;
        this.make_results.push(result);
        this
    }
}

impl FreePortFactory for FreePortFactoryMock {
    open spec fn make_ready(&self) -> bool {
        self@.len() > 0
    }

    /// Hands out the first queued port number.
    fn make(&mut self) -> (r: u16)
        ensures
            r == old(self)@[0],
            final(self)@ == old(self)@.drop_first(),
    {
        let r = self.make_results.remove(0);
        proof {
            assert(self@ =~= old(self)@.drop_first());
        }
        r
    }
}

/// First-in-first-out playback law.  Every scripted operation's contract
/// consumes the front of its result queue (`drop_first`) and returns the
/// entry that stood there, while builders append at the back; so a queue
/// scripted as `script` holds `script.skip(n)` once `n` invocations have
/// been played back, whatever any other operation's queues did meanwhile.
/// This lemma states what that picture gives for the next invocation: the
/// `n`th invocation (counting from zero) is still possible, returns
/// `script[n]`, and leaves exactly the entries after it.
pub proof fn lemma_fifo_playback<T>(script: Seq<T>, n: int)
    requires
        0 <= n < script.len(),
    ensures
        script.skip(n).len() > 0,
        script.skip(n)[0] == script[n],
        script.skip(n).drop_first() == script.skip(n + 1),
{
    assert(script.skip(n).drop_first() =~= script.skip(n + 1));
}

} // verus!
