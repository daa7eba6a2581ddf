use vstd::prelude::*;

use core::task::Waker;

use crate::status::IoctlError;
use crate::wake::Wakers;

verus! {

/// Direction of a control request: read an attribute or write one.
#[derive(Debug, Clone, Copy, PartialEq, Eq, Structural)]
pub enum IoctlType {
    Get,
    Put,
}

impl IoctlType {
    /// The direction's code in the firmware's command header.
    pub fn value(self) -> (r: u32)
        ensures
            r == (if self is Get { 0u32 } else { 2u32 }),
    {
        match self {
            IoctlType::Get => 0,
            IoctlType::Put => 2,
        }
    }
}

/// A request as the bus task receives it: the bytes of the issuer's buffer,
/// the direction, the command code and the interface index.
pub struct PendingIoctl {
    pub buf: Vec<u8>,
    pub kind: IoctlType,
    pub cmd: u32,
    pub iface: u32,
}

/// The phase of the shared cell, with the loaned buffer's bytes.
pub enum Phase {
    /// Issued and not yet picked up by the bus task.
    Pending { buf: Seq<u8>, kind: IoctlType, cmd: u32, iface: u32 },
    /// Picked up by the bus task; only the buffer is kept.
    Sent { buf: Seq<u8> },
    /// No request outstanding: the last result, and the buffer that is to be
    /// handed back to the issuer.
    Done { result: Result<usize, IoctlError>, buf: Seq<u8> },
}

/// How many response bytes a completion copies into a buffer.
pub open spec fn copied_len(buf_len: nat, response_len: nat) -> nat {
    if buf_len <= response_len {
        buf_len
    } else {
        response_len
    }
}

/// The buffer after a successful completion: the response's first bytes over
/// the buffer's first bytes, the rest of the buffer as it was.
pub open spec fn filled(buf: Seq<u8>, response: Seq<u8>) -> Seq<u8> {
    let n = copied_len(buf.len(), response.len()) as int;
    response.subrange(0, n) + buf.subrange(n, buf.len() as int)
}

impl Phase {
    /// The buffer that the cell holds in this phase.
    pub open spec fn loaned(self) -> Seq<u8> {
        match self {
            Phase::Pending { buf, .. } => buf,
            Phase::Sent { buf } => buf,
            Phase::Done { buf, .. } => buf,
        }
    }

    /// The phase after the bus task picks up a pending request.
    pub open spec fn observe(self) -> Phase {
        match self {
            Phase::Pending { buf, .. } => Phase::Sent { buf },
            _ => self,
        }
    }

    /// The phase after the bus task reports the outcome of a transfer.
    pub open spec fn complete(self, response: Seq<u8>, outcome: Result<(), IoctlError>) -> Phase {
        match self {
            Phase::Sent { buf } => match outcome {
                Ok(()) => Phase::Done {
                    result: Ok(copied_len(buf.len(), response.len()) as usize),
                    buf: filled(buf, response),
                },
                Err(e) => Phase::Done { result: Err(e), buf },
            },
            _ => self,
        }
    }

    /// The phase after the issuer takes a finished result: the loaned buffer
    /// goes back to the issuer and the result stays.
    pub open spec fn hand_back(self) -> Phase {
        match self {
            Phase::Done { result, .. } => Phase::Done { result, buf: Seq::empty() },
            _ => self,
        }
    }

    /// The phase after a cancellation: done with zero bytes, the loaned
    /// buffer kept for its owner.
    pub open spec fn cancel(self) -> Phase {
        Phase::Done { result: Ok(0), buf: self.loaned() }
    }
}

enum IoctlStateInner {
    Pending(PendingIoctl),
    Sent { buf: Vec<u8> },
    Done { result: Result<usize, IoctlError>, buf: Vec<u8> },
}

/// The single-slot channel shared by the issuing task and the bus task.
pub struct IoctlState {
    state: IoctlStateInner,
    wakers: Wakers,
}

impl IoctlState {
    /// The phase of the request cell.
    pub closed spec fn phase(&self) -> Phase {
        match self.state {
            IoctlStateInner::Pending(p) => Phase::Pending {
                buf: p.buf@,
                kind: p.kind,
                cmd: p.cmd,
                iface: p.iface,
            },
            IoctlStateInner::Sent { buf } => Phase::Sent { buf: buf@ },
            IoctlStateInner::Done { result, buf } => Phase::Done { result, buf: buf@ },
        }
    }

    /// Whether the issuing task is registered to be woken.
    pub closed spec fn control_waiting(&self) -> bool {
        self.wakers.control_waiting()
    }

    /// Whether the bus task is registered to be woken.
    pub closed spec fn runner_waiting(&self) -> bool {
        self.wakers.runner_waiting()
    }

    /// A cell with no request outstanding: done with zero bytes, no task waiting.
    pub fn new() -> (r: IoctlState)
        ensures
            r.phase() == (Phase::Done { result: Ok(0), buf: Seq::empty() }),
            !r.control_waiting(),
            !r.runner_waiting(),
    {
        IoctlState {
            state: IoctlStateInner::Done { result: Ok(0), buf: Vec::new() },
            wakers: Wakers::new(),
        }
    }

    fn wake_control(&mut self)
        ensures
            final(self).phase() == old(self).phase(),
            !final(self).control_waiting(),
            final(self).runner_waiting() == old(self).runner_waiting(),
    {
        self.wakers.control.wake();
    }

    fn register_control(&mut self, waker: &Waker)
        ensures
            final(self).phase() == old(self).phase(),
            final(self).control_waiting(),
            final(self).runner_waiting() == old(self).runner_waiting(),
    {
        self.wakers.control.register(waker);
    }

    fn wake_runner(&mut self)
        ensures
            final(self).phase() == old(self).phase(),
            final(self).control_waiting() == old(self).control_waiting(),
            !final(self).runner_waiting(),
    {
        self.wakers.runner.wake();
    }

    fn register_runner(&mut self, waker: &Waker)
        ensures
            final(self).phase() == old(self).phase(),
            final(self).control_waiting() == old(self).control_waiting(),
            final(self).runner_waiting(),
    {
        self.wakers.runner.register(waker);
    }

    /// One poll of the issuer's wait for completion. Once the cell is done it
    /// yields the result and hands the loaned buffer back (the cell keeps the
    /// result and an empty buffer); before that it registers the issuer's
    /// waker and yields nothing.
    pub fn wait_complete(&mut self, waker: &Waker) -> (r: Option<(Result<usize, IoctlError>, Vec<u8>)>)
        ensures
            r is Some <==> old(self).phase() is Done,
            final(self).phase() == old(self).phase().hand_back(),
            r matches Some((result, buf)) ==> {
                &&& old(self).phase() == (Phase::Done { result, buf: buf@ })
                &&& final(self).control_waiting() == old(self).control_waiting()
            },
            r is None ==> final(self).control_waiting(),
            final(self).runner_waiting() == old(self).runner_waiting(),
    {
        let mut taken = IoctlStateInner::Done { result: Ok(0), buf: Vec::new() };
        std::mem::swap(&mut self.state, &mut taken);
        match taken {
            IoctlStateInner::Done { result, buf } => {
                self.state = IoctlStateInner::Done { result, buf: Vec::new() };
                Some((result, buf))
            },
            other => {
                self.state = other;
                self.register_control(waker);
                None
            },
        }
    }

    /// One poll of the bus task's wait for a request. A pending request moves
    /// to the sent phase and is handed out with a copy of the buffer's bytes;
    /// otherwise the bus task's waker is registered and nothing is handed out.
    pub fn wait_pending(&mut self, waker: &Waker) -> (r: Option<PendingIoctl>)
        ensures
            r is Some <==> old(self).phase() is Pending,
            final(self).phase() == old(self).phase().observe(),
            r matches Some(p) ==> {
                &&& old(self).phase() == (Phase::Pending {
                    buf: p.buf@,
                    kind: p.kind,
                    cmd: p.cmd,
                    iface: p.iface,
                })
                &&& final(self).runner_waiting() == old(self).runner_waiting()
            },
            r is None ==> final(self).runner_waiting(),
            final(self).control_waiting() == old(self).control_waiting(),
    {
        let mut taken = IoctlStateInner::Done { result: Ok(0), buf: Vec::new() };
        std::mem::swap(&mut self.state, &mut taken);
        match taken {
            IoctlStateInner::Pending(p) => {
                let bytes = p.buf.clone();
                assert(bytes@ =~= p.buf@);
                self.state = IoctlStateInner::Sent { buf: p.buf };
                Some(PendingIoctl { buf: bytes, kind: p.kind, cmd: p.cmd, iface: p.iface })
            },
            other => {
                self.state = other;
                self.register_runner(waker);
                None
            },
        }
    }

    /// Abandons any request: the cell becomes done with zero bytes. No task
    /// is woken.
    pub fn cancel_ioctl(&mut self)
        ensures
            final(self).phase() == old(self).phase().cancel(),
            final(self).control_waiting() == old(self).control_waiting(),
            final(self).runner_waiting() == old(self).runner_waiting(),
    {
        let mut taken = IoctlStateInner::Done { result: Ok(0), buf: Vec::new() };
        std::mem::swap(&mut self.state, &mut taken);
        let buf = match taken {
            IoctlStateInner::Pending(p) => p.buf,
            IoctlStateInner::Sent { buf } => buf,
            IoctlStateInner::Done { buf, .. } => buf,
        };
        self.state = IoctlStateInner::Done { result: Ok(0), buf };
    }

    /// Issues a request, lending `buf` to the cell until completion, and wakes
    /// the bus task. Whatever the cell held before is replaced.
    pub fn do_ioctl(&mut self, kind: IoctlType, cmd: u32, iface: u32, buf: Vec<u8>)
        ensures
            final(self).phase() == (Phase::Pending { buf: buf@, kind, cmd, iface }),
            final(self).control_waiting() == old(self).control_waiting(),
            !final(self).runner_waiting(),
    {
        self.state = IoctlStateInner::Pending(PendingIoctl { buf, kind, cmd, iface });
        self.wake_runner();
    }

    /// The bus task reports the outcome of the sent request. On success the
    /// response is copied over the start of the buffer, as far as both reach,
    /// and the byte count becomes the result; on failure the buffer stays as it
    /// was and the error becomes the result. The issuer is then woken. With no
    /// request in the sent phase the report is stale and is ignored. Returns
    /// whether the report was taken.
    pub fn ioctl_done(&mut self, response: &[u8], result: Result<(), IoctlError>) -> (r: bool)
        ensures
            r == old(self).phase() is Sent,
            final(self).phase() == old(self).phase().complete(response@, result),
            old(self).phase() is Sent ==> !final(self).control_waiting(),
            !(old(self).phase() is Sent) ==> final(self).control_waiting() == old(self).control_waiting(),
            final(self).runner_waiting() == old(self).runner_waiting(),
    {
        let mut taken = IoctlStateInner::Done { result: Ok(0), buf: Vec::new() };
        std::mem::swap(&mut self.state, &mut taken);
        match taken {
            IoctlStateInner::Sent { buf } => {
                let mut buf = buf;
                let outcome = match result {
                    Ok(()) => {
                        let n: usize = if buf.len() <= response.len() {
                            buf.len()
                        } else {
                            response.len()
                        };
                        copy_prefix(&mut buf, response, n);
                        Ok(n)
                    },
                    Err(e) => Err(e),
                };
                self.state = IoctlStateInner::Done { result: outcome, buf };
                self.wake_control();
                true
            },
            other => {
                self.state = other;
                false
            },
        }
    }
}

/// A successful completion with a response no longer than the buffer reports
/// the response's length, puts the response at the start of the buffer and
/// leaves the buffer's other bytes as they were.
pub proof fn lemma_complete_short_response(buf: Seq<u8>, response: Seq<u8>)
    requires
        response.len() <= buf.len(),
    ensures
        ({
            let after = (Phase::Sent { buf }).complete(response, Ok(()));
            &&& after == (Phase::Done { result: Ok(response.len() as usize), buf: after.loaned() })
            &&& after.loaned().len() == buf.len()
            &&& after.loaned().subrange(0, response.len() as int) == response
            &&& after.loaned().subrange(response.len() as int, buf.len() as int)
                == buf.subrange(response.len() as int, buf.len() as int)
        }),
{
    let after = (Phase::Sent { buf }).complete(response, Ok(()));
    assert(after.loaned().subrange(0, response.len() as int) =~= response);
    assert(after.loaned().subrange(response.len() as int, buf.len() as int)
        =~= buf.subrange(response.len() as int, buf.len() as int));
}

/// A successful completion with a response longer than the buffer reports the
/// buffer's length and fills the whole buffer with the response's first bytes.
pub proof fn lemma_complete_long_response(buf: Seq<u8>, response: Seq<u8>)
    requires
        buf.len() < response.len(),
    ensures
        (Phase::Sent { buf }).complete(response, Ok(())) == (Phase::Done {
            result: Ok(buf.len() as usize),
            buf: response.subrange(0, buf.len() as int),
        }),
{
    assert(filled(buf, response) =~= response.subrange(0, buf.len() as int));
}

/// A completion that arrives when no request is in the sent phase changes
/// nothing.
pub proof fn lemma_stray_completion(p: Phase, response: Seq<u8>, outcome: Result<(), IoctlError>)
    requires
        !(p is Sent),
    ensures
        p.complete(response, outcome) == p,
{
}

/// Whatever the phase, a cancellation leaves the cell done with zero bytes, and
/// the bus task then finds no request to pick up.
pub proof fn lemma_cancel_clears_request(p: Phase)
    ensures
        p.cancel() == (Phase::Done { result: Ok(0), buf: p.loaned() }),
        !(p.cancel() is Pending),
        p.cancel().observe() == p.cancel(),
{
}

/// Once no request is pending, none becomes pending again until the next
/// issue: picking up, completing, taking the result and cancelling all leave
/// the cell without a pending request.
pub proof fn lemma_no_request_appears(p: Phase, response: Seq<u8>, outcome: Result<(), IoctlError>)
    requires
        !(p is Pending),
    ensures
        p.observe() == p,
        !(p.complete(response, outcome) is Pending),
        !(p.hand_back() is Pending),
        !(p.cancel() is Pending),
{
}

/// Copies the first `n` bytes of `src` over the first `n` bytes of `dst`.
fn copy_prefix(dst: &mut Vec<u8>, src: &[u8], n: usize)
    requires
        n == copied_len(old(dst)@.len(), src@.len()),
    ensures
        final(dst)@ == filled(old(dst)@, src@),
{
    let ghost orig = dst@;
    let mut i: usize = 0;
    while i < n
        invariant
            n == copied_len(orig.len(), src@.len()),
            0 <= i <= n,
            dst@.len() == orig.len(),
            forall|j: int| 0 <= j < i ==> dst@[j] == src@[j],
            forall|j: int| i <= j < orig.len() ==> dst@[j] == orig[j],
        decreases n - i,
    {
        dst.set(i, src[i]);
        i = i + 1;
    }
    assert(dst@ =~= filled(orig, src@));
}

} // verus!
