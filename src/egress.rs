//! Outgoing datagrams that wait for their destination's Ethernet address:
//! held in order, asked for once, sent when the answer arrives, and given up
//! after a few probe ticks.
use vstd::prelude::*;

use crate::aarp::{
    ddp_frame_spec, filled_ddp_spec, request_frame_spec, AarpStack, AddressPhase, Lookup,
    DDP_MAX_PAYLOAD,
};
use crate::addr::{Appletalk, Mac};
use crate::ddp::Ddp;
use crate::link::AppletalkPacket;
use crate::CrabbletalkError;

verus! {

/// How many probe ticks a datagram waits for its destination before it is
/// dropped as transient.
pub const RESOLVE_TICKS: u32 = 2;

/// A waiting datagram: the socket it came from, its header and payload,
/// whether its AARP request has gone out, and the ticks it may still wait.
pub struct PendingView {
    pub socket: u8,
    pub ddp: Ddp,
    pub payload: Seq<u8>,
    pub requested: bool,
    pub ticks_left: u32,
}

/// What became of one waiting datagram in a step.
#[derive(Debug, Clone, Copy, PartialEq, Eq, Structural)]
pub enum Fate {
    Sent,
    Dropped,
    Kept,
}

/// The outcome of a step so far: frames to send, datagrams dropped, those
/// still waiting, the sockets that have a datagram waiting, and the fate of
/// each datagram looked at.
pub struct StepAcc {
    pub out: Seq<Seq<u8>>,
    pub dropped: Seq<Ddp>,
    pub kept: Seq<PendingView>,
    pub blocked: Seq<u8>,
    pub fates: Seq<Fate>,
}

pub open spec fn empty_acc() -> StepAcc {
    StepAcc {
        out: Seq::empty(),
        dropped: Seq::empty(),
        kept: Seq::empty(),
        blocked: Seq::empty(),
        fates: Seq::empty(),
    }
}

/// Whether `write_ddp` frames a datagram with `n` payload bytes for `st`.
pub open spec fn writes_spec(st: AarpStack, n: int) -> bool {
    st.spec_phase() is Accepted && n <= DDP_MAX_PAYLOAD
}

/// The frame `write_ddp` makes of a datagram for `st`, sent to `m`.
pub open spec fn written_frame_spec(st: AarpStack, m: Mac, d: Ddp, payload: Seq<u8>) -> Seq<u8> {
    ddp_frame_spec(
        m,
        st.spec_mac(),
        filled_ddp_spec(d, st.spec_phase()->Accepted_addr, payload.len() as int),
        payload,
    )
}

/// One waiting datagram `p` in a step on stack `st`. If no earlier datagram
/// of its socket still waits and its destination is known, it is framed
/// (or dropped, if it cannot be framed). Otherwise its request goes out if
/// it has none yet and our address is accepted, and then, on an expiring
/// step, it is dropped if its ticks are spent; else it keeps waiting and
/// holds back the later datagrams of its socket.
pub open spec fn step_one(st: AarpStack, acc: StepAcc, p: PendingView, expire: bool) -> StepAcc {
    let free = !acc.blocked.contains(p.socket);
    let dest = p.ddp.spec_destination();
    if free && st.hw_known_spec(dest) is Some {
        if writes_spec(st, p.payload.len() as int) {
            StepAcc {
                out: acc.out.push(
                    written_frame_spec(st, st.hw_known_spec(dest).unwrap(), p.ddp, p.payload),
                ),
                fates: acc.fates.push(Fate::Sent),
                ..acc
            }
        } else {
            StepAcc { dropped: acc.dropped.push(p.ddp), fates: acc.fates.push(Fate::Dropped), ..acc }
        }
    } else {
        let asks = free && !p.requested && st.spec_phase() is Accepted;
        let out = if asks {
            acc.out.push(request_frame_spec(st.spec_mac(), st.spec_phase()->Accepted_addr, dest))
        } else {
            acc.out
        };
        if expire && p.ticks_left == 0 {
            StepAcc {
                out,
                dropped: acc.dropped.push(p.ddp),
                fates: acc.fates.push(Fate::Dropped),
                ..acc
            }
        } else {
            StepAcc {
                out,
                kept: acc.kept.push(
                    PendingView {
                        requested: p.requested || asks,
                        ticks_left: if expire { (p.ticks_left - 1) as u32 } else { p.ticks_left },
                        ..p
                    },
                ),
                blocked: acc.blocked.push(p.socket),
                fates: acc.fates.push(Fate::Kept),
                ..acc
            }
        }
    }
}

/// A step over the first `i` waiting datagrams, in queue order.
pub open spec fn step_fold(st: AarpStack, q: Seq<PendingView>, expire: bool, i: int) -> StepAcc
    decreases i,
{
    if i <= 0 {
        empty_acc()
    } else {
        step_one(st, step_fold(st, q, expire, i - 1), q[i - 1], expire)
    }
}

/// What a new outgoing datagram came to.
#[derive(Debug, Clone)]
pub enum Egress {
    /// Framed for the wire.
    Sent(AppletalkPacket),
    /// It cannot be framed (see `AarpStack::write_ddp`).
    Dropped(CrabbletalkError),
    /// It waits; send this AARP request, if any.
    Queued(Option<AppletalkPacket>),
}

struct Pending {
    socket: u8,
    ddp: Ddp,
    payload: Vec<u8>,
    requested: bool,
    ticks_left: u32,
}

impl Pending {
    closed spec fn view(self) -> PendingView {
        PendingView {
            socket: self.socket,
            ddp: self.ddp,
            payload: self.payload@,
            requested: self.requested,
            ticks_left: self.ticks_left,
        }
    }
}

/// Whether the stack `post` looks up every address as `pre` does, with the
/// same Ethernet address, phase and sockets.
pub open spec fn same_answers(pre: AarpStack, post: AarpStack) -> bool {
    &&& post.wf()
    &&& post.spec_mac() == pre.spec_mac()
    &&& post.spec_phase() == pre.spec_phase()
    &&& post.spec_sockets() == pre.spec_sockets()
    &&& forall|t: Appletalk| #[trigger] post.hw_known_spec(t) == pre.hw_known_spec(t)
}

fn contains_u8(v: &Vec<u8>, x: u8) -> (r: bool)
    ensures
        r == v@.contains(x),
{
    let mut i: usize = 0;
    while i < v.len()
        invariant
            i <= v@.len(),
            forall|j: int| 0 <= j < i ==> v@[j] != x,
        decreases v@.len() - i,
    {
        if v[i] == x {
            return true;
        }
        i = i + 1;
    }
    false
}

/// Asks for `dest` when it is not known; the stack answers every lookup as
/// before.
fn ask(stack: &mut AarpStack, dest: Appletalk) -> (r: Option<AppletalkPacket>)
    requires
        old(stack).wf(),
        old(stack).hw_known_spec(dest) is None,
    ensures
        same_answers(*old(stack), *final(stack)),
        r is Some <==> old(stack).spec_phase() is Accepted,
        r matches Some(p) ==> p.0@ == request_frame_spec(
            old(stack).spec_mac(),
            old(stack).spec_phase()->Accepted_addr,
            dest,
        ),
{
    let ghost pre = *stack;
    let r = match stack.hw_from_appletalk(dest) {
        Lookup::Requested(p) => Some(p),
        _ => None,
    };
    assert forall|t: Appletalk| #[trigger] stack.hw_known_spec(t) == pre.hw_known_spec(t) by {
        if t == dest {
        }
    }
    r
}

/// The outgoing datagrams that wait for their destination, in arrival order.
pub struct EgressQueue {
    pending: Vec<Pending>,
}

impl EgressQueue {
    /// The waiting datagrams, oldest first.
    pub closed spec fn view(&self) -> Seq<PendingView> {
        self.pending@.map_values(|p: Pending| p.view())
    }

    pub closed spec fn wf(&self) -> bool {
        forall|i: int| 0 <= i < self.pending@.len() ==> (#[trigger] self.pending@[i]).ddp.hop_count < 16
    }

    pub fn new() -> (r: EgressQueue)
        ensures
            r.wf(),
            r.view() == Seq::<PendingView>::empty(),
    {
        let r = EgressQueue { pending: Vec::new() };
        assert(r.view() =~= Seq::<PendingView>::empty());
        r
    }

    /// Whether a datagram of `socket` waits.
    pub open spec fn waits_for(&self, socket: u8) -> bool {
        exists|i: int| 0 <= i < self.view().len() && (#[trigger] self.view()[i]).socket == socket
    }

    /// Takes a datagram from `socket`. It is framed now when its destination
    /// is known and no earlier datagram of its socket waits; otherwise it
    /// joins the queue, asking (once) for its destination if that is unknown
    /// and our address is accepted.
    pub fn push(&mut self, stack: &mut AarpStack, socket: u8, ddp: Ddp, payload: Vec<u8>) -> (r: Egress)
        requires
            old(self).wf(),
            old(stack).wf(),
            ddp.hop_count < 16,
        ensures
            final(self).wf(),
            same_answers(*old(stack), *final(stack)),
            ({
                let st = *old(stack);
                let known = st.hw_known_spec(ddp.spec_destination());
                if !old(self).waits_for(socket) && known is Some {
                    &&& final(self).view() == old(self).view()
                    &&& writes_spec(st, payload@.len() as int) ==> (r matches Egress::Sent(p) && p.0@
                        == written_frame_spec(st, known.unwrap(), ddp, payload@))
                    &&& !(st.spec_phase() is Accepted) ==> r == Egress::Dropped(CrabbletalkError::Transient)
                    &&& st.spec_phase() is Accepted && payload@.len() > DDP_MAX_PAYLOAD ==> r
                        == Egress::Dropped(CrabbletalkError::OversizeFrame)
                } else {
                    let asks = known is None && st.spec_phase() is Accepted;
                    &&& final(self).view() == old(self).view().push(
                        PendingView {
                            socket,
                            ddp,
                            payload: payload@,
                            requested: known is Some || asks,
                            ticks_left: RESOLVE_TICKS,
                        },
                    )
                    &&& r matches Egress::Queued(req)
                    &&& req is Some <==> asks
                    &&& req matches Some(p) ==> p.0@ == request_frame_spec(
                        st.spec_mac(),
                        st.spec_phase()->Accepted_addr,
                        ddp.spec_destination(),
                    )
                }
            }),
    {
        let ghost pre = *stack;
        let mut waits = false;
        let mut i: usize = 0;
        while i < self.pending.len()
            invariant
                i <= self.pending@.len(),
                waits == exists|j: int| 0 <= j < i && self.pending@[j].socket == socket,
            decreases self.pending@.len() - i,
        {
            if self.pending[i].socket == socket {
                waits = true;
            }
            i = i + 1;
        }
        assert(waits == old(self).waits_for(socket)) by {
            if waits {
                let j = choose|j: int| 0 <= j < i && self.pending@[j].socket == socket;
                assert(self.view()[j].socket == socket);
            }
            if old(self).waits_for(socket) {
                let j = choose|j: int| 0 <= j < self.view().len() && (#[trigger] self.view()[j]).socket == socket;
                assert(self.pending@[j].socket == socket);
            }
        }
        let dest = ddp.destination();
        let known = stack.hw_known(dest);
        let ghost v0 = self.view();
        match known {
            Some(m) => {
                if !waits {
                    return match stack.write_ddp(m, ddp, payload.as_slice()) {
                        Ok(p) => Egress::Sent(p),
                        Err(e) => Egress::Dropped(e),
                    };
                }
                self.pending.push(Pending { socket, ddp, payload, requested: true, ticks_left: RESOLVE_TICKS });
                assert(self.view() =~= v0.push(self.pending@.last().view()));
                Egress::Queued(None)
            },
            None => {
                let req = ask(stack, dest);
                let requested = req.is_some();
                self.pending.push(Pending { socket, ddp, payload, requested, ticks_left: RESOLVE_TICKS });
                assert(self.view() =~= v0.push(self.pending@.last().view()));
                Egress::Queued(req)
            },
        }
    }

    /// Goes over the waiting datagrams in order, after an incoming frame or a
    /// phase change (`expire` false) or on a probe tick (`expire` true), as
    /// `step_fold` says: returns the frames to send, in order, and the
    /// datagrams dropped.
    pub fn step(&mut self, stack: &mut AarpStack, expire: bool) -> (r: (Vec<AppletalkPacket>, Vec<Ddp>))
        requires
            old(self).wf(),
            old(stack).wf(),
        ensures
            final(self).wf(),
            same_answers(*old(stack), *final(stack)),
            ({
                let acc = step_fold(*old(stack), old(self).view(), expire, old(self).view().len() as int);
                &&& r.0@.map_values(|p: AppletalkPacket| p.0@) == acc.out
                &&& r.1@ == acc.dropped
                &&& final(self).view() == acc.kept
            }),
    {
        let ghost st = *stack;
        let ghost q = self.view();
        let ghost n = q.len() as int;
        let mut out: Vec<AppletalkPacket> = Vec::new();
        let mut dropped: Vec<Ddp> = Vec::new();
        let mut kept: Vec<Pending> = Vec::new();
        let mut blocked: Vec<u8> = Vec::new();
        let mut i: usize = 0;
        let len = self.pending.len();
        while i < len
            invariant
                len == n,
                0 <= i <= n,
                q == old(self).view(),
                st == *old(stack),
                self.pending@.len() == n - i,
                forall|j: int| 0 <= j < n - i ==> (#[trigger] self.pending@[j]).view() == q[j + i],
                forall|j: int| 0 <= j < n - i ==> (#[trigger] self.pending@[j]).ddp.hop_count < 16,
                forall|j: int| 0 <= j < kept@.len() ==> (#[trigger] kept@[j]).ddp.hop_count < 16,
                same_answers(st, *stack),
                out@.map_values(|p: AppletalkPacket| p.0@) == step_fold(st, q, expire, i as int).out,
                dropped@ == step_fold(st, q, expire, i as int).dropped,
                kept@.map_values(|p: Pending| p.view()) == step_fold(st, q, expire, i as int).kept,
                blocked@ == step_fold(st, q, expire, i as int).blocked,
            decreases n - i,
        {
            let ghost acc = step_fold(st, q, expire, i as int);
            let ghost out0 = out@;
            let ghost kept0 = kept@;
            let p = self.pending.remove(0);
            assert(p.view() == q[i as int]);
            let dest = p.ddp.destination();
            let free = !contains_u8(&blocked, p.socket);
            let known = if free {
                stack.hw_known(dest)
            } else {
                None
            };
            match known {
                Some(m) => {
                    match stack.write_ddp(m, p.ddp, p.payload.as_slice()) {
                        Ok(f) => {
                            out.push(f);
                            assert(out@.map_values(|p: AppletalkPacket| p.0@) =~= out0.map_values(
                                |p: AppletalkPacket| p.0@,
                            ).push(out@.last().0@));
                        },
                        Err(_) => {
                            dropped.push(p.ddp);
                        },
                    }
                },
                None => {
                    let mut requested = p.requested;
                    if free && !p.requested {
                        match ask(stack, dest) {
                            Some(req) => {
                                out.push(req);
                                requested = true;
                                assert(out@.map_values(|p: AppletalkPacket| p.0@) =~= out0.map_values(
                                    |p: AppletalkPacket| p.0@,
                                ).push(out@.last().0@));
                            },
                            None => {},
                        }
                    }
                    if expire && p.ticks_left == 0 {
                        dropped.push(p.ddp);
                    } else {
                        let ticks_left = if expire {
                            p.ticks_left - 1
                        } else {
                            p.ticks_left
                        };
                        blocked.push(p.socket);
                        kept.push(Pending { socket: p.socket, ddp: p.ddp, payload: p.payload, requested, ticks_left });
                        assert(kept@.map_values(|p: Pending| p.view()) =~= kept0.map_values(
                            |p: Pending| p.view(),
                        ).push(kept@.last().view()));
                    }
                },
            }
            i = i + 1;
            assert(forall|j: int| 0 <= j < n - i ==> (#[trigger] self.pending@[j]).view() == q[j + i]);
        }
        self.pending = kept;
        (out, dropped)
    }
}

proof fn lemma_fold_shape(st: AarpStack, q: Seq<PendingView>, expire: bool, i: int)
    requires
        0 <= i <= q.len(),
    ensures
        step_fold(st, q, expire, i).fates.len() == i,
        forall|s: u8|
            step_fold(st, q, expire, i).blocked.contains(s) <==> exists|j: int|
                0 <= j < i && step_fold(st, q, expire, i).fates[j] == Fate::Kept && q[j].socket == s,
    decreases i,
{
    if i > 0 {
        lemma_fold_shape(st, q, expire, i - 1);
        let a = step_fold(st, q, expire, i - 1);
        let b = step_fold(st, q, expire, i);
        assert(b.fates.subrange(0, i - 1) =~= a.fates);
        let x = q[i - 1].socket;
        assert(b.fates[i - 1] == Fate::Kept ==> b.blocked == a.blocked.push(x));
        assert(b.fates[i - 1] != Fate::Kept ==> b.blocked == a.blocked);
        assert forall|s: u8| b.blocked.contains(s) <==> exists|j: int|
            0 <= j < i && b.fates[j] == Fate::Kept && q[j].socket == s by {
            if b.fates[i - 1] == Fate::Kept {
                assert(b.blocked.contains(s) <==> (a.blocked.contains(s) || s == x)) by {
                    if b.blocked.contains(s) {
                        let w = choose|w: int| 0 <= w < b.blocked.len() && b.blocked[w] == s;
                        if w < a.blocked.len() {
                            assert(a.blocked[w] == s);
                        }
                    }
                    if a.blocked.contains(s) {
                        let w = choose|w: int| 0 <= w < a.blocked.len() && a.blocked[w] == s;
                        assert(b.blocked[w] == s);
                    }
                    if s == x {
                        assert(b.blocked[a.blocked.len() as int] == s);
                    }
                }
            }
            if b.blocked.contains(s) {
                if a.blocked.contains(s) {
                    let j = choose|j: int| 0 <= j < i - 1 && a.fates[j] == Fate::Kept && q[j].socket == s;
                    assert(b.fates[j] == a.fates[j]);
                } else {
                    assert(b.fates[i - 1] == Fate::Kept && q[i - 1].socket == s);
                }
            }
            if exists|j: int| 0 <= j < i && b.fates[j] == Fate::Kept && q[j].socket == s {
                let j = choose|j: int| 0 <= j < i && b.fates[j] == Fate::Kept && q[j].socket == s;
                if j < i - 1 {
                    assert(a.fates[j] == b.fates[j]);
                    assert(a.blocked.contains(s));
                }
            }
        }
    }
}

proof fn lemma_fold_stable(st: AarpStack, q: Seq<PendingView>, expire: bool, i: int, k: int)
    requires
        0 <= k < i <= q.len(),
    ensures
        step_fold(st, q, expire, i).fates[k] == step_fold(st, q, expire, k + 1).fates[k],
    decreases i,
{
    lemma_fold_shape(st, q, expire, i - 1);
    lemma_fold_shape(st, q, expire, k + 1);
    if i > k + 1 {
        lemma_fold_stable(st, q, expire, i - 1, k);
    }
}

/// A datagram never overtakes an earlier one of its socket: while the
/// earlier one stays queued, the later one is not sent.
pub proof fn lemma_step_keeps_socket_order(
    st: AarpStack,
    q: Seq<PendingView>,
    expire: bool,
    j: int,
    k: int,
)
    requires
        0 <= j < k < q.len(),
        q[j].socket == q[k].socket,
        step_fold(st, q, expire, q.len() as int).fates[j] == Fate::Kept,
    ensures
        step_fold(st, q, expire, q.len() as int).fates[k] != Fate::Sent,
{
    let n = q.len() as int;
    lemma_fold_stable(st, q, expire, n, j);
    lemma_fold_stable(st, q, expire, n, k);
    lemma_fold_stable(st, q, expire, k, j);
    lemma_fold_shape(st, q, expire, k);
    assert(step_fold(st, q, expire, k).blocked.contains(q[k].socket));
}

/// On a tick, a datagram whose waiting time is spent leaves the queue: it is
/// sent if its destination became known, else dropped as transient.
pub proof fn lemma_step_gives_up(st: AarpStack, q: Seq<PendingView>, k: int)
    requires
        0 <= k < q.len(),
        q[k].ticks_left == 0,
    ensures
        step_fold(st, q, true, q.len() as int).fates[k] != Fate::Kept,
{
    lemma_fold_stable(st, q, true, q.len() as int, k);
    lemma_fold_shape(st, q, true, k);
}

/// Each datagram adds at most one frame in a step. One that has already asked
/// for its destination adds only its own frame, when it is sent; one that
/// asks now stays marked as having asked.
pub proof fn lemma_step_one_request_once(st: AarpStack, acc: StepAcc, p: PendingView, expire: bool)
    ensures
        step_one(st, acc, p, expire).out.len() <= acc.out.len() + 1,
        step_one(st, acc, p, expire).fates == acc.fates.push(step_one(st, acc, p, expire).fates.last()),
        p.requested && step_one(st, acc, p, expire).out.len() > acc.out.len() ==> step_one(
            st,
            acc,
            p,
            expire,
        ).fates.last() == Fate::Sent,
        step_one(st, acc, p, expire).fates.last() == Fate::Kept && step_one(st, acc, p, expire).out.len()
            > acc.out.len() ==> step_one(st, acc, p, expire).kept.last().requested,
{
}

} // verus!
