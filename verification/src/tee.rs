//! The per-client tee: reads the shared download buffer and forwards bytes to
//! one client, without ever blocking the producer.

use vstd::prelude::*;

use crate::download::Download;

verus! {

/// What a tee does after it has forwarded everything currently buffered:
/// close because the archive is complete, close because the producer stopped
/// short, or wait for the next progress tick.
#[derive(Clone, Copy, Debug, PartialEq, Eq, Structural)]
pub enum TeeNext {
    Complete,
    Partial,
    Wait,
}

/// One client's reader over a download. It only ever reads `[0, len)` of the
/// buffer and tracks, in ghost state, the bytes already sent to its client.
pub struct Tee {
    pub ptr: usize,
    pub delivered: Ghost<Seq<u8>>,
}

/// The step a tee takes once `ptr` has caught up with the buffer: done when
/// the declared length is reached, a partial close when the producer fired
/// `done` short of it, otherwise a wait for the next tick.
pub open spec fn tee_next(t: Tee, d: Download) -> TeeNext {
    if t.ptr == d.content_length {
        TeeNext::Complete
    } else if d.done {
        TeeNext::Partial
    } else {
        TeeNext::Wait
    }
}

impl Tee {
    /// The tee reads only indices below the buffer length, and what it has
    /// delivered is exactly the buffer prefix up to its pointer.
    pub open spec fn wf(self, d: Download) -> bool {
        self.ptr <= d.buffer@.len() && self.delivered@ == d.buffer@.take(self.ptr as int)
    }

    /// Attaches a fresh tee to a download; it will deliver the buffer from
    /// the beginning, however much is already there.
    pub fn attach(d: &Download) -> (t: Tee)
        ensures
            t.wf(*d),
            t.ptr == 0,
            t.delivered@ == Seq::<u8>::empty(),
    {
        let t = Tee { ptr: 0, delivered: Ghost(Seq::empty()) };
        proof {
            assert(d.buffer@.take(0) =~= Seq::<u8>::empty());
        }
        t
    }

    /// Copies out everything buffered past the read pointer and advances the
    /// pointer to the buffer length. The copy is detached: the producer is
    /// never blocked by what the client does with it.
    pub fn take_new(&mut self, d: &Download) -> (chunk: Vec<u8>)
        requires
            old(self).wf(*d),
        ensures
            final(self).wf(*d),
            chunk@ == d.buffer@.skip(old(self).ptr as int),
            final(self).ptr == d.buffer@.len(),
            final(self).delivered@ == old(self).delivered@ + chunk@,
            final(self).delivered@ == d.buffer@,
    {
        let len = d.buffer.len();
        let slice = vstd::slice::slice_subrange(d.buffer.as_slice(), self.ptr, len);
        let chunk = vstd::slice::slice_to_vec(slice);
        proof {
            assert(d.buffer@.take(self.ptr as int) + d.buffer@.skip(self.ptr as int)
                =~= d.buffer@);
            assert(d.buffer@.take(len as int) =~= d.buffer@);
        }
        self.ptr = len;
        self.delivered = Ghost(d.buffer@);
        chunk
    }

    /// Decides the tee's next step; never called while the tee still has
    /// bytes to forward.
    pub fn next_action(&self, d: &Download) -> (a: TeeNext)
        ensures
            a == tee_next(*self, *d),
    {
        if self.ptr == d.content_length {
            TeeNext::Complete
        } else if d.done {
            TeeNext::Partial
        } else {
            TeeNext::Wait
        }
    }
}

/// The byte sequence delivered to a tee's client is a contiguous prefix of
/// the download buffer at the moment it is observed, in source order.
pub proof fn lemma_tee_delivers_prefix(t: Tee, d: Download)
    requires
        t.wf(d),
    ensures
        t.delivered@ == d.buffer@.take(t.ptr as int),
        t.delivered@.len() <= d.buffer@.len(),
        t.delivered@.is_prefix_of(d.buffer@),
{
}

/// A producer append does not disturb an attached tee: everything the tee has
/// delivered is still the same prefix of the grown buffer.
pub proof fn lemma_tee_survives_append(t: Tee, d: Download, d2: Download, chunk: Seq<u8>)
    requires
        t.wf(d),
        d2.buffer@ == d.buffer@ + chunk,
    ensures
        t.ptr <= d2.buffer@.len(),
        t.delivered@ == d2.buffer@.take(t.ptr as int),
{
    assert(d2.buffer@.take(t.ptr as int) =~= d.buffer@.take(t.ptr as int));
}

/// Two tees attached to the same download see the same byte sequence: the
/// slower one's deliveries are a prefix of the faster one's, and at equal
/// pointers the deliveries are identical.
pub proof fn lemma_two_tees_agree(t1: Tee, t2: Tee, d: Download)
    requires
        t1.wf(d),
        t2.wf(d),
    ensures
        t1.ptr <= t2.ptr ==> t1.delivered@.is_prefix_of(t2.delivered@),
        t1.ptr == t2.ptr ==> t1.delivered@ == t2.delivered@,
{
    if t1.ptr <= t2.ptr {
        assert(t1.delivered@ =~= t2.delivered@.take(t1.ptr as int));
    }
}

/// A tee that has caught up with a download whose producer already fired
/// `done` has received the full buffer and then closes: it never waits for a
/// tick that will not come.
pub proof fn lemma_late_tee_closes(t: Tee, d: Download)
    requires
        t.wf(d),
        d.done,
        t.ptr == d.buffer@.len(),
    ensures
        t.delivered@ == d.buffer@,
        tee_next(t, d) != TeeNext::Wait,
{
    assert(d.buffer@.take(t.ptr as int) =~= d.buffer@);
}

} // verus!
