//! The in-flight download: upstream header validation and the shared
//! append-only byte buffer a producer fills while tees read from it.

use vstd::prelude::*;

use crate::error::Error;

verus! {

/// How an upstream response header arrived: absent, present but not valid
/// text, or decoded text.
pub enum HeaderValue {
    Missing,
    NotText,
    Text(String),
}

/// What is wrong with an upstream response, if anything: a non-success
/// status, a missing `Content-Length` or `Content-Type`, or a `Content-Type`
/// that is not text.
pub open spec fn header_error(
    status: u16,
    content_length: Option<u64>,
    content_type: HeaderValue,
) -> Option<Error> {
    if status != 200 {
        Some(Error::FetchFail)
    } else if content_length is None {
        Some(Error::MissingField)
    } else if content_type is Missing {
        Some(Error::MissingField)
    } else if content_type is NotText {
        Some(Error::HeaderDecode)
    } else {
        None
    }
}

/// Decides from the upstream response line and headers whether a download may
/// begin. Success requires status 200, a `Content-Length` and a text
/// `Content-Type`; each failure maps to the error the caller reports.
pub fn validate_headers(status: u16, content_length: Option<u64>, content_type: HeaderValue) -> (r:
    Result<(u64, String), Error>)
    ensures
        r is Err <==> header_error(status, content_length, content_type) is Some,
        r matches Err(e) ==> e == header_error(status, content_length, content_type)->0,
        r matches Ok(p) ==> p.0 == content_length->0 && p.1@ == content_type->Text_0@,
{
    if status != 200 {
        return Err(Error::FetchFail);
    }
    let len = match content_length {
        Some(l) => l,
        None => {
            return Err(Error::MissingField);
        },
    };
    match content_type {
        HeaderValue::Missing => Err(Error::MissingField),
        HeaderValue::NotText => Err(Error::HeaderDecode),
        HeaderValue::Text(t) => Ok((len, t)),
    }
}

/// One in-flight download: the declared content type and length, the shared
/// buffer the producer appends to, and the `done` signal fired when the
/// producer has finished appending.
pub struct Download {
    pub content_type: String,
    pub content_length: usize,
    pub buffer: Vec<u8>,
    pub done: bool,
    pub chunks: Ghost<Seq<Seq<u8>>>,
}

impl Download {
    /// The buffer never grows beyond the declared content length, and it is
    /// exactly the concatenation of the upstream chunks appended so far.
    pub open spec fn wf(self) -> bool {
        self.buffer@.len() <= self.content_length && self.buffer@ == self.chunks@.flatten()
    }

    /// A fresh download with an empty buffer and `done` not yet fired.
    pub fn new(content_type: String, content_length: usize) -> (d: Download)
        ensures
            d.wf(),
            d.content_type@ == content_type@,
            d.content_length == content_length,
            d.buffer@ == Seq::<u8>::empty(),
            d.chunks@ == Seq::<Seq<u8>>::empty(),
            !d.done,
    {
        let d = Download {
            content_type,
            content_length,
            buffer: Vec::new(),
            done: false,
            chunks: Ghost(Seq::empty()),
        };
        proof {
            assert(Seq::<Seq<u8>>::empty().flatten() =~= Seq::<u8>::empty());
        }
        d
    }

    /// Appends one upstream chunk. Only the producer calls this, only before
    /// `done` has fired, and never beyond the declared length; the buffer is
    /// append-only, so everything already written stays in place.
    pub fn append_chunk(&mut self, chunk: &[u8])
        requires
            old(self).wf(),
            !old(self).done,
            old(self).buffer@.len() + chunk@.len() <= old(self).content_length,
        ensures
            final(self).wf(),
            final(self).buffer@ == old(self).buffer@ + chunk@,
            final(self).chunks@ == old(self).chunks@.push(chunk@),
            final(self).content_type == old(self).content_type,
            final(self).content_length == old(self).content_length,
            !final(self).done,
    {
        let n = chunk.len();
        for i in 0..n
            invariant
                n == chunk@.len(),
                self.buffer@ == old(self).buffer@ + chunk@.take(i as int),
                self.content_type == old(self).content_type,
                self.content_length == old(self).content_length,
                self.done == old(self).done,
                self.chunks == old(self).chunks,
                self.buffer@.len() + (n - i) <= self.content_length,
        {
            let b = chunk[i];
            self.buffer.push(b);
            proof {
                assert(chunk@.take(i + 1) == chunk@.take(i as int).push(chunk@[i as int]));
            }
        }
        proof {
            assert(chunk@.take(n as int) == chunk@);
        }
        proof {
            self.chunks@.lemma_flatten_push(chunk@);
        }
        self.chunks = Ghost(self.chunks@.push(chunk@));
    }

    /// Fires the `done` signal: the producer has finished appending, whatever
    /// the outcome; the buffer is frozen from here on.
    pub fn finish(&mut self)
        ensures
            final(self).done,
            final(self).buffer == old(self).buffer,
            final(self).chunks == old(self).chunks,
            final(self).content_type == old(self).content_type,
            final(self).content_length == old(self).content_length,
    {
        self.done = true;
    }

    /// Whether the buffer holds the full declared length.
    pub fn is_complete(&self) -> (r: bool)
        ensures
            r == (self.buffer@.len() == self.content_length),
    {
        self.buffer.len() == self.content_length
    }

    /// An immutable copy of the whole buffer, taken for the upload: the bytes
    /// handed to the object store equal the buffer exactly.
    pub fn snapshot(&self) -> (r: Vec<u8>)
        ensures
            r@ == self.buffer@,
    {
        vstd::slice::slice_to_vec(self.buffer.as_slice())
    }
}

/// After a successful download, what the upload stores is the full upstream
/// body byte for byte: the snapshot equals the buffer, which is exactly the
/// concatenation of the chunks the producer received, at the declared length.
pub proof fn lemma_upload_is_full_body(d: Download, snap: Seq<u8>)
    requires
        d.wf(),
        snap == d.buffer@,
        d.buffer@.len() == d.content_length,
    ensures
        snap == d.chunks@.flatten(),
        snap.len() == d.content_length,
{
}

} // verus!
