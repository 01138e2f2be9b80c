//! The inbound half of a display attachment: bytes read from the socket,
//! cut into whole frames, with a bound on what may be buffered.

use vstd::prelude::*;

use crate::client::ClientError;

verus! {

/// Bytes read and not yet consumed, as data.
pub struct ReceiveModel {
    pub bytes: Seq<u8>,
    pub offset: nat,
}

/// The bytes read but not consumed yet.
pub open spec fn live(m: ReceiveModel) -> Seq<u8> {
    m.bytes.subrange(m.offset as int, m.bytes.len() as int)
}

/// Where the frame at the front of `live` ends, given its header length and
/// the payload length its header announces: nothing yet while the frame is
/// incomplete, a capacity error when the sizes overflow.
pub open spec fn spec_frame_end(m: ReceiveModel, header_len: usize, payload_len: usize) -> Result<
    Option<usize>,
    ClientError,
> {
    if header_len + payload_len > usize::MAX {
        Err(ClientError::Capacity)
    } else if live(m).len() < header_len + payload_len {
        Ok(None)
    } else if m.offset + header_len + payload_len > usize::MAX {
        Err(ClientError::Capacity)
    } else {
        Ok(Some((m.offset + header_len + payload_len) as usize))
    }
}

/// Bytes read from the socket and not yet consumed as frames.
#[derive(Debug)]
pub struct ReceiveBuffer {
    buffered: Vec<u8>,
    read_offset: usize,
}

impl View for ReceiveBuffer {
    type V = ReceiveModel;

    closed spec fn view(&self) -> ReceiveModel {
        ReceiveModel { bytes: self.buffered@, offset: self.read_offset as nat }
    }
}

fn copy_range(v: &Vec<u8>, from: usize, to: usize) -> (r: Vec<u8>)
    requires
        from <= to <= v@.len(),
    ensures
        r@ == v@.subrange(from as int, to as int),
{
    let mut r: Vec<u8> = Vec::new();
    let mut i: usize = from;
    while i < to
        invariant
            from <= i <= to <= v@.len(),
            r@ == v@.subrange(from as int, i as int),
        decreases to - i,
    {
        r.push(v[i]);
        i += 1;
        assert(r@ =~= v@.subrange(from as int, i as int));
    }
    r
}

impl ReceiveBuffer {
    /// The buffer's invariant: the consumed prefix lies within the bytes.
    pub open spec fn wf(&self) -> bool {
        self@.offset <= self@.bytes.len()
    }

    /// Nothing buffered: no bytes held and nothing consumed.
    pub fn new() -> (r: Self)
        ensures
            r.wf(),
            r@.bytes == Seq::<u8>::empty(),
            r@.offset == 0,
            live(r@) == Seq::<u8>::empty(),
    {
        let r = ReceiveBuffer { buffered: Vec::new(), read_offset: 0 };
        assert(r@.bytes =~= Seq::<u8>::empty());
        assert(live(r@) =~= Seq::<u8>::empty());
        r
    }

    /// How many bytes are read but not consumed.
    pub fn live_len(&self) -> (r: usize)
        requires
            self.wf(),
        ensures
            r == live(self@).len(),
    {
        self.buffered.len() - self.read_offset
    }

    /// The first `header_len` live bytes, when that many are buffered.
    pub fn header(&self, header_len: usize) -> (r: Option<Vec<u8>>)
        requires
            self.wf(),
        ensures
            live(self@).len() < header_len ==> r is None,
            live(self@).len() >= header_len ==> (r matches Some(h) && h@ == live(self@).subrange(
                0,
                header_len as int,
            )),
    {
        if self.buffered.len() - self.read_offset < header_len {
            return None;
        }
        let h = copy_range(&self.buffered, self.read_offset, self.read_offset + header_len);
        assert(h@ =~= live(self@).subrange(0, header_len as int));
        Some(h)
    }

    /// Where the front frame ends (see [`spec_frame_end`]).
    pub fn frame_end(&self, header_len: usize, payload_len: usize) -> (r: Result<
        Option<usize>,
        ClientError,
    >)
        requires
            self.wf(),
        ensures
            r == spec_frame_end(self@, header_len, payload_len),
            r matches Ok(Some(end)) ==> self@.offset <= end <= self@.bytes.len(),
    {
        let total = match header_len.checked_add(payload_len) {
            Some(t) => t,
            None => {
                return Err(ClientError::Capacity);
            },
        };
        if self.buffered.len() - self.read_offset < total {
            return Ok(None);
        }
        match self.read_offset.checked_add(total) {
            Some(end) => Ok(Some(end)),
            None => Err(ClientError::Capacity),
        }
    }

    /// Consume the front frame, which ends at `end`, and hand out its
    /// bytes; `None` (and nothing consumed) when `end` is not within the
    /// live bytes.
    pub fn take_frame(&mut self, end: usize) -> (r: Option<Vec<u8>>)
        requires
            old(self).wf(),
        ensures
            final(self).wf(),
            final(self)@.bytes == old(self)@.bytes,
            old(self)@.offset <= end <= old(self)@.bytes.len() ==> {
                &&& r matches Some(f) && f@ == old(self)@.bytes.subrange(
                    old(self)@.offset as int,
                    end as int,
                )
                &&& final(self)@.offset == end
                &&& live(old(self)@) == r->Some_0@ + live(final(self)@)
            },
            !(old(self)@.offset <= end <= old(self)@.bytes.len()) ==> r is None && final(self)@
                == old(self)@,
    {
        if end < self.read_offset || end > self.buffered.len() {
            return None;
        }
        let frame = copy_range(&self.buffered, self.read_offset, end);
        let ghost m = self@;
        self.read_offset = end;
        assert(live(m) =~= frame@ + live(self@));
        Some(frame)
    }

    /// Drop the consumed prefix; the live bytes stay as they were.
    pub fn compact(&mut self)
        requires
            old(self).wf(),
        ensures
            final(self).wf(),
            final(self)@.offset == 0,
            live(final(self)@) == live(old(self)@),
    {
        if self.read_offset == 0 {
            return;
        }
        let rest = copy_range(&self.buffered, self.read_offset, self.buffered.len());
        self.buffered = rest;
        self.read_offset = 0;
        assert(live(self@) =~= self.buffered@);
    }

    /// Append bytes just read, unless the live bytes would exceed
    /// `max_buffered` (a capacity error that changes nothing). A consumed
    /// prefix is dropped first.
    pub fn admit_read(&mut self, chunk: &[u8], max_buffered: usize) -> (r: Result<(), ClientError>)
        requires
            old(self).wf(),
        ensures
            final(self).wf(),
            r is Ok <==> live(old(self)@).len() + chunk@.len() <= max_buffered,
            r is Err ==> r == Err::<(), ClientError>(ClientError::Capacity) && final(self)@
                == old(self)@,
            r is Ok ==> final(self)@.offset == 0 && live(final(self)@) == live(old(self)@)
                + chunk@,
    {
        let live_bytes = self.buffered.len() - self.read_offset;
        let total = match live_bytes.checked_add(chunk.len()) {
            Some(t) => t,
            None => {
                return Err(ClientError::Capacity);
            },
        };
        if total > max_buffered {
            return Err(ClientError::Capacity);
        }
        self.compact();
        let ghost before = self.buffered@;
        let mut i: usize = 0;
        while i < chunk.len()
            invariant
                0 <= i <= chunk@.len(),
                self.read_offset == 0,
                self.buffered@ == before + chunk@.subrange(0, i as int),
            decreases chunk@.len() - i,
        {
            self.buffered.push(chunk[i]);
            i += 1;
            assert(self.buffered@ =~= before + chunk@.subrange(0, i as int));
        }
        assert(chunk@.subrange(0, chunk@.len() as int) =~= chunk@);
        assert(live(self@) =~= self.buffered@);
        Ok(())
    }
}

} // verus!
