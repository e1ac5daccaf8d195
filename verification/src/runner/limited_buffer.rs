use vstd::prelude::*;

verus! {

/// Why a write into a [`LimitedBuffer`] was refused.
#[derive(Debug, Clone, Copy, PartialEq, Eq, Structural)]
pub enum WriteError {
    /// The write would have taken the buffer past its limit.
    FileTooLarge,
}

impl WriteError {
    /// The text that accompanies the error.
    pub fn message(&self) -> (s: &'static str)
        ensures
            s@ == "buffer limit exceeded"@,
    {
        "buffer limit exceeded"
    }
}

/// What a buffer with `contents` and `limit` holds after it is asked to take
/// `bytes`: the extended contents, or `None` where the write is refused.
pub open spec fn write_outcome(contents: Seq<u8>, limit: nat, bytes: Seq<u8>) -> Option<Seq<u8>> {
    if contents.len() + bytes.len() <= limit {
        Some(contents + bytes)
    } else {
        None
    }
}

/// The contents after a whole series of writes, refused writes leaving the
/// contents as they were.
pub open spec fn contents_after(contents: Seq<u8>, limit: nat, writes: Seq<Seq<u8>>) -> Seq<u8>
    decreases writes.len(),
{
    if writes.len() == 0 {
        contents
    } else {
        let before = contents_after(contents, limit, writes.drop_last());
        match write_outcome(before, limit, writes.last()) {
            Some(after) => after,
            None => before,
        }
    }
}

/// The number of bytes of `writes` that a buffer starting from `contents`
/// accepts.
pub open spec fn accepted_bytes(contents: Seq<u8>, limit: nat, writes: Seq<Seq<u8>>) -> nat
    decreases writes.len(),
{
    if writes.len() == 0 {
        0
    } else {
        let before = contents_after(contents, limit, writes.drop_last());
        let so_far = accepted_bytes(contents, limit, writes.drop_last());
        match write_outcome(before, limit, writes.last()) {
            Some(_) => so_far + writes.last().len(),
            None => so_far,
        }
    }
}

/// Whatever is written, in whatever order, a buffer that starts within its
/// limit stays within it, and the bytes it accepted are exactly those by
/// which it grew.
pub proof fn lemma_writes_stay_within_limit(contents: Seq<u8>, limit: nat, writes: Seq<Seq<u8>>)
    requires
        contents.len() <= limit,
    ensures
        contents_after(contents, limit, writes).len() <= limit,
        contents_after(contents, limit, writes).len() == contents.len() + accepted_bytes(
            contents,
            limit,
            writes,
        ),
        contents.len() + accepted_bytes(contents, limit, writes) <= limit,
    decreases writes.len(),
{
    if writes.len() > 0 {
        lemma_writes_stay_within_limit(contents, limit, writes.drop_last());
    }
}

/// A bounded, append-only byte sink.
pub struct LimitedBuffer {
    buffer: Vec<u8>,
    limit: usize,
}

impl View for LimitedBuffer {
    type V = Seq<u8>;

    /// The bytes accepted so far.
    closed spec fn view(&self) -> Seq<u8> {
        self.buffer@
    }
}

impl LimitedBuffer {
    /// The buffer never holds more than its limit.
    pub closed spec fn wf(&self) -> bool {
        self.buffer@.len() <= self.limit
    }

    /// A well-formed buffer is within its capacity.
    pub proof fn lemma_within_capacity(&self)
        requires
            self.wf(),
        ensures
            self@.len() <= self.capacity(),
    {
    }

    /// The capacity the buffer was made with.
    pub closed spec fn capacity(&self) -> nat {
        self.limit as nat
    }

    /// An empty buffer that accepts at most `limit` bytes in total.
    pub fn new(limit: usize) -> (b: Self)
        ensures
            b.wf(),
            b@ == Seq::<u8>::empty(),
            b.capacity() == limit,
    {
        Self { buffer: Vec::new(), limit }
    }

    /// The capacity the buffer was made with.
    pub fn limit(&self) -> (n: usize)
        ensures
            n == self.capacity(),
    {
        self.limit
    }

    /// The number of bytes accepted so far; never more than the limit.
    pub fn len(&self) -> (n: usize)
        requires
            self.wf(),
        ensures
            n == self@.len(),
            n <= self.capacity(),
    {
        self.buffer.len()
    }

    /// Appends `buf` as a whole if it still fits, and reports its length;
    /// otherwise refuses it and leaves the buffer as it was.
    pub fn write(&mut self, buf: &[u8]) -> (r: Result<usize, WriteError>)
        requires
            old(self).wf(),
        ensures
            final(self).wf(),
            final(self).capacity() == old(self).capacity(),
            final(self)@.len() <= final(self).capacity(),
            match write_outcome(old(self)@, old(self).capacity(), buf@) {
                Some(after) => final(self)@ == after && r == Ok::<usize, WriteError>(buf.len()),
                None => final(self)@ == old(self)@ && r == Err::<usize, WriteError>(
                    WriteError::FileTooLarge,
                ),
            },
    {
        let len = buf.len();
        if len > self.limit - self.buffer.len() {
            return Err(WriteError::FileTooLarge);
        }
        self.buffer.extend_from_slice(buf);
        Ok(len)
    }

    /// Does nothing: the buffer holds every accepted byte already.
    pub fn flush(&mut self) -> (r: Result<(), WriteError>)
        ensures
            *final(self) == *old(self),
            r is Ok,
    {
        Ok(())
    }

    /// The bytes accepted so far.
    pub fn as_ref(&self) -> (bytes: &[u8])
        ensures
            bytes@ == self@,
    {
        self.buffer.as_slice()
    }

    /// Gives up the buffer for the bytes it accepted.
    pub fn into_bytes(self) -> (bytes: Vec<u8>)
        ensures
            bytes@ == self@,
    {
        self.buffer
    }
}

} // verus!
