//! Log buffer.
//!
//! A bounded byte buffer decouples fire-and-forget log writers from the
//! background task that forwards buffered bytes to the remote log sink.
//! The writer side never blocks: a write takes as many leading bytes as the
//! remaining room holds and silently drops the rest.  The reader side hands
//! out the buffered bytes in order, up to a chunk-size limit per read; the
//! firmware's shipping task blocks until at least one byte is buffered,
//! which is the task runtime's affair, not this buffer's.

use crate::text::spec_dec_bytes;
use crate::text::u64_to_dec_bytes;
use vstd::math::min;
use vstd::prelude::*;
use vstd::slice::slice_subrange;
use vstd::slice::slice_to_vec;
use vstd::string::StringSliceAdditionalSpecFns;

verus! {

/// Mathematical state of a log buffer: the buffered bytes, oldest first,
/// and the capacity they may never exceed.
pub struct LogBufferView {
    /// Buffered bytes, oldest first.
    pub data: Seq<u8>,
    /// Greatest number of bytes the buffer will hold.
    pub capacity: nat,
}

/// Bytes buffered after writing `bytes` into a buffer holding `data` with
/// capacity `capacity`: the leading bytes that fit are appended, the rest
/// are dropped.
pub open spec fn spec_buf_write(data: Seq<u8>, capacity: nat, bytes: Seq<u8>) -> Seq<u8>
    recommends
        data.len() <= capacity,
{
    data + bytes.take(min(bytes.len() as int, capacity - data.len()))
}

/// Result of reading a chunk of at most `max` bytes from a buffer holding
/// `data`: the bytes left buffered, and the bytes handed out.
pub open spec fn spec_buf_read(data: Seq<u8>, max: nat) -> (Seq<u8>, Seq<u8>) {
    let k = min(max as int, data.len() as int);
    (data.skip(k), data.take(k))
}

/// A bounded byte buffer with a non-blocking, best-effort writer side and
/// an in-order reader side.
pub struct LogBuffer {
    data: Vec<u8>,
    capacity: usize,
}

impl View for LogBuffer {
    type V = LogBufferView;

    closed spec fn view(&self) -> LogBufferView {
        LogBufferView { data: self.data@, capacity: self.capacity as nat }
    }
}

impl LogBuffer {
    /// The buffer never holds more bytes than its capacity.
    pub open spec fn wf(&self) -> bool {
        self@.data.len() <= self@.capacity
    }

    /// An empty buffer that will hold at most `capacity` bytes.
    pub fn new(capacity: usize) -> (b: LogBuffer)
        ensures
            b.wf(),
            b@.data == Seq::<u8>::empty(),
            b@.capacity == capacity,
    {
        LogBuffer { data: Vec::new(), capacity }
    }

    /// Appends the leading bytes of `bytes` that fit in the remaining room
    /// and drops the rest, returning how many bytes were kept.  Never
    /// blocks and never reports failure to the writer.
    pub fn write(&mut self, bytes: &[u8]) -> (n: usize)
        requires
            old(self).wf(),
        ensures
            final(self).wf(),
            final(self)@.capacity == old(self)@.capacity,
            final(self)@.data == spec_buf_write(old(self)@.data, old(self)@.capacity, bytes@),
            n == min(bytes@.len() as int, old(self)@.capacity - old(self)@.data.len()),
    {
        let room = self.capacity - self.data.len();
        let n = if bytes.len() <= room {
            bytes.len()
        } else {
            room
        };
        let kept = slice_subrange(bytes, 0, n);
        push_bytes(&mut self.data, kept);
        n
    }

    /// Hands out the oldest buffered bytes, at most `max` of them, removing
    /// them from the buffer.  The result is empty exactly when the buffer
    /// was empty; a shipping task that must block until a byte arrives
    /// parks itself between calls.
    pub fn read_chunk(&mut self, max: usize) -> (out: Vec<u8>)
        requires
            old(self).wf(),
        ensures
            final(self).wf(),
            final(self)@.capacity == old(self)@.capacity,
            final(self)@.data == spec_buf_read(old(self)@.data, max as nat).0,
            out@ == spec_buf_read(old(self)@.data, max as nat).1,
    {
        let k = if max <= self.data.len() {
            max
        } else {
            self.data.len()
        };
        let out = slice_to_vec(slice_subrange(self.data.as_slice(), 0, k));
        let tail = self.data.split_off(k);
        self.data = tail;
        proof {
            assert(self@.data =~= spec_buf_read(old(self)@.data, max as nat).0);
        }
        out
    }

    /// Number of bytes currently buffered.
    pub fn len(&self) -> (n: usize)
        ensures
            n == self@.data.len(),
    {
        self.data.len()
    }
}

/// One formatted log line: `"[{level}] ({file}:{line}): {message}\r\n"` as
/// bytes, the form every log writer feeds into the buffer.
pub open spec fn spec_log_line(level: Seq<u8>, file: Seq<u8>, line: nat, message: Seq<u8>) -> Seq<
    u8,
> {
    ("[").spec_bytes() + level + ("] (").spec_bytes() + file + (":").spec_bytes() + spec_dec_bytes(
        line,
    ) + ("): ").spec_bytes() + message + ("\r\n").spec_bytes()
}

/// Renders one log line in the wire form `"[{level}] ({file}:{line}):
/// {message}\r\n"`, terminated by carriage-return/line-feed.
pub fn format_log_line(level: &str, file: &str, line: u32, message: &str) -> (v: Vec<u8>)
    ensures
        v@ == spec_log_line(level.spec_bytes(), file.spec_bytes(), line as nat, message.spec_bytes()),
{
    let mut v: Vec<u8> = Vec::new();
    push_bytes(&mut v, "[".as_bytes());
    push_bytes(&mut v, level.as_bytes());
    push_bytes(&mut v, "] (".as_bytes());
    push_bytes(&mut v, file.as_bytes());
    push_bytes(&mut v, ":".as_bytes());
    let mut num = u64_to_dec_bytes(line as u64);
    v.append(&mut num);
    push_bytes(&mut v, "): ".as_bytes());
    push_bytes(&mut v, message.as_bytes());
    push_bytes(&mut v, "\r\n".as_bytes());
    v
}

/// Appends every byte of `s` to `v`.
pub fn push_bytes(v: &mut Vec<u8>, s: &[u8])
    ensures
        final(v)@ == old(v)@ + s@,
{
    let n = s.len();
    let mut i: usize = 0;
    while i < n
        invariant
            n == s@.len(),
            i <= n,
            v@ =~= old(v)@ + s@.take(i as int),
        decreases n - i,
    {
        v.push(s[i]);
        proof {
            assert(s@.take(i as int + 1) =~= s@.take(i as int).push(s@[i as int]));
        }
        i = i + 1;
    }
    proof {
        assert(s@.take(n as int) =~= s@);
    }
}

/// A write that overflows an empty buffer loses bytes only beyond the
/// capacity: the first `capacity` bytes are all kept, and a read of the
/// whole buffer hands exactly those bytes back, in their original order.
pub proof fn lemma_overflow_keeps_capacity_prefix(capacity: nat, bytes: Seq<u8>)
    requires
        bytes.len() >= capacity,
    ensures
        ({
            let data = spec_buf_write(Seq::empty(), capacity, bytes);
            &&& data == bytes.take(capacity as int)
            &&& spec_buf_read(data, capacity).1 == bytes.take(capacity as int)
            &&& spec_buf_read(data, capacity).0 == Seq::<u8>::empty()
        }),
{
    let data = spec_buf_write(Seq::empty(), capacity, bytes);
    assert(data =~= bytes.take(capacity as int));
    assert(spec_buf_read(data, capacity).1 =~= bytes.take(capacity as int));
    assert(spec_buf_read(data, capacity).0 =~= Seq::<u8>::empty());
}

/// Chunked reads deliver the buffered bytes in their original order: the
/// chunk handed out, followed by what stays buffered, reassembles exactly
/// the bytes that were buffered.
pub proof fn lemma_read_preserves_order(data: Seq<u8>, max: nat)
    ensures
        spec_buf_read(data, max).1 + spec_buf_read(data, max).0 == data,
{
    assert(spec_buf_read(data, max).1 + spec_buf_read(data, max).0 =~= data);
}

} // verus!
