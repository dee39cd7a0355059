//! Non-blocking, buffered decompression of a bzip2 stream.
//!
//! Compressed bytes are written in; the decompressed bytes wait in a buffer
//! of fixed size until they are read out. A writer that finds the buffer
//! full, or a reader that finds it empty, is parked; the other side wakes it
//! when it has made room or brought data. The bytes read out, in order, are
//! the bzip2 decompression of the bytes taken in.

use vstd::prelude::*;
use vstd::slice::slice_subrange;

use bzip2::{Decompress, Status};
use tokio_core::io::EasyBuf;

use crate::easybuf::{
    easybuf_as_slice, easybuf_bytes, easybuf_drain_to, easybuf_extend, easybuf_len,
    easybuf_with_capacity,
};

verus! {

#[verifier::external_type_specification]
#[verifier::external_body]
pub struct ExDecompress(Decompress);

#[verifier::external_type_specification]
#[verifier::external_body]
pub struct ExBzError(bzip2::Error);

/// 2^64: the counters of a stream count modulo this.
pub open spec fn counter_modulus() -> int {
    0x1_0000_0000_0000_0000
}

/// The compressed bytes that a decompression stream has taken in so far, in
/// order.
pub uninterp spec fn stream_input(stream: Decompress) -> Seq<u8>;

/// The decompressed bytes that a decompression stream has put out so far,
/// in order.
pub uninterp spec fn stream_output(stream: Decompress) -> Seq<u8>;

/// Whether a decompression stream has ever refused its input with an error.
pub uninterp spec fn stream_refused(stream: Decompress) -> bool;

/// The bzip2 decompression of `compressed`: the bytes that a stream that has
/// never refused its input puts out once it has taken in exactly these bytes
/// and has been given room enough.
pub uninterp spec fn bz2_decompressed(compressed: Seq<u8>) -> Seq<u8>;

/// What one run of the decompressor does.
pub struct Bz2Run {
    /// How many of the bytes offered it takes in, from the front.
    pub taken_in: nat,
    /// How many decompressed bytes it puts out.
    pub put_out: nat,
    /// Whether it reports the end of the compressed stream.
    pub ends: bool,
    /// Whether it refuses the data with an error.
    pub refuses: bool,
}

/// What one run of the decompressor does on a stream that has never refused
/// its input, has taken in `taken` and put out `emitted`, when it is offered
/// `input` and given room for `room` bytes of output.
pub uninterp spec fn bz2_run(taken: Seq<u8>, emitted: Seq<u8>, input: Seq<u8>, room: nat) -> Bz2Run;

/// Calls `Decompress::new(false)`: a fresh stream, which has taken in and
/// put out nothing, and refused nothing.
#[verifier::external_body]
fn new_stream() -> (stream: Decompress)
    ensures
        stream_input(stream) == Seq::<u8>::empty(),
        stream_output(stream) == Seq::<u8>::empty(),
        !stream_refused(stream),
{
    Decompress::new(false)
}

/// Calls `Decompress::total_in`: the number of compressed bytes taken in,
/// modulo 2^64.
#[verifier::external_body]
fn stream_total_in_of(stream: &Decompress) -> (n: u64)
    ensures
        n as int == stream_input(*stream).len() as int % counter_modulus(),
{
    stream.total_in()
}

/// Calls `Decompress::total_out`: the number of decompressed bytes put out,
/// modulo 2^64.
#[verifier::external_body]
fn stream_total_out_of(stream: &Decompress) -> (n: u64)
    ensures
        n as int == stream_output(*stream).len() as int % counter_modulus(),
{
    stream.total_out()
}

/// Calls `Decompress::decompress` with `out` as the room for its output,
/// and reports whether the stream has ended (`Ok(true)`).
///
/// Whatever the stream's past, the run takes in bytes from the front of
/// `input`, at most all of them, puts its output at the front of `out`, at
/// most as much as `out` holds, and an error makes the stream one that has
/// refused its input. For a stream that has never refused its input, what
/// the run takes in and puts out, and whether it ends or refuses, is named by
/// `bz2_run` over the bytes the stream has taken in and put out; what such a
/// stream has put out begins the decompression of what it has taken in, and
/// is all of it when the run reports the end. What a stream does after it
/// has refused its input is left unsaid, as is a run that fails for want of
/// memory, which is not told apart from one that goes on.
#[verifier::external_body]
fn decompress_run(stream: &mut Decompress, input: &[u8], out: &mut Vec<u8>) -> (r: Result<
    bool,
    bzip2::Error,
>)
    ensures
        final(out)@.len() == old(out)@.len(),
        stream_input(*old(stream)).len() <= stream_input(*final(stream)).len()
            <= stream_input(*old(stream)).len() + input@.len(),
        stream_input(*final(stream)) == stream_input(*old(stream)) + input@.take(
            stream_input(*final(stream)).len() - stream_input(*old(stream)).len(),
        ),
        stream_output(*old(stream)).len() <= stream_output(*final(stream)).len()
            <= stream_output(*old(stream)).len() + old(out)@.len(),
        stream_output(*final(stream)) == stream_output(*old(stream)) + final(out)@.take(
            stream_output(*final(stream)).len() - stream_output(*old(stream)).len(),
        ),
        stream_refused(*final(stream)) == (stream_refused(*old(stream)) || r is Err),
        !stream_refused(*old(stream)) ==> bz2_run(
            stream_input(*old(stream)),
            stream_output(*old(stream)),
            input@,
            old(out)@.len(),
        ).taken_in == stream_input(*final(stream)).len() - stream_input(*old(stream)).len(),
        !stream_refused(*old(stream)) ==> bz2_run(
            stream_input(*old(stream)),
            stream_output(*old(stream)),
            input@,
            old(out)@.len(),
        ).put_out == stream_output(*final(stream)).len() - stream_output(*old(stream)).len(),
        !stream_refused(*old(stream)) ==> (r is Err <==> bz2_run(
            stream_input(*old(stream)),
            stream_output(*old(stream)),
            input@,
            old(out)@.len(),
        ).refuses),
        !stream_refused(*old(stream)) ==> (r matches Ok(ended) ==> ended == bz2_run(
            stream_input(*old(stream)),
            stream_output(*old(stream)),
            input@,
            old(out)@.len(),
        ).ends),
        !stream_refused(*final(stream)) ==> stream_output(*final(stream)).is_prefix_of(
            bz2_decompressed(stream_input(*final(stream))),
        ),
        !stream_refused(*final(stream)) ==> (r == Ok::<bool, bzip2::Error>(true) ==> stream_output(
            *final(stream),
        ) == bz2_decompressed(stream_input(*final(stream)))),
{
    match stream.decompress(input, out.as_mut_slice()) {
        Ok(Status::Ok) => Ok(false),
        Ok(Status::FlushOk) => Ok(false),
        Ok(Status::RunOk) => Ok(false),
        Ok(Status::FinishOk) => Ok(false),
        Ok(Status::StreamEnd) => Ok(true),
        Ok(Status::MemNeeded) => Ok(false),
        Err(e) => Err(e),
    }
}

/// A counter kept modulo 2^64 that has advanced by `k`, less than 2^64,
/// tells `k` back by a wrapping subtraction.
proof fn lemma_counter_advance(len: int, k: int, before: u64, after: u64)
    requires
        0 <= len,
        0 <= k < counter_modulus(),
        before as int == len % counter_modulus(),
        after as int == (len + k) % counter_modulus(),
    ensures
        vstd::wrapping::u64_specs::wrapping_sub(after, before) == k,
{
    let m = counter_modulus();
    vstd::arithmetic::div_mod::lemma_fundamental_div_mod(len, m);
    vstd::arithmetic::div_mod::lemma_fundamental_div_mod(len + k, m);
    let q1 = len / m;
    let q2 = (len + k) / m;
    let b = before as int;
    let a = after as int;
    assert(q2 == q1 || q2 == q1 + 1) by (nonlinear_arith)
        requires
            len == m * q1 + b,
            len + k == m * q2 + a,
            0 <= b < m,
            0 <= a < m,
            0 <= k < m,
            m > 0,
    ;
    if q2 == q1 {
        assert(a - b == k) by (nonlinear_arith)
            requires
                len == m * q1 + b,
                len + k == m * q2 + a,
                q2 == q1,
        ;
    } else {
        assert(a - b == k - m) by (nonlinear_arith)
            requires
                len == m * q1 + b,
                len + k == m * q2 + a,
                q2 == q1 + 1,
        ;
    }
}

/// The task waiting on the decoder, if any: a reader waiting for data or a
/// writer waiting for room.
pub enum ParkedTask<T> {
    ReadTask(T),
    WriteTask(T),
    NoTask,
}

impl<T> ParkedTask<T> {
    /// Takes the parked task out, leaving no task parked.
    pub fn take(&mut self) -> (taken: Self)
        ensures
            taken == *old(self),
            *final(self) == ParkedTask::<T>::NoTask,
    {
        let mut taken = ParkedTask::NoTask;
        std::mem::swap(self, &mut taken);
        taken
    }
}

/// Why a read or a write did not go through.
pub enum DecodeError {
    /// The buffer of decompressed bytes is full: the writer must wait.
    BufferFull,
    /// The buffer is empty and the stream has not ended: the reader must wait.
    BufferEmpty,
    /// The compressed data was refused by the decompressor.
    InvalidInput(bzip2::Error),
}

impl DecodeError {
    /// Whether the operation should be retried once the other side has moved
    /// (the error kind `WouldBlock`); otherwise the input was invalid.
    pub fn is_would_block(&self) -> (b: bool)
        ensures
            b <==> !(self is InvalidInput),
    {
        match self {
            DecodeError::InvalidInput(_) => false,
            _ => true,
        }
    }
}

/// What a read or a write returns: its result, and the task that the caller
/// must wake because this call made progress for it.
pub struct IoOutcome<T> {
    pub result: Result<usize, DecodeError>,
    pub wake: Option<T>,
}

/// The decoder as its contracts see it.
pub struct DecoderModel<T> {
    /// Decompressed bytes not yet read, oldest first.
    pub buffered: Seq<u8>,
    /// The size of the buffer.
    pub capacity: nat,
    /// Whether the compressed stream has ended.
    pub done: bool,
    /// The task waiting on the decoder.
    pub parked: ParkedTask<T>,
    /// The compressed bytes taken in so far.
    pub taken_in: Seq<u8>,
    /// The decompressed bytes put out so far.
    pub put_out: Seq<u8>,
    /// The decompressed bytes read out so far.
    pub read_out: Seq<u8>,
    /// Whether the decompressor has ever refused the data.
    pub refused: bool,
}

impl<T> DecoderModel<T> {
    /// The decoder's invariant: the buffer holds no more than its size; the
    /// bytes read out followed by the bytes buffered are the bytes put out;
    /// while the decompressor has refused nothing, these begin the
    /// decompression of the bytes taken in, and are all of it once the
    /// stream has ended.
    pub open spec fn wf(self) -> bool {
        &&& self.buffered.len() <= self.capacity
        &&& self.read_out + self.buffered == self.put_out
        &&& !self.refused ==> self.put_out.is_prefix_of(bz2_decompressed(self.taken_in))
        &&& self.done && !self.refused ==> self.put_out == bz2_decompressed(self.taken_in)
    }
}

pub struct BzDecoder<T> {
    data: Decompress,
    capacity: usize,
    buf: EasyBuf,
    done: bool,
    task: ParkedTask<T>,
    read_out: Ghost<Seq<u8>>,
}

impl<T> View for BzDecoder<T> {
    type V = DecoderModel<T>;

    closed spec fn view(&self) -> DecoderModel<T> {
        DecoderModel {
            buffered: easybuf_bytes(self.buf),
            capacity: self.capacity as nat,
            done: self.done,
            parked: self.task,
            taken_in: stream_input(self.data),
            put_out: stream_output(self.data),
            read_out: self.read_out@,
            refused: stream_refused(self.data),
        }
    }
}

/// Taking a parked reader out to be woken: the reader is handed back and the
/// slot emptied; any other slot is left as it was.
pub open spec fn releases_reader<T>(
    before: ParkedTask<T>,
    after: ParkedTask<T>,
    wake: Option<T>,
) -> bool {
    match before {
        ParkedTask::ReadTask(t) => wake == Some(t) && after == ParkedTask::<T>::NoTask,
        _ => wake == Option::<T>::None && after == before,
    }
}

/// Taking a parked writer out to be woken.
pub open spec fn releases_writer<T>(
    before: ParkedTask<T>,
    after: ParkedTask<T>,
    wake: Option<T>,
) -> bool {
    match before {
        ParkedTask::WriteTask(t) => wake == Some(t) && after == ParkedTask::<T>::NoTask,
        _ => wake == Option::<T>::None && after == before,
    }
}

/// The reader that a slot holds, if it holds one.
pub open spec fn parked_reader<T>(slot: ParkedTask<T>) -> Option<T> {
    match slot {
        ParkedTask::ReadTask(t) => Some(t),
        _ => None,
    }
}

/// How a write ends after running the decompressor.
pub enum WriteEnd {
    /// Some input was taken in, or the stream ended.
    Accepted,
    /// The decompressor could take in nothing and has no more room to put
    /// out its output.
    Stalled,
    /// The decompressor refused the data.
    Refused,
}

/// What the runs of the decompressor during one write come to.
pub struct WriteRuns {
    pub end: WriteEnd,
    /// Compressed bytes taken in, from the front of the data.
    pub taken_in: nat,
    /// Whether the stream ended.
    pub ended: bool,
    /// Decompressed bytes put out, in order.
    pub put_out: Seq<u8>,
}

/// The runs of the decompressor during a write of `data`, on a stream that
/// has refused nothing, has taken in `taken` and put out `emitted`, with
/// room for `room` bytes: the decompressor is run again as long as it takes
/// in nothing, does not end or refuse, and puts out some bytes but not as
/// many as it had room for; the room shrinks by what it puts out. What a run
/// that refuses puts out is not counted.
pub open spec fn write_runs(taken: Seq<u8>, emitted: Seq<u8>, data: Seq<u8>, room: nat) -> WriteRuns
    decreases room,
{
    let run = bz2_run(taken, emitted, data, room);
    let produced = bz2_decompressed(taken + data.take(run.taken_in as int)).subrange(
        emitted.len() as int,
        (emitted.len() + run.put_out) as int,
    );
    if run.refuses {
        WriteRuns {
            end: WriteEnd::Refused,
            taken_in: run.taken_in,
            ended: false,
            put_out: Seq::empty(),
        }
    } else if run.taken_in > 0 || run.ends {
        WriteRuns {
            end: WriteEnd::Accepted,
            taken_in: run.taken_in,
            ended: run.ends,
            put_out: produced,
        }
    } else if 0 < run.put_out && run.put_out < room {
        let rest = write_runs(taken, emitted + produced, data, (room - run.put_out) as nat);
        WriteRuns { put_out: produced + rest.put_out, ..rest }
    } else {
        WriteRuns { end: WriteEnd::Stalled, taken_in: 0, ended: false, put_out: produced }
    }
}

/// How a write of `data` relates the decoder before and after it, and what
/// it returns.
pub open spec fn write_post<T>(
    pre: DecoderModel<T>,
    post: DecoderModel<T>,
    data: Seq<u8>,
    result: Result<usize, DecodeError>,
    wake: Option<T>,
) -> bool {
    &&& post.capacity == pre.capacity
    &&& post.read_out == pre.read_out
    &&& if pre.done || data.len() == 0 {
        // Nothing to do: the stream has ended or there is no input.
        &&& result == Ok::<usize, DecodeError>(0)
        &&& post == pre
        &&& wake is None
    } else if pre.buffered.len() == pre.capacity {
        // No room: the writer is parked, and a reader parked in its slot is
        // handed back rather than lost.
        &&& result == Err::<usize, DecodeError>(DecodeError::BufferFull)
        &&& post == (DecoderModel { parked: post.parked, ..pre })
        &&& post.parked is WriteTask
        &&& wake == parked_reader(pre.parked)
    } else if !pre.refused {
        // The data goes to a decompressor that has refused nothing: what it
        // does is named.
        let runs = write_runs(
            pre.taken_in,
            pre.put_out,
            data,
            (pre.capacity - pre.buffered.len()) as nat,
        );
        &&& post.taken_in == pre.taken_in + data.take(runs.taken_in as int)
        &&& post.refused == (runs.end is Refused)
        &&& if runs.end is Refused {
            &&& (pre.put_out + runs.put_out).is_prefix_of(post.put_out)
            &&& post.buffered == pre.buffered + post.put_out.skip(pre.put_out.len() as int)
        } else {
            &&& post.put_out == pre.put_out + runs.put_out
            &&& post.buffered == pre.buffered + runs.put_out
        }
        &&& match runs.end {
            WriteEnd::Accepted => {
                &&& result matches Ok(n) && n == runs.taken_in
                &&& runs.taken_in <= data.len()
                &&& post.done == runs.ended
                &&& releases_reader(pre.parked, post.parked, wake)
            },
            WriteEnd::Stalled => {
                &&& result == Err::<usize, DecodeError>(DecodeError::BufferFull)
                &&& !post.done
                &&& post.parked is WriteTask
                &&& wake == parked_reader(pre.parked)
            },
            WriteEnd::Refused => {
                &&& result matches Err(DecodeError::InvalidInput(_))
                &&& !post.done
                &&& post.parked == pre.parked
                &&& wake is None
            },
        }
    } else {
        // The data goes to a decompressor that has refused data before: what
        // it does then is not determined, only what holds of every outcome.
        let k = post.taken_in.len() - pre.taken_in.len();
        &&& post.refused
        &&& 0 <= k <= data.len()
        &&& post.taken_in == pre.taken_in + data.take(k)
        &&& pre.put_out.is_prefix_of(post.put_out)
        &&& post.buffered == pre.buffered + post.put_out.skip(pre.put_out.len() as int)
        &&& match result {
            Ok(n) => {
                &&& n == k
                &&& n > 0 || post.done
                &&& releases_reader(pre.parked, post.parked, wake)
            },
            Err(DecodeError::BufferFull) => {
                &&& k == 0
                &&& !post.done
                &&& post.parked is WriteTask
                &&& wake == parked_reader(pre.parked)
            },
            Err(DecodeError::InvalidInput(_)) => {
                &&& !post.done
                &&& post.parked == pre.parked
                &&& wake is None
            },
            Err(DecodeError::BufferEmpty) => false,
        }
    }
}

/// How a read into a buffer of `out_pre.len()` bytes relates the decoder
/// and the buffer before and after it, and what it returns.
pub open spec fn read_post<T>(
    pre: DecoderModel<T>,
    post: DecoderModel<T>,
    out_pre: Seq<u8>,
    out_post: Seq<u8>,
    result: Result<usize, DecodeError>,
    wake: Option<T>,
) -> bool {
    &&& post.capacity == pre.capacity
    &&& post.done == pre.done
    &&& post.taken_in == pre.taken_in
    &&& post.put_out == pre.put_out
    &&& post.refused == pre.refused
    &&& if pre.buffered.len() == 0 {
        &&& post.buffered == pre.buffered
        &&& post.read_out == pre.read_out
        &&& out_post == out_pre
        &&& wake is None
        &&& if pre.done {
            // End of the decompressed stream.
            &&& result == Ok::<usize, DecodeError>(0)
            &&& post.parked == pre.parked
        } else {
            // Nothing yet: the reader is parked.
            &&& result == Err::<usize, DecodeError>(DecodeError::BufferEmpty)
            &&& post.parked is ReadTask
        }
    } else {
        let n = if pre.buffered.len() < out_pre.len() {
            pre.buffered.len()
        } else {
            out_pre.len()
        };
        &&& result matches Ok(k) && k == n
        &&& out_post == pre.buffered.take(n as int) + out_pre.skip(n as int)
        &&& post.buffered == pre.buffered.skip(n as int)
        &&& post.read_out == pre.read_out + pre.buffered.take(n as int)
        &&& if n == 0 {
            post.parked == pre.parked && wake is None
        } else {
            releases_writer(pre.parked, post.parked, wake)
        }
    }
}

/// What a write does after one run of the decompressor.
pub enum WriteStep {
    /// Return `Ok` with this many compressed bytes taken in; `ended` tells
    /// whether the stream has ended.
    Accepted { taken_in: usize, ended: bool },
    /// Run the decompressor again.
    Again,
    /// Park the writer: the decompressor took in nothing and cannot go on.
    Blocked,
    /// Return the decompressor's error.
    Refused(bzip2::Error),
}

/// Decides what a write does after one run of the decompressor, from what
/// the run returned (whether the stream ended, or the error), how many
/// compressed bytes it took in, how many bytes it put out, and how much room
/// it had.
pub fn step_after_decompress(
    run: Result<bool, bzip2::Error>,
    taken_in: usize,
    put_out: usize,
    room: usize,
) -> (step: WriteStep)
    ensures
        match run {
            Err(e) => step == WriteStep::Refused(e),
            Ok(ended) => if taken_in > 0 || ended {
                step == (WriteStep::Accepted { taken_in, ended })
            } else if 0 < put_out && put_out < room {
                step == WriteStep::Again
            } else {
                step == WriteStep::Blocked
            },
        },
{
    match run {
        Err(e) => WriteStep::Refused(e),
        Ok(ended) => if taken_in > 0 || ended {
            WriteStep::Accepted { taken_in, ended }
        } else if 0 < put_out && put_out < room {
            WriteStep::Again
        } else {
            WriteStep::Blocked
        },
    }
}

impl<T> BzDecoder<T> {
    /// A decoder whose buffer holds up to `buf_size` decompressed bytes.
    pub fn new(buf_size: usize) -> (decoder: Self)
        ensures
            decoder@.wf(),
            decoder@.buffered == Seq::<u8>::empty(),
            decoder@.capacity == buf_size,
            !decoder@.done,
            decoder@.parked == ParkedTask::<T>::NoTask,
            decoder@.taken_in == Seq::<u8>::empty(),
            decoder@.put_out == Seq::<u8>::empty(),
            decoder@.read_out == Seq::<u8>::empty(),
            !decoder@.refused,
    {
        let decoder = BzDecoder {
            data: new_stream(),
            buf: easybuf_with_capacity(buf_size),
            capacity: buf_size,
            done: false,
            task: ParkedTask::NoTask,
            read_out: Ghost(Seq::empty()),
        };
        assert(decoder@.read_out + decoder@.buffered =~= decoder@.put_out);
        decoder
    }

    /// The number of compressed bytes taken in so far, modulo 2^64.
    pub fn total_in(&self) -> (n: u64)
        ensures
            n as int == self@.taken_in.len() as int % counter_modulus(),
    {
        stream_total_in_of(&self.data)
    }

    /// Takes a parked reader out of its slot, to be woken.
    fn release_reader(&mut self) -> (wake: Option<T>)
        ensures
            releases_reader(old(self)@.parked, final(self)@.parked, wake),
            final(self)@ == (DecoderModel { parked: final(self)@.parked, ..old(self)@ }),
    {
        match self.task.take() {
            ParkedTask::ReadTask(t) => Some(t),
            other => {
                self.task = other;
                None
            },
        }
    }

    /// Takes a parked writer out of its slot, to be woken.
    fn release_writer(&mut self) -> (wake: Option<T>)
        ensures
            releases_writer(old(self)@.parked, final(self)@.parked, wake),
            final(self)@ == (DecoderModel { parked: final(self)@.parked, ..old(self)@ }),
    {
        match self.task.take() {
            ParkedTask::WriteTask(t) => Some(t),
            other => {
                self.task = other;
                None
            },
        }
    }

    /// Hands `data` to the decompressor and returns how many of its bytes
    /// were taken in.
    ///
    /// Returns `Ok(0)` once the stream has ended or when `data` is empty.
    /// When the buffer is full, the writer (the task that `park` returns) is
    /// parked and `BufferFull` is returned. Otherwise the decompressor is
    /// given the room left in the buffer and run until it takes in some input
    /// or the stream ends; what it puts out is buffered, and a parked reader
    /// is handed back to be woken. A refusal of the decompressor is returned
    /// as `InvalidInput`. When a run takes in nothing and puts out either
    /// nothing or as much as it had room for, the decompressor cannot go on:
    /// the writer is parked and `BufferFull` is returned, handing back a
    /// parked reader. Once the decompressor has refused data, what it does
    /// next is not determined, and the contract says only what holds of
    /// every outcome.
    #[verifier::rlimit(30)]
    pub fn write<F: FnOnce() -> T>(&mut self, data: &[u8], park: F) -> (outcome: IoOutcome<T>)
        requires
            old(self)@.wf(),
            park.requires(()),
        ensures
            final(self)@.wf(),
            write_post(old(self)@, final(self)@, data@, outcome.result, outcome.wake),
            outcome.result == Err::<usize, DecodeError>(DecodeError::BufferFull) ==> (
            final(self)@.parked matches ParkedTask::WriteTask(t) && park.ensures((), t)),
    {
        if self.done || data.len() == 0 {
            return IoOutcome { result: Ok(0), wake: None };
        }
        if self.capacity == easybuf_len(&self.buf) {
            let wake = self.release_reader();
            self.task = ParkedTask::WriteTask(park());
            return IoOutcome { result: Err(DecodeError::BufferFull), wake };
        }
        let ghost pre = self@;
        let ghost total = write_runs(
            pre.taken_in,
            pre.put_out,
            data@,
            (pre.capacity - pre.buffered.len()) as nat,
        );
        loop
            invariant
                park.requires(()),
                pre == old(self)@,
                pre.wf(),
                !pre.done,
                data@.len() > 0,
                pre.buffered.len() < pre.capacity,
                total == write_runs(
                    pre.taken_in,
                    pre.put_out,
                    data@,
                    (pre.capacity - pre.buffered.len()) as nat,
                ),
                self@.wf(),
                !self.done,
                self@.capacity == pre.capacity,
                self@.parked == pre.parked,
                self@.taken_in == pre.taken_in,
                self@.read_out == pre.read_out,
                self@.refused == pre.refused,
                self@.buffered.len() < self@.capacity,
                pre.put_out.is_prefix_of(self@.put_out),
                self@.buffered == pre.buffered + self@.put_out.skip(pre.put_out.len() as int),
                !pre.refused ==> ({
                    let cur = write_runs(
                        self@.taken_in,
                        self@.put_out,
                        data@,
                        (self@.capacity - self@.buffered.len()) as nat,
                    );
                    &&& total.end == cur.end
                    &&& total.taken_in == cur.taken_in
                    &&& total.ended == cur.ended
                    &&& total.put_out == self@.put_out.skip(pre.put_out.len() as int)
                        + cur.put_out
                }),
            decreases self.capacity - easybuf_bytes(self.buf).len(),
        {
            let ghost s0 = self@;
            let room = self.capacity - easybuf_len(&self.buf);
            let mut out: Vec<u8> = vec![0u8; room];
            let in_before = stream_total_in_of(&self.data);
            let out_before = stream_total_out_of(&self.data);
            let res = decompress_run(&mut self.data, data, &mut out);
            let ghost run = bz2_run(s0.taken_in, s0.put_out, data@, room as nat);
            let ghost k = self@.taken_in.len() - s0.taken_in.len();
            let ghost p = self@.put_out.len() - s0.put_out.len();
            let in_after = stream_total_in_of(&self.data);
            let data_len = data.len();
            assert(k <= data_len);
            let out_after = stream_total_out_of(&self.data);
            proof {
                lemma_counter_advance(s0.taken_in.len() as int, k, in_before, in_after);
                lemma_counter_advance(s0.put_out.len() as int, p, out_before, out_after);
            }
            let taken_in = in_after.wrapping_sub(in_before) as usize;
            let put_out = out_after.wrapping_sub(out_before) as usize;
            let produced = slice_subrange(out.as_slice(), 0, put_out);
            easybuf_extend(&mut self.buf, produced);
            proof {
                let c2 = s0.taken_in + data@.take(k);
                assert(self@.taken_in == c2);
                assert(self@.put_out == s0.put_out + produced@);
                assert(self@.read_out + self@.buffered =~= self@.put_out);
                assert(self@.put_out.skip(pre.put_out.len() as int) =~= s0.put_out.skip(
                    pre.put_out.len() as int,
                ) + produced@);
                assert(s0.put_out =~= pre.put_out + s0.put_out.skip(pre.put_out.len() as int));
                assert(self@.buffered =~= pre.buffered + self@.put_out.skip(
                    pre.put_out.len() as int,
                ));
                if k == 0 {
                    assert(data@.take(0) =~= Seq::<u8>::empty());
                    assert(c2 =~= s0.taken_in);
                }
                if !pre.refused && run.refuses {
                    let cur = write_runs(s0.taken_in, s0.put_out, data@, room as nat);
                    assert(cur.put_out =~= Seq::<u8>::empty());
                    assert(total.put_out =~= s0.put_out.skip(pre.put_out.len() as int));
                    assert(pre.put_out + total.put_out =~= s0.put_out);
                }
                if !pre.refused && !run.refuses {
                    assert(produced@ =~= bz2_decompressed(c2).subrange(
                        s0.put_out.len() as int,
                        (s0.put_out.len() + run.put_out) as int,
                    )) by {
                        assert forall|i: int| 0 <= i < produced@.len() implies produced@[i]
                            == bz2_decompressed(c2)[s0.put_out.len() + i] by {
                            assert(self@.put_out[s0.put_out.len() + i] == produced@[i]);
                        }
                    }
                    let cur = write_runs(s0.taken_in, s0.put_out, data@, room as nat);
                    if run.taken_in > 0 || run.ends || !(0 < run.put_out
                        && run.put_out < room) {
                        assert(cur.put_out == produced@);
                        assert(self@.put_out =~= pre.put_out + total.put_out);
                        assert(self@.buffered =~= pre.buffered + total.put_out);
                    }
                }
            }
            match step_after_decompress(res, taken_in, put_out, room) {
                WriteStep::Refused(e) => {
                    return IoOutcome { result: Err(DecodeError::InvalidInput(e)), wake: None };
                },
                WriteStep::Accepted { taken_in, ended } => {
                    if ended {
                        self.done = true;
                    }
                    let wake = self.release_reader();
                    return IoOutcome { result: Ok(taken_in), wake };
                },
                WriteStep::Blocked => {
                    let wake = self.release_reader();
                    self.task = ParkedTask::WriteTask(park());
                    return IoOutcome { result: Err(DecodeError::BufferFull), wake };
                },
                WriteStep::Again => {
                    assert(!pre.refused ==> self@.put_out.skip(pre.put_out.len() as int) + write_runs(
                        self@.taken_in,
                        self@.put_out,
                        data@,
                        (self@.capacity - self@.buffered.len()) as nat,
                    ).put_out =~= s0.put_out.skip(pre.put_out.len() as int) + write_runs(
                        s0.taken_in,
                        s0.put_out,
                        data@,
                        (s0.capacity - s0.buffered.len()) as nat,
                    ).put_out);
                },
            }
        }
    }

    /// Has nothing to flush: every byte written has gone to the decompressor.
    pub fn flush(&mut self) -> (r: Result<(), DecodeError>)
        ensures
            r == Ok::<(), DecodeError>(()),
            final(self)@ == old(self)@,
    {
        Ok(())
    }

    /// Moves the oldest decompressed bytes into `buf`, as many as fit, and
    /// returns how many.
    ///
    /// With nothing buffered, returns `Ok(0)` once the stream has ended;
    /// before that, parks the reader (the task that `park` returns) and
    /// returns `BufferEmpty`. When bytes were moved, a parked writer is handed
    /// back to be woken.
    pub fn read<F: FnOnce() -> T>(&mut self, buf: &mut [u8], park: F) -> (outcome: IoOutcome<T>)
        requires
            old(self)@.wf(),
            park.requires(()),
        ensures
            final(self)@.wf(),
            read_post(
                old(self)@,
                final(self)@,
                old(buf)@,
                final(buf)@,
                outcome.result,
                outcome.wake,
            ),
            outcome.result == Err::<usize, DecodeError>(DecodeError::BufferEmpty) ==> (
            final(self)@.parked matches ParkedTask::ReadTask(t) && park.ensures((), t)),
    {
        let held = easybuf_len(&self.buf);
        if held == 0 {
            if self.done {
                return IoOutcome { result: Ok(0), wake: None };
            }
            self.task = ParkedTask::ReadTask(park());
            return IoOutcome { result: Err(DecodeError::BufferEmpty), wake: None };
        }
        let len = if held < buf.len() {
            held
        } else {
            buf.len()
        };
        if len == 0 {
            assert(self@.buffered.take(0) + buf@.skip(0) =~= buf@);
            assert(self@.buffered.skip(0) =~= self@.buffered);
            return IoOutcome { result: Ok(0), wake: None };
        }
        let ghost out_pre = buf@;
        let ghost pre = self@;
        {
            let slice = easybuf_as_slice(&self.buf);
            let mut i: usize = 0;
            while i < len
                invariant
                    0 <= i <= len,
                    len <= slice@.len(),
                    len <= out_pre.len(),
                    buf@.len() == out_pre.len(),
                    forall|j: int| 0 <= j < i ==> buf@[j] == slice@[j],
                    forall|j: int| i <= j < buf@.len() ==> buf@[j] == out_pre[j],
                decreases len - i,
            {
                buf[i] = slice[i];
                i = i + 1;
            }
            assert(buf@ =~= slice@.take(len as int) + out_pre.skip(len as int));
        }
        let _front = easybuf_drain_to(&mut self.buf, len);
        self.read_out = Ghost(self.read_out@ + pre.buffered.take(len as int));
        assert(self@.read_out + self@.buffered =~= pre.read_out + pre.buffered);
        let wake = self.release_writer();
        IoOutcome { result: Ok(len), wake }
    }
}

/// Reading hands out the oldest buffered bytes and loses none: the bytes read,
/// followed by the bytes still buffered, are the bytes that were buffered.
pub proof fn law_read_conserves_bytes<T>(
    pre: DecoderModel<T>,
    post: DecoderModel<T>,
    out_pre: Seq<u8>,
    out_post: Seq<u8>,
    n: usize,
    wake: Option<T>,
)
    requires
        read_post(pre, post, out_pre, out_post, Ok(n), wake),
    ensures
        n <= pre.buffered.len(),
        n <= out_pre.len(),
        out_post.take(n as int) + post.buffered == pre.buffered,
{
    if pre.buffered.len() == 0 {
        assert(out_post.take(n as int) + post.buffered =~= pre.buffered);
    } else {
        assert(out_post.take(n as int) =~= pre.buffered.take(n as int));
        assert(out_post.take(n as int) + post.buffered =~= pre.buffered);
    }
}

/// Decompressed bytes come out in the order they went in: whatever a write
/// adds goes after the bytes already buffered, so a read that follows hands
/// out those older bytes first, and the bytes it hands out together with the
/// bytes still buffered begin with them.
pub proof fn law_write_then_read_in_order<T>(
    s0: DecoderModel<T>,
    s1: DecoderModel<T>,
    s2: DecoderModel<T>,
    data: Seq<u8>,
    written: Result<usize, DecodeError>,
    write_wake: Option<T>,
    out_pre: Seq<u8>,
    out_post: Seq<u8>,
    n: usize,
    read_wake: Option<T>,
)
    requires
        write_post(s0, s1, data, written, write_wake),
        read_post(s1, s2, out_pre, out_post, Ok(n), read_wake),
    ensures
        s0.buffered.is_prefix_of(out_post.take(n as int) + s2.buffered),
        n <= s0.buffered.len() ==> out_post.take(n as int) == s0.buffered.take(n as int),
{
    law_read_conserves_bytes(s1, s2, out_pre, out_post, n, read_wake);
    assert(s0.buffered.is_prefix_of(s1.buffered));
    if n <= s0.buffered.len() {
        assert(out_post.take(n as int) =~= s0.buffered.take(n as int)) by {
            assert forall|i: int| 0 <= i < n implies out_post.take(n as int)[i]
                == s0.buffered.take(n as int)[i] by {
                assert(out_post.take(n as int)[i] == (out_post.take(n as int) + s2.buffered)[i]);
            }
        }
    }
}

/// Once the compressed stream has ended, a write takes nothing in, returns
/// `Ok(0)` and changes nothing; no read or write clears the end again.
pub proof fn law_end_is_final<T>(
    pre: DecoderModel<T>,
    post: DecoderModel<T>,
    data: Seq<u8>,
    result: Result<usize, DecodeError>,
    wake: Option<T>,
)
    requires
        write_post(pre, post, data, result, wake),
        pre.done,
    ensures
        result == Ok::<usize, DecodeError>(0),
        post == pre,
        wake is None,
{
}

/// Neither a read nor a write ever turns an ended stream back into a
/// running one; a read never changes whether the stream has ended.
pub proof fn law_done_is_sticky<T>(
    pre: DecoderModel<T>,
    mid: DecoderModel<T>,
    post: DecoderModel<T>,
    data: Seq<u8>,
    written: Result<usize, DecodeError>,
    write_wake: Option<T>,
    out_pre: Seq<u8>,
    out_post: Seq<u8>,
    read: Result<usize, DecodeError>,
    read_wake: Option<T>,
)
    requires
        write_post(pre, mid, data, written, write_wake),
        read_post(mid, post, out_pre, out_post, read, read_wake),
    ensures
        pre.done ==> mid.done && post.done,
        post.done == mid.done,
{
}

/// After the stream has ended and every decompressed byte has been read, a
/// read reports the end of the data: `Ok(0)`, with nothing changed.
pub proof fn law_end_of_data<T>(
    pre: DecoderModel<T>,
    post: DecoderModel<T>,
    out_pre: Seq<u8>,
    out_post: Seq<u8>,
    result: Result<usize, DecodeError>,
    wake: Option<T>,
)
    requires
        read_post(pre, post, out_pre, out_post, result, wake),
        pre.done,
        pre.buffered.len() == 0,
    ensures
        result == Ok::<usize, DecodeError>(0),
        post == pre,
        out_post == out_pre,
        wake is None,
{
}

/// A write only ever wakes a parked reader, and a read only ever wakes a
/// parked writer; the task woken is the one that was parked, and its slot is
/// emptied.
pub proof fn law_each_side_wakes_the_other<T>(
    pre: DecoderModel<T>,
    post: DecoderModel<T>,
    data: Seq<u8>,
    out_pre: Seq<u8>,
    out_post: Seq<u8>,
    result: Result<usize, DecodeError>,
    wake: Option<T>,
    t: T,
)
    requires
        wake == Some(t),
        write_post(pre, post, data, result, wake) || read_post(
            pre,
            post,
            out_pre,
            out_post,
            result,
            wake,
        ),
    ensures
        write_post(pre, post, data, result, wake) ==> pre.parked == ParkedTask::ReadTask(t),
        read_post(pre, post, out_pre, out_post, result, wake) ==> pre.parked
            == ParkedTask::WriteTask(t) && post.parked == ParkedTask::<T>::NoTask,
{
}

/// A write that returns `Ok(n)` takes in exactly the first `n` bytes of
/// its data, after the compressed bytes taken in before.
pub proof fn law_write_takes_in_front_of_data<T>(
    pre: DecoderModel<T>,
    post: DecoderModel<T>,
    data: Seq<u8>,
    n: usize,
    wake: Option<T>,
)
    requires
        write_post(pre, post, data, Ok(n), wake),
    ensures
        n <= data.len(),
        post.taken_in == pre.taken_in + data.take(n as int),
{
    if pre.done || data.len() == 0 {
        assert(pre.taken_in + data.take(0) =~= pre.taken_in);
    }
}

/// While the decompressor has refused nothing, the bytes read out of a
/// decoder, in order, begin the bzip2 decompression of the compressed bytes
/// it has taken in; once the stream has ended and the buffer is drained,
/// they are all of it.
pub proof fn law_reads_are_the_decompression<T>(m: DecoderModel<T>)
    requires
        m.wf(),
        !m.refused,
    ensures
        m.read_out.is_prefix_of(bz2_decompressed(m.taken_in)),
        m.done && m.buffered.len() == 0 ==> m.read_out == bz2_decompressed(m.taken_in),
{
    assert(m.read_out.is_prefix_of(m.put_out)) by {
        assert forall|i: int| 0 <= i < m.read_out.len() implies m.read_out[i] == m.put_out[i] by {
            assert(m.put_out[i] == (m.read_out + m.buffered)[i]);
        }
    }
    if m.done && m.buffered.len() == 0 {
        assert(m.read_out + m.buffered =~= m.read_out);
    }
}

/// Reading and flushing never change what the decompressor has taken in or
/// put out: only writes do.
pub proof fn law_reads_take_in_nothing<T>(
    pre: DecoderModel<T>,
    post: DecoderModel<T>,
    out_pre: Seq<u8>,
    out_post: Seq<u8>,
    result: Result<usize, DecodeError>,
    wake: Option<T>,
)
    requires
        read_post(pre, post, out_pre, out_post, result, wake),
    ensures
        post.taken_in == pre.taken_in,
        post.put_out == pre.put_out,
{
}

/// The buffer of a decoder never holds more decompressed bytes than its
/// size, whatever the decompressor did.
pub proof fn law_buffer_never_overflows<T>(m: DecoderModel<T>)
    requires
        m.wf(),
    ensures
        m.buffered.len() <= m.capacity,
{
}

/// Once the decompressor has refused the data, it stays refused: neither a
/// write nor a read makes the decoder forget it.
pub proof fn law_refusal_is_final<T>(
    pre: DecoderModel<T>,
    mid: DecoderModel<T>,
    post: DecoderModel<T>,
    data: Seq<u8>,
    written: Result<usize, DecodeError>,
    write_wake: Option<T>,
    out_pre: Seq<u8>,
    out_post: Seq<u8>,
    read: Result<usize, DecodeError>,
    read_wake: Option<T>,
)
    requires
        write_post(pre, mid, data, written, write_wake),
        read_post(mid, post, out_pre, out_post, read, read_wake),
        pre.refused,
    ensures
        mid.refused,
        post.refused,
{
}

/// The runs of a write end in acceptance only when they took in some input
/// or the stream ended.
proof fn lemma_accepted_runs_progress(taken: Seq<u8>, emitted: Seq<u8>, data: Seq<u8>, room: nat)
    ensures
        write_runs(taken, emitted, data, room).end is Accepted ==> write_runs(
            taken,
            emitted,
            data,
            room,
        ).taken_in > 0 || write_runs(taken, emitted, data, room).ended,
    decreases room,
{
    let run = bz2_run(taken, emitted, data, room);
    let produced = bz2_decompressed(taken + data.take(run.taken_in as int)).subrange(
        emitted.len() as int,
        (emitted.len() + run.put_out) as int,
    );
    if !run.refuses && !(run.taken_in > 0 || run.ends) && 0 < run.put_out && run.put_out < room {
        lemma_accepted_runs_progress(taken, emitted + produced, data, (room - run.put_out) as nat);
    }
}

/// A write of non-empty data to a decoder whose stream has not ended never
/// answers `Ok` without progress: the bytes it reports taken in are more than
/// none, or the stream has ended. A zero-length answer would tell a writer
/// that no more bytes can be accepted.
pub proof fn law_write_ok_makes_progress<T>(
    pre: DecoderModel<T>,
    post: DecoderModel<T>,
    data: Seq<u8>,
    n: usize,
    wake: Option<T>,
)
    requires
        write_post(pre, post, data, Ok(n), wake),
        !pre.done,
        data.len() > 0,
    ensures
        n > 0 || post.done,
{
    if !pre.refused && pre.buffered.len() != pre.capacity {
        lemma_accepted_runs_progress(
            pre.taken_in,
            pre.put_out,
            data,
            (pre.capacity - pre.buffered.len()) as nat,
        );
    }
}

/// A write that answers `Ok` on a running stream hands back the reader that
/// was parked, so that it sees the new data or the end of the stream.
pub proof fn law_write_ok_wakes_reader<T>(
    pre: DecoderModel<T>,
    post: DecoderModel<T>,
    data: Seq<u8>,
    n: usize,
    wake: Option<T>,
    t: T,
)
    requires
        write_post(pre, post, data, Ok(n), wake),
        pre.parked == ParkedTask::ReadTask(t),
        !pre.done,
        data.len() > 0,
    ensures
        wake == Some(t),
        post.parked == ParkedTask::<T>::NoTask,
{
}

/// A write never loses a parked reader: whatever it answers, the reader is
/// either handed back to be woken or still parked.
pub proof fn law_write_never_loses_reader<T>(
    pre: DecoderModel<T>,
    post: DecoderModel<T>,
    data: Seq<u8>,
    result: Result<usize, DecodeError>,
    wake: Option<T>,
    t: T,
)
    requires
        write_post(pre, post, data, result, wake),
        pre.parked == ParkedTask::ReadTask(t),
    ensures
        wake == Some(t) || post.parked == ParkedTask::ReadTask(t),
{
}

/// A read that moves some bytes hands back the writer that was parked, now
/// that there is room.
pub proof fn law_read_wakes_writer<T>(
    pre: DecoderModel<T>,
    post: DecoderModel<T>,
    out_pre: Seq<u8>,
    out_post: Seq<u8>,
    result: Result<usize, DecodeError>,
    wake: Option<T>,
    t: T,
)
    requires
        read_post(pre, post, out_pre, out_post, result, wake),
        pre.parked == ParkedTask::WriteTask(t),
    ensures
        result matches Ok(n) && n > 0 ==> wake == Some(t) && post.parked == ParkedTask::<T>::NoTask,
{
}

} // verus!
