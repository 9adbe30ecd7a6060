use vstd::prelude::*;
use heapless::Deque;
use vstd::math::min;
use crate::error::Error;

verus! {

/// heapless's fixed-capacity double-ended queue, which buffers one chunk;
/// what it holds is `chunk_items`.
#[verifier::external_type_specification]
#[verifier::external_body]
#[verifier::reject_recursive_types(T)]
pub struct ExDeque<T, const N: usize>(Deque<T, N>);

/// The bytes a chunk buffer holds, front first.
pub uninterp spec fn chunk_items(d: Deque<u8, 8>) -> Seq<u8>;

/// How many bytes one chunk buffer holds at most.
pub const CHUNK_CAPACITY: usize = 8;

/// Relies on heapless's `Deque::new`: an empty deque.
#[verifier::external_body]
fn chunk_new() -> (r: Deque<u8, 8>)
    ensures
        chunk_items(r) == Seq::<u8>::empty(),
{
    Deque::new()
}

/// Relies on heapless's `Deque::is_empty`: true when it holds no item.
#[verifier::external_body]
fn chunk_is_empty(d: &Deque<u8, 8>) -> (r: bool)
    ensures
        r == (chunk_items(*d).len() == 0),
{
    d.is_empty()
}

/// Relies on heapless's `Deque::len`: the number of items held.
#[verifier::external_body]
fn chunk_len(d: &Deque<u8, 8>) -> (r: usize)
    ensures
        r == chunk_items(*d).len(),
{
    d.len()
}

/// Relies on heapless's `Deque::push_back`: where the deque is full it hands
/// the item back and changes nothing, otherwise the item goes at the back.
#[verifier::external_body]
fn chunk_push_back(d: &mut Deque<u8, 8>, b: u8) -> (r: Result<(), u8>)
    ensures
        r == (if chunk_items(*old(d)).len() >= CHUNK_CAPACITY { Err::<(), u8>(b) } else { Ok::<(), u8>(()) }),
        chunk_items(*final(d)) == (if r.is_err() { chunk_items(*old(d)) } else { chunk_items(*old(d)).push(b) }),
{
    d.push_back(b)
}

/// Relies on heapless's `Deque::pop_front`: `None` on an empty deque,
/// otherwise the front item, which leaves it.
#[verifier::external_body]
fn chunk_pop_front(d: &mut Deque<u8, 8>) -> (r: Option<u8>)
    ensures
        r == (if chunk_items(*old(d)).len() == 0 { None } else { Some(chunk_items(*old(d))[0]) }),
        chunk_items(*final(d)) == (if r.is_none() { chunk_items(*old(d)) } else { chunk_items(*old(d)).drop_first() }),
{
    d.pop_front()
}

/// What the next step of a read is.
#[derive(Debug, Clone, Copy, PartialEq, Eq, Structural)]
pub enum ReadStep {
    /// The next byte of the section.
    Byte(u8),
    /// The section has ended.
    End,
    /// The chunk buffer is empty: read the chunk at this word address, hand
    /// it to `refill`, and ask again.
    Fetch(u16),
}

/// How far a multi-byte take has come.
#[derive(Debug, Clone, Copy, PartialEq, Eq, Structural)]
pub enum Take {
    /// All the bytes asked for are in the destination.
    Complete,
    /// The section ended first.
    Short,
    /// The chunk buffer is empty: read the chunk at this word address, hand
    /// it to `refill`, and call again with the same destination.
    Fetch(u16),
}

/// What a section reader holds: the word address of the next chunk, the
/// section's length and the bytes handed out of it, and the bytes buffered.
pub struct ReaderView {
    pub start: u16,
    pub len: u16,
    pub byte_count: u16,
    pub buffered: Seq<u8>,
}

/// The word address after `start` moves on by `words`, in a 16-bit space.
pub open spec fn advance(start: u16, words: int) -> u16 {
    ((start + words) % 0x10000) as u16
}

/// What `next` gives on a reader.
pub open spec fn next_outcome(v: ReaderView) -> (ReadStep, ReaderView) {
    if v.byte_count >= v.len {
        (ReadStep::End, v)
    } else if v.buffered.len() == 0 {
        (ReadStep::Fetch(v.start), v)
    } else {
        (
            ReadStep::Byte(v.buffered[0]),
            ReaderView { byte_count: (v.byte_count + 1) as u16, buffered: v.buffered.drop_first(), ..v },
        )
    }
}

/// What taking bytes gives, into a destination that holds `out`, until it
/// holds `len`, with room for `capacity`: the step, the destination and the
/// reader after it.
pub open spec fn take_outcome(v: ReaderView, out: Seq<u8>, len: int, capacity: int) -> (Result<Take, Error>, Seq<u8>, ReaderView) {
    let need = len - out.len();
    let budget = v.len - v.byte_count;
    let b = v.buffered;
    if capacity < len {
        (Err(Error::EepromSectionOverrun), out, v)
    } else if need <= budget && need <= b.len() {
        (
            Ok(Take::Complete),
            out + b.subrange(0, need),
            ReaderView { byte_count: (v.byte_count + need) as u16, buffered: b.subrange(need, b.len() as int), ..v },
        )
    } else if budget < need && budget <= b.len() {
        (
            Ok(Take::Short),
            out + b.subrange(0, budget),
            ReaderView { byte_count: v.len, buffered: b.subrange(budget, b.len() as int), ..v },
        )
    } else {
        (
            Ok(Take::Fetch(v.start)),
            out + b,
            ReaderView { byte_count: (v.byte_count + b.len()) as u16, buffered: Seq::empty(), ..v },
        )
    }
}

/// The step of an exact take: the end of the section is an error.
pub open spec fn exact(r: Result<Take, Error>) -> Result<Take, Error> {
    if r == Ok::<Take, Error>(Take::Short) {
        Err(Error::EepromSectionUnderrun)
    } else {
        r
    }
}

/// The reader after a chunk that fits is buffered.
pub open spec fn refill_view(v: ReaderView, chunk: Seq<u8>) -> ReaderView {
    ReaderView {
        start: advance(v.start, ((v.buffered.len() + chunk.len()) / 2) as int),
        buffered: v.buffered + chunk,
        ..v
    }
}

/// A take carried on across reads: each time a step asks for a chunk, the
/// next of `chunks` is buffered and the take goes on, until a step ends it
/// or the chunks run out.
pub open spec fn take_with_chunks(v: ReaderView, out: Seq<u8>, len: int, capacity: int, chunks: Seq<Seq<u8>>) -> (
    Result<Take, Error>,
    Seq<u8>,
    ReaderView,
)
    decreases chunks.len(),
{
    let t = take_outcome(v, out, len, capacity);
    match t.0 {
        Ok(Take::Fetch(_)) => {
            if chunks.len() > 0 {
                take_with_chunks(refill_view(t.2, chunks[0]), t.1, len, capacity, chunks.drop_first())
            } else {
                t
            }
        },
        _ => t,
    }
}

/// A take with room for all it asks, fed chunks of one to eight bytes that
/// reach far enough, ends in one of two ways. Where the section holds the
/// bytes asked for, it completes with exactly the next `len` bytes of the
/// buffered bytes followed by the chunks. Where the section ends first, it
/// reports insufficient data with the section's remaining bytes, and the
/// section is used up.
pub proof fn lemma_take_across_chunks(v: ReaderView, out: Seq<u8>, len: int, capacity: int, chunks: Seq<Seq<u8>>)
    requires
        capacity >= len,
        out.len() <= len,
        v.byte_count <= v.len,
        v.buffered.len() <= CHUNK_CAPACITY,
        forall|i: int| 0 <= i < chunks.len() ==> 1 <= (#[trigger] chunks[i]).len() <= CHUNK_CAPACITY,
        min(len - out.len(), v.len - v.byte_count) <= (v.buffered + chunks.flatten()).len(),
    ensures
        ({
            let t = take_with_chunks(v, out, len, capacity, chunks);
            let need = len - out.len();
            let budget = v.len - v.byte_count;
            let s = v.buffered + chunks.flatten();
            if need <= budget {
                t.0 == Ok::<Take, Error>(Take::Complete) && t.1 == out + s.subrange(0, need) && t.2.byte_count
                    == v.byte_count + need
            } else {
                t.0 == Ok::<Take, Error>(Take::Short) && t.1 == out + s.subrange(0, budget) && t.2.byte_count
                    == v.len
            }
        }),
    decreases chunks.len(),
{
    let need = len - out.len();
    let budget = v.len - v.byte_count;
    let b = v.buffered;
    let s = b + chunks.flatten();
    let t = take_outcome(v, out, len, capacity);
    if need <= budget && need <= b.len() {
        assert(s.subrange(0, need) =~= b.subrange(0, need));
    } else if budget < need && budget <= b.len() {
        assert(s.subrange(0, budget) =~= b.subrange(0, budget));
    } else {
        if chunks.len() == 0 {
            assert(chunks.flatten() =~= Seq::<Seq<u8>>::empty().flatten());
            assert(false);
        }
        assert(chunks.flatten() == chunks[0] + chunks.drop_first().flatten());
        let v2 = refill_view(t.2, chunks[0]);
        assert(t.2.buffered =~= Seq::<u8>::empty());
        assert(v2.buffered =~= chunks[0]);
        let rest = chunks.drop_first();
        assert forall|i: int| 0 <= i < rest.len() implies 1 <= (#[trigger] rest[i]).len() <= CHUNK_CAPACITY by {
            assert(rest[i] == chunks[i + 1]);
        }
        assert(v2.buffered + rest.flatten() =~= chunks.flatten());
        lemma_take_across_chunks(v2, t.1, len, capacity, rest);
        let s2 = chunks.flatten();
        if need <= budget {
            assert(out + b + s2.subrange(0, need - b.len()) =~= out + s.subrange(0, need));
        } else {
            assert(out + b + s2.subrange(0, budget - b.len()) =~= out + s.subrange(0, budget));
        }
    }
}

/// An exact take, under the same conditions, whose section ends before the
/// bytes asked for reports underrun, which is not the overrun of a
/// destination too small.
pub proof fn lemma_take_exact_across_chunks(v: ReaderView, out: Seq<u8>, len: int, capacity: int, chunks: Seq<Seq<u8>>)
    requires
        capacity >= len,
        out.len() <= len,
        v.byte_count <= v.len,
        v.buffered.len() <= CHUNK_CAPACITY,
        forall|i: int| 0 <= i < chunks.len() ==> 1 <= (#[trigger] chunks[i]).len() <= CHUNK_CAPACITY,
        v.len - v.byte_count < len - out.len(),
        v.len - v.byte_count <= (v.buffered + chunks.flatten()).len(),
    ensures
        exact(take_with_chunks(v, out, len, capacity, chunks).0) == Err::<Take, Error>(Error::EepromSectionUnderrun),
{
    lemma_take_across_chunks(v, out, len, capacity, chunks);
}

/// A pull-style reader of one section of a device's configuration memory,
/// chunk by chunk. It never hands out more bytes than the section's length.
pub struct EepromSectionReader {
    /// Word address of the next chunk.
    start: u16,
    /// Section length in bytes.
    len: u16,
    /// Bytes handed out so far.
    byte_count: u16,
    read: Deque<u8, 8>,
}

impl View for EepromSectionReader {
    type V = ReaderView;

    closed spec fn view(&self) -> ReaderView {
        ReaderView { start: self.start, len: self.len, byte_count: self.byte_count, buffered: chunk_items(self.read) }
    }
}

impl EepromSectionReader {
    pub closed spec fn wf(&self) -> bool {
        self.byte_count <= self.len && chunk_items(self.read).len() <= CHUNK_CAPACITY
    }

    /// A reader of the section of `len_words` 16-bit words at word address
    /// `start`.
    pub fn new(start: u16, len_words: u16) -> (r: Self)
        requires
            len_words <= 0x7fff,
        ensures
            r.wf(),
            r@ == (ReaderView { start, len: (len_words * 2) as u16, byte_count: 0, buffered: Seq::empty() }),
    {
        Self::start_at(start, len_words * 2)
    }

    /// A reader of `len_bytes` bytes from word address `address`.
    pub fn start_at(address: u16, len_bytes: u16) -> (r: Self)
        ensures
            r.wf(),
            r@ == (ReaderView { start: address, len: len_bytes, byte_count: 0, buffered: Seq::empty() }),
    {
        EepromSectionReader { start: address, len: len_bytes, byte_count: 0, read: chunk_new() }
    }

    /// Buffers a chunk read at the reader's address and moves the address on
    /// by the words buffered. A chunk longer than the buffer's room fails
    /// with `EepromSectionOverrun`; what fitted stays buffered and the
    /// address stays. An empty chunk cannot move the section on: it fails
    /// with `EepromSectionUnderrun` and changes nothing.
    pub fn refill(&mut self, chunk: &[u8]) -> (r: Result<(), Error>)
        requires
            old(self).wf(),
        ensures
            final(self).wf(),
            ({
                let v = old(self)@;
                let room = CHUNK_CAPACITY - v.buffered.len();
                if chunk@.len() == 0 {
                    r == Err::<(), Error>(Error::EepromSectionUnderrun) && final(self)@ == v
                } else if chunk@.len() <= room {
                    r == Ok::<(), Error>(()) && final(self)@ == refill_view(v, chunk@)
                } else {
                    &&& r == Err::<(), Error>(Error::EepromSectionOverrun)
                    &&& final(self)@ == (ReaderView { buffered: v.buffered + chunk@.subrange(0, room), ..v })
                }
            }),
    {
        if chunk.len() == 0 {
            return Err(Error::EepromSectionUnderrun);
        }
        let mut i: usize = 0;
        while i < chunk.len()
            invariant
                i <= chunk@.len(),
                i <= CHUNK_CAPACITY - old(self)@.buffered.len(),
                self.start == old(self).start,
                self.len == old(self).len,
                self.byte_count == old(self).byte_count,
                chunk_items(self.read) == old(self)@.buffered + chunk@.subrange(0, i as int),
                old(self).wf(),
            decreases chunk@.len() - i,
        {
            match chunk_push_back(&mut self.read, chunk[i]) {
                Ok(()) => {},
                Err(_) => {
                    return Err(Error::EepromSectionOverrun);
                },
            }
            i = i + 1;
            assert(chunk_items(self.read) =~= old(self)@.buffered + chunk@.subrange(0, i as int));
        }
        assert(chunk@.subrange(0, i as int) =~= chunk@);
        let words = chunk_len(&self.read) / 2;
        self.start = ((self.start as usize + words) % 0x10000) as u16;
        Ok(())
    }

    /// The next byte of the section; `End` once the section's length has
    /// been handed out; `Fetch` where a chunk must be read first.
    pub fn next(&mut self) -> (r: ReadStep)
        requires
            old(self).wf(),
        ensures
            final(self).wf(),
            (r, final(self)@) == next_outcome(old(self)@),
    {
        if self.byte_count >= self.len {
            return ReadStep::End;
        }
        if chunk_is_empty(&self.read) {
            return ReadStep::Fetch(self.start);
        }
        match chunk_pop_front(&mut self.read) {
            Some(byte) => {
                self.byte_count = self.byte_count + 1;
                ReadStep::Byte(byte)
            },
            None => ReadStep::Fetch(self.start),
        }
    }

    /// As `next`, where the end of the section is an error: a caller that
    /// needs exact data gets `EepromSectionUnderrun`.
    pub fn try_next(&mut self) -> (r: Result<ReadStep, Error>)
        requires
            old(self).wf(),
        ensures
            final(self).wf(),
            final(self)@ == next_outcome(old(self)@).1,
            next_outcome(old(self)@).0 == ReadStep::End ==> r == Err::<ReadStep, Error>(Error::EepromSectionUnderrun),
            next_outcome(old(self)@).0 != ReadStep::End ==> r == Ok::<ReadStep, Error>(next_outcome(old(self)@).0),
    {
        match self.next() {
            ReadStep::End => Err(Error::EepromSectionUnderrun),
            other => Ok(other),
        }
    }

    /// Discards up to `remaining` bytes, counting them down; stops early,
    /// with nothing left to count, at the end of the section. Returns the
    /// address of a chunk to read where the buffer runs dry first, `None`
    /// once done.
    pub fn skip(&mut self, remaining: &mut u16) -> (r: Option<u16>)
        requires
            old(self).wf(),
        ensures
            final(self).wf(),
            final(self)@.len == old(self)@.len,
            final(self)@.start == old(self)@.start,
            ({
                let c = final(self)@.byte_count - old(self)@.byte_count;
                &&& 0 <= c <= *old(remaining)
                &&& c <= old(self)@.buffered.len()
                &&& final(self)@.buffered == old(self)@.buffered.subrange(c, old(self)@.buffered.len() as int)
                &&& r is None ==> *final(remaining) == 0 && (c == *old(remaining) || final(self)@.byte_count == final(self)@.len)
                &&& r matches Some(a) ==> a == final(self)@.start && final(self)@.buffered.len() == 0 && *final(remaining) == *old(remaining) - c && final(self)@.byte_count < final(self)@.len
            }),
    {
        while *remaining > 0
            invariant
                self.wf(),
                self@.len == old(self)@.len,
                self@.start == old(self)@.start,
                ({
                    let c = self@.byte_count - old(self)@.byte_count;
                    &&& 0 <= c <= *old(remaining)
                    &&& c <= old(self)@.buffered.len()
                    &&& *remaining == *old(remaining) - c
                    &&& self@.buffered == old(self)@.buffered.subrange(c, old(self)@.buffered.len() as int)
                }),
            decreases *remaining,
        {
            match self.next() {
                ReadStep::Fetch(a) => {
                    return Some(a);
                },
                ReadStep::End => {
                    *remaining = 0;
                    return None;
                },
                ReadStep::Byte(_) => {},
            }
            *remaining = *remaining - 1;
            assert(self@.buffered =~= old(self)@.buffered.subrange(
                self@.byte_count - old(self)@.byte_count,
                old(self)@.buffered.len() as int,
            ));
        }
        None
    }

    /// Takes bytes into `out` until it holds `len` of them. Fails with
    /// `EepromSectionOverrun`, taking nothing, where `capacity` is smaller
    /// than `len`; gives `Short` where the section ends first, and `Fetch`
    /// where a chunk must be read before it can go on.
    pub fn take_n_vec(&mut self, out: &mut Vec<u8>, len: usize, capacity: usize) -> (r: Result<Take, Error>)
        requires
            old(self).wf(),
            old(out)@.len() <= len,
        ensures
            final(self).wf(),
            (r, final(out)@, final(self)@) == take_outcome(old(self)@, old(out)@, len as int, capacity as int),
    {
        if capacity < len {
            return Err(Error::EepromSectionOverrun);
        }
        let ghost v = self@;
        assert(out@ =~= old(out)@ + v.buffered.subrange(0, 0));
        assert(v.buffered.subrange(0, v.buffered.len() as int) =~= v.buffered);
        while out.len() < len
            invariant
                self.wf(),
                v == old(self)@,
                capacity >= len,
                old(out)@.len() <= out@.len() <= len,
                ({
                    let k = out@.len() - old(out)@.len();
                    &&& k <= v.buffered.len()
                    &&& k <= v.len - v.byte_count
                    &&& out@ == old(out)@ + v.buffered.subrange(0, k)
                    &&& self@ == (ReaderView { byte_count: (v.byte_count + k) as u16, buffered: v.buffered.subrange(k, v.buffered.len() as int), ..v })
                }),
            decreases len - out@.len(),
        {
            let ghost k = out@.len() - old(out)@.len();
            match self.next() {
                ReadStep::Byte(b) => {
                    out.push(b);
                    assert(out@ =~= old(out)@ + v.buffered.subrange(0, k + 1));
                    assert(self@.buffered =~= v.buffered.subrange(k + 1, v.buffered.len() as int));
                },
                ReadStep::End => {
                    assert(k == v.len - v.byte_count);
                    assert(out@ =~= old(out)@ + v.buffered.subrange(0, v.len - v.byte_count));
                    return Ok(Take::Short);
                },
                ReadStep::Fetch(a) => {
                    assert(v.buffered.subrange(0, k) =~= v.buffered);
                    assert(k == v.buffered.len());
                    assert(self@.buffered =~= Seq::<u8>::empty());
                    assert(out@ =~= old(out)@ + v.buffered);
                    return Ok(Take::Fetch(a));
                },
            }
        }
        Ok(Take::Complete)
    }

    /// As `take_n_vec`, where the end of the section is an error:
    /// `EepromSectionUnderrun` in place of `Short`.
    pub fn take_n_vec_exact(&mut self, out: &mut Vec<u8>, len: usize, capacity: usize) -> (r: Result<Take, Error>)
        requires
            old(self).wf(),
            old(out)@.len() <= len,
        ensures
            final(self).wf(),
            ({
                let t = take_outcome(old(self)@, old(out)@, len as int, capacity as int);
                r == exact(t.0) && final(out)@ == t.1 && final(self)@ == t.2
            }),
    {
        match self.take_n_vec(out, len, capacity) {
            Ok(Take::Short) => Err(Error::EepromSectionUnderrun),
            other => other,
        }
    }

    /// As `take_n_vec`, for `N` bytes into a destination of `N`.
    pub fn take_vec<const N: usize>(&mut self, out: &mut Vec<u8>) -> (r: Result<Take, Error>)
        requires
            old(self).wf(),
            old(out)@.len() <= N,
        ensures
            final(self).wf(),
            (r, final(out)@, final(self)@) == take_outcome(old(self)@, old(out)@, N as int, N as int),
    {
        self.take_n_vec(out, N, N)
    }

    /// As `take_vec`, where the end of the section is an error.
    pub fn take_vec_exact<const N: usize>(&mut self, out: &mut Vec<u8>) -> (r: Result<Take, Error>)
        requires
            old(self).wf(),
            old(out)@.len() <= N,
        ensures
            final(self).wf(),
            ({
                let t = take_outcome(old(self)@, old(out)@, N as int, N as int);
                r == exact(t.0) && final(out)@ == t.1 && final(self)@ == t.2
            }),
    {
        self.take_n_vec_exact(out, N, N)
    }

    pub fn address(&self) -> (r: u16)
        ensures
            r == self@.start,
    {
        self.start
    }
}

} // verus!
