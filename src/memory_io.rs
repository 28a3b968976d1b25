use vstd::prelude::*;
use crate::io_context::{IoHandler, SeekTarget};

verus! {

/// An in-memory byte buffer with a position, usable as the source or the sink
/// of an I/O bridge. Reads and writes act at the position and move it; a write
/// past the end fills the gap with zero bytes.
pub struct MemoryIo {
    bytes: Vec<u8>,
    pos: usize,
}

/// The bytes a read of at most `cap` bytes at `pos` returns.
pub open spec fn spec_read_bytes(s: Seq<u8>, pos: nat, cap: nat) -> Seq<u8> {
    if pos >= s.len() {
        Seq::empty()
    } else if pos + cap <= s.len() {
        s.subrange(pos as int, (pos + cap) as int)
    } else {
        s.subrange(pos as int, s.len() as int)
    }
}

/// `s` extended with zero bytes up to length `pos`.
pub open spec fn spec_padded(s: Seq<u8>, pos: nat) -> Seq<u8> {
    if pos <= s.len() {
        s
    } else {
        s + Seq::new((pos - s.len()) as nat, |i: int| 0u8)
    }
}

/// The contents after writing `data` at `pos`: the bytes before `pos` (padded
/// with zeros), then `data`, then whatever lay beyond its end.
pub open spec fn spec_after_write(s: Seq<u8>, pos: nat, data: Seq<u8>) -> Seq<u8> {
    let p = spec_padded(s, pos);
    let end = pos + data.len();
    if end < p.len() {
        p.subrange(0, pos as int) + data + p.subrange(end as int, p.len() as int)
    } else {
        p.subrange(0, pos as int) + data
    }
}

/// The position a seek moves to, if it is not before the start and fits a `usize`.
pub open spec fn spec_seek_position(len: nat, pos: nat, target: SeekTarget) -> Option<nat> {
    let p: int = match target {
        SeekTarget::Start(n) => n as int,
        SeekTarget::Current(off) => pos + off,
        SeekTarget::End(off) => len + off,
    };
    if 0 <= p <= usize::MAX {
        Some(p as nat)
    } else {
        None
    }
}

/// Writing `chunks` one after another from position `pos`: the contents and
/// position at the end.
pub open spec fn spec_write_all(s: Seq<u8>, pos: nat, chunks: Seq<Seq<u8>>) -> (Seq<u8>, nat)
    decreases chunks.len(),
{
    if chunks.len() == 0 {
        (s, pos)
    } else {
        spec_write_all(
            spec_after_write(s, pos, chunks[0]),
            pos + chunks[0].len(),
            chunks.drop_first(),
        )
    }
}

/// Reading with a buffer of `cap` bytes from `pos` until a read returns
/// nothing: everything read, in order.
pub open spec fn spec_read_all(s: Seq<u8>, pos: nat, cap: nat) -> Seq<u8>
    decreases s.len() - pos,
{
    if cap == 0 || pos >= s.len() {
        Seq::empty()
    } else {
        let b = spec_read_bytes(s, pos, cap);
        b + spec_read_all(s, pos + b.len(), cap)
    }
}

proof fn lemma_write_all_appends(s: Seq<u8>, chunks: Seq<Seq<u8>>)
    ensures
        spec_write_all(s, s.len(), chunks) == (s + chunks.flatten(), s.len() + chunks.flatten().len()),
    decreases chunks.len(),
{
    if chunks.len() > 0 {
        let c = chunks[0];
        assert(spec_after_write(s, s.len(), c) =~= s + c);
        lemma_write_all_appends(s + c, chunks.drop_first());
        assert(s + c + chunks.drop_first().flatten() =~= s + chunks.flatten());
    } else {
        assert(s + chunks.flatten() =~= s);
    }
}

proof fn lemma_read_all_rest(s: Seq<u8>, pos: nat, cap: nat)
    requires
        cap > 0,
        pos <= s.len(),
    ensures
        spec_read_all(s, pos, cap) == s.subrange(pos as int, s.len() as int),
    decreases s.len() - pos,
{
    if pos < s.len() {
        let b = spec_read_bytes(s, pos, cap);
        lemma_read_all_rest(s, pos + b.len(), cap);
        assert(b + s.subrange((pos + b.len()) as int, s.len() as int) =~= s.subrange(
            pos as int,
            s.len() as int,
        ));
    } else {
        assert(s.subrange(pos as int, s.len() as int) =~= Seq::empty());
    }
}

/// Round trip through memory: writing a sequence of chunks into an empty
/// buffer, then reading it back from the start with any buffer size until a
/// read returns nothing, gives exactly the bytes written, in order.
pub proof fn lemma_memory_round_trip(chunks: Seq<Seq<u8>>, cap: nat)
    requires
        cap > 0,
    ensures
        spec_write_all(Seq::empty(), 0, chunks).0 == chunks.flatten(),
        spec_read_all(spec_write_all(Seq::empty(), 0, chunks).0, 0, cap) == chunks.flatten(),
{
    lemma_write_all_appends(Seq::empty(), chunks);
    assert(Seq::<u8>::empty() + chunks.flatten() =~= chunks.flatten());
    lemma_read_all_rest(chunks.flatten(), 0, cap);
    assert(chunks.flatten().subrange(0, chunks.flatten().len() as int) =~= chunks.flatten());
}

/// Relies on std::io::Error::from(ErrorKind::InvalidInput): an error for a
/// request the buffer cannot serve.
#[verifier::external_body]
fn invalid_input() -> (r: std::io::Error) {
    std::io::Error::from(std::io::ErrorKind::InvalidInput)
}

impl MemoryIo {
    /// The bytes held.
    pub closed spec fn contents(&self) -> Seq<u8> {
        self.bytes@
    }

    /// The position of the next read or write.
    pub closed spec fn position(&self) -> nat {
        self.pos as nat
    }

    /// A buffer holding `bytes`, positioned at the start.
    pub fn new(bytes: Vec<u8>) -> (r: MemoryIo)
        ensures
            r.contents() == bytes@,
            r.position() == 0,
    {
        MemoryIo { bytes, pos: 0 }
    }

    /// An empty buffer.
    pub fn empty() -> (r: MemoryIo)
        ensures
            r.contents() == Seq::<u8>::empty(),
            r.position() == 0,
    {
        MemoryIo { bytes: Vec::new(), pos: 0 }
    }

    pub fn pos(&self) -> (r: usize)
        ensures
            r == self.position(),
    {
        self.pos
    }

    pub fn as_bytes(&self) -> (r: &Vec<u8>)
        ensures
            r@ == self.contents(),
    {
        &self.bytes
    }

    pub fn into_bytes(self) -> (r: Vec<u8>)
        ensures
            r@ == self.contents(),
    {
        self.bytes
    }

    /// Copies the bytes at the position into the front of `buf`, as many as
    /// fit, and moves the position past them.
    pub fn read_into(&mut self, buf: &mut [u8]) -> (n: usize)
        ensures
            n == spec_read_bytes(old(self).contents(), old(self).position(), old(buf)@.len()).len(),
            final(buf)@.len() == old(buf)@.len(),
            final(buf)@.subrange(0, n as int) == spec_read_bytes(
                old(self).contents(),
                old(self).position(),
                old(buf)@.len(),
            ),
            final(buf)@.subrange(n as int, old(buf)@.len() as int) == old(buf)@.subrange(
                n as int,
                old(buf)@.len() as int,
            ),
            final(self).contents() == old(self).contents(),
            final(self).position() == old(self).position() + n,
    {
        let len = self.bytes.len();
        let n: usize = if self.pos >= len {
            0
        } else if buf.len() <= len - self.pos {
            buf.len()
        } else {
            len - self.pos
        };
        let ghost expected = spec_read_bytes(self.bytes@, self.pos as nat, buf@.len());
        let ghost original = buf@;
        assert(expected.len() == n);
        let mut i: usize = 0;
        while i < n
            invariant
                0 <= i <= n,
                n <= buf@.len(),
                len == self.bytes@.len(),
                n > 0 ==> self.pos + n <= self.bytes@.len(),
                n == expected.len(),
                buf@.len() == original.len(),
                expected == spec_read_bytes(self.bytes@, self.pos as nat, original.len()),
                forall|j: int| 0 <= j < i ==> buf@[j] == expected[j],
                forall|j: int| i <= j < original.len() ==> buf@[j] == original[j],
            decreases n - i,
        {
            assert(self.pos + i < self.bytes@.len());
            let v = self.bytes[self.pos + i];
            buf[i] = v;
            i = i + 1;
        }
        assert(buf@.subrange(0, n as int) =~= expected);
        assert(buf@.subrange(n as int, original.len() as int) =~= original.subrange(
            n as int,
            original.len() as int,
        ));
        self.pos = self.pos + n;
        n
    }

    /// Writes `data` at the position and moves the position past it. `None`,
    /// with nothing changed, where the end position would not fit a `usize`.
    pub fn write_from(&mut self, data: &[u8]) -> (r: Option<usize>)
        ensures
            old(self).position() + data@.len() > usize::MAX ==> r is None && *final(self) == *old(
                self,
            ),
            old(self).position() + data@.len() <= usize::MAX ==> r == Some(data@.len() as usize)
                && final(self).contents() == spec_after_write(
                old(self).contents(),
                old(self).position(),
                data@,
            ) && final(self).position() == old(self).position() + data@.len(),
    {
        if data.len() > usize::MAX - self.pos {
            return None;
        }
        let ghost s0 = self.bytes@;
        let ghost pos = self.pos as nat;
        while self.bytes.len() < self.pos
            invariant
                self.pos == pos,
                s0.len() <= self.bytes@.len() <= pos || self.bytes@.len() == s0.len(),
                self.bytes@ =~= spec_padded(s0, pos).subrange(0, self.bytes@.len() as int),
                spec_padded(s0, pos).len() >= self.bytes@.len(),
            decreases self.pos - self.bytes@.len(),
        {
            self.bytes.push(0);
        }
        assert(self.bytes@ =~= spec_padded(s0, pos));
        let ghost p = spec_padded(s0, pos);
        let mut i: usize = 0;
        while i < data.len()
            invariant
                self.pos == pos,
                pos + data@.len() <= usize::MAX,
                p.len() >= pos,
                0 <= i <= data@.len(),
                self.bytes@ =~= spec_after_write(p, pos, data@.subrange(0, i as int)),
            decreases data@.len() - i,
        {
            let at = self.pos + i;
            let ghost before = self.bytes@;
            if at < self.bytes.len() {
                self.bytes.set(at, data[i]);
            } else {
                self.bytes.push(data[i]);
            }
            i = i + 1;
            assert(self.bytes@ =~= spec_after_write(p, pos, data@.subrange(0, i as int)));
        }
        assert(data@.subrange(0, data@.len() as int) =~= data@);
        assert(spec_padded(p, pos) == p);
        assert(spec_after_write(s0, pos, data@) =~= spec_after_write(p, pos, data@));
        self.pos = self.pos + data.len();
        Some(data.len())
    }

    /// Moves the position as `target` says. `None`, with nothing changed, where
    /// the new position would lie before the start or beyond a `usize`.
    pub fn seek_to(&mut self, target: SeekTarget) -> (r: Option<u64>)
        ensures
            spec_seek_position(old(self).contents().len(), old(self).position(), target) matches Some(
                p,
            ) ==> r == Some(p as u64) && final(self).position() == p && final(self).contents()
                == old(self).contents(),
            spec_seek_position(old(self).contents().len(), old(self).position(), target) is None
                ==> r is None && *final(self) == *old(self),
    {
        let p: i128 = match target {
            SeekTarget::Start(n) => n as i128,
            SeekTarget::Current(off) => self.pos as i128 + off as i128,
            SeekTarget::End(off) => self.bytes.len() as i128 + off as i128,
        };
        if p >= 0 && p <= usize::MAX as i128 {
            self.pos = p as usize;
            Some(p as u64)
        } else {
            None
        }
    }
}

impl IoHandler for MemoryIo {
    fn read(&mut self, buf: &mut [u8]) -> Result<usize, std::io::Error> {
        Ok(self.read_into(buf))
    }

    fn write(&mut self, buf: &[u8]) -> Result<usize, std::io::Error> {
        match self.write_from(buf) {
            Some(n) => Ok(n),
            None => Err(invalid_input()),
        }
    }

    fn seek(&mut self, pos: SeekTarget) -> Result<u64, std::io::Error> {
        match self.seek_to(pos) {
            Some(p) => Ok(p),
            None => Err(invalid_input()),
        }
    }
}

} // verus!
