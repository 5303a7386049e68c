//! An in-memory model of the response side of one exchange's transport.

use vstd::prelude::*;

verus! {

/// The bytes a transport delivered for one exchange, behind a read cursor.
///
/// The encrypted connection itself lives outside the library; its owner
/// drains it into plain bytes and hands them here, after which every read
/// is verified. Running out of data models the peer closing the stream.
pub struct ByteStream {
    data: Vec<u8>,
    pos: usize,
}

impl ByteStream {
    /// The cursor never runs past the data.
    pub closed spec fn wf(&self) -> bool {
        self.pos <= self.data@.len()
    }

    /// Every byte the transport delivered, read or not.
    pub closed spec fn all_bytes(&self) -> Seq<u8> {
        self.data@
    }

    /// The bytes not yet consumed.
    pub closed spec fn remaining(&self) -> Seq<u8> {
        self.data@.subrange(self.pos as int, self.data@.len() as int)
    }

    /// A stream positioned at the first of the given bytes.
    pub fn new(data: Vec<u8>) -> (s: Self)
        ensures
            s.wf(),
            s.all_bytes() == data@,
            s.remaining() == data@,
    {
        let s = ByteStream { data, pos: 0 };
        proof {
            assert(s.remaining() =~= s.data@);
        }
        s
    }

    /// How many bytes are still unread.
    pub fn remaining_len(&self) -> (n: usize)
        requires
            self.wf(),
        ensures
            n == self.remaining().len(),
    {
        self.data.len() - self.pos
    }

    /// Reads the unread byte at offset `i` without consuming anything.
    pub fn peek(&self, i: usize) -> (b: u8)
        requires
            self.wf(),
            i < self.remaining().len(),
        ensures
            b == self.remaining()[i as int],
    {
        let total = self.data.len();
        proof {
            assert(self.remaining().len() == self.data@.len() - self.pos);
            assert(self.pos + i < total);
        }
        self.data[self.pos + i]
    }

    /// Consumes the next `n` unread bytes.
    pub fn advance(&mut self, n: usize)
        requires
            old(self).wf(),
            n <= old(self).remaining().len(),
        ensures
            final(self).wf(),
            final(self).all_bytes() == old(self).all_bytes(),
            final(self).remaining() == old(self).remaining().skip(n as int),
    {
        let total = self.data.len();
        proof {
            assert(self.remaining().len() == self.data@.len() - self.pos);
            assert(self.pos + n <= total);
        }
        self.pos = self.pos + n;
        proof {
            assert(self.remaining() =~= old(self).remaining().skip(n as int));
        }
    }

    /// Consumes and returns every unread byte: a read to end of stream.
    #[verifier::loop_isolation(false)]
    pub fn read_to_end(&mut self) -> (body: Vec<u8>)
        requires
            old(self).wf(),
        ensures
            final(self).wf(),
            final(self).all_bytes() == old(self).all_bytes(),
            body@ == old(self).remaining(),
            final(self).remaining() == Seq::<u8>::empty(),
    {
        let mut body: Vec<u8> = Vec::new();
        let n = self.data.len();
        let mut i: usize = self.pos;
        while i < n
            invariant
                self.pos <= i <= n,
                body@ == self.data@.subrange(self.pos as int, i as int),
            decreases n - i,
        {
            let b = self.data[i];
            body.push(b);
            i = i + 1;
            proof {
                assert(body@ =~= self.data@.subrange(self.pos as int, i as int));
            }
        }
        self.pos = n;
        proof {
            assert(self.remaining() =~= Seq::<u8>::empty());
        }
        body
    }
}

} // verus!
