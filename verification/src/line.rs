use vstd::prelude::*;

verus! {

/// The most bytes a command line keeps; further bytes of the same line are dropped.
pub const LINE_CAPACITY: usize = 32;

/// Line feed.
pub const LF: u8 = 0x0a;

/// Carriage return.
pub const CR: u8 = 0x0d;

/// A byte that ends a line.
pub open spec fn is_line_end(byte: u8) -> bool {
    byte == LF || byte == CR
}

/// One byte into the pending line: the pending line afterwards, and the line
/// that the byte completed, if any. A line end completes the pending line when
/// it holds something and clears it; another byte is kept while there is room.
pub open spec fn push_step(pending: Seq<u8>, byte: u8) -> (Seq<u8>, Option<Seq<u8>>) {
    if is_line_end(byte) {
        if pending.len() > 0 {
            (Seq::empty(), Some(pending))
        } else {
            (Seq::empty(), None)
        }
    } else if pending.len() < LINE_CAPACITY {
        (pending.push(byte), None)
    } else {
        (pending, None)
    }
}

/// A run of bytes into the pending line, one after another: the pending line
/// afterwards, and the completed lines in the order in which they ended.
pub open spec fn feed_spec(pending: Seq<u8>, bytes: Seq<u8>) -> (Seq<u8>, Seq<Seq<u8>>)
    decreases bytes.len(),
{
    if bytes.len() == 0 {
        (pending, Seq::empty())
    } else {
        let (before, lines) = feed_spec(pending, bytes.drop_last());
        let (after, done) = push_step(before, bytes.last());
        match done {
            Some(line) => (after, lines.push(line)),
            None => (after, lines),
        }
    }
}

/// A line that can come out of the buffer: not empty, within the capacity,
/// and free of line ends.
pub open spec fn is_complete_line(line: Seq<u8>) -> bool {
    &&& 0 < line.len() <= LINE_CAPACITY
    &&& forall|i: int| 0 <= i < line.len() ==> !is_line_end(#[trigger] line[i])
}

/// A pending line that the buffer can hold.
pub open spec fn is_pending_line(pending: Seq<u8>) -> bool {
    &&& pending.len() <= LINE_CAPACITY
    &&& forall|i: int| 0 <= i < pending.len() ==> !is_line_end(#[trigger] pending[i])
}

/// Whatever comes in, the pending line stays within the capacity and free of
/// line ends, and every line that comes out is a complete line: not empty, at
/// most `LINE_CAPACITY` bytes long, and free of line ends.
pub proof fn lemma_feed_well_formed(pending: Seq<u8>, bytes: Seq<u8>)
    requires
        is_pending_line(pending),
    ensures
        is_pending_line(feed_spec(pending, bytes).0),
        forall|i: int|
            0 <= i < feed_spec(pending, bytes).1.len() ==> is_complete_line(
                #[trigger] feed_spec(pending, bytes).1[i],
            ),
    decreases bytes.len(),
{
    if bytes.len() > 0 {
        lemma_feed_well_formed(pending, bytes.drop_last());
        let (before, lines) = feed_spec(pending, bytes.drop_last());
        let byte = bytes.last();
        if !is_line_end(byte) && before.len() < LINE_CAPACITY {
            assert forall|i: int| 0 <= i < before.push(byte).len() implies !is_line_end(
                #[trigger] before.push(byte)[i],
            ) by {
                if i < before.len() {
                    assert(before.push(byte)[i] == before[i]);
                }
            }
        }
    }
}

/// Feeding two runs of bytes one after the other gives what feeding them as
/// one run gives: the same pending line, and the lines of the first run
/// followed by those of the second. So it does not matter how the serial port
/// splits what it receives into reads.
pub proof fn lemma_feed_split(pending: Seq<u8>, first: Seq<u8>, second: Seq<u8>)
    ensures
        feed_spec(pending, first + second) == (
            feed_spec(feed_spec(pending, first).0, second).0,
            feed_spec(pending, first).1 + feed_spec(feed_spec(pending, first).0, second).1,
        ),
    decreases second.len(),
{
    if second.len() == 0 {
        assert(first + second =~= first);
        assert(feed_spec(pending, first).1 + Seq::<Seq<u8>>::empty() =~= feed_spec(
            pending,
            first,
        ).1);
    } else {
        lemma_feed_split(pending, first, second.drop_last());
        assert((first + second).drop_last() =~= first + second.drop_last());
        assert((first + second).last() == second.last());
        let mid = feed_spec(pending, first);
        let rest = feed_spec(mid.0, second.drop_last());
        let (after, done) = push_step(rest.0, second.last());
        match done {
            Some(line) => {
                assert(mid.1 + rest.1.push(line) =~= (mid.1 + rest.1).push(line));
            },
            None => {},
        }
    }
}

/// Bytes that end no line only extend the pending line, up to the capacity:
/// what does not fit is dropped, and no line comes out.
pub proof fn lemma_feed_within_line(pending: Seq<u8>, bytes: Seq<u8>)
    requires
        pending.len() <= LINE_CAPACITY,
        forall|i: int| 0 <= i < bytes.len() ==> !is_line_end(#[trigger] bytes[i]),
    ensures
        feed_spec(pending, bytes) == (
            (pending + bytes).take(
                if pending.len() + bytes.len() <= LINE_CAPACITY {
                    pending.len() + bytes.len() as int
                } else {
                    LINE_CAPACITY as int
                },
            ),
            Seq::<Seq<u8>>::empty(),
        ),
    decreases bytes.len(),
{
    if bytes.len() == 0 {
        assert((pending + bytes).take(pending.len() as int) =~= pending);
    } else {
        let shorter = bytes.drop_last();
        assert forall|i: int| 0 <= i < shorter.len() implies !is_line_end(#[trigger] shorter[i]) by {
            assert(shorter[i] == bytes[i]);
        }
        lemma_feed_within_line(pending, shorter);
        assert(!is_line_end(bytes[bytes.len() - 1]));
        let total: int = pending.len() + bytes.len() as int;
        if total <= LINE_CAPACITY {
            assert((pending + shorter).take(total - 1).push(bytes.last()) =~= (pending
                + bytes).take(total));
        } else if total - 1 <= LINE_CAPACITY {
            assert((pending + shorter).take(total - 1) =~= (pending + bytes).take(
                LINE_CAPACITY as int,
            ));
        } else {
            assert((pending + shorter).take(LINE_CAPACITY as int) =~= (pending + bytes).take(
                LINE_CAPACITY as int,
            ));
        }
    }
}

/// A line typed into an empty buffer and ended by a carriage return or a line
/// feed comes out whole, cut to its first `LINE_CAPACITY` bytes, and leaves
/// the buffer empty; a line end with nothing before it gives nothing.
pub proof fn lemma_feed_one_line(content: Seq<u8>, end: u8)
    requires
        forall|i: int| 0 <= i < content.len() ==> !is_line_end(#[trigger] content[i]),
        is_line_end(end),
    ensures
        content.len() == 0 ==> feed_spec(Seq::empty(), content.push(end)) == (
            Seq::<u8>::empty(),
            Seq::<Seq<u8>>::empty(),
        ),
        content.len() > 0 ==> feed_spec(Seq::empty(), content.push(end)) == (
            Seq::<u8>::empty(),
            seq![
                content.take(
                    if content.len() <= LINE_CAPACITY {
                        content.len() as int
                    } else {
                        LINE_CAPACITY as int
                    },
                ),
            ],
        ),
{
    lemma_feed_within_line(Seq::empty(), content);
    assert(Seq::<u8>::empty() + content =~= content);
    assert(content.push(end).drop_last() =~= content);
    assert(Seq::<Seq<u8>>::empty().push(
        content.take(if content.len() <= LINE_CAPACITY {
            content.len() as int
        } else {
            LINE_CAPACITY as int
        }),
    ) =~= seq![
        content.take(
            if content.len() <= LINE_CAPACITY {
                content.len() as int
            } else {
                LINE_CAPACITY as int
            },
        ),
    ]);
}

/// Assembles the bytes that arrive on the serial port into command lines.
pub struct LineBuffer {
    bytes: Vec<u8>,
}

impl View for LineBuffer {
    type V = Seq<u8>;

    closed spec fn view(&self) -> Seq<u8> {
        self.bytes@
    }
}

impl LineBuffer {
    #[verifier::type_invariant]
    spec fn holds_pending_line(&self) -> bool {
        is_pending_line(self.bytes@)
    }

    /// An empty buffer.
    pub fn new() -> (buffer: Self)
        ensures
            buffer@ == Seq::<u8>::empty(),
    {
        LineBuffer { bytes: Vec::new() }
    }

    /// The bytes of the line that has not ended yet.
    pub fn pending(&self) -> (bytes: &[u8])
        ensures
            bytes@ == self@,
            is_pending_line(self@),
    {
        proof {
            use_type_invariant(self);
        }
        self.bytes.as_slice()
    }

    /// Takes one byte; returns the line that it ends, if it ends one.
    pub fn push(&mut self, byte: u8) -> (line: Option<Vec<u8>>)
        ensures
            (final(self)@, line.deep_view()) == push_step(old(self)@, byte),
            is_pending_line(final(self)@),
    {
        proof {
            use_type_invariant(&*self);
        }
        let mut bytes: Vec<u8> = Vec::new();
        core::mem::swap(&mut bytes, &mut self.bytes);
        if byte == LF || byte == CR {
            if bytes.len() > 0 {
                Some(bytes)
            } else {
                None
            }
        } else {
            if bytes.len() < LINE_CAPACITY {
                bytes.push(byte);
            }
            self.bytes = bytes;
            None
        }
    }

    /// Takes a run of bytes, one after another; returns the lines that they
    /// end, in order.
    pub fn feed(&mut self, bytes: &[u8]) -> (lines: Vec<Vec<u8>>)
        ensures
            (final(self)@, lines.deep_view()) == feed_spec(old(self)@, bytes@),
            is_pending_line(final(self)@),
    {
        proof {
            use_type_invariant(&*self);
        }
        let ghost start = self@;
        let mut lines: Vec<Vec<u8>> = Vec::new();
        let mut i: usize = 0;
        while i < bytes.len()
            invariant
                0 <= i <= bytes.len(),
                (self@, lines.deep_view()) == feed_spec(start, bytes@.take(i as int)),
                is_pending_line(self@),
            decreases bytes.len() - i,
        {
            assert(bytes@.take(i + 1).drop_last() =~= bytes@.take(i as int));
            let ghost before = lines.deep_view();
            match self.push(bytes[i]) {
                Some(line) => {
                    let ghost bytes_of_line = line@;
                    assert(line.deep_view() =~= bytes_of_line);
                    lines.push(line);
                    assert(lines.deep_view() =~= before.push(bytes_of_line));
                },
                None => {},
            }
            i = i + 1;
        }
        assert(bytes@.take(bytes@.len() as int) =~= bytes@);
        lines
    }
}

} // verus!
