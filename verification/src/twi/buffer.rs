//! Where the bytes of a transfer come from and go to.
use vstd::prelude::*;

verus! {

/// A source of the bytes to send.
pub trait OutputBuffer {
    /// The bytes that have not been sent yet.
    spec fn pending(&self) -> Seq<u8>;

    /// The next byte to send, or `None` when all have been sent.
    fn next(&mut self) -> (byte: Option<u8>)
        ensures
            old(self).pending().len() == 0 ==> {
                &&& byte is None
                &&& final(self).pending() == old(self).pending()
            },
            old(self).pending().len() > 0 ==> {
                &&& byte == Some(old(self).pending()[0])
                &&& final(self).pending() == old(self).pending().subrange(
                    1,
                    old(self).pending().len() as int,
                )
            },
    ;
}

/// A place for the bytes received.
pub trait InputBuffer {
    /// The bytes received so far.
    spec fn received(&self) -> Seq<u8>;

    /// The number of bytes that the buffer still has room for.
    spec fn room(&self) -> nat;

    /// Stores a byte received; a buffer without room drops it.
    fn push(&mut self, byte: u8)
        ensures
            old(self).room() > 0 ==> {
                &&& final(self).received() == old(self).received().push(byte)
                &&& final(self).room() == old(self).room() - 1
            },
            old(self).room() == 0 ==> {
                &&& final(self).received() == old(self).received()
                &&& final(self).room() == 0
            },
    ;

    /// Whether the buffer has room for exactly one more byte.
    fn is_last(&mut self) -> (last: bool)
        ensures
            last == (old(self).room() == 1),
            final(self).received() == old(self).received(),
            final(self).room() == old(self).room(),
    ;
}

/// The bytes of a slice, to be sent first to last.
pub struct SliceOutputBuffer<'a> {
    slice: &'a [u8],
    index: usize,
}

impl<'a> SliceOutputBuffer<'a> {
    /// The invariant of the representation.
    pub closed spec fn wf(&self) -> bool {
        self.index <= self.slice@.len()
    }

    /// A buffer that sends the bytes of `slice`.
    pub fn new(slice: &'a [u8]) -> (buffer: Self)
        ensures
            buffer.wf(),
            buffer.pending() == slice@,
    {
        let buffer = SliceOutputBuffer { slice, index: 0 };
        assert(buffer.pending() =~= slice@);
        buffer
    }
}

impl<'a> OutputBuffer for SliceOutputBuffer<'a> {
    closed spec fn pending(&self) -> Seq<u8> {
        if self.index <= self.slice@.len() {
            self.slice@.subrange(self.index as int, self.slice@.len() as int)
        } else {
            Seq::empty()
        }
    }

    fn next(&mut self) -> (byte: Option<u8>) {
        if self.index < self.slice.len() {
            let byte = self.slice[self.index];
            self.index += 1;
            assert(self.pending() =~= old(self).pending().subrange(
                1,
                old(self).pending().len() as int,
            ));
            Some(byte)
        } else {
            None
        }
    }
}

/// What turns into a source of bytes to send.
pub trait IntoOutputBuffer {
    /// The source it turns into.
    type Buffer: OutputBuffer;

    /// The source of the bytes.
    fn into_output_buffer(self) -> Self::Buffer;
}

impl<'a> IntoOutputBuffer for &'a [u8] {
    type Buffer = SliceOutputBuffer<'a>;

    fn into_output_buffer(self) -> (buffer: SliceOutputBuffer<'a>)
        ensures
            buffer.wf(),
            buffer.pending() == self@,
    {
        SliceOutputBuffer::new(self)
    }
}

/// A slice to be filled with the bytes received, first to last.
pub struct SliceInputBuffer<'a> {
    slice: &'a mut [u8],
    index: usize,
}

impl<'a> SliceInputBuffer<'a> {
    /// A buffer that fills `slice`.
    pub fn new(slice: &'a mut [u8]) -> (buffer: Self)
        ensures
            buffer.received() == Seq::<u8>::empty(),
            buffer.room() == old(slice)@.len(),
    {
        let buffer = SliceInputBuffer { slice, index: 0 };
        assert(buffer.received() =~= Seq::<u8>::empty());
        buffer
    }
}

impl<'a> InputBuffer for SliceInputBuffer<'a> {
    closed spec fn received(&self) -> Seq<u8> {
        if self.index <= self.slice@.len() {
            self.slice@.subrange(0, self.index as int)
        } else {
            self.slice@
        }
    }

    closed spec fn room(&self) -> nat {
        if self.index <= self.slice@.len() {
            (self.slice@.len() - self.index) as nat
        } else {
            0
        }
    }

    fn push(&mut self, byte: u8) {
        if self.index < self.slice.len() {
            self.slice[self.index] = byte;
            self.index += 1;
            assert(self.received() =~= old(self).received().push(byte));
        }
    }

    fn is_last(&mut self) -> (last: bool) {
        self.index < self.slice.len() && self.slice.len() - self.index == 1
    }
}

/// What turns into a place for bytes received.
pub trait IntoInputBuffer {
    /// The place it turns into.
    type Buffer: InputBuffer;

    /// The place for the bytes.
    fn into_input_buffer(self) -> Self::Buffer;
}

impl<'a> IntoInputBuffer for &'a mut [u8] {
    type Buffer = SliceInputBuffer<'a>;

    fn into_input_buffer(self) -> (buffer: SliceInputBuffer<'a>)
        ensures
            buffer.received() == Seq::<u8>::empty(),
            buffer.room() == old(self)@.len(),
    {
        SliceInputBuffer::new(self)
    }
}

} // verus!
