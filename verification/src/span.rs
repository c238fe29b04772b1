//! A cursor over the bytes that are still to be decoded.

use vstd::prelude::*;
use vstd::slice::slice_subrange;

verus! {

/// The mathematical content of a [`Span`]: the bytes not yet consumed and the
/// distance of the first of them from the start of the whole buffer.
pub struct SpanView {
    pub offset: nat,
    pub bytes: Seq<u8>,
}

impl SpanView {
    /// The number of bytes left.
    pub open spec fn len(self) -> nat {
        self.bytes.len()
    }

    /// The cursor after `count` bytes have been consumed.
    pub open spec fn skip(self, count: nat) -> SpanView {
        SpanView { offset: self.offset + count, bytes: self.bytes.skip(count as int) }
    }

    /// The cursor restricted to its first `count` bytes.
    pub open spec fn take(self, count: nat) -> SpanView {
        SpanView { offset: self.offset, bytes: self.bytes.take(count as int) }
    }

    /// The bytes of the cursor lie among those of `outer`, by their offsets
    /// in the whole buffer.
    pub open spec fn within(self, outer: SpanView) -> bool {
        outer.offset <= self.offset && self.offset + self.len() <= outer.offset + outer.len()
    }

    /// The cursor ends where `outer` ends, by their offsets in the whole
    /// buffer.
    pub open spec fn reaches_the_end_of(self, outer: SpanView) -> bool {
        self.offset + self.len() == outer.offset + outer.len()
    }

    /// Consuming `first` bytes and then `second` is consuming their sum.
    pub proof fn lemma_skip_skip(self, first: nat, second: nat)
        requires
            first + second <= self.len(),
        ensures
            self.skip(first).skip(second) == self.skip(first + second),
    {
        assert(self.skip(first).skip(second).bytes =~= self.skip(first + second).bytes);
    }

    /// The first `count` bytes behind `first` consumed ones are a subrange
    /// of the bytes of the cursor itself.
    pub proof fn lemma_skip_take(self, first: nat, count: nat)
        requires
            first + count <= self.len(),
        ensures
            self.skip(first).take(count).bytes == self.bytes.subrange(
                first as int,
                first + count as int,
            ),
    {
    }
}

/// An immutable view of the input that remains, together with the absolute
/// offset of that input in the buffer the first cursor was made from.
///
/// A cursor is a plain value: decoders take one and hand back another, and
/// the bytes themselves are never copied or changed.
#[derive(Clone, Copy, Debug, PartialEq, Eq)]
pub struct Span<'a> {
    offset: usize,
    fragment: &'a [u8],
}

impl<'a> View for Span<'a> {
    type V = SpanView;

    closed spec fn view(&self) -> SpanView {
        SpanView { offset: self.offset as nat, bytes: self.fragment@ }
    }
}

impl<'a> Span<'a> {
    /// The end of the remaining input is still an offset that fits in `usize`.
    #[verifier::type_invariant]
    spec fn well_formed(self) -> bool {
        self.offset + self.fragment@.len() <= usize::MAX
    }

    /// A cursor at the start of `buffer`.
    pub fn new(buffer: &'a [u8]) -> (span: Span<'a>)
        ensures
            span@ == (SpanView { offset: 0, bytes: buffer@ }),
    {
        assert(buffer.len() <= usize::MAX);
        Span { offset: 0, fragment: buffer }
    }

    /// A cursor over `fragment`, which lies `offset` bytes behind the start
    /// of the whole buffer. There is none when the end of `fragment`
    /// would lie at an offset beyond `usize::MAX`.
    pub fn new_from_offset(offset: usize, fragment: &'a [u8]) -> (span: Option<Span<'a>>)
        ensures
            match span {
                Some(span) => span@ == (SpanView { offset: offset as nat, bytes: fragment@ }),
                None => offset + fragment@.len() > usize::MAX,
            },
    {
        if offset > usize::MAX - fragment.len() {
            None
        } else {
            Some(Span { offset, fragment })
        }
    }

    /// The distance of the cursor from the start of the whole buffer.
    pub fn location_offset(&self) -> (offset: usize)
        ensures
            offset == self@.offset,
    {
        self.offset
    }

    /// The bytes that remain.
    pub fn fragment(&self) -> (bytes: &'a [u8])
        ensures
            bytes@ == self@.bytes,
    {
        self.fragment
    }

    /// The number of bytes that remain.
    pub fn len(&self) -> (len: usize)
        ensures
            len == self@.len(),
    {
        self.fragment.len()
    }

    /// Whether nothing remains.
    pub fn is_empty(&self) -> (empty: bool)
        ensures
            empty == (self@.len() == 0),
    {
        self.fragment.len() == 0
    }

    /// Splits the cursor after `count` bytes: the first result is what
    /// follows them, the second is the `count` bytes themselves. Both keep
    /// their absolute offsets.
    pub fn take_split(&self, count: usize) -> (parts: (Span<'a>, Span<'a>))
        requires
            count <= self@.len(),
        ensures
            parts.0@ == self@.skip(count as nat),
            parts.1@ == self@.take(count as nat),
    {
        proof {
            use_type_invariant(self);
        }
        let head = slice_subrange(self.fragment, 0, count);
        let rest = slice_subrange(self.fragment, count, self.fragment.len());
        (
            Span { offset: self.offset + count, fragment: rest },
            Span { offset: self.offset, fragment: head },
        )
    }
}

} // verus!
