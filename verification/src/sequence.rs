//! Decoding a section that holds nothing but records of one kind, one after
//! another, until the section is used up.

use crate::error::failure_within;
use crate::error::Located;
use crate::error::ParseFailure;
use crate::span::Span;
use crate::span::SpanView;
use vstd::prelude::*;

verus! {

/// Why a section of records could not be decoded.
#[derive(Clone, Debug, PartialEq, Eq)]
pub enum SequenceFailure<'a, E> {
    /// The record decoder returned a record without consuming a byte. The
    /// cursor is the one it was called at.
    NoProgress(Span<'a>),
    /// The record decoder failed.
    Record(ParseFailure<E>),
}

/// The mathematical content of a [`SequenceFailure`].
pub enum SequenceFailureView<E> {
    NoProgress(SpanView),
    Record(ParseFailure<E>),
}

impl<'a, E: View> View for SequenceFailure<'a, E> {
    type V = SequenceFailureView<E::V>;

    open spec fn view(&self) -> SequenceFailureView<E::V> {
        match *self {
            SequenceFailure::NoProgress(at) => SequenceFailureView::NoProgress(at@),
            SequenceFailure::Record(failure) => SequenceFailureView::Record(failure@),
        }
    }
}

/// `items` are records that `parse_one` has decoded one after another from
/// `start`, each from a non-empty cursor and each consuming at least one
/// byte; `positions` are the cursors it was called at, in order, followed by
/// the cursor that the last call returned.
pub open spec fn decoded_in_turn<'a, T, E, F>(
    parse_one: F,
    start: Span<'a>,
    positions: Seq<Span<'a>>,
    items: Seq<T>,
) -> bool where F: Fn(Span<'a>) -> Result<(Span<'a>, T), ParseFailure<E>> {
    &&& positions.len() == items.len() + 1
    &&& positions[0] == start
    &&& forall|i: int|
        #![trigger items[i]]
        0 <= i < items.len() ==> {
            &&& call_ensures(
                parse_one,
                (positions[i],),
                Ok::<(Span<'a>, T), ParseFailure<E>>((positions[i + 1], items[i])),
            )
            &&& positions[i + 1]@.len() < positions[i]@.len()
        }
}

/// `parse_one`, called at `at`, may return the record `item` and the cursor
/// `next`, which is no shorter than `at`.
pub open spec fn returns_without_progress<'a, T, E, F>(
    parse_one: F,
    at: Span<'a>,
    next: Span<'a>,
    item: T,
) -> bool where F: Fn(Span<'a>) -> Result<(Span<'a>, T), ParseFailure<E>> {
    &&& call_ensures(parse_one, (at,), Ok::<(Span<'a>, T), ParseFailure<E>>((next, item)))
    &&& next@.len() >= at@.len()
}

/// What `parse_till_empty` may return for a section `buf` whose records are
/// decoded by `parse_one`.
///
/// - `Ok`: the records were decoded in turn and the last call left nothing.
/// - `Record`: some records were decoded in turn, input was left, and the
///   next call failed with the failure that is handed on unchanged.
/// - `NoProgress`: some records were decoded in turn, input was left, and
///   the next call returned a record and a cursor that is no shorter than
///   the one it was given.
pub open spec fn till_empty_outcome<'a, T, E, F>(
    parse_one: F,
    buf: Span<'a>,
    r: Result<(Span<'a>, Vec<T>), SequenceFailure<'a, E>>,
) -> bool where F: Fn(Span<'a>) -> Result<(Span<'a>, T), ParseFailure<E>> {
    match r {
        Ok((rest, items)) => exists|positions: Seq<Span<'a>>|
            {
                &&& #[trigger] decoded_in_turn(parse_one, buf, positions, items@)
                &&& positions.last() == rest
                &&& rest@.len() == 0
            },
        Err(SequenceFailure::Record(failure)) => exists|positions: Seq<Span<'a>>, items: Seq<T>|
            {
                &&& #[trigger] decoded_in_turn(parse_one, buf, positions, items)
                &&& positions.last()@.len() > 0
                &&& call_ensures(
                    parse_one,
                    (positions.last(),),
                    Err::<(Span<'a>, T), ParseFailure<E>>(failure),
                )
            },
        Err(SequenceFailure::NoProgress(at)) => {
            &&& at@.len() > 0
            &&& exists|positions: Seq<Span<'a>>, items: Seq<T>|
                {
                    &&& #[trigger] decoded_in_turn(parse_one, buf, positions, items)
                    &&& positions.last() == at
                }
            &&& exists|next: Span<'a>, item: T|
                #[trigger] returns_without_progress(parse_one, at, next, item)
        },
    }
}

/// Decodes records with `parse_one` until `buf` is used up, and returns them
/// in wire order with the empty cursor behind the last one. An empty `buf`
/// gives no records.
///
/// A record that fails fails the section: the records decoded before it are
/// dropped. So does a record that consumes nothing, which would otherwise be
/// decoded again and again.
pub fn parse_till_empty<'a, T, E, F>(buf: Span<'a>, parse_one: F) -> (r: Result<
    (Span<'a>, Vec<T>),
    SequenceFailure<'a, E>,
>) where F: Fn(Span<'a>) -> Result<(Span<'a>, T), ParseFailure<E>>
    requires
        forall|at: Span<'a>| at@.len() > 0 ==> call_requires(parse_one, (at,)),
    ensures
        till_empty_outcome(parse_one, buf, r),
{
    let mut cur = buf;
    let mut items: Vec<T> = Vec::new();
    let ghost mut positions: Seq<Span<'a>> = seq![buf];
    while !cur.is_empty()
        invariant
            forall|at: Span<'a>| at@.len() > 0 ==> call_requires(parse_one, (at,)),
            decoded_in_turn(parse_one, buf, positions, items@),
            positions.last() == cur,
        decreases cur@.len(),
    {
        match parse_one(cur) {
            Err(failure) => {
                return Err(SequenceFailure::Record(failure));
            },
            Ok((next, item)) => {
                if next.len() >= cur.len() {
                    let stalled = Err(SequenceFailure::NoProgress(cur));
                    assert(till_empty_outcome(parse_one, buf, stalled)) by {
                        assert(returns_without_progress(parse_one, cur, next, item));
                    }
                    return stalled;
                }
                proof {
                    positions = positions.push(next);
                }
                items.push(item);
                cur = next;
            },
        }
    }
    let done = Ok((cur, items));
    assert(till_empty_outcome(parse_one, buf, done)) by {
        assert(decoded_in_turn(parse_one, buf, positions, done->Ok_0.1@));
    }
    done
}

/// An outcome of decoding a section, with `first` put before its records.
pub open spec fn after<T, E>(first: Seq<T>, outcome: Result<(SpanView, Seq<T>), E>) -> Result<
    (SpanView, Seq<T>),
    E,
> {
    match outcome {
        Ok((rest, items)) => Ok((rest, first + items)),
        Err(failure) => Err(failure),
    }
}

/// The outcome of decoding the section `buf` when one record is decoded as
/// `step` says: the records in wire order with the empty cursor behind the
/// last one, or the failure of the first record that fails, or `NoProgress`
/// at the first record that consumes nothing.
pub open spec fn repeat_spec<T, E>(
    step: spec_fn(SpanView) -> Result<(SpanView, T), ParseFailure<E>>,
    buf: SpanView,
) -> Result<(SpanView, Seq<T>), SequenceFailureView<E>>
    decreases buf.len(),
{
    if buf.len() == 0 {
        Ok((buf, Seq::empty()))
    } else {
        match step(buf) {
            Err(failure) => Err(SequenceFailureView::Record(failure)),
            Ok((next, item)) => if next.len() >= buf.len() {
                Err(SequenceFailureView::NoProgress(buf))
            } else {
                after(seq![item], repeat_spec(step, next))
            },
        }
    }
}

/// What one call of a record decoder returned, with cursors and errors
/// replaced by their views and the record by what `model` makes of it.
pub open spec fn step_view<'a, T, E: View, U>(
    out: Result<(Span<'a>, T), ParseFailure<E>>,
    model: spec_fn(T) -> U,
) -> Result<(SpanView, U), ParseFailure<E::V>> {
    match out {
        Ok((next, item)) => Ok((next@, model(item))),
        Err(failure) => Err(failure@),
    }
}

/// What `parse_till_empty` returned, with cursors and errors replaced by
/// their views and each record by what `model` makes of it.
pub open spec fn sequence_view<'a, T, E: View, U>(
    r: Result<(Span<'a>, Vec<T>), SequenceFailure<'a, E>>,
    model: spec_fn(T) -> U,
) -> Result<(SpanView, Seq<U>), SequenceFailureView<E::V>> {
    match r {
        Ok((rest, items)) => Ok((rest@, items@.map_values(model))),
        Err(failure) => Err(failure@),
    }
}

/// `parse_one` decodes a record as `step` says.
pub open spec fn decodes_as<'a, T, E: View, U, F>(
    parse_one: F,
    step: spec_fn(SpanView) -> Result<(SpanView, U), ParseFailure<E::V>>,
    model: spec_fn(T) -> U,
) -> bool where F: Fn(Span<'a>) -> Result<(Span<'a>, T), ParseFailure<E>> {
    forall|at: Span<'a>, out: Result<(Span<'a>, T), ParseFailure<E>>| #[trigger]
        call_ensures(parse_one, (at,), out) ==> step_view(out, model) == step(at@)
}

/// The records from `from` on take the section from the cursor at which
/// record `from` was decoded to the cursor behind the last record.
proof fn lemma_decoded_in_turn<'a, T, E: View, U, F>(
    parse_one: F,
    start: Span<'a>,
    positions: Seq<Span<'a>>,
    items: Seq<T>,
    step: spec_fn(SpanView) -> Result<(SpanView, U), ParseFailure<E::V>>,
    model: spec_fn(T) -> U,
    from: int,
) where F: Fn(Span<'a>) -> Result<(Span<'a>, T), ParseFailure<E>>
    requires
        decoded_in_turn(parse_one, start, positions, items),
        decodes_as(parse_one, step, model),
        0 <= from <= items.len(),
    ensures
        repeat_spec(step, positions[from]@) == after(
            items.map_values(model).skip(from),
            repeat_spec(step, positions.last()@),
        ),
    decreases items.len() - from,
{
    if from < items.len() {
        lemma_decoded_in_turn(parse_one, start, positions, items, step, model, from + 1);
        let models = items.map_values(model);
        if let Ok((_, tail)) = repeat_spec(step, positions.last()@) {
            assert(seq![model(items[from])] + (models.skip(from + 1) + tail) =~= models.skip(from)
                + tail);
        }
    }
}

/// When the record decoder is a function of the bytes it is given, so is
/// `parse_till_empty`: its result is the one that `repeat_spec` gives.
pub proof fn lemma_till_empty_decodes_as<'a, T, E: View, U, F>(
    parse_one: F,
    buf: Span<'a>,
    r: Result<(Span<'a>, Vec<T>), SequenceFailure<'a, E>>,
    step: spec_fn(SpanView) -> Result<(SpanView, U), ParseFailure<E::V>>,
    model: spec_fn(T) -> U,
) where F: Fn(Span<'a>) -> Result<(Span<'a>, T), ParseFailure<E>>
    requires
        till_empty_outcome(parse_one, buf, r),
        decodes_as(parse_one, step, model),
    ensures
        sequence_view(r, model) == repeat_spec(step, buf@),
{
    match r {
        Ok((rest, items)) => {
            let positions = choose|positions: Seq<Span<'a>>|
                {
                    &&& #[trigger] decoded_in_turn(parse_one, buf, positions, items@)
                    &&& positions.last() == rest
                    &&& rest@.len() == 0
                };
            lemma_decoded_in_turn(parse_one, buf, positions, items@, step, model, 0);
            assert(items@.map_values(model).skip(0) =~= items@.map_values(model));
        },
        Err(SequenceFailure::Record(failure)) => {
            let (positions, items) = choose|positions: Seq<Span<'a>>, items: Seq<T>|
                {
                    &&& #[trigger] decoded_in_turn(parse_one, buf, positions, items)
                    &&& positions.last()@.len() > 0
                    &&& call_ensures(
                        parse_one,
                        (positions.last(),),
                        Err::<(Span<'a>, T), ParseFailure<E>>(failure),
                    )
                };
            lemma_decoded_in_turn(parse_one, buf, positions, items, step, model, 0);
        },
        Err(SequenceFailure::NoProgress(at)) => {
            let (positions, items) = choose|positions: Seq<Span<'a>>, items: Seq<T>|
                {
                    &&& #[trigger] decoded_in_turn(parse_one, buf, positions, items)
                    &&& positions.last() == at
                };
            let (next, item) = choose|next: Span<'a>, item: T| #[trigger]
                returns_without_progress(parse_one, at, next, item);
            lemma_decoded_in_turn(parse_one, buf, positions, items, step, model, 0);
        },
    }
}

/// A section that decodes is used up: the cursor behind its records is
/// empty.
pub proof fn lemma_repeat_leaves_nothing<T, E>(
    step: spec_fn(SpanView) -> Result<(SpanView, T), ParseFailure<E>>,
    buf: SpanView,
)
    ensures
        repeat_spec(step, buf) matches Ok((rest, _)) ==> rest.len() == 0,
    decreases buf.len(),
{
    if buf.len() > 0 {
        if let Ok((next, _)) = step(buf) {
            if next.len() < buf.len() {
                lemma_repeat_leaves_nothing(step, next);
            }
        }
    }
}

/// A record that is returned without a byte consumed is not decoded again:
/// the section fails with `NoProgress` at the cursor of that record.
pub proof fn lemma_repeat_rejects_a_stalled_record<T, E>(
    step: spec_fn(SpanView) -> Result<(SpanView, T), ParseFailure<E>>,
    buf: SpanView,
)
    requires
        buf.len() > 0,
        step(buf) matches Ok((next, _)) && next.len() >= buf.len(),
    ensures
        repeat_spec(step, buf) == Err::<(SpanView, Seq<T>), SequenceFailureView<E>>(
            SequenceFailureView::NoProgress(buf),
        ),
{
}

/// With a record decoder that consumes at least one byte for each record
/// that it decodes from a cursor that is not empty, a section never fails
/// with `NoProgress`.
pub proof fn lemma_repeat_with_progress<T, E>(
    step: spec_fn(SpanView) -> Result<(SpanView, T), ParseFailure<E>>,
    buf: SpanView,
)
    requires
        forall|at: SpanView|
            at.len() > 0 ==> ((#[trigger] step(at)) matches Ok((next, _)) ==> next.len()
                < at.len()),
    ensures
        !(repeat_spec(step, buf) matches Err(SequenceFailureView::NoProgress(_))),
    decreases buf.len(),
{
    if buf.len() > 0 {
        if let Ok((next, _)) = step(buf) {
            lemma_repeat_with_progress(step, next);
        }
    }
}

/// When the record decoder returns cursors and located errors that lie
/// within the cursor it was given, whatever a section returns lies within
/// the section.
pub proof fn lemma_repeat_stays_within<T, E>(
    step: spec_fn(SpanView) -> Result<(SpanView, T), ParseFailure<Located<E>>>,
    buf: SpanView,
)
    requires
        forall|at: SpanView|
            match #[trigger] step(at) {
                Ok((next, _)) => next.within(at),
                Err(failure) => failure_within(failure, at),
            },
    ensures
        match repeat_spec(step, buf) {
            Ok((rest, _)) => rest.within(buf),
            Err(SequenceFailureView::Record(failure)) => failure_within(failure, buf),
            Err(SequenceFailureView::NoProgress(at)) => at.within(buf),
        },
    decreases buf.len(),
{
    if buf.len() > 0 {
        if let Ok((next, _)) = step(buf) {
            if next.len() < buf.len() {
                lemma_repeat_stays_within(step, next);
            }
        }
    }
}

/// When the record decoder returns cursors that end where the cursor it was
/// given ends, the cursor behind the records of a section lies at the end of
/// the section.
pub proof fn lemma_repeat_reaches_the_end<T, E>(
    step: spec_fn(SpanView) -> Result<(SpanView, T), ParseFailure<E>>,
    buf: SpanView,
)
    requires
        forall|at: SpanView|
            (#[trigger] step(at)) matches Ok((next, _)) ==> next.reaches_the_end_of(at),
    ensures
        repeat_spec(step, buf) matches Ok((rest, _)) ==> rest.len() == 0 && rest.offset
            == buf.offset + buf.len(),
    decreases buf.len(),
{
    if buf.len() > 0 {
        if let Ok((next, _)) = step(buf) {
            if next.len() < buf.len() {
                lemma_repeat_reaches_the_end(step, next);
            }
        }
    }
}

} // verus!
