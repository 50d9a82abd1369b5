//! The polling stream driver.
//!
//! On every interval tick the shell runs one query/response cycle and
//! reports its outcome; the driver turns that outcome into the next element
//! of the record stream. Exactly one case is soft: an end of stream (a
//! missing response frame) becomes a skip element and the stream goes on.
//! Every other failure is a terminal element that ends the stream. Records
//! pass through unchanged.
use crate::error::Error;
use crate::record::WeatherRecord;
use vstd::prelude::*;

verus! {

/// The outcome of one query/response cycle, as the shell reports it.
#[derive(Clone, Debug, PartialEq)]
pub enum PollOutcome {
    Record(WeatherRecord),
    EndOfStream,
    Failed(Error),
}

/// One element of the record stream the driver produces.
#[derive(Clone, Debug, PartialEq)]
pub enum StreamItem {
    Record(WeatherRecord),
    Skip,
    Terminal(Error),
}

/// The stream element one poll outcome maps to.
pub open spec fn spec_stream_item(o: PollOutcome) -> StreamItem {
    match o {
        PollOutcome::Record(rec) => StreamItem::Record(rec),
        PollOutcome::EndOfStream => StreamItem::Skip,
        PollOutcome::Failed(e) => StreamItem::Terminal(e),
    }
}

/// Whether a stream element ends the stream.
pub open spec fn spec_is_terminal(item: StreamItem) -> bool {
    item is Terminal
}

/// The stream a run of poll outcomes produces: each outcome's element in
/// order, cut off after the first terminal element.
pub open spec fn spec_stream_items(outcomes: Seq<PollOutcome>) -> Seq<StreamItem>
    decreases outcomes.len(),
{
    if outcomes.len() == 0 {
        Seq::empty()
    } else {
        let item = spec_stream_item(outcomes[0]);
        if spec_is_terminal(item) {
            seq![item]
        } else {
            seq![item] + spec_stream_items(outcomes.drop_first())
        }
    }
}

/// Maps the outcome of one polling cycle to the next stream element.
pub fn next_stream_item(outcome: PollOutcome) -> (item: StreamItem)
    ensures
        item == spec_stream_item(outcome),
{
    match outcome {
        PollOutcome::Record(rec) => StreamItem::Record(rec),
        PollOutcome::EndOfStream => StreamItem::Skip,
        PollOutcome::Failed(e) => StreamItem::Terminal(e),
    }
}

/// Runs the driver over a finite log of poll outcomes: the stream of their
/// elements, ending early at the first terminal element.
pub fn drive_all(outcomes: Vec<PollOutcome>) -> (items: Vec<StreamItem>)
    ensures
        items@ == spec_stream_items(outcomes@),
{
    let ghost orig = outcomes@;
    let mut rest = outcomes;
    let mut items: Vec<StreamItem> = Vec::new();
    let mut done = false;
    while !done && rest.len() > 0
        invariant
            !done ==> spec_stream_items(orig) =~= items@ + spec_stream_items(rest@),
            done ==> spec_stream_items(orig) =~= items@,
        decreases rest@.len(),
    {
        let ghost before = rest@;
        let outcome = rest.remove(0);
        assert(before[0] == outcome && rest@ == before.drop_first());
        let item = next_stream_item(outcome);
        let terminal = match &item {
            StreamItem::Terminal(_) => true,
            _ => false,
        };
        items.push(item);
        if terminal {
            assert(spec_stream_items(before) =~= seq![item]);
            done = true;
            assert(items@ =~= spec_stream_items(orig));
        } else {
            assert(spec_stream_items(before) =~= seq![item] + spec_stream_items(rest@));
            assert(items@ + spec_stream_items(rest@) =~= spec_stream_items(orig));
        }
    }
    assert(items@ =~= spec_stream_items(orig));
    items
}

/// A session that only ever reports end of stream yields one skip element
/// per tick, without end: the stream never terminates on its own.
pub proof fn lemma_end_of_stream_only_skips(outcomes: Seq<PollOutcome>)
    requires
        forall|i: int| 0 <= i < outcomes.len() ==> outcomes[i] == PollOutcome::EndOfStream,
    ensures
        spec_stream_items(outcomes).len() == outcomes.len(),
        forall|i: int| 0 <= i < outcomes.len() ==> spec_stream_items(outcomes)[i]
            == StreamItem::Skip,
    decreases outcomes.len(),
{
    if outcomes.len() > 0 {
        assert(outcomes[0] == PollOutcome::EndOfStream);
        lemma_end_of_stream_only_skips(outcomes.drop_first());
    }
}

/// A terminal element ends the stream: it can stand only as the last
/// element, so every element before it is a record or a skip.
pub proof fn lemma_terminal_ends_stream(outcomes: Seq<PollOutcome>)
    ensures
        spec_stream_items(outcomes).len() <= outcomes.len(),
        forall|i: int| 0 <= i < spec_stream_items(outcomes).len() - 1 ==> !spec_is_terminal(
            #[trigger] spec_stream_items(outcomes)[i],
        ),
    decreases outcomes.len(),
{
    if outcomes.len() > 0 {
        lemma_terminal_ends_stream(outcomes.drop_first());
    }
}

} // verus!
