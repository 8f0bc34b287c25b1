//! The image-pull pipeline: the engine's lazy stream of progress items is
//! forwarded item by item onto the UI channel, in stream order, verbatim,
//! until the stream ends or yields its first error.
//!
//! The surrounding process owns the stream and the channel; it hands each
//! arriving item to `pull_step` and acts on the decision, so no batching
//! and no dropping can happen between the two. `pull_run` is the same
//! pipeline over a whole sequence of items at once.

use vstd::prelude::*;
use crate::engine::classify_error;
use crate::errors::{error_wf, lemma_error_totality, map_error, ErrorKind, StructuredError};

verus! {

/// The decision for one progress item: forward this payload on the UI
/// channel and keep consuming, or stop consuming and surface this error.
pub enum PullStep<T> {
    Forward(T),
    Fail(StructuredError),
}

/// The payloads the pipeline forwards for a stream: every successful
/// payload before the first error, in stream order.
pub open spec fn emitted_prefix<T>(items: Seq<Result<T, bollard::errors::Error>>) -> Seq<T>
    decreases items.len(),
{
    if items.len() == 0 {
        Seq::empty()
    } else if items[0] is Ok {
        seq![items[0]->Ok_0] + emitted_prefix(items.skip(1))
    } else {
        Seq::empty()
    }
}

/// Whether a stream runs to its natural end without an error item.
pub open spec fn pull_clean<T>(items: Seq<Result<T, bollard::errors::Error>>) -> bool {
    forall|i: int| 0 <= i < items.len() ==> items[i] is Ok
}

/// Decides one progress item: a successful item's payload is forwarded
/// verbatim; an error item stops the pull with the mapped error, which is
/// always well formed and never the no-connection kind.
pub fn pull_step<T>(item: Result<T, bollard::errors::Error>) -> (r: PullStep<T>)
    ensures
        item matches Ok(v) ==> r == PullStep::Forward(v),
        item is Err ==> (r matches PullStep::Fail(e) && error_wf(e) && e.kind
            != ErrorKind::NoConnection),
{
    match item {
        Ok(v) => PullStep::Forward(v),
        Err(err) => {
            let te = classify_error(err);
            proof {
                lemma_error_totality(te);
            }
            PullStep::Fail(map_error(te))
        },
    }
}

/// The whole pipeline over a sequence of progress items: returns the
/// payloads forwarded to the UI, in order, and the error that stopped the
/// pull, or `None` when the stream was clean.
pub fn pull_run<T>(items: Vec<Result<T, bollard::errors::Error>>) -> (r: (
    Vec<T>,
    Option<StructuredError>,
))
    ensures
        r.0@ == emitted_prefix(items@),
        r.1 is None <==> pull_clean(items@),
        r.1 matches Some(e) ==> error_wf(e) && e.kind != ErrorKind::NoConnection,
{
    let ghost orig = items@;
    let mut rest = items;
    let mut emitted: Vec<T> = Vec::new();
    let mut failure: Option<StructuredError> = None;
    while failure.is_none() && rest.len() > 0
        invariant
            failure is None ==> emitted_prefix(orig) == emitted@ + emitted_prefix(rest@),
            failure is None ==> (pull_clean(orig) <==> pull_clean(rest@)),
            failure matches Some(e) ==> emitted@ == emitted_prefix(orig) && !pull_clean(orig)
                && error_wf(e) && e.kind != ErrorKind::NoConnection,
        decreases rest@.len(),
    {
        let ghost prev = rest@;
        let item = rest.remove(0);
        proof {
            assert(rest@ =~= prev.skip(1));
        }
        match pull_step(item) {
            PullStep::Forward(v) => {
                proof {
                    assert(emitted_prefix(prev) =~= seq![prev[0]->Ok_0] + emitted_prefix(
                        prev.skip(1),
                    ));
                    assert(emitted@ + emitted_prefix(prev) =~= (emitted@ + seq![prev[0]->Ok_0])
                        + emitted_prefix(prev.skip(1)));
                    if pull_clean(prev.skip(1)) {
                        assert forall|i: int| 0 <= i < prev.len() implies prev[i] is Ok by {
                            if i > 0 {
                                assert(prev[i] == prev.skip(1)[i - 1]);
                            }
                        }
                    }
                }
                emitted.push(v);
            },
            PullStep::Fail(e) => {
                proof {
                    assert(emitted_prefix(prev) =~= Seq::<T>::empty());
                    assert(emitted@ + emitted_prefix(prev) =~= emitted@);
                    assert(!pull_clean(prev));
                }
                failure = Some(e);
            },
        }
    }
    proof {
        if failure is None {
            assert(emitted_prefix(rest@) =~= Seq::<T>::empty());
            assert(emitted@ + emitted_prefix(rest@) =~= emitted@);
        }
    }
    (emitted, failure)
}

/// Pull ordering: the payloads the pipeline forwards are exactly the
/// stream's successful payloads up to its first error, each identical to
/// its item's payload and in stream order, and a clean stream is
/// forwarded in full.
pub proof fn lemma_pull_ordering<T>(items: Seq<Result<T, bollard::errors::Error>>)
    ensures
        emitted_prefix(items).len() <= items.len(),
        forall|i: int| 0 <= i < emitted_prefix(items).len() ==> #[trigger] items[i] is Ok,
        forall|i: int|
            0 <= i < emitted_prefix(items).len() ==> #[trigger] emitted_prefix(items)[i]
                == items[i]->Ok_0,
        pull_clean(items) ==> emitted_prefix(items).len() == items.len(),
    decreases items.len(),
{
    if items.len() > 0 && items[0] is Ok {
        let rest = items.skip(1);
        lemma_pull_ordering(rest);
        assert(emitted_prefix(items) =~= seq![items[0]->Ok_0] + emitted_prefix(rest));
        assert forall|i: int| 0 <= i < emitted_prefix(items).len() implies #[trigger] items[i] is Ok
            && emitted_prefix(items)[i] == items[i]->Ok_0 by {
            if i > 0 {
                assert(rest[i - 1] is Ok);
                assert(emitted_prefix(rest)[i - 1] == rest[i - 1]->Ok_0);
                assert(items[i] == rest[i - 1]);
            }
        }
        if pull_clean(items) {
            assert forall|i: int| 0 <= i < rest.len() implies #[trigger] rest[i] is Ok by {
                assert(rest[i] == items[i + 1]);
            }
        }
    }
}

} // verus!
