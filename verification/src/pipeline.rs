//! Storage-to-sync event pipeline.

use vstd::prelude::*;

use crate::text::string_texts;

verus! {

/// What a dispatch does next.
#[derive(Clone, Copy, Debug, PartialEq, Eq, Structural)]
pub enum DispatchStep {
    /// Append the Event at the index to the EventStore.
    Append(usize),
    /// Publish the Event at the index to the subscribers.
    Publish(usize),
    /// Every Event is stored and published.
    Done,
}

/// A failed dispatch.
#[derive(Debug, PartialEq, Eq)]
pub struct PipelineError {
    /// Which Event failed, and how.
    pub message: String,
}

/// The dispatch of a batch of Events: the complete batch is stored before any of it is published.
#[derive(Debug)]
pub struct PipelineAdapter {
    event_ids: Vec<String>,
    stored: usize,
    published: usize,
}

/// How far a dispatch has come.
pub struct DispatchView {
    /// The identifiers of the Events, in their order.
    pub event_ids: Seq<Seq<char>>,
    /// How many Events are stored.
    pub stored: int,
    /// How many Events are published.
    pub published: int,
}

impl View for PipelineAdapter {
    type V = DispatchView;

    closed spec fn view(&self) -> DispatchView {
        DispatchView {
            event_ids: string_texts(self.event_ids@),
            stored: self.stored as int,
            published: self.published as int,
        }
    }
}

/// What a dispatch does next.
pub open spec fn dispatch_step(dispatch: DispatchView) -> DispatchStep {
    if dispatch.stored < dispatch.event_ids.len() {
        DispatchStep::Append(dispatch.stored as usize)
    } else if dispatch.published < dispatch.event_ids.len() {
        DispatchStep::Publish(dispatch.published as usize)
    } else {
        DispatchStep::Done
    }
}

/// A dispatch after the step that it names was taken.
pub open spec fn after_step(dispatch: DispatchView) -> DispatchView {
    if dispatch.stored < dispatch.event_ids.len() {
        DispatchView { stored: dispatch.stored + 1, ..dispatch }
    } else {
        DispatchView { published: dispatch.published + 1, ..dispatch }
    }
}

/// What is told where the step that a dispatch names failed.
pub open spec fn step_failure(dispatch: DispatchView) -> Seq<char> {
    if dispatch.stored < dispatch.event_ids.len() {
        "event persistence failed for `"@ + dispatch.event_ids[dispatch.stored] + "`"@
    } else {
        "event publication failed for `"@ + dispatch.event_ids[dispatch.published] + "`"@
    }
}

impl PipelineAdapter {
    /// No more Events are stored or published than there are, and none is published before all are
    /// stored.
    pub closed spec fn well_formed(self) -> bool {
        &&& self.stored <= self.event_ids@.len()
        &&& self.published <= self.event_ids@.len()
        &&& self.published > 0 ==> self.stored == self.event_ids@.len()
    }

    /// Creates the dispatch of the Events with the identifiers.
    pub fn new(event_ids: Vec<String>) -> (r: PipelineAdapter)
        ensures
            r.well_formed(),
            r@ == (DispatchView {
                event_ids: string_texts(event_ids@),
                stored: 0,
                published: 0,
            }),
    {
        PipelineAdapter { event_ids, stored: 0, published: 0 }
    }

    /// Returns what the dispatch does next.
    pub fn next_step(&self) -> (r: DispatchStep)
        requires
            self.well_formed(),
        ensures
            r == dispatch_step(self@),
    {
        if self.stored < self.event_ids.len() {
            DispatchStep::Append(self.stored)
        } else if self.published < self.event_ids.len() {
            DispatchStep::Publish(self.published)
        } else {
            DispatchStep::Done
        }
    }

    /// Takes in whether the step succeeded. A failure ends the dispatch where it is.
    pub fn complete_step(&mut self, succeeded: bool) -> (r: Result<(), PipelineError>)
        requires
            old(self).well_formed(),
            !(dispatch_step(old(self)@) is Done),
        ensures
            final(self).well_formed(),
            match r {
                Ok(_) => succeeded && final(self)@ == after_step(old(self)@),
                Err(error) => !succeeded && final(self)@ == old(self)@ && error.message@
                    == step_failure(old(self)@),
            },
    {
        let ghost texts = string_texts(self.event_ids@);
        if self.stored < self.event_ids.len() {
            if !succeeded {
                assert(texts[self.stored as int] == self.event_ids@[self.stored as int]@);
                let message = "event persistence failed for `".to_owned().concat(
                    self.event_ids[self.stored].as_str(),
                ).concat("`");
                return Err(PipelineError { message });
            }
            self.stored = self.stored + 1;
        } else {
            if !succeeded {
                assert(texts[self.published as int] == self.event_ids@[self.published as int]@);
                let message = "event publication failed for `".to_owned().concat(
                    self.event_ids[self.published].as_str(),
                ).concat("`");
                return Err(PipelineError { message });
            }
            self.published = self.published + 1;
        }
        Ok(())
    }
}

/// A dispatch after `count` steps that all succeeded.
pub open spec fn after_steps(dispatch: DispatchView, count: nat) -> DispatchView
    decreases count,
{
    if count == 0 {
        dispatch
    } else {
        after_step(after_steps(dispatch, (count - 1) as nat))
    }
}

/// A dispatch of `n` Events first appends each of them in order, then publishes each of them in
/// order, and then is done: none is published before all are stored.
pub proof fn law_batch_is_stored_before_it_is_published(event_ids: Seq<Seq<char>>, count: nat)
    requires
        event_ids.len() <= usize::MAX,
        count <= 2 * event_ids.len(),
    ensures
        ({
            let start = DispatchView { event_ids, stored: 0, published: 0 };
            let dispatch = after_steps(start, count);
            let n = event_ids.len();
            &&& dispatch.event_ids == event_ids
            &&& dispatch.stored == if count < n {
                count as int
            } else {
                n as int
            }
            &&& dispatch.published == if count < n {
                0
            } else {
                count - n
            }
            &&& dispatch_step(dispatch) == if count < n {
                DispatchStep::Append(count as usize)
            } else if count < 2 * n {
                DispatchStep::Publish((count - n) as usize)
            } else {
                DispatchStep::Done
            }
        }),
    decreases count,
{
    if count > 0 {
        law_batch_is_stored_before_it_is_published(event_ids, (count - 1) as nat);
    }
}

/// What is told of a failed step: whether an Event could not be stored or not be published, and
/// which Event it was.
pub proof fn law_failed_steps_name_their_event(dispatch: DispatchView)
    requires
        0 <= dispatch.stored <= dispatch.event_ids.len() <= usize::MAX,
        0 <= dispatch.published <= dispatch.event_ids.len(),
    ensures
        dispatch_step(dispatch) matches DispatchStep::Append(index) ==> index == dispatch.stored
            && step_failure(dispatch) == "event persistence failed for `"@
            + dispatch.event_ids[index as int] + "`"@,
        dispatch_step(dispatch) matches DispatchStep::Publish(index) ==> index == dispatch.published
            && dispatch.stored == dispatch.event_ids.len() && step_failure(dispatch)
            == "event publication failed for `"@ + dispatch.event_ids[index as int] + "`"@,
        dispatch_step(dispatch) is Done <==> dispatch.stored == dispatch.event_ids.len()
            && dispatch.published == dispatch.event_ids.len(),
{
}

} // verus!
