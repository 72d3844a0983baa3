//! The ingestion pipeline as a state machine. One consumer feeds it one
//! capture or text selection at a time and performs each action it returns
//! (extract, signal that a card is being generated, generate, persist,
//! announce); the outcome of that action is the next input. A failure at any
//! stage drops the event and leaves the machine idle, exactly as before the
//! event arrived.
use vstd::prelude::*;
use crate::capture::{png_of, CaptureEvent};
use crate::card::{distinct, distinct_tags, trim_str, trim_of, CardFields, CardJson};
use crate::error::PipelineError;
use crate::review::{new_schedule, Schedule};
use crate::schedule::CardState;

verus! {

#[derive(Clone, Copy, Debug, PartialEq, Eq, Structural)]
pub enum Stage {
    Idle,
    Extracting,
    /// The `card_generating` signal is out; the generator is asked next.
    Announcing,
    Generating,
    Persisting,
}

/// What the generator will be asked for.
#[derive(Debug)]
pub enum Request {
    Text { text: String },
    Image { png: Vec<u8> },
}

/// The consumer's progress through the current event.
#[derive(Debug)]
pub struct Ingestion {
    pub stage: Stage,
    /// Whether the generator takes images, so that extraction is skipped.
    pub vision: bool,
    /// Where the capture being processed was saved, if anywhere.
    pub source: Option<String>,
    /// The request held while the `card_generating` signal goes out.
    pub request: Option<Request>,
}

/// A card ready to be stored.
#[derive(Debug)]
pub struct NewCard {
    pub fields: CardFields,
    pub source_path: Option<String>,
    pub schedule: Schedule,
}

/// What the consumer is to do next.
#[derive(Debug)]
pub enum Action {
    /// Run the text extractor on this PNG file.
    Extract { png: Vec<u8> },
    /// Emit the `card_generating` signal.
    CardGenerating,
    /// Ask the generator for a card from this text.
    GenerateFromText { text: String },
    /// Ask the generator for a card from this PNG file.
    GenerateFromImage { png: Vec<u8> },
    /// Store this card.
    Persist { card: NewCard },
    /// Emit the `card_created` signal for this card.
    Announce { created: CardJson },
    /// Log this failure and drop the event.
    Drop { failure: PipelineError },
    /// Nothing to do for this event.
    Ignore,
}

/// Where the machine stands, leaving out the request it holds.
pub struct Phase {
    pub stage: Stage,
    pub vision: bool,
    pub source: Option<String>,
}

/// The outcome of each step, as far as it moves the machine.
pub enum Signal {
    Captured { encoded: bool, path: Option<String> },
    Selected { blank: bool },
    Extracted { ok: bool },
    Announced,
    Generated { ok: bool },
    Persisted { ok: bool },
}

impl Signal {
    pub open spec fn is_failure(self) -> bool {
        match self {
            Signal::Captured { encoded, .. } => !encoded,
            Signal::Extracted { ok } => !ok,
            Signal::Generated { ok } => !ok,
            Signal::Persisted { ok } => !ok,
            _ => false,
        }
    }
}

/// No event in progress.
pub open spec fn idle(vision: bool) -> Phase {
    Phase { stage: Stage::Idle, vision, source: None }
}

/// The phase after `sig`. A signal that does not fit the stage leaves the
/// phase as it is.
pub open spec fn transition(p: Phase, sig: Signal) -> Phase {
    match sig {
        Signal::Captured { encoded, path } => if p.stage != Stage::Idle {
            p
        } else if !encoded {
            idle(p.vision)
        } else {
            Phase {
                stage: if p.vision {
                    Stage::Announcing
                } else {
                    Stage::Extracting
                },
                vision: p.vision,
                source: path,
            }
        },
        Signal::Selected { blank } => if p.stage != Stage::Idle {
            p
        } else if blank {
            idle(p.vision)
        } else {
            Phase { stage: Stage::Announcing, vision: p.vision, source: None }
        },
        Signal::Extracted { ok } => if p.stage != Stage::Extracting {
            p
        } else if !ok {
            idle(p.vision)
        } else {
            Phase { stage: Stage::Announcing, ..p }
        },
        Signal::Announced => if p.stage != Stage::Announcing {
            p
        } else {
            Phase { stage: Stage::Generating, ..p }
        },
        Signal::Generated { ok } => if p.stage != Stage::Generating {
            p
        } else if !ok {
            idle(p.vision)
        } else {
            Phase { stage: Stage::Persisting, vision: p.vision, source: None }
        },
        Signal::Persisted { ok } => if p.stage != Stage::Persisting {
            p
        } else {
            idle(p.vision)
        },
    }
}

impl Ingestion {
    pub open spec fn phase(&self) -> Phase {
        Phase { stage: self.stage, vision: self.vision, source: self.source }
    }

    /// A request is held exactly while the `card_generating` signal is out.
    pub open spec fn wf(&self) -> bool {
        (self.stage == Stage::Announcing) == (self.request is Some)
    }

    /// An idle machine for a generator that takes images (`vision`) or text.
    pub fn new(vision: bool) -> (r: Ingestion)
        ensures
            r.phase() == idle(vision),
            r.wf(),
    {
        Ingestion { stage: Stage::Idle, vision, source: None, request: None }
    }

    /// Starts on a capture: encodes its frame, then signals that a card is
    /// being generated (the image will go to the generator) or hands the
    /// image to the extractor. Only a frame whose buffer does not match its
    /// size, or an empty one, is dropped.
    pub fn on_capture(&mut self, evt: CaptureEvent) -> (r: Action)
        requires
            old(self).stage == Stage::Idle,
            old(self).wf(),
        ensures
            final(self).phase() == transition(
                old(self).phase(),
                Signal::Captured { encoded: !(r is Drop), path: evt.path },
            ),
            final(self).wf(),
            !evt.image.wf() ==> r == (Action::Drop { failure: PipelineError::CaptureFailure }),
            evt.image.wf() && evt.image.width > 0 && evt.image.height > 0 ==> !(r is Drop),
            evt.image.width == 0 || evt.image.height == 0 ==> r == (Action::Drop {
                failure: PipelineError::CaptureFailure,
            }),
            r is Drop ==> r == (Action::Drop { failure: PipelineError::CaptureFailure }),
            r is Drop || (if old(self).vision {
                r is CardGenerating
            } else {
                r is Extract
            }),
            r is CardGenerating ==> (final(self).request matches Some(Request::Image { png })
                && png@ == png_of(evt.image.width, evt.image.height, evt.image.data@)),
            r matches Action::Extract { png } ==> png@ == png_of(
                evt.image.width,
                evt.image.height,
                evt.image.data@,
            ),
    {
        match evt.image.to_png() {
            None => {
                self.source = None;
                Action::Drop { failure: PipelineError::CaptureFailure }
            },
            Some(png) => {
                self.source = evt.path;
                if self.vision {
                    self.stage = Stage::Announcing;
                    self.request = Some(Request::Image { png });
                    Action::CardGenerating
                } else {
                    self.stage = Stage::Extracting;
                    Action::Extract { png }
                }
            },
        }
    }

    /// Starts on a text selection: a blank one is ignored; for any other the
    /// machine signals that a card is being generated from it.
    pub fn on_selection(&mut self, text: String) -> (r: Action)
        requires
            old(self).stage == Stage::Idle,
            old(self).wf(),
        ensures
            final(self).phase() == transition(
                old(self).phase(),
                Signal::Selected { blank: trim_of(text@).len() == 0 },
            ),
            final(self).wf(),
            trim_of(text@).len() == 0 ==> r is Ignore,
            trim_of(text@).len() != 0 ==> r is CardGenerating && final(self).request == Some(
                Request::Text { text: text },
            ),
    {
        let trimmed = trim_str(text.as_str());
        if trimmed.unicode_len() == 0 {
            self.source = None;
            Action::Ignore
        } else {
            self.stage = Stage::Announcing;
            self.source = None;
            self.request = Some(Request::Text { text });
            Action::CardGenerating
        }
    }

    /// Continues after the extractor: the machine signals that a card is
    /// being generated from its text; a failure drops the event.
    pub fn on_extracted(&mut self, extracted: Result<String, PipelineError>) -> (r: Action)
        requires
            old(self).stage == Stage::Extracting,
            old(self).wf(),
        ensures
            final(self).phase() == transition(
                old(self).phase(),
                Signal::Extracted { ok: extracted is Ok },
            ),
            final(self).wf(),
            extracted is Err ==> r == (Action::Drop { failure: PipelineError::ExtractionFailure }),
            extracted matches Ok(t) ==> r is CardGenerating && final(self).request == Some(
                Request::Text { text: t },
            ),
    {
        match extracted {
            Err(_) => {
                self.stage = Stage::Idle;
                self.source = None;
                Action::Drop { failure: PipelineError::ExtractionFailure }
            },
            Ok(text) => {
                self.stage = Stage::Announcing;
                self.request = Some(Request::Text { text });
                Action::CardGenerating
            },
        }
    }

    /// Continues once the `card_generating` signal is out: the held request
    /// goes to the generator.
    pub fn on_announced(&mut self) -> (r: Action)
        requires
            old(self).stage == Stage::Announcing,
            old(self).wf(),
        ensures
            final(self).phase() == transition(old(self).phase(), Signal::Announced),
            final(self).wf(),
            old(self).request matches Some(Request::Text { text }) ==> r == (
            Action::GenerateFromText { text: text }),
            old(self).request matches Some(Request::Image { png }) ==> r == (
            Action::GenerateFromImage { png: png }),
    {
        self.stage = Stage::Generating;
        match self.request.take() {
            Some(Request::Text { text }) => Action::GenerateFromText { text },
            Some(Request::Image { png }) => Action::GenerateFromImage { png },
            None => Action::Ignore,
        }
    }

    /// Continues after the generator: a complete record becomes a new card
    /// with its tags as a set, the default schedule, due at `now`; a failure
    /// drops the event.
    pub fn on_generated(&mut self, generated: Result<CardFields, PipelineError>, now: i64) -> (r:
        Action)
        requires
            old(self).stage == Stage::Generating,
            old(self).wf(),
        ensures
            final(self).phase() == transition(
                old(self).phase(),
                Signal::Generated { ok: generated is Ok },
            ),
            final(self).wf(),
            generated is Err ==> r == (Action::Drop { failure: PipelineError::GenerationFailure }),
            generated matches Ok(f) ==> r matches Action::Persist { card } && card.fields.front
                == f.front && card.fields.back == f.back && card.fields.tags.deep_view()
                == distinct(f.tags.deep_view()) && card.source_path == old(self).source
                && card.schedule.state == CardState::spec_default() && card.schedule.next_due
                == now,
    {
        match generated {
            Err(_) => {
                self.stage = Stage::Idle;
                self.source = None;
                Action::Drop { failure: PipelineError::GenerationFailure }
            },
            Ok(generated) => {
                let tags = distinct_tags(&generated.tags);
                let fields = CardFields { front: generated.front, back: generated.back, tags };
                let source_path = self.source.take();
                self.stage = Stage::Persisting;
                Action::Persist { card: NewCard { fields, source_path, schedule: new_schedule(now) } }
            },
        }
    }

    /// Finishes after the store: the stored card, under the identity the
    /// store assigned, is announced; a failure drops the event.
    pub fn on_persisted(&mut self, stored: Result<i64, PipelineError>, card: NewCard) -> (r:
        Action)
        requires
            old(self).stage == Stage::Persisting,
            old(self).wf(),
        ensures
            final(self).phase() == transition(
                old(self).phase(),
                Signal::Persisted { ok: stored is Ok },
            ),
            final(self).wf(),
            stored is Err ==> r == (Action::Drop { failure: PipelineError::PersistenceFailure }),
            stored matches Ok(id) ==> r matches Action::Announce { created: c } && c.id == id
                && c.front@ == card.fields.front@ && c.back@ == card.fields.back@
                && c.tags.deep_view() == card.fields.tags.deep_view(),
    {
        self.stage = Stage::Idle;
        self.source = None;
        match stored {
            Err(_) => Action::Drop { failure: PipelineError::PersistenceFailure },
            Ok(id) => Action::Announce { created: CardJson::from_fields(id, card.fields) },
        }
    }
}

/// A failed event leaves no trace: whatever stage it failed at, the machine
/// is idle again with nothing of the event kept, and the next event is
/// processed exactly as by a machine that never saw the failed one.
pub proof fn lemma_failure_isolated(p: Phase, failed: Signal, next: Signal)
    requires
        failed.is_failure(),
        match failed {
            Signal::Captured { .. } => p.stage == Stage::Idle,
            Signal::Extracted { .. } => p.stage == Stage::Extracting,
            Signal::Generated { .. } => p.stage == Stage::Generating,
            Signal::Persisted { .. } => p.stage == Stage::Persisting,
            _ => false,
        },
    ensures
        transition(p, failed) == idle(p.vision),
        transition(transition(p, failed), next) == transition(idle(p.vision), next),
{
}

} // verus!
