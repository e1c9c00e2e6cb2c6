//! The per-worker task bridge.
//!
//! Each worker thread owns one `WorkerCache`: a slot that is either empty or
//! holds the one model instance that thread has loaded. A call of `vectorize`
//! runs on a worker as a short exchange: the cache is handed an `Event` (the
//! call begins, the model load came back, the inference came back) and answers
//! with the `Action` the worker must perform next (load, encode, resolve the
//! call, reject it). The slow work itself, loading and inference, stays with
//! the caller of `step`; every decision about it is made here.

use vstd::prelude::*;

use crate::embedding::EMBEDDING_DIM;

verus! {

/// Prefix of the message of a failed model load.
pub const LOAD_FAILURE_PREFIX: &'static str = "Failed to load embedding model: ";

/// Prefix of the message of a failed inference.
pub const INFERENCE_FAILURE_PREFIX: &'static str = "Embedding failed: ";

/// Reason given when the model returns a vector that is not of full dimension.
pub const WRONG_DIMENSION_REASON: &'static str =
    "the model returned a vector of the wrong number of components";

/// Why a call of `vectorize` failed.
#[derive(Debug, Clone, PartialEq, Eq)]
pub enum VectorizeError {
    /// The model could not be constructed; carries the provider's reason.
    ModelLoad(String),
    /// The loaded model failed to embed the text; carries the model's reason.
    Inference(String),
    /// The loaded model returned a vector of this many components instead of
    /// `EMBEDDING_DIM`.
    WrongDimension(usize),
}

impl VectorizeError {
    /// The human-readable message delivered to the caller.
    pub open spec fn message_spec(&self) -> Seq<char> {
        match self {
            VectorizeError::ModelLoad(reason) => LOAD_FAILURE_PREFIX@ + reason@,
            VectorizeError::Inference(reason) => INFERENCE_FAILURE_PREFIX@ + reason@,
            VectorizeError::WrongDimension(_) => INFERENCE_FAILURE_PREFIX@
                + WRONG_DIMENSION_REASON@,
        }
    }

    /// Renders the error as the message the caller receives.
    pub fn message(&self) -> (r: String)
        ensures
            r@ == self.message_spec(),
    {
        match self {
            VectorizeError::ModelLoad(reason) => {
                LOAD_FAILURE_PREFIX.to_owned().concat(reason.as_str())
            },
            VectorizeError::Inference(reason) => {
                INFERENCE_FAILURE_PREFIX.to_owned().concat(reason.as_str())
            },
            VectorizeError::WrongDimension(_) => {
                INFERENCE_FAILURE_PREFIX.to_owned().concat(WRONG_DIMENSION_REASON)
            },
        }
    }
}

/// What happened on the worker since the cache last answered.
#[derive(Debug)]
pub enum Event<M, V> {
    /// A `vectorize` call was scheduled onto this worker.
    Begin,
    /// The model load asked for by `Action::Load` came back.
    Loaded(Result<M, String>),
    /// The inference asked for by `Action::Encode` came back.
    Encoded(Result<Vec<V>, String>),
}

/// What the worker must do next.
#[derive(Debug, PartialEq)]
pub enum Action<V> {
    /// Construct a model instance and report it with `Event::Loaded`.
    Load,
    /// Run inference with the cached model and report it with `Event::Encoded`.
    Encode,
    /// The call succeeded with this embedding.
    Resolve(Vec<V>),
    /// The call failed.
    Reject(VectorizeError),
}

/// The slot a worker holds after `event`, starting from `slot`.
pub open spec fn next_slot<M, V>(slot: Option<M>, event: Event<M, V>) -> Option<M> {
    match event {
        Event::Loaded(Ok(m)) => if slot is None {
            Some(m)
        } else {
            slot
        },
        _ => slot,
    }
}

/// The action a worker whose slot is `slot` must take on `event`.
pub open spec fn action_for<M, V>(slot: Option<M>, event: Event<M, V>) -> Action<V> {
    match event {
        Event::Begin => if slot is None {
            Action::Load
        } else {
            Action::Encode
        },
        Event::Loaded(Ok(_)) => Action::Encode,
        Event::Loaded(Err(reason)) => Action::Reject(VectorizeError::ModelLoad(reason)),
        Event::Encoded(Ok(v)) => if v.len() == EMBEDDING_DIM {
            Action::Resolve(v)
        } else {
            Action::Reject(VectorizeError::WrongDimension(v.len()))
        },
        Event::Encoded(Err(reason)) => Action::Reject(VectorizeError::Inference(reason)),
    }
}

/// The model cache of one worker thread: empty, or the one model instance the
/// thread has loaded. Nothing but the owning worker reads or changes it.
pub struct WorkerCache<M> {
    slot: Option<M>,
}

impl<M> View for WorkerCache<M> {
    type V = Option<M>;

    closed spec fn view(&self) -> Option<M> {
        self.slot
    }
}

impl<M> WorkerCache<M> {
    /// An empty cache: no model has been loaded on this worker yet.
    pub fn new() -> (r: Self)
        ensures
            r@ is None,
    {
        WorkerCache { slot: None }
    }

    /// Whether this worker holds a model instance.
    pub fn is_loaded(&self) -> (r: bool)
        ensures
            r == (self@ is Some),
    {
        self.slot.is_some()
    }

    /// The cached model instance, if one has been loaded.
    pub fn model(&self) -> (r: Option<&M>)
        ensures
            r is Some <==> self@ is Some,
            r is Some ==> *r->0 == self@->0,
    {
        match &self.slot {
            Some(m) => Some(m),
            None => None,
        }
    }

    /// Takes one event of a `vectorize` call on this worker and returns what
    /// the worker must do next.
    pub fn step<V>(&mut self, event: Event<M, V>) -> (a: Action<V>)
        ensures
            final(self)@ == next_slot(old(self)@, event),
            a == action_for(old(self)@, event),
    {
        match event {
            Event::Begin => {
                if self.slot.is_none() {
                    Action::Load
                } else {
                    Action::Encode
                }
            },
            Event::Loaded(Ok(m)) => {
                if self.slot.is_none() {
                    self.slot = Some(m);
                }
                Action::Encode
            },
            Event::Loaded(Err(reason)) => Action::Reject(VectorizeError::ModelLoad(reason)),
            Event::Encoded(Ok(v)) => {
                let n = v.len();
                if n == EMBEDDING_DIM {
                    Action::Resolve(v)
                } else {
                    Action::Reject(VectorizeError::WrongDimension(n))
                }
            },
            Event::Encoded(Err(reason)) => Action::Reject(VectorizeError::Inference(reason)),
        }
    }
}

/// One request to embed a text; it is immutable once submitted.
pub struct VectorizeTask {
    text: String,
}

impl View for VectorizeTask {
    type V = Seq<char>;

    closed spec fn view(&self) -> Seq<char> {
        self.text@
    }
}

impl VectorizeTask {
    /// A request to embed `text`, which may be any string, the empty one too.
    pub fn new(text: String) -> (r: Self)
        ensures
            r@ == text@,
    {
        VectorizeTask { text }
    }

    /// The text to hand to the model when the cache answers `Action::Encode`.
    pub fn text(&self) -> (r: &str)
        ensures
            r@ == self@,
    {
        self.text.as_str()
    }
}

} // verus!
