//! The pose engine: owns at most one loaded model and chains frame
//! conversion, input preparation, the model run and landmark decoding.
//!
//! The engine is generic over the model handle `M`. Loading and running the
//! model are handed in by the caller as closures, so the engine decides when
//! they happen and what becomes of their results, whatever runtime is behind
//! them.
use crate::frame::{prepare, triangle_resized, INPUT_LEN};
use crate::landmark::{decode, decoded_pose, Landmark};
use crate::pixel::{convert, converted, ConvertError};
use vstd::prelude::*;

verus! {

/// Why an inference or a model load did not produce its result.
#[derive(Debug, Clone)]
pub enum PoseError {
    /// The frame's geometry fits no supported pixel layout.
    Frame(ConvertError),
    /// Inference was asked for before a model was loaded.
    ModelNotLoaded,
    /// The model runtime refused to load the model; its message.
    ModelLoad(String),
    /// The model runtime failed to run the model; its message.
    Inference(String),
}

/// What a successful `load_model` did.
#[derive(Debug, Clone, Copy, PartialEq, Eq, Structural)]
pub enum LoadStatus {
    /// The model was loaded by this call.
    Loaded,
    /// A model was already resident; nothing was loaded.
    AlreadyLoaded,
}

/// The engine's model slot after a load attempt on an empty slot, and the
/// attempt's result, for each outcome of the loader.
pub open spec fn load_outcome<M>(loaded: Result<M, String>) -> (Option<M>, Result<LoadStatus, PoseError>) {
    match loaded {
        Ok(m) => (Some(m), Ok(LoadStatus::Loaded)),
        Err(msg) => (None, Err(PoseError::ModelLoad(msg))),
    }
}

/// The model slot and the result after one `load_model` call on the slot
/// `model`, where `loaded` is what the loader returns if it is called.
pub open spec fn load_step<M>(model: Option<M>, loaded: Result<M, String>) -> (Option<M>, Result<LoadStatus, PoseError>) {
    if model is Some {
        (model, Ok(LoadStatus::AlreadyLoaded))
    } else {
        load_outcome(loaded)
    }
}

/// The landmarks, or the error, that a model run's output gives.
pub open spec fn run_outcome<T>(out: Result<Vec<T>, String>) -> Result<Seq<Landmark<T>>, PoseError> {
    match out {
        Ok(raw) => Ok(decoded_pose(raw@)),
        Err(msg) => Err(PoseError::Inference(msg)),
    }
}

/// Views an inference result through the sequence of its landmarks.
pub open spec fn pose_view<T>(r: Result<Vec<Landmark<T>>, PoseError>) -> Result<Seq<Landmark<T>>, PoseError> {
    match r {
        Ok(pose) => Ok(pose@),
        Err(e) => Err(e),
    }
}

/// Composes frame conversion, preparation, the model and decoding, and
/// loads the model at most once.
pub struct PoseEngine<M> {
    session: Option<M>,
}

impl<M> PoseEngine<M> {
    /// The resident model, if one is loaded.
    pub closed spec fn model(&self) -> Option<M> {
        self.session
    }

    /// An engine with no model loaded.
    pub fn new() -> (engine: Self)
        ensures
            engine.model() is None,
    {
        PoseEngine { session: None }
    }

    /// Whether a model is resident.
    pub fn is_loaded(&self) -> (r: bool)
        ensures
            r == self.model() is Some,
    {
        self.session.is_some()
    }

    /// Makes sure a model is resident. When one already is, `load` is not
    /// called and the engine is left as it was; otherwise `load` runs once
    /// and its model, or its error message, is kept.
    pub fn load_model<F: FnOnce() -> Result<M, String>>(&mut self, load: F) -> (r: Result<LoadStatus, PoseError>)
        requires
            load.requires(()),
        ensures
            old(self).model() is Some ==> r == Ok::<LoadStatus, PoseError>(LoadStatus::AlreadyLoaded)
                && final(self).model() == old(self).model(),
            old(self).model() is None ==> exists|loaded: Result<M, String>|
                #[trigger] load.ensures((), loaded) && (final(self).model(), r) == load_outcome(loaded),
    {
        if self.session.is_some() {
            return Ok(LoadStatus::AlreadyLoaded);
        }
        let loaded = load();
        match loaded {
            Ok(m) => {
                self.session = Some(m);
                Ok(LoadStatus::Loaded)
            },
            Err(msg) => Err(PoseError::ModelLoad(msg)),
        }
    }

    /// Runs one frame through the pipeline: converts it to RGB24, prepares
    /// the 256 by 256 model input, hands the resident model and that input to
    /// `run`, and decodes the landmarks of its output. The first failure ends
    /// the call: no model, a frame of the wrong size, or a failed run.
    pub fn infer<T: Copy, F: FnOnce(M, Vec<u8>) -> (M, Result<Vec<T>, String>)>(
        &mut self,
        bytes: Vec<u8>,
        width: u32,
        height: u32,
        run: F,
    ) -> (r: Result<Vec<Landmark<T>>, PoseError>)
        requires
            forall|m: M, input: Vec<u8>| input@.len() == INPUT_LEN ==> run.requires((m, input)),
        ensures
            old(self).model() is None ==> r == Err::<Vec<Landmark<T>>, PoseError>(PoseError::ModelNotLoaded)
                && final(self).model() is None,
            old(self).model() is Some ==> match converted(bytes@, width, height) {
                Err(e) => r == Err::<Vec<Landmark<T>>, PoseError>(PoseError::Frame(e))
                    && final(self).model() == old(self).model(),
                Ok(rgb) => exists|input: Vec<u8>, out: (M, Result<Vec<T>, String>)|
                    input@ == triangle_resized(width, height, rgb)
                    && #[trigger] run.ensures((old(self).model()->Some_0, input), out)
                    && final(self).model() == Some(out.0)
                    && pose_view(r) == run_outcome(out.1),
            },
    {
        let model = match self.session.take() {
            Some(m) => m,
            None => return Err(PoseError::ModelNotLoaded),
        };
        let rgb = match convert(bytes, width, height) {
            Ok(rgb) => rgb,
            Err(e) => {
                self.session = Some(model);
                return Err(PoseError::Frame(e));
            },
        };
        let input = prepare(&rgb, width, height);
        let (model, out) = run(model, input);
        self.session = Some(model);
        match out {
            Ok(raw) => Ok(decode(&raw)),
            Err(msg) => Err(PoseError::Inference(msg)),
        }
    }
}

/// Once a load has succeeded, a second load finds the model resident: it
/// reports `AlreadyLoaded`, keeps the model and does not call its loader,
/// whatever that loader would have returned.
pub proof fn lemma_load_is_idempotent<M>(initial: Option<M>, first: Result<M, String>, second: Result<M, String>)
    requires
        load_step(initial, first).1 is Ok,
    ensures
        load_step(initial, first).0 is Some,
        load_step(load_step(initial, first).0, second) == (
            load_step(initial, first).0,
            Ok::<LoadStatus, PoseError>(LoadStatus::AlreadyLoaded),
        ),
{
}

} // verus!
