//! The worker: one loaded engine handle plus its prompt-formatting state,
//! processing one request at a time. A worker's life is
//! `Ready -> Busy -> Ready -> ... -> Stopped`; shutdown releases the engine
//! handle exactly once, and a stopped worker rejects further work instead of
//! crashing.

use vstd::prelude::*;
use crate::chat::{spec_prompt, finish_prompt};
use crate::huggingface::contains_seq;

verus! {

/// The per-worker configuration, deserialized once at startup and never
/// mutated; one config may back several independently loaded workers.
#[derive(Debug, Clone)]
pub struct SimpleLLMConfig {
    pub modle_path: String,
    pub modle_name: String,
    pub cache_path: Option<String>,
    pub think: bool,
    pub legacy: bool,
}

impl Default for SimpleLLMConfig {
    /// An empty config: no paths, no cache, think mode and legacy mode off.
    fn default() -> (r: Self)
        ensures
            r.modle_path@ == Seq::<char>::empty(),
            r.modle_name@ == Seq::<char>::empty(),
            r.cache_path is None,
            r.think == false,
            r.legacy == false,
    {
        SimpleLLMConfig {
            modle_path: String::new(),
            modle_name: String::new(),
            cache_path: None,
            think: false,
            legacy: false,
        }
    }
}

/// The value taken for the legacy switch by a config file that leaves it out.
pub fn default_legacy() -> (r: bool)
    ensures
        r == true,
{
    true
}

/// Why a worker failed to initialize. A version mismatch between the model's
/// on-disk metadata and the loaded engine or tokenizer is kept apart from a
/// generic failure so callers can suggest remediation.
#[derive(Debug)]
pub enum InitError {
    EngineVersionMismatch,
    EngineFailure(String),
    TokenizerVersionMismatch,
    TokenizerFailure(String),
}

/// The marker by which a version-incompatibility report is recognized in an
/// engine or tokenizer failure message.
pub open spec fn spec_version_mismatch(msg: Seq<char>) -> bool {
    contains_seq(msg, "missing field `legacy`"@)
}

/// The init error an engine-load failure message is classified as.
pub open spec fn spec_engine_failure(msg: String) -> InitError {
    if spec_version_mismatch(msg@) {
        InitError::EngineVersionMismatch
    } else {
        InitError::EngineFailure(msg)
    }
}

/// The init error a tokenizer-construction failure message is classified as.
pub open spec fn spec_tokenizer_failure(msg: String) -> InitError {
    if spec_version_mismatch(msg@) {
        InitError::TokenizerVersionMismatch
    } else {
        InitError::TokenizerFailure(msg)
    }
}

/// Classifies an engine-load failure message.
pub fn classify_engine_failure(msg: String) -> (e: InitError)
    ensures
        e == spec_engine_failure(msg),
{
    if crate::huggingface::str_contains(msg.as_str(), "missing field `legacy`") {
        InitError::EngineVersionMismatch
    } else {
        InitError::EngineFailure(msg)
    }
}

/// Classifies a tokenizer-construction failure message.
pub fn classify_tokenizer_failure(msg: String) -> (e: InitError)
    ensures
        e == spec_tokenizer_failure(msg),
{
    if crate::huggingface::str_contains(msg.as_str(), "missing field `legacy`") {
        InitError::TokenizerVersionMismatch
    } else {
        InitError::TokenizerFailure(msg)
    }
}

/// What the engine is asked to do with a submitted input.
#[derive(Debug, Clone, Copy, PartialEq, Eq, Structural)]
pub enum InferMode {
    Generate,
    GetLastHiddenLayer,
}

/// Where the engine persists a prompt cache, when asked to.
#[derive(Debug, Clone)]
pub struct PromptCacheParam {
    pub save_prompt_cache: bool,
    pub prompt_cache_path: String,
}

/// The inference parameters a worker submits along with every prompt.
#[derive(Debug, Clone)]
pub struct InferParams {
    pub mode: InferMode,
    pub prompt_cache: Option<PromptCacheParam>,
}

/// The inference parameters built for a config: plain generation, with a
/// persisted prompt cache exactly when the config names a cache path.
pub open spec fn spec_infer_params(config: SimpleLLMConfig) -> InferParams {
    InferParams {
        mode: InferMode::Generate,
        prompt_cache: match config.cache_path {
            Some(cp) => Some(PromptCacheParam { save_prompt_cache: true, prompt_cache_path: cp }),
            None => None,
        },
    }
}

/// Builds the inference parameters for a config.
pub fn infer_params_for(config: &SimpleLLMConfig) -> (p: InferParams)
    ensures
        p == spec_infer_params(*config),
{
    InferParams {
        mode: InferMode::Generate,
        prompt_cache: match &config.cache_path {
            Some(cp) => Some(PromptCacheParam {
                save_prompt_cache: true,
                prompt_cache_path: cp.clone(),
            }),
            None => None,
        },
    }
}

/// A worker's place in its lifecycle.
#[derive(Debug, Clone, Copy, PartialEq, Eq, Structural)]
pub enum WorkerState {
    /// Initialized and idle: may accept a request or shut down.
    Ready,
    /// A request's stream is live; the engine handle is exclusively occupied.
    Busy,
    /// The engine handle has been released; terminal.
    Stopped,
}

/// Why a request could not be dispatched.
#[derive(Debug, Clone, Copy, PartialEq, Eq, Structural)]
pub enum DispatchError {
    /// No worker is registered under the requested model name.
    UnknownModel,
    /// The worker's engine handle is occupied by an in-flight request.
    WorkerBusy,
    /// The worker has shut down and rejects further work.
    WorkerStopped,
}

/// A worker could not shut down because a request is still in flight; an
/// in-flight engine call is never interrupted.
#[derive(Debug, Clone, Copy, PartialEq, Eq, Structural)]
pub enum ShutdownError {
    WorkerBusy,
}

/// One model worker: the owner of one (exclusive) engine handle, its config
/// and inference parameters, and its place in the lifecycle. `destroy_calls`
/// counts how often the engine's teardown has been invoked for this worker.
#[derive(Debug)]
pub struct Worker {
    pub config: SimpleLLMConfig,
    pub params: InferParams,
    pub state: WorkerState,
    pub destroy_calls: u64,
}

impl Worker {
    /// A worker is well formed when its engine handle has been released
    /// exactly once if and only if it is stopped.
    pub open spec fn wf(&self) -> bool {
        &&& self.destroy_calls <= 1
        &&& (self.state is Stopped <==> self.destroy_calls == 1)
    }

    /// Builds a worker from a config and the outcomes of loading the engine
    /// handle and constructing the tokenizer. Both must have succeeded;
    /// failure messages are classified so that a version incompatibility is
    /// distinguishable from a generic failure. A worker that fails to
    /// initialize is never created, so it can never be registered.
    pub fn init(
        config: SimpleLLMConfig,
        engine_load: Result<(), String>,
        tokenizer_load: Result<(), String>,
    ) -> (r: Result<Worker, InitError>)
        ensures
            engine_load matches Err(m) ==> r == Err::<Worker, InitError>(spec_engine_failure(m)),
            engine_load is Ok ==> (tokenizer_load matches Err(m)
                ==> r == Err::<Worker, InitError>(spec_tokenizer_failure(m))),
            engine_load is Ok && tokenizer_load is Ok ==> (r matches Ok(w) && {
                &&& w.state is Ready
                &&& w.destroy_calls == 0
                &&& w.config == config
                &&& w.params == spec_infer_params(config)
                &&& w.wf()
            }),
    {
        match engine_load {
            Err(m) => Err(classify_engine_failure(m)),
            Ok(_) => match tokenizer_load {
                Err(m) => Err(classify_tokenizer_failure(m)),
                Ok(_) => {
                    let params = infer_params_for(&config);
                    Ok(Worker { config, params, state: WorkerState::Ready, destroy_calls: 0 })
                },
            },
        }
    }

    /// Accepts a request for processing: a ready worker turns busy and
    /// returns the prompt to submit to the engine, built from the
    /// chat-template outcome and the worker's think switch. A busy worker
    /// rejects the request (one request at a time, never interleaved), and a
    /// stopped worker rejects it instead of crashing.
    pub fn begin_process(&mut self, template: Result<String, ()>) -> (r: Result<String, DispatchError>)
        ensures
            old(self).state is Stopped ==> {
                &&& r == Err::<String, DispatchError>(DispatchError::WorkerStopped)
                &&& *final(self) == *old(self)
            },
            old(self).state is Busy ==> {
                &&& r == Err::<String, DispatchError>(DispatchError::WorkerBusy)
                &&& *final(self) == *old(self)
            },
            old(self).state is Ready ==> (r matches Ok(p) && {
                &&& p@ == spec_prompt(template, old(self).config.think)
                &&& *final(self) == (Worker { state: WorkerState::Busy, ..*old(self) })
            }),
            old(self).wf() ==> final(self).wf(),
    {
        match self.state {
            WorkerState::Stopped => Err(DispatchError::WorkerStopped),
            WorkerState::Busy => Err(DispatchError::WorkerBusy),
            WorkerState::Ready => {
                let prompt = finish_prompt(template, self.config.think);
                self.state = WorkerState::Busy;
                Ok(prompt)
            },
        }
    }

    /// Marks the end of the live stream (the engine signalled completion or
    /// an error): a busy worker turns ready again; any other state is left
    /// alone.
    pub fn finish_stream(&mut self)
        ensures
            old(self).state is Busy
                ==> *final(self) == (Worker { state: WorkerState::Ready, ..*old(self) }),
            !(old(self).state is Busy) ==> *final(self) == *old(self),
            old(self).wf() ==> final(self).wf(),
    {
        if let WorkerState::Busy = self.state {
            self.state = WorkerState::Ready;
        }
    }

    /// Releases the engine handle. A ready worker stops and its handle is
    /// destroyed exactly once; asking a stopped worker again is safe and
    /// releases nothing further; a busy worker refuses, since an in-flight
    /// engine call is never interrupted.
    pub fn shutdown(&mut self) -> (r: Result<(), ShutdownError>)
        requires
            old(self).wf(),
        ensures
            old(self).state is Ready ==> {
                &&& r is Ok
                &&& *final(self) == (Worker {
                    state: WorkerState::Stopped,
                    destroy_calls: (old(self).destroy_calls + 1) as u64,
                    ..*old(self)
                })
            },
            old(self).state is Stopped ==> r is Ok && *final(self) == *old(self),
            old(self).state is Busy ==> {
                &&& r == Err::<(), ShutdownError>(ShutdownError::WorkerBusy)
                &&& *final(self) == *old(self)
            },
            final(self).wf(),
    {
        match self.state {
            WorkerState::Busy => Err(ShutdownError::WorkerBusy),
            WorkerState::Stopped => Ok(()),
            WorkerState::Ready => {
                self.state = WorkerState::Stopped;
                self.destroy_calls = self.destroy_calls + 1;
                Ok(())
            },
        }
    }
}

} // verus!
