//! The worker pool: the workers loaded at startup together with the
//! registry that routes model names to them, request dispatch through the
//! round-robin router, and the shutdown coordinator that asks every worker
//! to release its engine handle, letting no single failure block the rest.

use vstd::prelude::*;
use crate::chat::spec_prompt;
use crate::registry::{Registry, spec_advanced};
use crate::worker::{
    DispatchError, InitError, ShutdownError, SimpleLLMConfig, Worker, WorkerState,
};

verus! {

/// The pool of initialized workers and the registry over them. Workers are
/// referred to by their slot in `workers`; the registry holds only slots of
/// successfully initialized workers.
pub struct Pool {
    pub workers: Vec<Worker>,
    pub registry: Registry,
}

impl Pool {
    /// Every registered worker slot points into `workers`.
    pub open spec fn indices_ok(&self) -> bool {
        forall|i: int, k: int|
            0 <= i < self.registry.entries@.len()
                && 0 <= k < self.registry.entries@[i].workers@.len()
            ==> (#[trigger] self.registry.entries@[i].workers@[k]) < self.workers@.len()
    }

    /// The registry is well formed, its slots point into the worker list,
    /// and every worker is well formed.
    pub open spec fn wf(&self) -> bool {
        &&& self.registry.wf()
        &&& self.indices_ok()
        &&& forall|k: int| 0 <= k < self.workers@.len() ==> (#[trigger] self.workers@[k]).wf()
    }

    /// An empty pool: no workers, nothing registered.
    pub fn new() -> (p: Pool)
        ensures
            p.workers@.len() == 0,
            p.registry.entries@.len() == 0,
            p.wf(),
    {
        Pool { workers: Vec::new(), registry: Registry::new() }
    }

    /// Adds one worker for a config, given the outcomes of loading its
    /// engine handle and constructing its tokenizer. On failure the pool is
    /// left exactly as it was: a worker that does not initialize is never
    /// registered, and workers of other models are unaffected. On success
    /// the ready worker takes the next slot and is registered under the
    /// config's model name.
    pub fn add_worker(
        &mut self,
        config: SimpleLLMConfig,
        engine_load: Result<(), String>,
        tokenizer_load: Result<(), String>,
    ) -> (r: Result<usize, InitError>)
        requires
            old(self).wf(),
        ensures
            final(self).wf(),
            r is Err ==> *final(self) == *old(self),
            r is Err <==> !(engine_load is Ok && tokenizer_load is Ok),
            r matches Ok(id) ==> {
                &&& id == old(self).workers@.len()
                &&& final(self).workers@.len() == old(self).workers@.len() + 1
                &&& forall|k: int| 0 <= k < old(self).workers@.len()
                    ==> final(self).workers@[k] == old(self).workers@[k]
                &&& final(self).workers@.last().state is Ready
                &&& final(self).workers@.last().destroy_calls == 0
                &&& final(self).workers@.last().config == config
                &&& final(self).registry.has_model(config.modle_name@)
            },
    {
        match Worker::init(config, engine_load, tokenizer_load) {
            Err(e) => Err(e),
            Ok(w) => {
                let id = self.workers.len();
                let name = w.config.modle_name.clone();
                self.workers.push(w);
                self.registry.register(name, id);
                proof {
                    let pre = old(self).registry;
                    let post = self.registry;
                    let wlen = self.workers@.len();
                    assert(wlen == old(self).workers@.len() + 1);
                    if pre.has_model(name@) {
                        let i = pre.entry_index(name@);
                        assert forall|i2: int, k2: int|
                            0 <= i2 < post.entries@.len()
                                && 0 <= k2 < post.entries@[i2].workers@.len()
                            implies (post.entries@[i2].workers@[k2]) < wlen by {
                            if i2 == i {
                                if k2 < pre.entries@[i].workers@.len() {
                                    assert(post.entries@[i2].workers@[k2]
                                        == pre.entries@[i].workers@[k2]);
                                } else {
                                    assert(post.entries@[i2].workers@[k2] == id);
                                }
                            } else {
                                assert(post.entries@[i2] == pre.entries@[i2]);
                            }
                        };
                    } else {
                        assert forall|i2: int, k2: int|
                            0 <= i2 < post.entries@.len()
                                && 0 <= k2 < post.entries@[i2].workers@.len()
                            implies (post.entries@[i2].workers@[k2]) < wlen by {
                            if i2 == pre.entries@.len() {
                                assert(post.entries@[i2].workers@[k2] == id);
                            } else {
                                assert(post.entries@[i2] == pre.entries@.subrange(
                                    0,
                                    pre.entries@.len() as int,
                                )[i2]);
                            }
                        };
                    }
                    assert forall|k: int| 0 <= k < self.workers@.len()
                        implies (#[trigger] self.workers@[k]).wf() by {
                        if k < old(self).workers@.len() {
                            assert(self.workers@[k] == old(self).workers@[k]);
                        }
                    };
                }
                Ok(id)
            },
        }
    }

    /// May the pool start serving? Only when at least one model has a
    /// registered worker; a pool that loaded nothing must not serve.
    pub fn serve_ready(&self) -> (r: bool)
        ensures
            r == (self.registry.entries@.len() > 0),
    {
        self.entries_len() > 0
    }

    /// How many model names are registered.
    fn entries_len(&self) -> (r: usize)
        ensures
            r == self.registry.entries@.len(),
    {
        self.registry.entries.len()
    }

    /// Dispatches one request: routes the model name through the registry's
    /// round-robin cursor, then asks the selected worker to accept the
    /// request. An unknown model name is a routing failure and changes
    /// nothing. A known name advances the model's cursor; the selected
    /// worker then either accepts (ready: the request's prompt is built and
    /// the worker turns busy) or rejects (busy or stopped), never crashing.
    pub fn dispatch(&mut self, model: &String, template: Result<String, ()>) -> (r: Result<
        (usize, String),
        DispatchError,
    >)
        requires
            old(self).wf(),
        ensures
            final(self).wf(),
            !old(self).registry.has_model(model@) ==> {
                &&& r == Err::<(usize, String), DispatchError>(DispatchError::UnknownModel)
                &&& *final(self) == *old(self)
            },
            old(self).registry.has_model(model@) ==> ({
                let i = old(self).registry.entry_index(model@);
                let e = old(self).registry.entries@[i];
                let wid = e.workers@[e.cursor as int];
                let w = old(self).workers@[wid as int];
                &&& final(self).registry.entries@ =~= old(self).registry.entries@.update(
                    i,
                    spec_advanced(e),
                )
                &&& w.state is Ready ==> (r matches Ok(picked) && {
                    &&& picked.0 == wid
                    &&& picked.1@ == spec_prompt(template, w.config.think)
                    &&& final(self).workers@ =~= old(self).workers@.update(
                        wid as int,
                        (Worker { state: WorkerState::Busy, ..w }),
                    )
                })
                &&& w.state is Busy ==> {
                    &&& r == Err::<(usize, String), DispatchError>(DispatchError::WorkerBusy)
                    &&& final(self).workers@ == old(self).workers@
                }
                &&& w.state is Stopped ==> {
                    &&& r == Err::<(usize, String), DispatchError>(DispatchError::WorkerStopped)
                    &&& final(self).workers@ == old(self).workers@
                }
            }),
    {
        match self.registry.route(model) {
            None => Err(DispatchError::UnknownModel),
            Some(wid) => {
                proof {
                    let i = old(self).registry.entry_index(model@);
                    assert(old(self).registry.entries@[i].workers@[
                        old(self).registry.entries@[i].cursor as int
                    ] < old(self).workers@.len());
                }
                let mut w = self.workers.remove(wid);
                let outcome = w.begin_process(template);
                self.workers.insert(wid, w);
                match outcome {
                    Ok(prompt) => {
                        proof {
                            let i = old(self).registry.entry_index(model@);
                            let e = old(self).registry.entries@[i];
                            assert(self.workers@ =~= old(self).workers@.update(
                                e.workers@[e.cursor as int] as int,
                                (Worker {
                                    state: WorkerState::Busy,
                                    ..old(self).workers@[e.workers@[e.cursor as int] as int]
                                }),
                            ));
                        }
                        Ok((wid, prompt))
                    },
                    Err(e) => {
                        proof {
                            assert(self.workers@ =~= old(self).workers@);
                        }
                        Err(e)
                    },
                }
            },
        }
    }

    /// Marks the end of a worker's live stream: the engine signalled
    /// completion or an error, and the worker (if busy) is ready again.
    pub fn finish_stream(&mut self, worker: usize)
        requires
            old(self).wf(),
            worker < old(self).workers@.len(),
        ensures
            final(self).wf(),
            final(self).registry == old(self).registry,
            old(self).workers@[worker as int].state is Busy ==> final(self).workers@
                =~= old(self).workers@.update(
                worker as int,
                (Worker { state: WorkerState::Ready, ..old(self).workers@[worker as int] }),
            ),
            !(old(self).workers@[worker as int].state is Busy)
                ==> final(self).workers@ == old(self).workers@,
    {
        let mut w = self.workers.remove(worker);
        w.finish_stream();
        self.workers.insert(worker, w);
        proof {
            if old(self).workers@[worker as int].state is Busy {
                assert(self.workers@ =~= old(self).workers@.update(
                    worker as int,
                    (Worker { state: WorkerState::Ready, ..old(self).workers@[worker as int] }),
                ));
            } else {
                assert(self.workers@ =~= old(self).workers@);
            }
        }
    }

    /// The shutdown coordinator: asks every worker in turn to release its
    /// engine handle and collects every outcome; one worker's refusal never
    /// blocks the shutdown of the others. Every worker that was not busy
    /// ends stopped with its engine handle released exactly once; a busy
    /// worker (an in-flight engine call is never interrupted) is left as it
    /// was and its refusal is reported.
    pub fn shutdown_all(&mut self) -> (results: Vec<Result<(), ShutdownError>>)
        requires
            old(self).wf(),
        ensures
            final(self).wf(),
            final(self).registry == old(self).registry,
            results@.len() == old(self).workers@.len(),
            final(self).workers@.len() == old(self).workers@.len(),
            forall|k: int| 0 <= k < old(self).workers@.len()
                && !((#[trigger] old(self).workers@[k]).state is Busy) ==> {
                &&& results@[k] is Ok
                &&& final(self).workers@[k].state is Stopped
                &&& final(self).workers@[k].destroy_calls == 1
            },
            forall|k: int| 0 <= k < old(self).workers@.len()
                && (#[trigger] old(self).workers@[k]).state is Busy ==> {
                &&& results@[k] == Err::<(), ShutdownError>(ShutdownError::WorkerBusy)
                &&& final(self).workers@[k] == old(self).workers@[k]
            },
    {
        let n = self.workers.len();
        let mut results: Vec<Result<(), ShutdownError>> = Vec::new();
        let mut k: usize = 0;
        while k < n
            invariant
                old(self).wf(),
                self.registry == old(self).registry,
                n == old(self).workers@.len(),
                self.workers@.len() == n,
                k <= n,
                results@.len() == k,
                self.indices_ok(),
                forall|j: int| 0 <= j < self.workers@.len()
                    ==> (#[trigger] self.workers@[j]).wf(),
                forall|j: int| k <= j < n
                    ==> #[trigger] self.workers@[j] == old(self).workers@[j],
                forall|j: int| 0 <= j < k && !((#[trigger] old(self).workers@[j]).state is Busy)
                    ==> {
                    &&& results@[j] is Ok
                    &&& self.workers@[j].state is Stopped
                    &&& self.workers@[j].destroy_calls == 1
                },
                forall|j: int| 0 <= j < k && (#[trigger] old(self).workers@[j]).state is Busy
                    ==> {
                    &&& results@[j] == Err::<(), ShutdownError>(ShutdownError::WorkerBusy)
                    &&& self.workers@[j] == old(self).workers@[j]
                },
            decreases n - k,
        {
            let mut w = self.workers.remove(k);
            let res = w.shutdown();
            self.workers.insert(k, w);
            results.push(res);
            k = k + 1;
        }
        results
    }
}

} // verus!
