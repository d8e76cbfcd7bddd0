//! The steps of a worker task, from assignment to completion.
//!
//! A task starts as a [`PendingAssignment`]. Asking for its assignment
//! drains the shared queue and gives either a [`LoadBatch`] of bounded size
//! or no assignment at all. A batch is resolved with what the backend
//! loaded, which answers every request in it and leaves a
//! [`CompletionReceipt`].

use vstd::prelude::*;
use vstd::std_specs::hash::obeys_key_model;
use std::collections::{HashMap, HashSet};
use std::sync::Arc;
use rayon::iter::{IntoParallelIterator, ParallelIterator};
use tokio::runtime::Handle;
use crate::buckets::{
    bucket_views, chunks, lemma_chunks_flatten, lemma_chunks_sizes, split_into_buckets,
};
use crate::key::{clone_key, Key};
use crate::request::{share, Reply, Request};
use crate::worker::QueueHandle;

verus! {

/// `tokio::runtime::Handle`, carried as an opaque value.
#[verifier::external_type_specification]
#[verifier::external_body]
pub struct ExHandle(Handle);

/// `Clone::clone` of `tokio::runtime::Handle`: one more handle to the same
/// runtime. Nothing is claimed of it.
pub assume_specification[ <Handle as Clone>::clone ](handle: &Handle) -> (other: Handle)
;

/// A step of a worker task; the parameter says which.
pub struct Task<T>(pub(crate) T);

/// A task that has not been given its work yet. It holds the requests that
/// were handed to it, and the queue from which it will take more.
#[verifier::reject_recursive_types(K)]
#[verifier::reject_recursive_types(V)]
#[verifier::reject_recursive_types(E)]
pub struct PendingAssignment<
    K: Key,
    V: Send + Sync + Clone + 'static,
    E: Send + Sync + Clone + 'static,
> {
    pub(crate) runtime_handle: Handle,
    pub(crate) queue_handle: &'static QueueHandle<K, V, E>,
    pub(crate) requests: Vec<Request<K, V, E>>,
}

/// The requests chosen for one call of the backend.
#[verifier::reject_recursive_types(V)]
#[verifier::reject_recursive_types(E)]
pub struct LoadBatch<K: Key, V: Send + Sync + Clone + 'static, E: Send + Sync + Clone + 'static> {
    pub(crate) requests: Vec<Request<K, V, E>>,
}

/// The token that a task leaves when all its requests have been disposed of.
/// Only the operations that dispose of requests can make one.
pub struct CompletionReceipt {
    sealed: (),
}

/// What a task is given to do.
#[verifier::reject_recursive_types(V)]
#[verifier::reject_recursive_types(E)]
pub enum TaskAssignment<
    K: Key,
    V: Send + Sync + Clone + 'static,
    E: Send + Sync + Clone + 'static,
> {
    /// A batch of requests to load values for.
    LoadBatch(Task<LoadBatch<K, V, E>>),
    /// Nothing is pending: other tasks took all the work.
    NoAssignment(Task<CompletionReceipt>),
}

/// A request together with the reply that it is to be answered with.
#[verifier::reject_recursive_types(V)]
#[verifier::reject_recursive_types(E)]
pub struct Resolution<K: Key, V: Send + Sync + Clone + 'static, E: Send + Sync + Clone + 'static> {
    pub request: Request<K, V, E>,
    pub reply: Reply<V, E>,
}

/// The reply to a request for `key` when the backend loaded `values`: the
/// value under the key, or the news that there is none.
pub open spec fn found<K, V, E>(values: Map<K, Arc<V>>, key: K) -> Reply<V, E> {
    if values.contains_key(key) {
        Ok(Some(values[key]))
    } else {
        Ok(None)
    }
}

/// Whether `reply` answers a request for `key` as `results` demands: with
/// what was loaded for the key, or with a clone of the backend's error.
pub open spec fn answers<K, V, E: Clone>(
    results: Result<Map<K, Arc<V>>, E>,
    key: K,
    reply: Reply<V, E>,
) -> bool {
    match results {
        Ok(values) => reply == found::<K, V, E>(values, key),
        Err(error) => reply matches Err(other) && cloned(error, other),
    }
}

/// The keys that `requests` ask for, request by request.
pub open spec fn keys_of<K: Key, V: Send + Sync + Clone + 'static, E: Send + Sync + Clone + 'static>(
    requests: Seq<Request<K, V, E>>,
) -> Seq<K> {
    requests.map_values(|request: Request<K, V, E>| request.spec_key())
}

/// The requests of a plan, step by step.
pub open spec fn requests_of<
    K: Key,
    V: Send + Sync + Clone + 'static,
    E: Send + Sync + Clone + 'static,
>(plan: Seq<Resolution<K, V, E>>) -> Seq<Request<K, V, E>> {
    plan.map_values(|step: Resolution<K, V, E>| step.request)
}

/// The test for a request whose key is among `values`.
pub open spec fn answered<
    K: Key,
    V: Send + Sync + Clone + 'static,
    E: Send + Sync + Clone + 'static,
>(values: Map<K, Arc<V>>) -> spec_fn(Request<K, V, E>) -> bool {
    |request: Request<K, V, E>| values.contains_key(request.spec_key())
}

/// The test for a request whose key is not among `values`.
pub open spec fn unanswered<
    K: Key,
    V: Send + Sync + Clone + 'static,
    E: Send + Sync + Clone + 'static,
>(values: Map<K, Arc<V>>) -> spec_fn(Request<K, V, E>) -> bool {
    |request: Request<K, V, E>| !values.contains_key(request.spec_key())
}

/// The view of a backend's result: the loaded values as a map.
pub open spec fn loaded<K, V, E>(results: Result<HashMap<K, Arc<V>>, E>) -> Result<
    Map<K, Arc<V>>,
    E,
> {
    match results {
        Ok(values) => Ok(values@),
        Err(error) => Err(error),
    }
}

impl<K: Key, V: Send + Sync + Clone + 'static, E: Send + Sync + Clone + 'static> Resolution<
    K,
    V,
    E,
> {
    /// Answers the request with the reply that was planned for it.
    pub fn resolve(self) {
        self.request.resolve(self.reply)
    }
}

/// `rayon::iter::ParallelIterator::for_each` over the plan: the threads of
/// the pool take the steps and resolve each, in no particular order. The
/// call returns when every step has been taken.
#[verifier::external_body]
fn resolve_each<K: Key, V: Send + Sync + Clone + 'static, E: Send + Sync + Clone + 'static>(
    plan: Vec<Resolution<K, V, E>>,
) {
    plan.into_par_iter().for_each(|step| step.resolve());
}

/// Answers every request of the plan with its reply, and returns when all
/// replies have been issued.
pub fn carry_out<K: Key, V: Send + Sync + Clone + 'static, E: Send + Sync + Clone + 'static>(
    plan: Vec<Resolution<K, V, E>>,
) {
    resolve_each(plan)
}

/// `rayon::spawn`: hands the carrying out of the plan to the pool and
/// returns at once. Nothing is claimed of when the replies are issued.
#[verifier::external_body]
fn fan_out<K: Key, V: Send + Sync + Clone + 'static, E: Send + Sync + Clone + 'static>(
    plan: Vec<Resolution<K, V, E>>,
) {
    rayon::spawn(move || carry_out(plan));
}

impl Task<CompletionReceipt> {
    /// The receipt of a task whose requests have all been disposed of.
    pub(crate) fn completion_receipt() -> Self {
        Task(CompletionReceipt { sealed: () })
    }
}

impl<K: Key, V: Send + Sync + Clone + 'static, E: Send + Sync + Clone + 'static> Task<
    LoadBatch<K, V, E>,
> {
    /// The requests of the batch, in order.
    pub closed spec fn requests(self) -> Seq<Request<K, V, E>> {
        self.0.requests@
    }

    /// A batch of the given requests.
    pub fn from_requests(requests: Vec<Request<K, V, E>>) -> (batch: Self)
        ensures
            batch.requests() == requests@,
    {
        Task(LoadBatch { requests })
    }

    /// The number of requests in the batch.
    pub fn len(&self) -> (n: usize)
        ensures
            n == self.requests().len(),
    {
        self.0.requests.len()
    }

    /// The distinct keys of the batch, each once: what the backend is asked
    /// to load. The guarantee is for key types that obey the hash-table key
    /// model.
    pub fn keys(&self) -> (keys: Vec<K>)
        ensures
            obeys_key_model::<K>() ==> keys@.no_duplicates(),
            obeys_key_model::<K>() ==> keys@.to_set() == keys_of(self.requests()).to_set(),
    {
        broadcast use vstd::std_specs::hash::group_hash_axioms;

        let mut seen: HashSet<K> = HashSet::new();
        let mut keys: Vec<K> = Vec::new();
        let n: usize = self.0.requests.len();
        let mut i: usize = 0;
        while i < n
            invariant
                i <= n,
                n == self.0.requests@.len(),
                obeys_key_model::<K>() ==> {
                    &&& seen@ == keys@.to_set()
                    &&& keys@.no_duplicates()
                    &&& keys@.to_set() == keys_of(self.requests().take(i as int)).to_set()
                },
            decreases n - i,
        {
            let key = self.0.requests[i].key();
            proof {
                let before = self.requests().take(i as int);
                let next = self.requests()[i as int];
                assert(self.requests().take(i + 1) == before.push(next));
                assert(keys_of(before.push(next)) == keys_of(before).push(next.spec_key()));
                keys_of(before).lemma_push_to_set_commute(next.spec_key());
                keys@.lemma_push_to_set_commute(next.spec_key());
            }
            if !seen.contains(key) {
                seen.insert(clone_key(key));
                keys.push(clone_key(key));
            }
            i += 1;
        }
        assert(self.requests().take(n as int) == self.requests());
        keys
    }

    /// Pairs every request of the batch with its reply: on success what was
    /// loaded for its key, or the news that nothing was; on failure a clone
    /// of the error. What is said of a success is for key types that obey
    /// the hash-table key model.
    pub fn resolutions(self, results: Result<HashMap<K, Arc<V>>, E>) -> (plan: Vec<
        Resolution<K, V, E>,
    >)
        ensures
            plan@.len() == self.requests().len(),
            requests_of(plan@) == self.requests(),
            forall|i: int|
                0 <= i < plan@.len() && (results is Err || obeys_key_model::<K>()) ==> answers(
                    loaded(results),
                    self.requests()[i].spec_key(),
                    (#[trigger] plan@[i]).reply,
                ),
    {
        broadcast use vstd::std_specs::hash::group_hash_axioms;

        let Task(LoadBatch { requests }) = self;
        let mut plan: Vec<Resolution<K, V, E>> = Vec::new();
        for request in iter: requests
            invariant
                plan@.len() == iter.index(),
                requests_of(plan@) == iter.seq().take(iter.index()),
                forall|i: int|
                    0 <= i < plan@.len() && (results is Err || obeys_key_model::<K>()) ==> answers(
                        loaded(results),
                        iter.seq()[i].spec_key(),
                        (#[trigger] plan@[i]).reply,
                    ),
        {
            let reply = match &results {
                Ok(values) => match values.get(request.key()) {
                    Some(value) => Ok(Some(share(value))),
                    None => Ok(None),
                },
                Err(error) => Err(error.clone()),
            };
            plan.push(Resolution { request, reply });
        }
        plan
    }

    /// Answers every request of the batch with what the backend loaded for
    /// its key, or every one with a clone of the backend's error. The
    /// replies are decided here and sent from the thread pool, behind the
    /// caller's back; the receipt says that all of them are on their way,
    /// not that they have been read.
    #[must_use]
    pub fn resolve(self, results: Result<HashMap<K, Arc<V>>, E>) -> (receipt: Task<
        CompletionReceipt,
    >) {
        let plan = self.resolutions(results);
        fan_out(plan);
        Task::completion_receipt()
    }

    /// Parts the batch by the keys of `values`: the requests whose key is
    /// among them, each paired with the value as its reply, and the requests
    /// whose key is not. Both keep the order of the batch. The guarantee is
    /// for key types that obey the hash-table key model.
    pub fn partition(self, values: &HashMap<K, Arc<V>>) -> (parts: (
        Vec<Resolution<K, V, E>>,
        Vec<Request<K, V, E>>,
    ))
        ensures
            obeys_key_model::<K>() ==> {
                &&& parts.0@.len() == self.requests().filter(answered(values@)).len()
                &&& requests_of(parts.0@) == self.requests().filter(answered(values@))
                &&& forall|i: int|
                    0 <= i < parts.0@.len() ==> (#[trigger] parts.0@[i]).reply == Ok::<
                        Option<Arc<V>>,
                        E,
                    >(Some(values@[parts.0@[i].request.spec_key()]))
                &&& parts.1@ == self.requests().filter(unanswered(values@))
            },
    {
        broadcast use vstd::std_specs::hash::group_hash_axioms;

        let Task(LoadBatch { requests }) = self;
        let mut resolved: Vec<Resolution<K, V, E>> = Vec::new();
        let mut remaining: Vec<Request<K, V, E>> = Vec::new();
        for request in iter: requests
            invariant
                obeys_key_model::<K>() ==> {
                    &&& requests_of(resolved@) == iter.seq().take(iter.index()).filter(
                        answered(values@),
                    )
                    &&& forall|i: int|
                        0 <= i < resolved@.len() ==> (#[trigger] resolved@[i]).reply == Ok::<
                            Option<Arc<V>>,
                            E,
                        >(Some(values@[resolved@[i].request.spec_key()]))
                    &&& remaining@ == iter.seq().take(iter.index()).filter(unanswered(values@))
                },
        {
            proof {
                let before = iter.seq().take(iter.index());
                assert(iter.seq().take(iter.index() + 1) == before.push(request));
                before.lemma_filter_push(request, answered(values@));
                before.lemma_filter_push(request, unanswered(values@));
            }
            match values.get(request.key()) {
                Some(value) => {
                    let reply = Ok(Some(share(value)));
                    resolved.push(Resolution { request, reply });
                },
                None => {
                    remaining.push(request);
                },
            }
        }
        assert(requests@.take(requests@.len() as int) == requests@);
        (resolved, remaining)
    }

    /// Answers every request whose key is among `results`, with the value
    /// found there, before it returns, and gives the requests that are left
    /// as a new assignment: a batch if any is left, no assignment if none
    /// is. The guarantee on what is left is for key types that obey the
    /// hash-table key model.
    #[must_use]
    pub fn apply_partial_results(self, results: HashMap<K, Arc<V>>) -> (rest: TaskAssignment<
        K,
        V,
        E,
    >)
        ensures
            obeys_key_model::<K>() ==> rest.requests() == self.requests().filter(
                unanswered(results@),
            ),
            rest is NoAssignment <==> rest.requests().len() == 0,
    {
        let (resolved, remaining) = self.partition(&results);
        carry_out(resolved);
        if remaining.len() > 0 {
            TaskAssignment::LoadBatch(Task::from_requests(remaining))
        } else {
            TaskAssignment::NoAssignment(Task::completion_receipt())
        }
    }
}

/// The batch that a task keeps of `all` its requests: all of them, or the
/// first `max` where there are more than the limit allows.
pub open spec fn first_batch<T>(all: Seq<T>, max_batch_size: Option<usize>) -> Seq<T> {
    match max_batch_size {
        Some(max) if all.len() > max => all.take(max as int),
        _ => all,
    }
}

/// The buckets that a task hands on to new tasks: what is left of `all`
/// behind the first batch, cut to the limit.
pub open spec fn overflow<T>(all: Seq<T>, max_batch_size: Option<usize>) -> Seq<Seq<T>> {
    match max_batch_size {
        Some(max) if all.len() > max => chunks(all.skip(max as int), max as nat),
        _ => Seq::empty(),
    }
}

impl<K: Key, V: Send + Sync + Clone + 'static, E: Send + Sync + Clone + 'static> TaskAssignment<
    K,
    V,
    E,
> {
    /// The requests that the assignment holds: those of the batch, or none.
    pub open spec fn requests(self) -> Seq<Request<K, V, E>> {
        match self {
            TaskAssignment::LoadBatch(batch) => batch.requests(),
            TaskAssignment::NoAssignment(_) => Seq::empty(),
        }
    }

    /// Decides what a task does with the requests that it holds after it
    /// drained the queue. No requests give no assignment. Requests within
    /// the limit, or any number where there is no limit, make one batch.
    /// Beyond the limit the first `max_batch_size` requests make the batch
    /// and the rest is cut into buckets of at most that size, in order, for
    /// new tasks to take.
    pub fn from_requests(requests: Vec<Request<K, V, E>>, max_batch_size: Option<usize>) -> (out: (
        Self,
        Vec<Vec<Request<K, V, E>>>,
    ))
        requires
            max_batch_size matches Some(max) ==> max > 0,
        ensures
            out.0.requests() == first_batch(requests@, max_batch_size),
            out.0 is NoAssignment <==> requests@.len() == 0,
            bucket_views(out.1@) == overflow(requests@, max_batch_size),
    {
        let mut requests = requests;
        match max_batch_size {
            Some(max) if requests.len() > max => {
                let rest = requests.split_off(max);
                let buckets = split_into_buckets(rest, max);
                (TaskAssignment::LoadBatch(Task::from_requests(requests)), buckets)
            },
            _ => {
                let buckets: Vec<Vec<Request<K, V, E>>> = Vec::new();
                if requests.len() == 0 {
                    (TaskAssignment::NoAssignment(Task::completion_receipt()), buckets)
                } else {
                    (TaskAssignment::LoadBatch(Task::from_requests(requests)), buckets)
                }
            },
        }
    }
}

/// Parting a batch by the loaded values loses no request and repeats none:
/// the answered and the unanswered requests together are the requests of
/// the batch, each as often as it was there.
pub proof fn lemma_partition_keeps_every_request<
    K: Key,
    V: Send + Sync + Clone + 'static,
    E: Send + Sync + Clone + 'static,
>(requests: Seq<Request<K, V, E>>, values: Map<K, Arc<V>>)
    ensures
        requests.filter(answered(values)).to_multiset().add(
            requests.filter(unanswered(values)).to_multiset(),
        ) == requests.to_multiset(),
    decreases requests.len(),
{
    broadcast use vstd::seq_lib::group_to_multiset_ensures;

    if requests.len() == 0 {
    } else {
        let front = requests.drop_last();
        let last = requests.last();
        lemma_partition_keeps_every_request(front, values);
        assert(requests == front.push(last));
        front.lemma_filter_push(last, answered(values));
        front.lemma_filter_push(last, unanswered(values));
    }
}

/// Whether a task that holds `buffered` requests has its batch already and
/// leaves the queue alone: there is a limit and the task has reached it.
pub open spec fn full(buffered: nat, max_batch_size: Option<usize>) -> bool {
    max_batch_size matches Some(max) && buffered >= max
}

/// The requests that each of `tasks` holds, task by task.
pub open spec fn pending_requests<
    K: Key,
    V: Send + Sync + Clone + 'static,
    E: Send + Sync + Clone + 'static,
>(tasks: Seq<Task<PendingAssignment<K, V, E>>>) -> Seq<Seq<Request<K, V, E>>> {
    Seq::new(tasks.len(), |i: int| tasks[i].requests())
}

/// Splitting loses no request and repeats none: the batch followed by the
/// buckets holds all requests in their order. Under a limit neither the
/// batch nor a bucket is larger than the limit, and no bucket is empty.
pub proof fn lemma_split_keeps_every_request<T>(all: Seq<T>, max_batch_size: Option<usize>)
    requires
        max_batch_size matches Some(max) ==> max > 0,
    ensures
        first_batch(all, max_batch_size) + overflow(all, max_batch_size).flatten() == all,
        max_batch_size matches Some(max) ==> first_batch(all, max_batch_size).len() <= max,
        max_batch_size matches Some(max) ==> forall|i: int|
            0 <= i < overflow(all, max_batch_size).len() ==> 0 < (#[trigger] overflow(
                all,
                max_batch_size,
            )[i]).len() <= max,
{
    match max_batch_size {
        Some(max) if all.len() > max => {
            lemma_chunks_flatten(all.skip(max as int), max as nat);
            lemma_chunks_sizes(all.skip(max as int), max as nat);
        },
        _ => {
        },
    }
}

impl<K: Key, V: Send + Sync + Clone + 'static, E: Send + Sync + Clone + 'static> Task<
    PendingAssignment<K, V, E>,
> {
    /// The requests that the task holds already, in order.
    pub closed spec fn requests(self) -> Seq<Request<K, V, E>> {
        self.0.requests@
    }

    /// The queue from which the task takes its work.
    pub closed spec fn queue(self) -> &'static QueueHandle<K, V, E> {
        self.0.queue_handle
    }

    /// The runtime on which the task's overflow is to be spawned.
    pub closed spec fn runtime(self) -> Handle {
        self.0.runtime_handle
    }

    /// A task that holds no requests yet and will take them from
    /// `queue_handle`.
    #[must_use]
    pub fn new(queue_handle: &'static QueueHandle<K, V, E>, runtime_handle: Handle) -> (task: Self)
        ensures
            task.requests() == Seq::<Request<K, V, E>>::empty(),
            task.queue() == queue_handle,
            task.runtime() == runtime_handle,
    {
        Task(PendingAssignment { runtime_handle, queue_handle, requests: Vec::new() })
    }

    /// The number of requests that the task holds already.
    pub fn len(&self) -> (n: usize)
        ensures
            n == self.requests().len(),
    {
        self.0.requests.len()
    }

    /// The queue from which the task takes its work.
    pub fn queue_handle(&self) -> (queue_handle: &'static QueueHandle<K, V, E>)
        ensures
            queue_handle == self.queue(),
    {
        self.0.queue_handle
    }

    /// The runtime on which the task's overflow is to be spawned.
    pub fn runtime_handle(&self) -> (runtime_handle: &Handle)
        ensures
            *runtime_handle == self.runtime(),
    {
        &self.0.runtime_handle
    }

    /// Gives the task its work.
    ///
    /// A task that has reached the limit keeps what it holds as its batch
    /// and leaves the queue alone. Any other task first takes all that is
    /// queued behind what it holds. If that is nothing at all, there is no
    /// assignment. If it is within the limit, it is the batch. If it is more,
    /// the first `max_batch_size` requests are the batch, and the rest goes,
    /// in buckets of at most that size, to new tasks on the same queue: the
    /// second component, for the caller to spawn.
    ///
    /// In the contract `all` stands for everything that the task gives out,
    /// the batch followed by the buckets: what the task held, followed by
    /// what it took from the queue.
    pub fn get_assignment(self, max_batch_size: Option<usize>) -> (out: (
        TaskAssignment<K, V, E>,
        Vec<Task<PendingAssignment<K, V, E>>>,
    ))
        ensures
            ({
                let handed_on = pending_requests(out.1@);
                let all = out.0.requests() + handed_on.flatten();
                &&& self.requests().is_prefix_of(all)
                &&& forall|i: int|
                    0 <= i < out.1@.len() ==> (#[trigger] out.1@[i]).queue() == self.queue()
                &&& if full(self.requests().len(), max_batch_size) {
                    &&& out.0 is LoadBatch
                    &&& all == self.requests()
                    &&& out.1@.len() == 0
                } else {
                    &&& out.0.requests() == first_batch(all, max_batch_size)
                    &&& out.0 is NoAssignment <==> all.len() == 0
                    &&& handed_on == overflow(all, max_batch_size)
                }
            }),
            max_batch_size matches Some(max) ==> (self.requests().len() <= max ==> {
                &&& out.0.requests().len() <= max
                &&& forall|i: int|
                    0 <= i < out.1@.len() ==> 0 < (#[trigger] out.1@[i]).requests().len() <= max
            }),
    {
        let Task(PendingAssignment { runtime_handle, queue_handle, mut requests }) = self;
        let reached = match max_batch_size {
            Some(max) => requests.len() >= max,
            None => false,
        };
        if reached {
            let tasks: Vec<Task<PendingAssignment<K, V, E>>> = Vec::new();
            return (TaskAssignment::LoadBatch(Task::from_requests(requests)), tasks);
        }
        queue_handle.collect_queue(&mut requests);
        let ghost all = requests@;
        let (assignment, buckets) = TaskAssignment::from_requests(requests, max_batch_size);
        let mut tasks: Vec<Task<PendingAssignment<K, V, E>>> = Vec::new();
        for bucket in iter: buckets
            invariant
                tasks@.len() == iter.index(),
                forall|i: int|
                    0 <= i < tasks@.len() ==> {
                        &&& (#[trigger] tasks@[i]).requests() == iter.seq()[i]@
                        &&& tasks@[i].queue() == queue_handle
                    },
        {
            tasks.push(
                Task(
                    PendingAssignment {
                        runtime_handle: runtime_handle.clone(),
                        queue_handle,
                        requests: bucket,
                    },
                ),
            );
        }
        proof {
            assert(pending_requests(tasks@) == bucket_views(buckets@));
            lemma_split_keeps_every_request(all, max_batch_size);
            assert forall|i: int| 0 <= i < tasks@.len() implies (#[trigger] tasks@[i]).requests()
                == pending_requests(tasks@)[i] by {}
        }
        (assignment, tasks)
    }
}

} // verus!
