//! Sinks for AppendVecs, and feeding them.

use crate::append_vec::AppendVec;
use crate::SnapshotError;
use vstd::prelude::*;

verus! {

/// A sink that takes one AppendVec after the other.
pub trait AppendVecConsumer {
    type Error;

    fn on_append_vec(&mut self, append_vec: AppendVec) -> Result<(), Self::Error>;
}

/// Makes one sink for each worker.
pub trait AppendVecConsumerFactory {
    type Consumer: AppendVecConsumer;

    type Error;

    fn new_consumer(&mut self) -> Result<Self::Consumer, Self::Error>;
}

/// Why feeding a sink stopped early.
#[derive(Debug)]
pub enum FeedError<E> {
    /// The snapshot could not be read further.
    Snapshot(SnapshotError),
    /// The sink refused an AppendVec.
    Consumer(E),
}

/// Whether `i` counts one of the first `n` calls.
pub open spec fn is_call(i: int, n: nat) -> bool {
    0 <= i < n
}

/// Whether `states` can be the states that a factory passes through while
/// it makes the sinks in `made`: one before each call and one behind the last.
pub open spec fn is_trace<A: AppendVecConsumerFactory>(
    states: Seq<A>,
    made: Seq<A::Consumer>,
) -> bool {
    states.len() == made.len() + 1
}

/// Makes `num_threads` sinks, one for each worker, by so many calls of the
/// factory, each of which finds the factory as the call before left it. The
/// first failure of the factory ends the making, and its error is the
/// answer.
pub fn new_consumers<A: AppendVecConsumerFactory>(consumers: &mut A, num_threads: usize) -> (r:
    Result<Vec<A::Consumer>, A::Error>)
    ensures
        r matches Ok(made) ==> made@.len() == num_threads && exists|states: Seq<A>|
            {
                &&& #[trigger] is_trace(states, made@)
                &&& states[0] == *old(consumers)
                &&& states.last() == *final(consumers)
                &&& forall|i: int| #[trigger]
                    is_call(i, made@.len()) ==> exists|
                        factory: &mut A,
                        outcome: Result<A::Consumer, A::Error>,
                    |
                        {
                            &&& #[trigger] call_ensures(A::new_consumer, (factory,), outcome)
                            &&& outcome == Ok::<A::Consumer, A::Error>(made@[i])
                            &&& mut_ref_current(factory) == states[i]
                            &&& mut_ref_future(factory) == states[i + 1]
                        }
            },
        r matches Err(e) ==> exists|states: Seq<A>, made: Seq<A::Consumer>|
            {
                &&& #[trigger] is_trace(states, made)
                &&& made.len() < num_threads
                &&& states[0] == *old(consumers)
                &&& forall|i: int| #[trigger]
                    is_call(i, made.len()) ==> exists|
                        factory: &mut A,
                        outcome: Result<A::Consumer, A::Error>,
                    |
                        {
                            &&& #[trigger] call_ensures(A::new_consumer, (factory,), outcome)
                            &&& outcome == Ok::<A::Consumer, A::Error>(made[i])
                            &&& mut_ref_current(factory) == states[i]
                            &&& mut_ref_future(factory) == states[i + 1]
                        }
                &&& exists|factory: &mut A, outcome: Result<A::Consumer, A::Error>|
                    {
                        &&& #[trigger] call_ensures(A::new_consumer, (factory,), outcome)
                        &&& outcome == Err::<A::Consumer, A::Error>(e)
                        &&& mut_ref_current(factory) == states.last()
                        &&& mut_ref_future(factory) == *final(consumers)
                    }
            },
        num_threads == 0 ==> r is Ok,
{
    let mut made: Vec<A::Consumer> = Vec::new();
    let mut failure: Option<A::Error> = None;
    let mut i: usize = 0;
    let ghost mut states: Seq<A> = seq![*consumers];
    while i < num_threads && failure.is_none()
        invariant
            i <= num_threads,
            made@.len() == i,
            is_trace(states, made@),
            states[0] == *old(consumers),
            failure is None ==> states.last() == *consumers,
            failure is Some ==> i < num_threads,
            forall|k: int| #[trigger]
                is_call(k, made@.len()) ==> exists|
                    factory: &mut A,
                    outcome: Result<A::Consumer, A::Error>,
                |
                    {
                        &&& #[trigger] call_ensures(A::new_consumer, (factory,), outcome)
                        &&& outcome == Ok::<A::Consumer, A::Error>(made@[k])
                        &&& mut_ref_current(factory) == states[k]
                        &&& mut_ref_future(factory) == states[k + 1]
                    },
            failure matches Some(e) ==> exists|
                factory: &mut A,
                outcome: Result<A::Consumer, A::Error>,
            |
                {
                    &&& #[trigger] call_ensures(A::new_consumer, (factory,), outcome)
                    &&& outcome == Err::<A::Consumer, A::Error>(e)
                    &&& mut_ref_current(factory) == states.last()
                    &&& mut_ref_future(factory) == *consumers
                },
        decreases num_threads - i + (if failure is None { 1nat } else { 0nat }),
    {
        let ghost before = *consumers;
        let ghost was = states;
        let ghost had = made@;
        let outcome = A::new_consumer(consumers);
        assert(exists|factory: &mut A|
            {
                &&& #[trigger] call_ensures(A::new_consumer, (factory,), outcome)
                &&& mut_ref_current(factory) == before
                &&& mut_ref_future(factory) == *consumers
            });
        match outcome {
            Ok(consumer) => {
                made.push(consumer);
                proof {
                    states = was.push(*consumers);
                }
                assert forall|k: int| #[trigger] is_call(k, made@.len()) implies exists|
                    factory: &mut A,
                    outcome: Result<A::Consumer, A::Error>,
                |
                    {
                        &&& #[trigger] call_ensures(A::new_consumer, (factory,), outcome)
                        &&& outcome == Ok::<A::Consumer, A::Error>(made@[k])
                        &&& mut_ref_current(factory) == states[k]
                        &&& mut_ref_future(factory) == states[k + 1]
                    } by {
                    if k < had.len() {
                        assert(is_call(k, had.len()));
                        assert(states[k] == was[k]);
                        assert(states[k + 1] == was[k + 1]);
                        assert(made@[k] == had[k]);
                    } else {
                        assert(states[k] == before);
                        assert(states[k + 1] == *consumers);
                        assert(made@[k] == consumer);
                    }
                }
                i += 1;
            },
            Err(e) => {
                assert(states.last() == before);
                failure = Some(e);
            },
        }
    }
    match failure {
        Some(e) => {
            assert(is_trace(states, made@));
            Err(e)
        },
        None => {
            assert(is_trace(states, made@));
            Ok(made)
        },
    }
}

/// Hands one AppendVec to the sink by one call of `on_append_vec`, and
/// answers what the sink answered. An error that came in place of the
/// AppendVec is passed on, and the sink is left alone.
pub fn feed<C: AppendVecConsumer>(consumer: &mut C, item: Result<AppendVec, SnapshotError>) -> (r:
    Result<(), FeedError<C::Error>>)
    ensures
        item matches Err(e) ==> r == Err::<(), FeedError<C::Error>>(FeedError::Snapshot(e)),
        item is Err ==> *final(consumer) == *old(consumer),
        item is Ok ==> !(r matches Err(FeedError::Snapshot(_))),
        item matches Ok(append_vec) ==> exists|sink: &mut C, outcome: Result<(), C::Error>|
            {
                &&& #[trigger] call_ensures(C::on_append_vec, (sink, append_vec), outcome)
                &&& mut_ref_current(sink) == *old(consumer)
                &&& mut_ref_future(sink) == *final(consumer)
                &&& r == match outcome {
                    Ok(()) => Ok::<(), FeedError<C::Error>>(()),
                    Err(e) => Err::<(), FeedError<C::Error>>(FeedError::Consumer(e)),
                }
            },
{
    match item {
        Err(e) => Err(FeedError::Snapshot(e)),
        Ok(append_vec) => {
            let outcome = C::on_append_vec(consumer, append_vec);
            assert(exists|sink: &mut C|
                {
                    &&& #[trigger] call_ensures(C::on_append_vec, (sink, append_vec), outcome)
                    &&& mut_ref_current(sink) == *old(consumer)
                    &&& mut_ref_future(sink) == *consumer
                });
            match outcome {
                Ok(()) => Ok(()),
                Err(e) => Err(FeedError::Consumer(e)),
            }
        },
    }
}

/// The answer of a driver whose workers have all ended, given the failures
/// that they reported, in the order in which they were reported: success if
/// there is none, and else the first.
pub fn join_outcome<E>(failed: Vec<E>) -> (r: Result<(), E>)
    ensures
        r is Ok <==> failed@.len() == 0,
        r matches Err(e) ==> e == failed@[0],
{
    let mut failed = failed;
    if failed.len() == 0 {
        Ok(())
    } else {
        Err(failed.remove(0))
    }
}

} // verus!
