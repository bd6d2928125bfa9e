//! What a host and a bus make of a transaction.
//!
//! The host performs the transfer that the transaction asks for, hands the bus's
//! reply to the transaction, and goes on until the transaction is over. The
//! functions here say which transfers are performed and how the operation ends,
//! for every sequence of replies; the laws below them say that the transfers are
//! the operation's script, in order, cut off behind the first transfer that fails.

use crate::bus::{Error, Reply, Transfer};
use crate::transaction::{Operation, Outcome, State, Value};
use vstd::prelude::*;

verus! {

impl State {
    /// The transfers that the host performs from this state on, when the bus
    /// answers them with `replies` in order. The host stops when the transaction is
    /// over or the replies have run out.
    pub open spec fn performed<E>(self, replies: Seq<Reply<E>>) -> Seq<Transfer>
        decreases replies.len(),
    {
        if replies.len() == 0 {
            Seq::empty()
        } else {
            match self.advance(replies.first()) {
                Outcome::Pending(next) => seq![self.request()] + next.performed(
                    replies.drop_first(),
                ),
                Outcome::Finished(_) => seq![self.request()],
            }
        }
    }

    /// How the operation has ended once the bus has given `replies`; `None` while
    /// it is still under way.
    pub open spec fn concluded<E>(self, replies: Seq<Reply<E>>) -> Option<Result<Value, Error<E>>>
        decreases replies.len(),
    {
        if replies.len() == 0 {
            None
        } else {
            match self.advance(replies.first()) {
                Outcome::Pending(next) => next.concluded(replies.drop_first()),
                Outcome::Finished(result) => Some(result),
            }
        }
    }
}

/// The first byte that the bus's second reply has brought, zero if it has brought
/// none. Where an operation reads, its second transfer is the read.
pub open spec fn read_back<E>(replies: Seq<Reply<E>>) -> u8 {
    if replies.len() > 1 && replies[1].data().len() > 0 {
        replies[1].data()[0]
    } else {
        0
    }
}

/// The state of the operation after its first `done` transfers have gone through
/// with `replies`.
spec fn state_after<E>(address: u8, operation: Operation, replies: Seq<Reply<E>>, done: int)
    -> State {
    State {
        address,
        operation,
        completed: done as usize,
        latch: if done >= 2 {
            read_back(replies)
        } else {
            0
        },
    }
}

proof fn lemma_request_follows_script<E>(
    address: u8,
    operation: Operation,
    replies: Seq<Reply<E>>,
    done: int,
)
    requires
        operation.well_formed(),
        0 <= done < operation.spec_length(),
    ensures
        state_after(address, operation, replies, done).well_formed(),
        state_after(address, operation, replies, done).request() == operation.script(
            address,
            read_back(replies),
        )[done],
        operation.script(address, read_back(replies)).len() == operation.spec_length(),
{
}

proof fn lemma_step<E>(address: u8, operation: Operation, replies: Seq<Reply<E>>, done: int)
    requires
        operation.well_formed(),
        0 <= done < operation.spec_length(),
        done < replies.len(),
        replies[done].completes(operation.script(address, read_back(replies))[done]),
    ensures
        done + 1 < operation.spec_length() ==> state_after(address, operation, replies, done).advance(
            replies[done],
        ) == Outcome::<E>::Pending(state_after(address, operation, replies, done + 1)),
        done + 1 == operation.spec_length() ==> state_after(
            address,
            operation,
            replies,
            done,
        ).advance(replies[done]) == Outcome::<E>::Finished(
            Ok(operation.spec_result(replies[done].data())),
        ),
{
    lemma_request_follows_script(address, operation, replies, done);
}

proof fn lemma_to_the_end<E>(address: u8, operation: Operation, replies: Seq<Reply<E>>, done: int)
    requires
        operation.well_formed(),
        0 <= done < operation.spec_length(),
        replies.len() >= operation.spec_length(),
        forall|i: int|
            0 <= i < operation.spec_length() ==> (#[trigger] replies[i]).completes(
                operation.script(address, read_back(replies))[i],
            ),
    ensures
        state_after(address, operation, replies, done).performed(replies.skip(done))
            == operation.script(address, read_back(replies)).subrange(
            done,
            operation.spec_length() as int,
        ),
        state_after(address, operation, replies, done).concluded(replies.skip(done)) == Some(
            Ok::<Value, Error<E>>(
                operation.spec_result(replies[operation.spec_length() - 1].data()),
            ),
        ),
    decreases operation.spec_length() - done,
{
    let script = operation.script(address, read_back(replies));
    let state = state_after(address, operation, replies, done);
    let rest = replies.skip(done);
    lemma_request_follows_script(address, operation, replies, done);
    lemma_step(address, operation, replies, done);
    assert(rest.first() == replies[done]);
    assert(rest.drop_first() =~= replies.skip(done + 1));
    if done + 1 < operation.spec_length() {
        lemma_to_the_end(address, operation, replies, done + 1);
        assert(seq![script[done]] + script.subrange(done + 1, operation.spec_length() as int)
            =~= script.subrange(done, operation.spec_length() as int));
    } else {
        assert(seq![script[done]] =~= script.subrange(done, operation.spec_length() as int));
    }
}

proof fn lemma_to_a_failure<E>(
    address: u8,
    operation: Operation,
    replies: Seq<Reply<E>>,
    failed: int,
    done: int,
)
    requires
        operation.well_formed(),
        0 <= done <= failed < operation.spec_length(),
        failed < replies.len(),
        replies[failed] is Failed,
        forall|i: int|
            0 <= i < failed ==> (#[trigger] replies[i]).completes(
                operation.script(address, read_back(replies))[i],
            ),
    ensures
        state_after(address, operation, replies, done).performed(replies.skip(done))
            == operation.script(address, read_back(replies)).subrange(done, failed + 1),
        state_after(address, operation, replies, done).concluded(replies.skip(done)) == Some(
            Err::<Value, Error<E>>(Error::I2c(replies[failed]->Failed_0)),
        ),
    decreases failed - done,
{
    let script = operation.script(address, read_back(replies));
    let rest = replies.skip(done);
    lemma_request_follows_script(address, operation, replies, done);
    assert(rest.first() == replies[done]);
    assert(rest.drop_first() =~= replies.skip(done + 1));
    if done < failed {
        lemma_step(address, operation, replies, done);
        lemma_to_a_failure(address, operation, replies, failed, done + 1);
        assert(seq![script[done]] + script.subrange(done + 1, failed + 1) =~= script.subrange(
            done,
            failed + 1,
        ));
    } else {
        assert(seq![script[done]] =~= script.subrange(done, failed + 1));
    }
}

proof fn lemma_under_way<E>(address: u8, operation: Operation, replies: Seq<Reply<E>>, done: int)
    requires
        operation.well_formed(),
        0 <= done <= replies.len() < operation.spec_length(),
        forall|i: int|
            0 <= i < replies.len() ==> (#[trigger] replies[i]).completes(
                operation.script(address, read_back(replies))[i],
            ),
    ensures
        state_after(address, operation, replies, done).performed(replies.skip(done))
            == operation.script(address, read_back(replies)).subrange(done, replies.len() as int),
        state_after(address, operation, replies, done).concluded(replies.skip(done)) == None::<
            Result<Value, Error<E>>,
        >,
    decreases replies.len() - done,
{
    let script = operation.script(address, read_back(replies));
    let rest = replies.skip(done);
    lemma_request_follows_script(address, operation, replies, done);
    if done < replies.len() {
        assert(rest.first() == replies[done]);
        assert(rest.drop_first() =~= replies.skip(done + 1));
        lemma_step(address, operation, replies, done);
        lemma_under_way(address, operation, replies, done + 1);
        assert(seq![script[done]] + script.subrange(done + 1, replies.len() as int)
            =~= script.subrange(done, replies.len() as int));
    } else {
        assert(script.subrange(done, replies.len() as int) =~= Seq::<Transfer>::empty());
    }
}

/// When every transfer goes through, the host performs the operation's script
/// from its first transfer to its last, and nothing else; the operation ends with
/// the result that its last reply gives it.
pub proof fn run_to_the_end<E>(address: u8, operation: Operation, replies: Seq<Reply<E>>)
    requires
        operation.well_formed(),
        replies.len() >= operation.spec_length(),
        forall|i: int|
            0 <= i < operation.spec_length() ==> (#[trigger] replies[i]).completes(
                operation.script(address, read_back(replies))[i],
            ),
    ensures
        State::start(address, operation).performed(replies) == operation.script(
            address,
            read_back(replies),
        ),
        State::start(address, operation).concluded(replies) == Some(
            Ok::<Value, Error<E>>(
                operation.spec_result(replies[operation.spec_length() - 1].data()),
            ),
        ),
{
    let script = operation.script(address, read_back(replies));
    lemma_to_the_end(address, operation, replies, 0);
    assert(replies.skip(0) =~= replies);
    assert(script.subrange(0, operation.spec_length() as int) =~= script);
}

/// When a transfer fails after all before it have gone through, the host performs
/// the script up to the transfer that failed and no transfer after it; the
/// operation ends with the error that the bus gave.
pub proof fn run_to_a_failure<E>(
    address: u8,
    operation: Operation,
    replies: Seq<Reply<E>>,
    failed: int,
)
    requires
        operation.well_formed(),
        0 <= failed < operation.spec_length(),
        failed < replies.len(),
        replies[failed] is Failed,
        forall|i: int|
            0 <= i < failed ==> (#[trigger] replies[i]).completes(
                operation.script(address, read_back(replies))[i],
            ),
    ensures
        State::start(address, operation).performed(replies) == operation.script(
            address,
            read_back(replies),
        ).subrange(0, failed + 1),
        State::start(address, operation).concluded(replies) == Some(
            Err::<Value, Error<E>>(Error::I2c(replies[failed]->Failed_0)),
        ),
{
    lemma_to_a_failure(address, operation, replies, failed, 0);
    assert(replies.skip(0) =~= replies);
}

/// While fewer replies have come than the script has transfers, and none was a
/// failure, the host has performed one transfer of the script for each reply, and
/// the operation is not over.
pub proof fn run_under_way<E>(address: u8, operation: Operation, replies: Seq<Reply<E>>)
    requires
        operation.well_formed(),
        replies.len() < operation.spec_length(),
        forall|i: int|
            0 <= i < replies.len() ==> (#[trigger] replies[i]).completes(
                operation.script(address, read_back(replies))[i],
            ),
    ensures
        State::start(address, operation).performed(replies) == operation.script(
            address,
            read_back(replies),
        ).subrange(0, replies.len() as int),
        State::start(address, operation).concluded(replies) == None::<Result<Value, Error<E>>>,
{
    lemma_under_way(address, operation, replies, 0);
    assert(replies.skip(0) =~= replies);
}

/// Every transfer of a script goes to the device that the operation was started
/// for, and the script has as many transfers as the operation's length says.
pub proof fn script_stays_with_device(address: u8, operation: Operation, latch: u8)
    ensures
        operation.script(address, latch).len() == operation.spec_length(),
        forall|i: int|
            0 <= i < operation.spec_length() ==> (#[trigger] operation.script(
                address,
                latch,
            )[i]).spec_address() == address,
{
}

} // verus!
