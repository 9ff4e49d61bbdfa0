//! Waiting for a sent transaction to be confirmed: the decisions taken on each
//! report of the pending transaction, over a bounded number of rounds.
use vstd::prelude::*;

verus! {

/// Why a transaction was not confirmed.
#[derive(Debug)]
pub struct ConfirmationError {
    msg: String,
}

pub open spec fn rejected_message(pool_error: Seq<char>) -> Seq<char> {
    "Transaction Rejected:"@ + pool_error
}

/// Whether a report names the block that holds the transaction.
pub open spec fn is_confirmation(confirmed_round: Option<u64>) -> bool {
    confirmed_round matches Some(n) && n > 0
}

pub open spec fn timeout_message() -> Seq<char> {
    "Timeout exceeded"@
}

impl ConfirmationError {
    /// The message carried by the error.
    pub closed spec fn message_of(&self) -> Seq<char> {
        self.msg@
    }

    pub fn new(msg: String) -> (r: Box<Self>)
        ensures
            (*r).message_of() == msg@,
    {
        Box::new(ConfirmationError { msg })
    }

    /// The error for a transaction that the node evicted from its pool.
    pub fn rejected(pool_error: &str) -> (r: Box<Self>)
        ensures
            (*r).message_of() == rejected_message(pool_error@),
    {
        let mut msg = String::from_str("Transaction Rejected:");
        msg.append(pool_error);
        Self::new(msg)
    }

    /// The error for a transaction not confirmed within the rounds waited.
    pub fn timeout() -> (r: Box<Self>)
        ensures
            (*r).message_of() == timeout_message(),
    {
        Self::new(String::from_str("Timeout exceeded"))
    }

    pub fn message(&self) -> (r: &str)
        ensures
            r@ == self.message_of(),
    {
        self.msg.as_str()
    }
}

/// What to do after a report on the pending transaction.
#[derive(Debug)]
pub enum ConfirmationAction {
    /// The transaction is in a block.
    Confirmed,
    /// The transaction was evicted from the pool.
    Rejected(Box<ConfirmationError>),
    /// Wait until the node has seen the given round, then ask again.
    WaitForBlock(u64),
}

/// The rounds in which a transaction is waited for: from `start_round` up to,
/// not including, `start_round + timeout`.
#[derive(Clone, Copy, Debug, PartialEq, Eq, Structural)]
pub struct ConfirmationWait {
    pub start_round: u64,
    pub current_round: u64,
    pub timeout: u64,
}

impl ConfirmationWait {
    pub open spec fn wf(&self) -> bool {
        &&& self.start_round + self.timeout <= u64::MAX
        &&& self.start_round <= self.current_round
        &&& self.current_round <= self.start_round + self.timeout
    }

    pub open spec fn is_expired(&self) -> bool {
        self.current_round >= self.start_round + self.timeout
    }

    /// Starts waiting in the round after `last_round`, for `timeout` rounds.
    pub fn new(last_round: u64, timeout: u64) -> (r: Self)
        requires
            last_round + 1 + timeout <= u64::MAX,
        ensures
            r.wf(),
            r.start_round == last_round + 1,
            r.current_round == r.start_round,
            r.timeout == timeout,
    {
        let start_round = last_round + 1;
        ConfirmationWait { start_round, current_round: start_round, timeout }
    }

    /// Whether every round of the wait has passed.
    pub fn expired(&self) -> (r: bool)
        requires
            self.wf(),
        ensures
            r == self.is_expired(),
    {
        self.current_round >= self.start_round + self.timeout
    }

    /// Decides on a report of the pending transaction: the block it is in
    /// (`confirmed_round`), and the pool's error, empty if there is none.
    /// Waiting for a block moves the wait on by one round.
    pub fn on_pending(&mut self, confirmed_round: Option<u64>, pool_error: &str) -> (r:
        ConfirmationAction)
        requires
            old(self).wf(),
            !old(self).is_expired(),
        ensures
            final(self).wf(),
            is_confirmation(confirmed_round) ==> {
                &&& r is Confirmed
                &&& *final(self) == *old(self)
            },
            !is_confirmation(confirmed_round) && pool_error@.len() > 0 ==> {
                &&& r matches ConfirmationAction::Rejected(e)
                &&& (*e).message_of() == rejected_message(pool_error@)
                &&& *final(self) == *old(self)
            },
            !is_confirmation(confirmed_round) && pool_error@.len() == 0 ==> {
                &&& r matches ConfirmationAction::WaitForBlock(w)
                &&& w == old(self).current_round
                &&& final(self).current_round == old(self).current_round + 1
                &&& final(self).start_round == old(self).start_round
                &&& final(self).timeout == old(self).timeout
            },
    {
        if let Some(n) = confirmed_round {
            if n > 0 {
                return ConfirmationAction::Confirmed;
            }
        }
        if !pool_error.is_empty() {
            return ConfirmationAction::Rejected(ConfirmationError::rejected(pool_error));
        }
        let round = self.current_round;
        self.current_round = self.current_round + 1;
        ConfirmationAction::WaitForBlock(round)
    }
}

} // verus!
