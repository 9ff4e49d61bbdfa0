//! Finds the extremum of a function of one variable from samples of its
//! first derivative, and holds the decisions of a reward-compounding client:
//! how long a sent transaction is waited for, where the node is reached and
//! what each payment's note says.
pub mod analytic;
pub mod confirm;
pub mod node;
pub mod payment;
pub mod search;
