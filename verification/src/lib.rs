//! Consensus core of a permissioned-validator blockchain prototype.
//!
//! The heart of the crate is the consensus subsystem: a reputation ledger
//! that tracks per-validator trust scores and escalating bans
//! ([`reputation`]), stateless verification of block proposals
//! ([`block_proposal`]), and vote tallying toward finality ([`voting`]).
//! Around it stand the value types and bookkeeping the consensus layer
//! works against: a validator directory ([`validator_set`]), a minimal
//! chain/token ledger ([`blockchain`], [`block`], [`token`]), and
//! transaction validation ([`transaction`], [`validacao`]).
//!
//! Scores and percentages are held in hundredths (a score of `50.0` points
//! is stored as `5000`); times are plain milliseconds or seconds, handed in
//! by the caller or read once at the edge, so that every rule in between is
//! deterministic.

pub mod clock;
pub mod strutil;

pub mod validator_set;

pub mod reputation;

pub mod consensus;

pub mod block_proposal;

pub mod voting;

pub mod crypto;

pub mod transaction_error;

pub mod secure_transaction;

pub mod transaction;

pub mod token;

pub mod smart_contract;

pub mod block;

pub mod blockchain;

pub mod validacao;

pub mod funcoes_sensiveis;
