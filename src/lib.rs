//! A node of a peer-to-peer gossip network: typed signals about
//! content-addressed hashes, the ledgers that collect them, the choice of a
//! teacher among the peers, the classification of raw payloads into forms,
//! and the bookkeeping of the ingestion roots that feed the node.
//!
//! - `signal`: hashes, sockets, times, quality scores and the signals.
//! - `ledger`: the append-only ledgers and their commit and recall.
//! - `teacher`: which peer to trust for a hash, from its presence history.
//! - `form`: the tree that classifies payloads into forms.
//! - `network`: the states of the ingestion roots and the commands that
//!   start and stop their workers.
//! - `trunk`: the channel from the roots' workers to the consumer.
//! - `node`: the consumer's side, sending each signal to its ledger.
//! - `wire`: message framing and type codes.
//! - `address`: how a socket is written.
//! - `keys`: a node's RSA key pair.
//! - `lineage`: the roles that sources in the network can play.

pub mod signal;
pub mod ledger;
pub mod teacher;
pub mod form;
pub mod network;
pub mod trunk;
pub mod node;
pub mod wire;
pub mod address;
pub mod keys;
pub mod lineage;
