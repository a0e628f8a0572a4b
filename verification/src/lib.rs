//! A registry that collects synthetic import requests emitted during a
//! transformation pass over a program, deduplicates equivalent requests,
//! and materializes them into an ordered sequence of statements.
//!
//! Many independent rewrite rules push requests ("I need binding X from
//! module S, via mechanism M") into a [`registry::ModuleImports`]; at the
//! end of the pass a single draining call turns the accumulated entries
//! into statement descriptions, one per entry, in insertion order.

pub mod import_key;
pub mod laws;
pub mod registry;
pub mod specifier;
pub mod statements;
