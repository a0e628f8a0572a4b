//! Keys identifying how and from where a binding is requested: a
//! mechanism (named import, default import, or require) paired with the
//! source module string.
//!
//! Key equality is intentionally asymmetric to the usual notion: a
//! default-import key compares unequal to every key, including another
//! default-import key for the same source. Named-import and require
//! keys compare equal exactly when both mechanism and source match.
//! The registry merges requests only through this equality, so default
//! imports are never merged while the other two mechanisms accumulate.

use vstd::prelude::*;

verus! {

/// The mechanism by which a binding is requested.
#[derive(Clone, Copy, Debug, PartialEq, Eq, Structural)]
pub enum ImportKind {
    /// `import { name } from "source"`
    Import,
    /// `import name from "source"`
    ImportDefault,
    /// `var name = require("source")`
    Require,
}

/// Mathematical value of an [`ImportType`].
#[verifier::ext_equal]
pub ghost struct KeyV {
    pub kind: ImportKind,
    pub source: Seq<char>,
}

/// How and from where a binding is requested.
pub struct ImportType {
    pub kind: ImportKind,
    pub source: String,
}

impl View for ImportType {
    type V = KeyV;

    open spec fn view(&self) -> KeyV {
        KeyV { kind: self.kind, source: self.source@ }
    }
}

/// Two keys merge into one registry entry exactly when neither is a
/// default-import key and both mechanism and source match. Symmetric.
pub open spec fn keys_merge(a: KeyV, b: KeyV) -> bool {
    &&& a.kind != ImportKind::ImportDefault
    &&& a.kind == b.kind
    &&& a.source == b.source
}

/// The key of a named-import request for `source`.
pub open spec fn named_key(source: Seq<char>) -> KeyV {
    KeyV { kind: ImportKind::Import, source }
}

/// The key of a default-import request for `source`.
pub open spec fn default_key(source: Seq<char>) -> KeyV {
    KeyV { kind: ImportKind::ImportDefault, source }
}

/// The key of a require request for `source`.
pub open spec fn require_key(source: Seq<char>) -> KeyV {
    KeyV { kind: ImportKind::Require, source }
}

impl ImportType {
    pub fn new(kind: ImportKind, source: String) -> (r: Self)
        ensures
            r@ == (KeyV { kind, source: source@ }),
    {
        Self { kind, source }
    }
}

impl vstd::std_specs::cmp::PartialEqSpecImpl for ImportType {
    open spec fn obeys_eq_spec() -> bool {
        true
    }

    open spec fn eq_spec(&self, other: &Self) -> bool {
        keys_merge(self@, other@)
    }
}

impl PartialEq for ImportType {
    /// A default-import key equals nothing, not even itself; other keys
    /// compare by mechanism and source.
    fn eq(&self, other: &Self) -> (r: bool) {
        if self.kind == ImportKind::ImportDefault {
            false
        } else {
            self.kind == other.kind && self.source == other.source
        }
    }
}

} // verus!
