//! The registry: an ordered collection of (key, specifier-list) entries
//! that many independent rewrite rules fill during a transformation
//! pass, and that is drained exactly once at the end of the pass into
//! an ordered sequence of statement descriptions.
//!
//! Entries are kept as an ordered sequence of pairs; merging goes
//! through the key equality of [`crate::import_key`], so named-import
//! and require requests for one source accumulate into one entry while
//! every default-import request opens an entry of its own.

use vstd::prelude::*;

use crate::import_key::{keys_merge, named_key, default_key, require_key, ImportKind, ImportType, KeyV};
use crate::specifier::{ImportSpecifier, SpecifierV};
use crate::statements::{
    default_stmt, get_default_import, get_named_import, get_require, named_stmt, require_stmt,
    ImportStatement, StmtV,
};

verus! {

/// Mathematical value of an [`ImportEntry`].
#[verifier::ext_equal]
pub ghost struct EntryV {
    pub key: KeyV,
    pub specifiers: Seq<SpecifierV>,
}

/// One registry entry: a key and the non-empty list of specifiers
/// accumulated under it, in the order they were added.
pub struct ImportEntry {
    pub key: ImportType,
    pub specifiers: Vec<ImportSpecifier>,
}

impl View for ImportEntry {
    type V = EntryV;

    open spec fn view(&self) -> EntryV {
        EntryV {
            key: self.key@,
            specifiers: self.specifiers@.map_values(|s: ImportSpecifier| s@),
        }
    }
}

/// Well-formedness of a registry value: no two entries have mergeable
/// keys (so a merge target is unique when it exists), and every entry
/// holds at least one specifier.
pub open spec fn registry_wf(m: Seq<EntryV>) -> bool {
    &&& forall|i: int, j: int|
        0 <= i < m.len() && 0 <= j < m.len() && i != j ==> !keys_merge(
            #[trigger] m[i].key,
            #[trigger] m[j].key,
        )
    &&& forall|i: int| 0 <= i < m.len() ==> (#[trigger] m[i]).specifiers.len() > 0
}

/// Whether some entry of `m` can absorb a request with key `k`.
pub open spec fn has_merge(m: Seq<EntryV>, k: KeyV) -> bool {
    exists|i: int| 0 <= i < m.len() && keys_merge(k, (#[trigger] m[i]).key)
}

/// The index of the entry of `m` that absorbs a request with key `k`
/// (unique when `m` is well-formed and such an entry exists).
pub open spec fn merge_index(m: Seq<EntryV>, k: KeyV) -> int {
    choose|i: int| 0 <= i < m.len() && keys_merge(k, (#[trigger] m[i]).key)
}

/// Registering one specifier under key `k`: append it to the entry the
/// key merges into, or open a new entry at the back.
pub open spec fn merged(m: Seq<EntryV>, k: KeyV, s: SpecifierV) -> Seq<EntryV> {
    if has_merge(m, k) {
        let i = merge_index(m, k);
        m.update(i, EntryV { key: m[i].key, specifiers: m[i].specifiers.push(s) })
    } else {
        m.push(EntryV { key: k, specifiers: seq![s] })
    }
}

/// Relocating the entry at position `i` to the front, keeping the
/// relative order of all other entries.
pub open spec fn to_front(m: Seq<EntryV>, i: int) -> Seq<EntryV>
    recommends
        0 <= i < m.len(),
{
    seq![m[i]] + m.subrange(0, i) + m.subrange(i + 1, m.len() as int)
}

/// Effect of [`ModuleImports::add_import`] on the registry value.
pub open spec fn add_import_spec(m: Seq<EntryV>, source: Seq<char>, s: SpecifierV) -> Seq<
    EntryV,
> {
    merged(m, named_key(source), s)
}

/// Effect of [`ModuleImports::add_default`] on the registry value: a
/// default-import key merges with nothing, so this always opens a new
/// entry, even for a source already present.
pub open spec fn add_default_spec(m: Seq<EntryV>, source: Seq<char>, s: SpecifierV) -> Seq<
    EntryV,
> {
    m.push(EntryV { key: default_key(source), specifiers: seq![s] })
}

/// Effect of [`ModuleImports::add_require`] on the registry value:
/// merge like a named import (under the require key), then, when
/// `front` is set, relocate the touched entry to position 0.
pub open spec fn add_require_spec(
    m: Seq<EntryV>,
    source: Seq<char>,
    s: SpecifierV,
    front: bool,
) -> Seq<EntryV> {
    let m2 = merged(m, require_key(source), s);
    if front {
        let i = if has_merge(m, require_key(source)) {
            merge_index(m, require_key(source))
        } else {
            m.len() as int
        };
        to_front(m2, i)
    } else {
        m2
    }
}

/// The statement a drained entry produces, by its key's mechanism.
pub open spec fn stmt_of_entry(e: EntryV, require_symbol: Option<u32>) -> StmtV {
    match e.key.kind {
        ImportKind::Import => named_stmt(e.key.source, e.specifiers),
        ImportKind::Require => require_stmt(e.key.source, e.specifiers, require_symbol),
        ImportKind::ImportDefault => default_stmt(e.key.source, e.specifiers),
    }
}

/// The statements a whole registry value produces, in entry order.
pub open spec fn stmts_of(m: Seq<EntryV>, require_symbol: Option<u32>) -> Seq<StmtV> {
    m.map_values(|e: EntryV| stmt_of_entry(e, require_symbol))
}

/// In a well-formed registry the merge target of a key is unique: any
/// index whose entry the key merges with is the merge index.
pub proof fn lemma_merge_index_unique(m: Seq<EntryV>, k: KeyV, i: int)
    requires
        registry_wf(m),
        0 <= i < m.len(),
        keys_merge(k, m[i].key),
    ensures
        has_merge(m, k),
        merge_index(m, k) == i,
{
    assert(has_merge(m, k));
    let j = merge_index(m, k);
    assert(0 <= j < m.len() && keys_merge(k, m[j].key));
    if j != i {
        assert(keys_merge(m[i].key, m[j].key));
        assert(false);
    }
}

/// Registering a specifier preserves well-formedness.
pub proof fn lemma_merged_wf(m: Seq<EntryV>, k: KeyV, s: SpecifierV)
    requires
        registry_wf(m),
    ensures
        registry_wf(merged(m, k, s)),
{
    let m2 = merged(m, k, s);
    if has_merge(m, k) {
        let i = merge_index(m, k);
        assert(0 <= i < m.len() && keys_merge(k, m[i].key));
        assert(forall|x: int| 0 <= x < m2.len() ==> (#[trigger] m2[x]).key == m[x].key);
    } else {
        assert(forall|x: int| 0 <= x < m.len() ==> !keys_merge(k, (#[trigger] m[x]).key));
    }
}

/// Relocating an entry to the front preserves well-formedness.
pub proof fn lemma_to_front_wf(m: Seq<EntryV>, i: int)
    requires
        registry_wf(m),
        0 <= i < m.len(),
    ensures
        registry_wf(to_front(m, i)),
{
    let f = to_front(m, i);
    assert(f.len() == m.len());
    assert(forall|x: int|
        0 <= x < f.len() ==> #[trigger] f[x] == (if x == 0 {
            m[i]
        } else if x <= i {
            m[x - 1]
        } else {
            m[x]
        }));
}

/// The ordered registry of synthetic import requests for one
/// transformation pass.
pub struct ModuleImports {
    imports: Vec<ImportEntry>,
}

impl View for ModuleImports {
    type V = Seq<EntryV>;

    closed spec fn view(&self) -> Seq<EntryV> {
        self.imports@.map_values(|e: ImportEntry| e@)
    }
}

impl ModuleImports {
    /// The registry invariant: constructors establish it and every
    /// operation preserves it.
    pub open spec fn wf(self) -> bool {
        registry_wf(self@)
    }

    /// A fresh, empty registry.
    pub fn new() -> (r: Self)
        ensures
            r@ == Seq::<EntryV>::empty(),
            r.wf(),
    {
        let r = ModuleImports { imports: Vec::new() };
        proof {
            assert(r@ =~= Seq::<EntryV>::empty());
        }
        r
    }

    /// The position of the entry that `key` merges into, if any.
    fn find_entry(&self, key: &ImportType) -> (r: Option<usize>)
        ensures
            match r {
                Some(i) => 0 <= i < self@.len() && keys_merge(key@, self@[i as int].key),
                None => !has_merge(self@, key@),
            },
    {
        let mut i: usize = 0;
        while i < self.imports.len()
            invariant
                i <= self.imports@.len(),
                self@.len() == self.imports@.len(),
                forall|j: int| 0 <= j < i ==> !keys_merge(key@, (#[trigger] self@[j]).key),
            decreases self.imports@.len() - i,
        {
            if self.imports[i].key == *key {
                return Some(i);
            }
            i += 1;
        }
        None
    }

    /// Register one specifier under `key`, appending to the entry the
    /// key merges into or opening a new entry at the back; returns the
    /// position of the touched entry.
    fn add_merged(&mut self, key: ImportType, import: ImportSpecifier) -> (idx: usize)
        requires
            old(self).wf(),
            key@.kind != ImportKind::ImportDefault,
        ensures
            final(self).wf(),
            final(self)@ == merged(old(self)@, key@, import@),
            idx < final(self)@.len(),
            idx as int == (if has_merge(old(self)@, key@) {
                merge_index(old(self)@, key@)
            } else {
                old(self)@.len() as int
            }),
    {
        let ghost m: Seq<EntryV> = self@;
        proof {
            lemma_merged_wf(m, key@, import@);
        }
        match self.find_entry(&key) {
            Some(i) => {
                proof {
                    lemma_merge_index_unique(m, key@, i as int);
                }
                let mut entry = self.imports.remove(i);
                let ghost pre_entry: EntryV = entry@;
                entry.specifiers.push(import);
                proof {
                    assert(entry@.specifiers =~= pre_entry.specifiers.push(import@));
                    assert(entry@ == (EntryV {
                        key: m[i as int].key,
                        specifiers: m[i as int].specifiers.push(import@),
                    }));
                }
                self.imports.insert(i, entry);
                proof {
                    assert(self@ =~= merged(m, key@, import@));
                }
                i
            },
            None => {
                let mut specifiers: Vec<ImportSpecifier> = Vec::new();
                specifiers.push(import);
                proof {
                    assert(specifiers@.map_values(|s: ImportSpecifier| s@) =~= seq![import@]);
                }
                let entry = ImportEntry { key, specifiers };
                proof {
                    assert(entry@ == (EntryV { key: key@, specifiers: seq![import@] }));
                }
                self.imports.push(entry);
                proof {
                    assert(self@ =~= merged(m, key@, import@));
                }
                self.imports.len() - 1
            },
        }
    }

    /// Register one default-import specifier for `source`. Always opens
    /// a new entry, even when called repeatedly with the same source:
    /// default-import requests are never merged.
    pub fn add_default(&mut self, source: String, import: ImportSpecifier)
        requires
            old(self).wf(),
        ensures
            final(self).wf(),
            final(self)@ == add_default_spec(old(self)@, source@, import@),
    {
        let ghost m: Seq<EntryV> = self@;
        let key = ImportType::new(ImportKind::ImportDefault, source);
        let mut specifiers: Vec<ImportSpecifier> = Vec::new();
        specifiers.push(import);
        proof {
            assert(specifiers@.map_values(|s: ImportSpecifier| s@) =~= seq![import@]);
        }
        let entry = ImportEntry { key, specifiers };
        proof {
            assert(entry@ == (EntryV { key: key@, specifiers: seq![import@] }));
        }
        self.imports.push(entry);
        proof {
            assert(self@ =~= add_default_spec(m, source@, import@));
        }
    }

    /// Register one named-import specifier for `source`: appended to
    /// the existing named-import entry for that source if there is one,
    /// otherwise a new entry is opened at the back.
    pub fn add_import(&mut self, source: String, import: ImportSpecifier)
        requires
            old(self).wf(),
        ensures
            final(self).wf(),
            final(self)@ == add_import_spec(old(self)@, source@, import@),
    {
        let key = ImportType::new(ImportKind::Import, source);
        self.add_merged(key, import);
    }

    /// Register one require-style specifier for `source`, with the same
    /// merge behaviour as `add_import` under the require key. When
    /// `front` is set, the touched entry is then relocated to position
    /// 0, ahead of every previously inserted entry.
    pub fn add_require(&mut self, source: String, import: ImportSpecifier, front: bool)
        requires
            old(self).wf(),
        ensures
            final(self).wf(),
            final(self)@ == add_require_spec(old(self)@, source@, import@, front),
    {
        let ghost m: Seq<EntryV> = self@;
        let key = ImportType::new(ImportKind::Require, source);
        let idx = self.add_merged(key, import);
        if front {
            let ghost mid: Seq<EntryV> = self@;
            let entry = self.imports.remove(idx);
            self.imports.insert(0, entry);
            proof {
                assert(self@ =~= to_front(mid, idx as int));
                lemma_to_front_wf(mid, idx as int);
            }
        }
    }

    /// Drain the registry front to back, synthesizing one statement per
    /// entry by its mechanism; the registry is left empty. Not
    /// idempotent: a second call returns an empty sequence.
    pub fn get_import_statements(&mut self, require_symbol: Option<u32>) -> (r: Vec<
        ImportStatement,
    >)
        requires
            old(self).wf(),
        ensures
            final(self)@ == Seq::<EntryV>::empty(),
            final(self).wf(),
            r@.map_values(|s: ImportStatement| s@) == stmts_of(old(self)@, require_symbol),
    {
        let ghost m: Seq<EntryV> = self@;
        let mut out: Vec<ImportStatement> = Vec::new();
        while self.imports.len() > 0
            invariant
                out@.len() + self.imports@.len() == m.len(),
                forall|k: int|
                    0 <= k < self.imports@.len() ==> #[trigger] self.imports@[k]@ == m[out@.len()
                        + k],
                forall|j: int|
                    0 <= j < out@.len() ==> (#[trigger] out@[j])@ == stmt_of_entry(
                        m[j],
                        require_symbol,
                    ),
                registry_wf(m),
            decreases self.imports@.len(),
        {
            let ghost done: int = out@.len() as int;
            let entry = self.imports.remove(0);
            proof {
                assert(entry@ == m[done]);
            }
            let ImportEntry { key, specifiers } = entry;
            let ImportType { kind, source } = key;
            let stmt = match kind {
                ImportKind::Import => get_named_import(source, specifiers),
                ImportKind::Require => get_require(source, specifiers, require_symbol),
                ImportKind::ImportDefault => get_default_import(source, specifiers),
            };
            out.push(stmt);
        }
        proof {
            assert(self@ =~= Seq::<EntryV>::empty());
            assert(out@.map_values(|s: ImportStatement| s@) =~= stmts_of(m, require_symbol));
        }
        out
    }
}

} // verus!
