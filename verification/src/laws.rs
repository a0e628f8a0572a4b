//! Laws of the registry, stated over the registry values and proved
//! once and for all: how requests merge (or refuse to), how the front
//! relocation reorders entries, and how draining relates to entry
//! order. Each law is phrased over the same spec functions the
//! operations' contracts use, so it applies to any call sequence.

use vstd::prelude::*;

use crate::import_key::{named_key, require_key, KeyV};
use crate::registry::{
    add_default_spec, add_import_spec, add_require_spec, has_merge, lemma_merge_index_unique,
    lemma_merged_wf, merged, registry_wf, stmt_of_entry, stmts_of, to_front, EntryV,
};
use crate::specifier::SpecifierV;
use crate::statements::{default_stmt, local_binding_of, named_stmt, require_stmt, StmtV};

verus! {

/// Named imports merge: registering two named-import specifiers for
/// one source (new to the registry) yields a single entry holding both,
/// in order, and draining turns it into a single named-import statement
/// carrying both.
pub proof fn lemma_named_import_merge(
    m: Seq<EntryV>,
    source: Seq<char>,
    a: SpecifierV,
    b: SpecifierV,
    require_symbol: Option<u32>,
)
    requires
        registry_wf(m),
        !has_merge(m, named_key(source)),
    ensures
        ({
            let m2 = add_import_spec(add_import_spec(m, source, a), source, b);
            &&& m2 == m.push(EntryV { key: named_key(source), specifiers: seq![a, b] })
            &&& stmts_of(m2, require_symbol) == stmts_of(m, require_symbol).push(
                named_stmt(source, seq![a, b]),
            )
        }),
{
    let k = named_key(source);
    let m1 = add_import_spec(m, source, a);
    assert(m1 == m.push(EntryV { key: k, specifiers: seq![a] }));
    lemma_merged_wf(m, k, a);
    lemma_merge_index_unique(m1, k, m.len() as int);
    let m2 = add_import_spec(m1, source, b);
    assert(seq![a].push(b) =~= seq![a, b]);
    assert(m2 =~~= m.push(EntryV { key: k, specifiers: seq![a, b] }));
    assert(stmts_of(m2, require_symbol) =~~= stmts_of(m, require_symbol).push(
        named_stmt(source, seq![a, b]),
    ));
}

/// Default imports never merge: registering two default-import
/// specifiers for one source — from any starting state — appends two
/// separate entries of one specifier each, and draining produces two
/// separate default-import statements.
pub proof fn lemma_default_import_no_merge(
    m: Seq<EntryV>,
    source: Seq<char>,
    a: SpecifierV,
    b: SpecifierV,
    require_symbol: Option<u32>,
)
    ensures
        ({
            let m2 = add_default_spec(add_default_spec(m, source, a), source, b);
            &&& m2.len() == m.len() + 2
            &&& m2[m.len() as int].specifiers == seq![a]
            &&& m2[m.len() as int + 1].specifiers == seq![b]
            &&& stmts_of(m2, require_symbol) == stmts_of(m, require_symbol) + seq![
                default_stmt(source, seq![a]),
                default_stmt(source, seq![b]),
            ]
        }),
{
    let m2 = add_default_spec(add_default_spec(m, source, a), source, b);
    assert(stmts_of(m2, require_symbol) =~~= stmts_of(m, require_symbol) + seq![
        default_stmt(source, seq![a]),
        default_stmt(source, seq![b]),
    ]);
}

/// Requires collapse: registering two require specifiers for one
/// source (new to the registry) accumulates both in one entry, but
/// draining that entry produces a single declaration bound to the
/// first specifier's name and identity alone — the second is absent
/// from the output.
pub proof fn lemma_require_collapse(
    m: Seq<EntryV>,
    source: Seq<char>,
    a: SpecifierV,
    b: SpecifierV,
    require_symbol: Option<u32>,
)
    requires
        registry_wf(m),
        !has_merge(m, require_key(source)),
    ensures
        ({
            let m2 = add_require_spec(
                add_require_spec(m, source, a, false),
                source,
                b,
                false,
            );
            &&& m2 == m.push(EntryV { key: require_key(source), specifiers: seq![a, b] })
            &&& stmts_of(m2, require_symbol) == stmts_of(m, require_symbol).push(
                StmtV::RequireDeclaration {
                    source,
                    binding: local_binding_of(a),
                    require_symbol,
                },
            )
        }),
{
    let k = require_key(source);
    let m1 = add_require_spec(m, source, a, false);
    assert(m1 == m.push(EntryV { key: k, specifiers: seq![a] }));
    lemma_merged_wf(m, k, a);
    lemma_merge_index_unique(m1, k, m.len() as int);
    let m2 = add_require_spec(m1, source, b, false);
    assert(seq![a].push(b) =~= seq![a, b]);
    assert(m2 =~~= m.push(EntryV { key: k, specifiers: seq![a, b] }));
    assert(stmts_of(m2, require_symbol) =~~= stmts_of(m, require_symbol).push(
        require_stmt(source, seq![a, b], require_symbol),
    ));
}

/// Front reordering: registering a require specifier for a source new
/// to the registry appends its entry at the back when `front` is not
/// set, and places it at position 0 — ahead of every existing entry,
/// whose relative order is kept — when it is.
pub proof fn lemma_front_reordering(m: Seq<EntryV>, source: Seq<char>, s: SpecifierV)
    requires
        registry_wf(m),
        !has_merge(m, require_key(source)),
    ensures
        add_require_spec(m, source, s, false) == m.push(
            EntryV { key: require_key(source), specifiers: seq![s] },
        ),
        add_require_spec(m, source, s, true) == seq![
            EntryV { key: require_key(source), specifiers: seq![s] },
        ] + m,
{
    let e = EntryV { key: require_key(source), specifiers: seq![s] };
    assert(add_require_spec(m, source, s, false) == m.push(e));
    assert(to_front(m.push(e), m.len() as int) =~~= seq![e] + m);
}

/// Draining is one-shot: a non-empty registry yields a non-empty
/// statement sequence, and an empty one — as `get_import_statements`
/// leaves behind — yields an empty sequence, so a second drain in
/// succession returns nothing.
pub proof fn lemma_drain_one_shot(m: Seq<EntryV>, require_symbol: Option<u32>)
    ensures
        m.len() > 0 ==> stmts_of(m, require_symbol).len() > 0,
        stmts_of(Seq::<EntryV>::empty(), require_symbol) == Seq::<StmtV>::empty(),
{
    assert(stmts_of(Seq::<EntryV>::empty(), require_symbol) =~= Seq::<StmtV>::empty());
}

/// Registering a specifier never disturbs the positions of existing
/// entries: each keeps its index and its key, whichever mechanism the
/// request uses; at most its specifier list grows. Only the explicit
/// front relocation of `add_require` moves entries.
pub proof fn lemma_add_keeps_positions(m: Seq<EntryV>, k: KeyV, s: SpecifierV)
    ensures
        m.len() <= merged(m, k, s).len(),
        forall|x: int| 0 <= x < m.len() ==> (#[trigger] merged(m, k, s)[x]).key == m[x].key,
{
}

/// Output order is entry order: draining produces exactly one
/// statement per entry, at the entry's position — the mechanism never
/// influences where a statement lands, only explicit front relocation
/// of entries does.
pub proof fn lemma_statement_order(m: Seq<EntryV>, require_symbol: Option<u32>)
    ensures
        stmts_of(m, require_symbol).len() == m.len(),
        forall|i: int|
            0 <= i < m.len() ==> stmts_of(m, require_symbol)[i] == stmt_of_entry(
                m[i],
                require_symbol,
            ),
{
}

} // verus!
