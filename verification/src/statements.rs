//! Statement synthesis: pure functions that turn one drained registry
//! entry (source plus specifier list) into the description of one
//! program statement, one function per mechanism.
//!
//! The descriptions hold everything a tree-construction collaborator
//! needs to build the concrete syntax node: name strings and the
//! caller-assigned symbol identities to bind.

use vstd::prelude::*;

use crate::specifier::{ImportSpecifier, SpecifierV};

verus! {

/// Mathematical value of a [`NamedBinding`].
#[verifier::ext_equal]
pub ghost struct BindingV {
    pub imported: Seq<char>,
    pub local: Seq<char>,
    pub symbol_id: u32,
}

/// One clause of a named import: `{imported}` when `local` equals
/// `imported`, `{imported as local}` otherwise, bound to `symbol_id`.
pub struct NamedBinding {
    pub imported: String,
    pub local: String,
    pub symbol_id: u32,
}

impl View for NamedBinding {
    type V = BindingV;

    open spec fn view(&self) -> BindingV {
        BindingV { imported: self.imported@, local: self.local@, symbol_id: self.symbol_id }
    }
}

/// Mathematical value of a [`LocalBinding`].
#[verifier::ext_equal]
pub ghost struct LocalBindingV {
    pub local: Seq<char>,
    pub symbol_id: u32,
}

/// A binding that introduces one local name tied to a symbol identity,
/// as a default-import clause or a require-declared variable does.
pub struct LocalBinding {
    pub local: String,
    pub symbol_id: u32,
}

impl View for LocalBinding {
    type V = LocalBindingV;

    open spec fn view(&self) -> LocalBindingV {
        LocalBindingV { local: self.local@, symbol_id: self.symbol_id }
    }
}

/// Mathematical value of an [`ImportStatement`].
#[verifier::ext_equal]
pub ghost enum StmtV {
    NamedImport { source: Seq<char>, bindings: Seq<BindingV> },
    DefaultImport { source: Seq<char>, bindings: Seq<LocalBindingV> },
    RequireDeclaration { source: Seq<char>, binding: LocalBindingV, require_symbol: Option<u32> },
}

/// The description of one synthesized statement.
pub enum ImportStatement {
    /// `import { b1, b2, ... } from "source"`
    NamedImport { source: String, bindings: Vec<NamedBinding> },
    /// `import b from "source"` (one clause per binding; the registry
    /// only ever produces exactly one)
    DefaultImport { source: String, bindings: Vec<LocalBinding> },
    /// `var binding = require("source")`, where the call target is the
    /// symbol resolved for the ambient name `require` in the root scope
    /// (`None` when that name is unresolved there).
    RequireDeclaration { source: String, binding: LocalBinding, require_symbol: Option<u32> },
}

impl View for ImportStatement {
    type V = StmtV;

    open spec fn view(&self) -> StmtV {
        match self {
            ImportStatement::NamedImport { source, bindings } => StmtV::NamedImport {
                source: source@,
                bindings: bindings@.map_values(|b: NamedBinding| b@),
            },
            ImportStatement::DefaultImport { source, bindings } => StmtV::DefaultImport {
                source: source@,
                bindings: bindings@.map_values(|b: LocalBinding| b@),
            },
            ImportStatement::RequireDeclaration { source, binding, require_symbol } => (
                StmtV::RequireDeclaration {
                    source: source@,
                    binding: binding@,
                    require_symbol: *require_symbol,
                }
            ),
        }
    }
}

/// The named-import clause a specifier produces: the local name falls
/// back to the imported name when no alias was given.
pub open spec fn named_binding_of(s: SpecifierV) -> BindingV {
    BindingV {
        imported: s.imported,
        local: if s.local is Some {
            s.local->0
        } else {
            s.imported
        },
        symbol_id: s.symbol_id,
    }
}

/// The local binding a specifier produces under the default-import and
/// require mechanisms: the imported name itself (the alias is unused).
pub open spec fn local_binding_of(s: SpecifierV) -> LocalBindingV {
    LocalBindingV { local: s.imported, symbol_id: s.symbol_id }
}

/// The statement produced for a named-import entry.
pub open spec fn named_stmt(source: Seq<char>, names: Seq<SpecifierV>) -> StmtV {
    StmtV::NamedImport {
        source,
        bindings: names.map_values(|s: SpecifierV| named_binding_of(s)),
    }
}

/// The statement produced for a default-import entry.
pub open spec fn default_stmt(source: Seq<char>, names: Seq<SpecifierV>) -> StmtV {
    StmtV::DefaultImport {
        source,
        bindings: names.map_values(|s: SpecifierV| local_binding_of(s)),
    }
}

/// The statement produced for a require entry: only the first specifier
/// is used; any others accumulated under the same key are discarded.
pub open spec fn require_stmt(
    source: Seq<char>,
    names: Seq<SpecifierV>,
    require_symbol: Option<u32>,
) -> StmtV {
    StmtV::RequireDeclaration {
        source,
        binding: local_binding_of(names[0]),
        require_symbol,
    }
}

/// Shorthand for the view of a specifier list.
pub open spec fn specs_view(names: Seq<ImportSpecifier>) -> Seq<SpecifierV> {
    names.map_values(|s: ImportSpecifier| s@)
}

/// Synthesize `import { ... } from "source"` with one clause per
/// specifier, in list order, each clause binding its specifier's
/// identity; a clause's local name falls back to its imported name.
pub fn get_named_import(source: String, names: Vec<ImportSpecifier>) -> (r: ImportStatement)
    ensures
        r@ == named_stmt(source@, specs_view(names@)),
{
    let ghost origv: Seq<ImportSpecifier> = names@;
    let mut names = names;
    let mut bindings: Vec<NamedBinding> = Vec::new();
    while names.len() > 0
        invariant
            names@.len() + bindings@.len() == origv.len(),
            forall|k: int|
                0 <= k < names@.len() ==> names@[k] == origv[bindings@.len() + k],
            forall|j: int|
                0 <= j < bindings@.len() ==> bindings@[j]@ == named_binding_of(origv[j]@),
        decreases names.len(),
    {
        let ghost done: int = bindings@.len() as int;
        let next = names.remove(0);
        proof {
            assert(next == origv[done]);
        }
        let ImportSpecifier { imported, local, symbol_id } = next;
        let local: String = match local {
            Some(l) => l,
            None => imported.clone(),
        };
        bindings.push(NamedBinding { imported, local, symbol_id });
    }
    let r = ImportStatement::NamedImport { source, bindings };
    proof {
        assert(bindings@.map_values(|b: NamedBinding| b@) =~= specs_view(origv).map_values(
            |s: SpecifierV| named_binding_of(s),
        ));
    }
    r
}

/// Synthesize `import name from "source"` with one default clause per
/// specifier, each binding the specifier's imported name (the alias is
/// not consulted) to its identity.
pub fn get_default_import(source: String, names: Vec<ImportSpecifier>) -> (r: ImportStatement)
    ensures
        r@ == default_stmt(source@, specs_view(names@)),
{
    let ghost origv: Seq<ImportSpecifier> = names@;
    let mut names = names;
    let mut bindings: Vec<LocalBinding> = Vec::new();
    while names.len() > 0
        invariant
            names@.len() + bindings@.len() == origv.len(),
            forall|k: int|
                0 <= k < names@.len() ==> names@[k] == origv[bindings@.len() + k],
            forall|j: int|
                0 <= j < bindings@.len() ==> bindings@[j]@ == local_binding_of(origv[j]@),
        decreases names.len(),
    {
        let ghost done: int = bindings@.len() as int;
        let next = names.remove(0);
        proof {
            assert(next == origv[done]);
        }
        let ImportSpecifier { imported, local: _, symbol_id } = next;
        bindings.push(LocalBinding { local: imported, symbol_id });
    }
    let r = ImportStatement::DefaultImport { source, bindings };
    proof {
        assert(bindings@.map_values(|b: LocalBinding| b@) =~= specs_view(origv).map_values(
            |s: SpecifierV| local_binding_of(s),
        ));
    }
    r
}

/// Synthesize `var name = require("source")` from the first specifier:
/// its imported name becomes the declared variable, bound to its
/// identity, and the call target carries the symbol resolved for the
/// ambient name `require` (if any). Specifiers past the first are
/// discarded.
pub fn get_require(
    source: String,
    names: Vec<ImportSpecifier>,
    require_symbol: Option<u32>,
) -> (r: ImportStatement)
    requires
        names@.len() > 0,
    ensures
        r@ == require_stmt(source@, specs_view(names@), require_symbol),
{
    let mut names = names;
    let first = names.remove(0);
    let ImportSpecifier { imported, local: _, symbol_id } = first;
    ImportStatement::RequireDeclaration {
        source,
        binding: LocalBinding { local: imported, symbol_id },
        require_symbol,
    }
}

} // verus!
