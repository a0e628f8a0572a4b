//! One requested binding from a module: the name as it exists in the
//! source module, an optional local alias, and a caller-assigned symbol
//! identity that ties the synthesized declaration to existing uses.

use vstd::prelude::*;

verus! {

/// Mathematical value of an [`ImportSpecifier`].
#[verifier::ext_equal]
pub ghost struct SpecifierV {
    pub imported: Seq<char>,
    pub local: Option<Seq<char>>,
    pub symbol_id: u32,
}

/// One requested binding. Immutable once constructed; the registry owns
/// it from the moment it is added until it is drained into a statement.
pub struct ImportSpecifier {
    /// Name of the binding as it exists in the source module.
    pub imported: String,
    /// Optional local alias; when absent the imported name is reused.
    /// Ignored by the require mechanism.
    pub local: Option<String>,
    /// Caller-assigned symbol identity for the synthesized binding.
    pub symbol_id: u32,
}

impl View for ImportSpecifier {
    type V = SpecifierV;

    open spec fn view(&self) -> SpecifierV {
        SpecifierV {
            imported: self.imported@,
            local: match self.local {
                Some(l) => Some(l@),
                None => None,
            },
            symbol_id: self.symbol_id,
        }
    }
}

impl ImportSpecifier {
    pub fn new(imported: String, local: Option<String>, symbol_id: u32) -> (r: Self)
        ensures
            r@ == (SpecifierV {
                imported: imported@,
                local: match local {
                    Some(l) => Some(l@),
                    None => None,
                },
                symbol_id,
            }),
    {
        Self { imported, local, symbol_id }
    }
}

} // verus!
