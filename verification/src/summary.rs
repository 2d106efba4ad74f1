//! What the rewrite reports about a module besides its new tree.
use crate::ast::Span;
use crate::table::{StrMap, StrSet};
use vstd::prelude::*;

verus! {

/// A name that the module exports, and the local name that holds it.
#[derive(Debug, PartialEq, Eq)]
pub struct ExportedSymbol {
    pub local: String,
    pub exported: String,
    pub loc: Span,
}

pub struct ExportedSymbolV {
    pub local: Seq<char>,
    pub exported: Seq<char>,
    pub loc: Span,
}

impl View for ExportedSymbol {
    type V = ExportedSymbolV;

    open spec fn view(&self) -> ExportedSymbolV {
        ExportedSymbolV { local: self.local@, exported: self.exported@, loc: self.loc }
    }
}

/// A name that the module takes from another one, and the local name that
/// stands for it.
#[derive(Debug, PartialEq, Eq)]
pub struct ImportedSymbol {
    pub source: String,
    pub local: String,
    pub imported: String,
    pub loc: Span,
}

pub struct ImportedSymbolV {
    pub source: Seq<char>,
    pub local: Seq<char>,
    pub imported: Seq<char>,
    pub loc: Span,
}

impl View for ImportedSymbol {
    type V = ImportedSymbolV;

    open spec fn view(&self) -> ImportedSymbolV {
        ImportedSymbolV {
            source: self.source@,
            local: self.local@,
            imported: self.imported@,
            loc: self.loc,
        }
    }
}

pub open spec fn exported_view(s: Seq<ExportedSymbol>) -> Seq<ExportedSymbolV> {
    Seq::new(s.len(), |i: int| s[i]@)
}

pub open spec fn imported_view(s: Seq<ImportedSymbol>) -> Seq<ImportedSymbolV> {
    Seq::new(s.len(), |i: int| s[i]@)
}

/// The summary of a rewritten module.
#[derive(Debug)]
pub struct HoistResult {
    pub imported_symbols: Vec<ImportedSymbol>,
    pub exported_symbols: Vec<ExportedSymbol>,
    pub re_exports: Vec<ImportedSymbol>,
    pub self_references: StrSet,
    pub wrapped_requires: StrSet,
    pub dynamic_imports: StrMap,
    pub static_cjs_exports: bool,
    pub has_cjs_exports: bool,
    pub is_esm: bool,
    pub should_wrap: bool,
}

pub struct HoistResultV {
    pub imported_symbols: Seq<ImportedSymbolV>,
    pub exported_symbols: Seq<ExportedSymbolV>,
    pub re_exports: Seq<ImportedSymbolV>,
    pub self_references: Seq<Seq<char>>,
    pub wrapped_requires: Seq<Seq<char>>,
    pub dynamic_imports: Seq<(Seq<char>, Seq<char>)>,
    pub static_cjs_exports: bool,
    pub has_cjs_exports: bool,
    pub is_esm: bool,
    pub should_wrap: bool,
}

impl View for HoistResult {
    type V = HoistResultV;

    open spec fn view(&self) -> HoistResultV {
        HoistResultV {
            imported_symbols: imported_view(self.imported_symbols@),
            exported_symbols: exported_view(self.exported_symbols@),
            re_exports: imported_view(self.re_exports@),
            self_references: self.self_references@,
            wrapped_requires: self.wrapped_requires@,
            dynamic_imports: self.dynamic_imports@,
            static_cjs_exports: self.static_cjs_exports,
            has_cjs_exports: self.has_cjs_exports,
            is_esm: self.is_esm,
            should_wrap: self.should_wrap,
        }
    }
}

} // verus!
