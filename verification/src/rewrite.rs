//! What the rewrite does, as a function from the facts and a tree to a new
//! tree and a summary.
//!
//! `HoistV` is the state of the rewrite as a mathematical value;
//! `HoistV::fold` rewrites one node, `HoistV::fold_module` a whole module.
//! The executable rewrite is proved to compute exactly these.
use crate::ast::{dummy_span, unscoped, IdentV, ModuleV, NodeV, Span, SpecifierKind};
use crate::ast::{ExportSpecifierV, ImportSpecifierV, StrKind, UnaryOp, VarKind};
use crate::diag::{CodeHighlightV, DiagnosticSeverity, DiagnosticV};
use crate::facts::{CollectV, ImportKind, ImportV};
use crate::matchers::{is_member_of, static_key};
use crate::summary::{ExportedSymbolV, HoistResultV, ImportedSymbolV};
use crate::table::{has_key, lookup, put, with_item};
use crate::text::{
    export_name, hoisted_specifier, import_async_key_name, import_async_name, import_name,
    require_name, star, var_name,
};
use vstd::prelude::*;

verus! {

/// The state of the rewrite: the items put out so far and what goes into
/// the summary.
pub struct HoistV {
    pub module_id: Seq<char>,
    pub module_items: Seq<NodeV>,
    pub export_decls: Seq<Seq<char>>,
    pub imported_symbols: Seq<ImportedSymbolV>,
    pub exported_symbols: Seq<ExportedSymbolV>,
    pub re_exports: Seq<ImportedSymbolV>,
    pub self_references: Seq<Seq<char>>,
    pub dynamic_imports: Seq<(Seq<char>, Seq<char>)>,
    pub in_function_scope: bool,
    pub diagnostics: Seq<DiagnosticV>,
}

/// `import "<module id>:<source>";`
pub open spec fn hoisted_import(module_id: Seq<char>, source: Seq<char>) -> NodeV {
    NodeV::Import {
        span: dummy_span(),
        specifiers: Seq::empty(),
        src: hoisted_specifier(module_id, source),
    }
}

/// `var <name> = <init>;`, or `var <name>;`
pub open spec fn single_var(span: Span, name: IdentV, init: Option<NodeV>) -> NodeV {
    NodeV::VarDecl {
        span,
        kind: VarKind::Var,
        declare: false,
        decls: seq![
            NodeV::Declarator {
                span,
                name: Box::new(NodeV::BindingIdent(name)),
                init: match init {
                    Some(e) => Some(Box::new(e)),
                    None => None,
                },
                definite: false,
            },
        ],
    }
}

pub open spec fn synthesized_str(span: Span, value: Seq<char>) -> NodeV {
    NodeV::Str { span, value, has_escape: false, kind: StrKind::Synthesized }
}

pub open spec fn highlights_of(spans: Seq<Span>) -> Seq<CodeHighlightV> {
    Seq::new(spans.len(), |i: int| CodeHighlightV { message: None, loc: spans[i] })
}

/// The error for an import binding that is assigned to at `spans` and was
/// imported at `local`.
pub open spec fn assignment_diagnostic(spans: Seq<Span>, local: Span) -> DiagnosticV {
    DiagnosticV {
        message: "Assignment to an import specifier is not allowed"@,
        code_highlights: highlights_of(spans).push(
            CodeHighlightV { message: Some("Originally imported here"@), loc: local },
        ),
        severity: DiagnosticSeverity::Error,
    }
}

/// The namespace import behind `i`, where every access to it is static, it
/// is never reassigned and its module's namespace need not be kept.
pub open spec fn static_namespace(c: CollectV, i: IdentV) -> Option<ImportV> {
    match lookup(c.imports, i.id()) {
        Some(imp) => if imp.specifier == star() && !has_key(c.non_static_access, i.id())
            && !has_key(c.non_const_bindings, i.id()) && !c.non_static_requires.contains(
            imp.source,
        ) {
            Some(imp)
        } else {
            None
        },
        None => None,
    }
}

/// The import behind `i`, where its module's namespace need not be kept.
pub open spec fn static_import(c: CollectV, i: IdentV) -> Option<ImportV> {
    match lookup(c.imports, i.id()) {
        Some(imp) => if !c.non_static_requires.contains(imp.source) {
            Some(imp)
        } else {
            None
        },
        None => None,
    }
}

/// The specifier that the initializer of a declarator requires, where the
/// declarator can be replaced by an import: `require('x')` or
/// `require('x').key`, with `x` not kept non-static.
pub open spec fn hoistable_source(c: CollectV, init: Option<Box<NodeV>>) -> Option<Seq<char>> {
    match init {
        Some(e) => {
            let direct = c.require_of(*e);
            if direct.is_some() && !c.non_static_requires.contains(direct.unwrap()) {
                direct
            } else {
                match *e {
                    NodeV::Member { obj, .. } => {
                        let inner = c.require_of(*obj);
                        if inner.is_some() && !c.non_static_requires.contains(inner.unwrap()) {
                            inner
                        } else {
                            None
                        }
                    },
                    _ => None,
                }
            }
        },
        None => None,
    }
}

/// The identifiers of the pattern `n` that are reassigned somewhere, added
/// to `acc` in the order in which the pattern names them.
pub open spec fn non_const_idents(c: CollectV, n: NodeV, acc: Seq<IdentV>) -> Seq<IdentV>
    decreases n, 1nat,
{
    match n {
        NodeV::BindingIdent(i) => if has_key(c.non_const_bindings, i.id()) {
            with_item(acc, i)
        } else {
            acc
        },
        NodeV::ObjectPat { props, .. } => prop_list_non_const_idents(c, props, props.len(), acc),
        NodeV::ArrayPat { elems, .. } => list_non_const_idents(c, elems, elems.len(), acc),
        _ => acc,
    }
}

/// The same for one property of an object pattern.
pub open spec fn prop_non_const_idents(c: CollectV, p: NodeV, acc: Seq<IdentV>) -> Seq<IdentV>
    decreases p, 1nat,
{
    match p {
        NodeV::KeyValue { value, .. } => non_const_idents(c, *value, acc),
        NodeV::AssignPatProp { key, .. } => if has_key(c.non_const_bindings, key.id()) {
            with_item(acc, key)
        } else {
            acc
        },
        NodeV::Rest { arg, .. } => non_const_idents(c, *arg, acc),
        _ => acc,
    }
}

pub open spec fn list_non_const_idents(
    c: CollectV,
    ns: Seq<NodeV>,
    k: nat,
    acc: Seq<IdentV>,
) -> Seq<IdentV>
    decreases ns, k,
{
    if k == 0 || k > ns.len() {
        acc
    } else {
        non_const_idents(c, ns[k - 1], list_non_const_idents(c, ns, (k - 1) as nat, acc))
    }
}

pub open spec fn prop_list_non_const_idents(
    c: CollectV,
    ns: Seq<NodeV>,
    k: nat,
    acc: Seq<IdentV>,
) -> Seq<IdentV>
    decreases ns, k,
{
    if k == 0 || k > ns.len() {
        acc
    } else {
        prop_non_const_idents(c, ns[k - 1], prop_list_non_const_idents(c, ns, (k - 1) as nat, acc))
    }
}

/// One `var <name>;` for each of the first `k` names.
pub open spec fn export_decl_vars(names: Seq<Seq<char>>, k: nat, span: Span) -> Seq<NodeV>
    decreases k,
{
    if k == 0 || k > names.len() {
        Seq::empty()
    } else {
        export_decl_vars(names, (k - 1) as nat, span).push(
            single_var(span, IdentV { sym: names[k - 1], span: dummy_span() }, None),
        )
    }
}

impl HoistV {
    pub open spec fn initial(module_id: Seq<char>) -> HoistV {
        HoistV {
            module_id,
            module_items: Seq::empty(),
            export_decls: Seq::empty(),
            imported_symbols: Seq::empty(),
            exported_symbols: Seq::empty(),
            re_exports: Seq::empty(),
            self_references: Seq::empty(),
            dynamic_imports: Seq::empty(),
            in_function_scope: false,
            diagnostics: Seq::empty(),
        }
    }

    /// The summary, once the module is rewritten.
    pub open spec fn result(self, c: CollectV) -> HoistResultV {
        HoistResultV {
            imported_symbols: self.imported_symbols,
            exported_symbols: self.exported_symbols,
            re_exports: self.re_exports,
            self_references: self.self_references,
            wrapped_requires: c.wrapped_requires,
            dynamic_imports: self.dynamic_imports,
            static_cjs_exports: c.static_cjs_exports,
            has_cjs_exports: c.has_cjs_exports,
            is_esm: c.is_esm,
            should_wrap: c.should_wrap,
        }
    }

    pub open spec fn push_item(self, n: NodeV) -> HoistV {
        HoistV { module_items: self.module_items.push(n), ..self }
    }

    pub open spec fn insert_item(self, at: int, n: NodeV) -> HoistV {
        HoistV { module_items: self.module_items.insert(at, n), ..self }
    }

    /// Puts out `import "<module id>:<source>";`.
    pub open spec fn add_require(self, source: Seq<char>) -> HoistV {
        self.push_item(hoisted_import(self.module_id, source))
    }

    pub open spec fn add_imported(self, sym: ImportedSymbolV) -> HoistV {
        HoistV { imported_symbols: self.imported_symbols.push(sym), ..self }
    }

    pub open spec fn add_exported(self, sym: ExportedSymbolV) -> HoistV {
        HoistV { exported_symbols: self.exported_symbols.push(sym), ..self }
    }

    pub open spec fn add_re_export(self, sym: ImportedSymbolV) -> HoistV {
        HoistV { re_exports: self.re_exports.push(sym), ..self }
    }

    pub open spec fn self_ref(self, key: Seq<char>) -> HoistV {
        HoistV { self_references: with_item(self.self_references, key), ..self }
    }

    pub open spec fn add_dynamic_import(self, name: Seq<char>, source: Seq<char>) -> HoistV {
        HoistV { dynamic_imports: put(self.dynamic_imports, name, source), ..self }
    }

    pub open spec fn add_export_decl(self, name: Seq<char>) -> HoistV {
        HoistV { export_decls: with_item(self.export_decls, name), ..self }
    }

    pub open spec fn add_diagnostic(self, d: DiagnosticV) -> HoistV {
        HoistV { diagnostics: self.diagnostics.push(d), ..self }
    }

    pub open spec fn with_in_function_scope(self, b: bool) -> HoistV {
        HoistV { in_function_scope: b, ..self }
    }

    /// The name for `imported` of the module `source`, recorded as an
    /// imported symbol.
    pub open spec fn import_ident(
        self,
        span: Span,
        source: Seq<char>,
        imported: Seq<char>,
        loc: Span,
    ) -> (HoistV, IdentV) {
        let name = import_name(self.module_id, source, imported);
        (
            self.add_imported(ImportedSymbolV { source, local: name, imported, loc }),
            IdentV { sym: name, span },
        )
    }

    pub open spec fn import_node(
        self,
        span: Span,
        source: Seq<char>,
        imported: Seq<char>,
        loc: Span,
    ) -> (HoistV, NodeV) {
        let (h, i) = self.import_ident(span, source, imported, loc);
        (h, NodeV::Ident(i))
    }

    pub open spec fn require_ident(self, local: Seq<char>) -> IdentV {
        IdentV { sym: require_name(self.module_id, local), span: dummy_span() }
    }

    /// The name under which the module exports `exported`, recorded as an
    /// exported symbol; the identifier is in no scope.
    pub open spec fn export_ident(self, span: Span, exported: Seq<char>) -> (HoistV, IdentV) {
        let name = export_name(self.module_id, exported);
        (
            self.add_exported(ExportedSymbolV { local: name, exported, loc: span }),
            IdentV { sym: name, span: unscoped(span) },
        )
    }

    pub open spec fn export_node(self, span: Span, exported: Seq<char>) -> (HoistV, NodeV) {
        let (h, i) = self.export_ident(span, exported);
        (h, NodeV::Ident(i))
    }

    /// A use of a dynamically imported binding is recorded as an imported
    /// symbol: of its key, or of the namespace where that is accessed
    /// non-statically.
    pub open spec fn note_dynamic_use(self, c: CollectV, i: IdentV) -> HoistV {
        match static_import(c, i) {
            Some(imp) => if imp.kind == ImportKind::DynamicImport {
                if imp.specifier != star() {
                    self.add_imported(
                        ImportedSymbolV {
                            source: imp.source,
                            local: import_async_key_name(self.module_id, imp.source, imp.specifier),
                            imported: imp.specifier,
                            loc: imp.loc,
                        },
                    )
                } else if has_key(c.non_static_access, i.id()) {
                    self.add_imported(
                        ImportedSymbolV {
                            source: imp.source,
                            local: import_async_name(self.module_id, imp.source),
                            imported: star(),
                            loc: imp.loc,
                        },
                    )
                } else {
                    self
                }
            } else {
                self
            },
            None => self,
        }
    }

    /// An identifier that is no static import: an exported binding gets
    /// its export name (or, in a wrapped module, is recorded as exported),
    /// a free `exports` the name of the exports object, a free `global`
    /// the shared global alias, and a top-level binding its module-scoped
    /// name.
    pub open spec fn fold_plain_ident(self, c: CollectV, i: IdentV) -> (HoistV, IdentV) {
        match lookup(c.exports, i.id()) {
            Some(exported) => if c.should_wrap {
                (self.add_exported(ExportedSymbolV { local: i.sym, exported, loc: i.span }), i)
            } else {
                self.export_ident(i.span, exported)
            },
            None => if i.sym == "exports"@ && !c.declares(i) && !c.should_wrap {
                self.self_ref(star()).export_ident(i.span, star())
            } else if i.sym == "global"@ && !c.declares(i) {
                (self, IdentV { sym: "$parcel$global"@, span: i.span })
            } else if i.span.ctxt == c.global_ctxt && c.declares(i) && !c.should_wrap {
                (self, IdentV { sym: var_name(self.module_id, i.sym), span: i.span })
            } else {
                (self, i)
            },
        }
    }

    /// The name that replaces an identifier. A statically imported binding
    /// becomes its import name, or the variable that stands in for it
    /// where it is reassigned.
    pub open spec fn fold_ident(self, c: CollectV, i: IdentV) -> (HoistV, IdentV) {
        match static_import(c, i) {
            Some(imp) => if imp.kind != ImportKind::DynamicImport {
                if has_key(c.non_const_bindings, i.id()) {
                    (self, self.require_ident(i.sym))
                } else {
                    self.import_ident(i.span, imp.source, imp.specifier, imp.loc)
                }
            } else {
                self.note_dynamic_use(c, i).fold_plain_ident(c, i)
            },
            None => self.fold_plain_ident(c, i),
        }
    }

    pub open spec fn fold_opt_ident(self, c: CollectV, o: Option<IdentV>) -> (HoistV, Option<IdentV>) {
        match o {
            Some(i) => {
                let (h, j) = self.fold_ident(c, i);
                (h, Some(j))
            },
            None => (self, None),
        }
    }

    /// `{ a }` is spelled out as `{ a: <new name> }`, so that the key stays.
    pub open spec fn fold_shorthand(self, c: CollectV, i: IdentV) -> (HoistV, NodeV) {
        let (h, j) = self.fold_ident(c, i);
        if c.should_wrap {
            (h, NodeV::Shorthand(j))
        } else {
            (
                h,
                NodeV::KeyValue {
                    key: Box::new(NodeV::Key(IdentV { sym: i.sym, span: dummy_span() })),
                    value: Box::new(NodeV::Ident(j)),
                },
            )
        }
    }

    /// `this` outside every function: `undefined` in an ES module, the
    /// exports object in a CommonJS module that is not wrapped.
    pub open spec fn fold_this(self, c: CollectV, span: Span) -> (HoistV, NodeV) {
        if !self.in_function_scope && c.is_esm {
            (self, NodeV::Ident(IdentV { sym: "undefined"@, span: dummy_span() }))
        } else if !self.in_function_scope && !c.should_wrap {
            self.self_ref(star()).export_node(span, star())
        } else {
            (self, NodeV::This(span))
        }
    }

    /// A property read through a dynamically imported namespace is
    /// recorded as an imported symbol.
    pub open spec fn member_note(self, c: CollectV, n: NodeV) -> HoistV {
        match n {
            NodeV::Member { span, obj, prop, computed } => match (*obj, static_key(*prop, computed)) {
                (NodeV::Ident(i), Some(key)) => match static_namespace(c, i) {
                    Some(imp) => if imp.kind == ImportKind::DynamicImport {
                        self.add_imported(
                            ImportedSymbolV {
                                source: imp.source,
                                local: import_async_key_name(self.module_id, imp.source, key),
                                imported: key,
                                loc: span,
                            },
                        )
                    } else {
                        self
                    },
                    None => self,
                },
                _ => self,
            },
            _ => self,
        }
    }

    /// What replaces a member access as a whole, where anything does:
    /// `module.exports` becomes the exports object, `module.hot` `null`, a
    /// known key of a namespace import or of `require('x')` the import
    /// name of that key, a known key of the exports object the export name
    /// of that key.
    pub open spec fn member_rewrite(self, c: CollectV, n: NodeV) -> Option<(HoistV, NodeV)> {
        match n {
            NodeV::Member { span, obj, prop, computed } => {
                if !c.should_wrap && c.is_cjs_exports(n) {
                    Some(self.self_ref(star()).export_node(span, star()))
                } else if !c.should_wrap && is_member_of(n, "module"@, "hot"@, c.decls) {
                    Some((self, NodeV::Null(span)))
                } else {
                    match static_key(*prop, computed) {
                        None => None,
                        Some(key) => {
                            let own = c.static_cjs_exports && !c.should_wrap;
                            match *obj {
                                NodeV::Ident(i) => {
                                    let ns = static_namespace(c, i);
                                    if ns.is_some() && ns.unwrap().kind != ImportKind::DynamicImport {
                                        Some(self.import_node(span, ns.unwrap().source, key, span))
                                    } else if i.sym == "exports"@ && !c.declares(i) && own {
                                        Some(
                                            self.member_note(c, n).self_ref(key).export_node(
                                                span,
                                                key,
                                            ),
                                        )
                                    } else {
                                        None
                                    }
                                },
                                NodeV::Call { .. } => match c.require_of(*obj) {
                                    Some(source) => Some(
                                        self.add_require(source).import_node(
                                            span,
                                            source,
                                            key,
                                            span,
                                        ),
                                    ),
                                    None => None,
                                },
                                NodeV::Member { .. } => if own && c.is_cjs_exports(*obj) {
                                    Some(self.self_ref(key).export_node(span, key))
                                } else {
                                    None
                                },
                                NodeV::This(_) => if own && !self.in_function_scope && !c.is_esm {
                                    Some(self.self_ref(key).export_node(span, key))
                                } else {
                                    None
                                },
                                _ => None,
                            }
                        },
                    }
                }
            },
            _ => None,
        }
    }

    /// What replaces a call as a whole: `require('x')` becomes the import
    /// name of the namespace of `x`, `import('x')` the name of its
    /// asynchronous namespace; both put out an import of `x`.
    pub open spec fn call_rewrite(self, c: CollectV, n: NodeV) -> Option<(HoistV, NodeV)> {
        match n {
            NodeV::Call { span, .. } => match c.require_of(n) {
                Some(source) => Some(self.add_require(source).import_node(span, source, star(), span)),
                None => match c.import_of(n) {
                    Some(source) => {
                        let name = import_async_name(self.module_id, source);
                        let h1 = self.add_require(source).add_dynamic_import(name, source);
                        let h2 = if c.non_static_requires.contains(source) || c.should_wrap {
                            h1.add_imported(
                                ImportedSymbolV { source, local: name, imported: star(), loc: span },
                            )
                        } else {
                            h1
                        };
                        Some((h2, NodeV::Ident(IdentV { sym: name, span })))
                    },
                    None => None,
                },
            },
            _ => None,
        }
    }

    /// `typeof require` is `"function"` and `typeof module` is `"object"`.
    pub open spec fn unary_rewrite(self, c: CollectV, n: NodeV) -> Option<NodeV> {
        match n {
            NodeV::Unary { span, op, arg } => if op == UnaryOp::TypeOf {
                match *arg {
                    NodeV::Ident(i) => if i.sym == "require"@ && !c.declares(i) {
                        Some(synthesized_str(span, "function"@))
                    } else if i.sym == "module"@ && !c.declares(i) {
                        Some(synthesized_str(span, "object"@))
                    } else {
                        None
                    },
                    _ => None,
                }
            } else {
                None
            },
            _ => None,
        }
    }

    /// Whether the target of an assignment is a property of the CommonJS
    /// exports object.
    pub open spec fn assigns_export(c: CollectV, left: NodeV) -> bool {
        match left {
            NodeV::Member { obj, .. } => match *obj {
                NodeV::Member { .. } => c.is_cjs_exports(*obj),
                NodeV::Ident(i) => i.sym == "exports"@ && !c.declares(i),
                _ => false,
            },
            _ => false,
        }
    }

    /// Rewrites the node `n`.
    pub open spec fn fold(self, c: CollectV, n: NodeV) -> (HoistV, NodeV)
        decreases n, 1nat,
    {
        match n {
            NodeV::Ident(i) => {
                let (h, j) = self.fold_ident(c, i);
                (h, NodeV::Ident(j))
            },
            NodeV::BindingIdent(i) => {
                let (h, j) = self.fold_ident(c, i);
                (h, NodeV::BindingIdent(j))
            },
            NodeV::Name(i) => {
                let (h, j) = self.fold_ident(c, i);
                (h, NodeV::Name(j))
            },
            NodeV::Key(_) => (self, n),
            NodeV::Shorthand(i) => self.fold_shorthand(c, i),
            NodeV::Str { .. } => (self, n),
            NodeV::Null(_) => (self, n),
            NodeV::This(span) => self.fold_this(c, span),
            NodeV::Hole => (self, n),
            NodeV::Member { .. } => self.fold_member(c, n),
            NodeV::Call { .. } => self.fold_call(c, n),
            NodeV::Spread { dot3, expr } => {
                let (h, e) = self.fold(c, *expr);
                (h, NodeV::Spread { dot3, expr: Box::new(e) })
            },
            NodeV::Unary { .. } => self.fold_unary(c, n),
            NodeV::Assign { .. } => self.fold_assign(c, n),
            NodeV::Sequence { span, exprs } => {
                let (h, es) = self.fold_sequence(c, exprs, exprs.len());
                (h, NodeV::Sequence { span, exprs: es })
            },
            NodeV::Await { span, arg } => {
                let (h, a) = self.fold(c, *arg);
                (h, NodeV::Await { span, arg: Box::new(a) })
            },
            NodeV::Arrow { tag, params, body } => {
                let (h1, ps) = self.fold_all(c, params, params.len());
                let (h2, b) = h1.fold(c, *body);
                (h2, NodeV::Arrow { tag, params: ps, body: Box::new(b) })
            },
            NodeV::Function { .. } => self.fold_function(c, n),
            NodeV::Scope { .. } => self.fold_function(c, n),
            NodeV::FnExpr { ident, function } => {
                let (h1, i) = self.fold_opt_ident(c, ident);
                let (h2, f) = h1.fold(c, *function);
                (h2, NodeV::FnExpr { ident: i, function: Box::new(f) })
            },
            NodeV::ClassExpr { ident, class } => {
                let (h1, i) = self.fold_opt_ident(c, ident);
                let (h2, f) = h1.fold(c, *class);
                (h2, NodeV::ClassExpr { ident: i, class: Box::new(f) })
            },
            NodeV::KeyValue { key, value } => {
                let (h1, k) = self.fold(c, *key);
                let (h2, v) = h1.fold(c, *value);
                (h2, NodeV::KeyValue { key: Box::new(k), value: Box::new(v) })
            },
            NodeV::Computed { span, expr } => {
                let (h, e) = self.fold(c, *expr);
                (h, NodeV::Computed { span, expr: Box::new(e) })
            },
            NodeV::ObjectPat { span, props } => {
                let (h, ps) = self.fold_all(c, props, props.len());
                (h, NodeV::ObjectPat { span, props: ps })
            },
            NodeV::AssignPatProp { .. } => self.fold_assign_pat_prop(c, n),
            NodeV::Rest { span, dot3, arg } => {
                let (h, a) = self.fold(c, *arg);
                (h, NodeV::Rest { span, dot3, arg: Box::new(a) })
            },
            NodeV::ArrayPat { span, elems } => {
                let (h, es) = self.fold_all(c, elems, elems.len());
                (h, NodeV::ArrayPat { span, elems: es })
            },
            NodeV::AssignPat { span, left, right } => {
                let (h1, l) = self.fold(c, *left);
                let (h2, r) = h1.fold(c, *right);
                (h2, NodeV::AssignPat { span, left: Box::new(l), right: Box::new(r) })
            },
            NodeV::ExprStmt { span, expr } => {
                let (h, e) = self.fold(c, *expr);
                (h, NodeV::ExprStmt { span, expr: Box::new(e) })
            },
            NodeV::VarDecl { span, kind, declare, decls } => {
                let (h, ds) = self.fold_all(c, decls, decls.len());
                (h, NodeV::VarDecl { span, kind, declare, decls: ds })
            },
            NodeV::Declarator { span, name, init, definite } => {
                let (h1, nm) = self.fold(c, *name);
                match init {
                    Some(e) => {
                        let (h2, e2) = h1.fold(c, *e);
                        (
                            h2,
                            NodeV::Declarator {
                                span,
                                name: Box::new(nm),
                                init: Some(Box::new(e2)),
                                definite,
                            },
                        )
                    },
                    None => (
                        h1,
                        NodeV::Declarator { span, name: Box::new(nm), init: None, definite },
                    ),
                }
            },
            NodeV::Return { span, arg } => match arg {
                Some(a) => {
                    let (h, a2) = self.fold(c, *a);
                    (h, NodeV::Return { span, arg: Some(Box::new(a2)) })
                },
                None => (self, n),
            },
            NodeV::FnDecl { ident, declare, function } => {
                let (h1, i) = self.fold_ident(c, ident);
                let (h2, f) = h1.fold(c, *function);
                (h2, NodeV::FnDecl { ident: i, declare, function: Box::new(f) })
            },
            NodeV::ClassDecl { ident, declare, class } => {
                let (h1, i) = self.fold_ident(c, ident);
                let (h2, f) = h1.fold(c, *class);
                (h2, NodeV::ClassDecl { ident: i, declare, class: Box::new(f) })
            },
            NodeV::Import { .. } => (self, n),
            NodeV::ExportNamed { .. } => (self, n),
            NodeV::ExportAll { .. } => (self, n),
            NodeV::ExportDefaultExpr { span, expr } => {
                let (h, e) = self.fold(c, *expr);
                (h, NodeV::ExportDefaultExpr { span, expr: Box::new(e) })
            },
            NodeV::ExportDefaultDecl { span, decl } => {
                let (h, d) = self.fold(c, *decl);
                (h, NodeV::ExportDefaultDecl { span, decl: Box::new(d) })
            },
            NodeV::ExportDecl { span, decl } => {
                let (h, d) = self.fold(c, *decl);
                (h, NodeV::ExportDecl { span, decl: Box::new(d) })
            },
            NodeV::Other { tag, children } => {
                let (h, cs) = self.fold_all(c, children, children.len());
                (h, NodeV::Other { tag, children: cs })
            },
        }
    }

    /// Rewrites the first `k` of `ns`, in order.
    pub open spec fn fold_all(self, c: CollectV, ns: Seq<NodeV>, k: nat) -> (HoistV, Seq<NodeV>)
        decreases ns, k,
    {
        if k == 0 || k > ns.len() {
            (self, Seq::empty())
        } else {
            let (h1, out) = self.fold_all(c, ns, (k - 1) as nat);
            let (h2, x) = h1.fold(c, ns[k - 1]);
            (h2, out.push(x))
        }
    }

    /// Rewrites the operands of a comma sequence. A `require` call that is
    /// not the last operand is put behind a `!`, so that nothing later
    /// takes it for dead code.
    pub open spec fn fold_sequence(self, c: CollectV, ns: Seq<NodeV>, k: nat) -> (
        HoistV,
        Seq<NodeV>,
    )
        decreases ns, k,
    {
        if k == 0 || k > ns.len() {
            (self, Seq::empty())
        } else {
            let (h1, out) = self.fold_sequence(c, ns, (k - 1) as nat);
            let (h2, x) = h1.fold(c, ns[k - 1]);
            if k != ns.len() && c.require_of(ns[k - 1]).is_some() {
                (
                    h2,
                    out.push(
                        NodeV::Unary { span: dummy_span(), op: UnaryOp::Bang, arg: Box::new(x) },
                    ),
                )
            } else {
                (h2, out.push(x))
            }
        }
    }

    /// A member access that is not replaced as a whole: its object is
    /// rewritten, and its property too unless it is a known key.
    pub open spec fn fold_member(self, c: CollectV, n: NodeV) -> (HoistV, NodeV)
        decreases n, 0nat,
    {
        match n {
            NodeV::Member { span, obj, prop, computed } => match self.member_rewrite(c, n) {
                Some(r) => r,
                None => match static_key(*prop, computed) {
                    None => {
                        let (h1, o) = self.fold(c, *obj);
                        let (h2, p) = h1.fold(c, *prop);
                        (h2, NodeV::Member { span, obj: Box::new(o), prop: Box::new(p), computed })
                    },
                    Some(_) => {
                        let (h1, o) = self.member_note(c, n).fold(c, *obj);
                        (h1, NodeV::Member { span, obj: Box::new(o), prop, computed })
                    },
                },
            },
            _ => (self, n),
        }
    }

    pub open spec fn fold_call(self, c: CollectV, n: NodeV) -> (HoistV, NodeV)
        decreases n, 0nat,
    {
        match n {
            NodeV::Call { span, callee, args } => match self.call_rewrite(c, n) {
                Some(r) => r,
                None => {
                    let (h1, f) = self.fold(c, *callee);
                    let (h2, a) = h1.fold_all(c, args, args.len());
                    (h2, NodeV::Call { span, callee: Box::new(f), args: a })
                },
            },
            _ => (self, n),
        }
    }

    pub open spec fn fold_unary(self, c: CollectV, n: NodeV) -> (HoistV, NodeV)
        decreases n, 0nat,
    {
        match n {
            NodeV::Unary { span, op, arg } => match self.unary_rewrite(c, n) {
                Some(r) => (self, r),
                None => {
                    let (h, a) = self.fold(c, *arg);
                    (h, NodeV::Unary { span, op, arg: Box::new(a) })
                },
            },
            _ => (self, n),
        }
    }

    /// An assignment. In a module that is not wrapped, an assignment to
    /// `module.exports` assigns to the exports object, and an assignment
    /// to a property of the exports object assigns to the export name of
    /// its key, which is then declared once at the top; where the exports
    /// are not static it assigns to the same property of the exports
    /// object.
    pub open spec fn fold_assign(self, c: CollectV, n: NodeV) -> (HoistV, NodeV)
        decreases n, 0nat,
    {
        match n {
            NodeV::Assign { span, op, left, right } => {
                if !c.should_wrap && c.is_cjs_exports(*left) {
                    match *left {
                        NodeV::Member { span: mspan, .. } => {
                            let (h1, i) = self.export_ident(mspan, star());
                            let (h2, r) = h1.fold(c, *right);
                            (
                                h2,
                                NodeV::Assign {
                                    span,
                                    op,
                                    left: Box::new(NodeV::BindingIdent(i)),
                                    right: Box::new(r),
                                },
                            )
                        },
                        _ => (self, n),
                    }
                } else if !c.should_wrap && Self::assigns_export(c, *left) {
                    match *left {
                        NodeV::Member { span: mspan, obj, prop, computed } => {
                            let key = static_key(*prop, computed);
                            if c.static_cjs_exports && key.is_some() {
                                let (h1, i) = self.export_ident(mspan, key.unwrap());
                                let (h2, r) = h1.add_export_decl(i.sym).fold(c, *right);
                                (
                                    h2,
                                    NodeV::Assign {
                                        span,
                                        op,
                                        left: Box::new(NodeV::BindingIdent(i)),
                                        right: Box::new(r),
                                    },
                                )
                            } else {
                                let (h1, i) = self.export_ident(mspan, star());
                                let (h2, p) = h1.fold(c, *prop);
                                let (h3, r) = h2.fold(c, *right);
                                (
                                    h3,
                                    NodeV::Assign {
                                        span,
                                        op,
                                        left: Box::new(
                                            NodeV::Member {
                                                span: mspan,
                                                obj: Box::new(NodeV::Ident(i)),
                                                prop: Box::new(p),
                                                computed,
                                            },
                                        ),
                                        right: Box::new(r),
                                    },
                                )
                            }
                        },
                        _ => (self, n),
                    }
                } else {
                    let (h1, l) = self.fold(c, *left);
                    let (h2, r) = h1.fold(c, *right);
                    (h2, NodeV::Assign { span, op, left: Box::new(l), right: Box::new(r) })
                }
            },
            _ => (self, n),
        }
    }

    /// A function, a class, a getter or a setter: inside, `this` is no
    /// longer the module's.
    pub open spec fn fold_function(self, c: CollectV, n: NodeV) -> (HoistV, NodeV)
        decreases n, 0nat,
    {
        let inner = self.with_in_function_scope(true);
        match n {
            NodeV::Function { tag, params, body } => {
                let (h1, ps) = inner.fold_all(c, params, params.len());
                let (h2, b) = h1.fold_all(c, body, body.len());
                (
                    h2.with_in_function_scope(self.in_function_scope),
                    NodeV::Function { tag, params: ps, body: b },
                )
            },
            NodeV::Scope { tag, children } => {
                let (h1, cs) = inner.fold_all(c, children, children.len());
                (
                    h1.with_in_function_scope(self.in_function_scope),
                    NodeV::Scope { tag, children: cs },
                )
            },
            _ => (self, n),
        }
    }

    /// `{ a }` and `{ a = 1 }` in an object pattern are spelled out as
    /// `{ a: <new name> }` and `{ a: <new name> = 1 }`.
    pub open spec fn fold_assign_pat_prop(self, c: CollectV, n: NodeV) -> (HoistV, NodeV)
        decreases n, 0nat,
    {
        match n {
            NodeV::AssignPatProp { span, key, value } => {
                let (h1, k) = self.fold_ident(c, key);
                let plain_key = Box::new(NodeV::Key(IdentV { sym: key.sym, span: dummy_span() }));
                match value {
                    Some(v) => {
                        let (h2, v2) = h1.fold(c, *v);
                        if c.should_wrap {
                            (h2, NodeV::AssignPatProp { span, key: k, value: Some(Box::new(v2)) })
                        } else {
                            (
                                h2,
                                NodeV::KeyValue {
                                    key: plain_key,
                                    value: Box::new(
                                        NodeV::AssignPat {
                                            span: dummy_span(),
                                            left: Box::new(NodeV::BindingIdent(k)),
                                            right: Box::new(v2),
                                        },
                                    ),
                                },
                            )
                        }
                    },
                    None => if c.should_wrap {
                        (h1, NodeV::AssignPatProp { span, key: k, value: None })
                    } else {
                        (
                            h1,
                            NodeV::KeyValue {
                                key: plain_key,
                                value: Box::new(NodeV::BindingIdent(k)),
                            },
                        )
                    },
                }
            },
            _ => (self, n),
        }
    }

    /// For each of the first `k` identifiers that has an import behind
    /// it, puts out `var <stand-in> = <import name>;`.
    pub open spec fn add_stand_ins(
        self,
        c: CollectV,
        idents: Seq<IdentV>,
        k: nat,
        span: Span,
        source: Seq<char>,
    ) -> HoistV
        decreases k,
    {
        if k == 0 || k > idents.len() {
            self
        } else {
            let h = self.add_stand_ins(c, idents, (k - 1) as nat, span, source);
            let i = idents[k - 1];
            match lookup(c.imports, i.id()) {
                Some(imp) => {
                    let (h1, import_id) = h.import_ident(span, source, imp.specifier, span);
                    h1.push_item(
                        single_var(
                            dummy_span(),
                            h.require_ident(i.sym),
                            Some(NodeV::Ident(import_id)),
                        ),
                    )
                },
                None => h,
            }
        }
    }

    /// Every binding of the pattern `name` that is reassigned gets a
    /// variable of its own, which starts as the imported value.
    pub open spec fn handle_non_const_require(
        self,
        c: CollectV,
        name: NodeV,
        span: Span,
        source: Seq<char>,
    ) -> HoistV {
        let idents = non_const_idents(c, name, Seq::empty());
        self.add_stand_ins(c, idents, idents.len(), span, source)
    }

    /// Puts out the declarators that are waiting, as one statement.
    pub open spec fn flush(
        self,
        pending: Seq<NodeV>,
        span: Span,
        kind: VarKind,
        declare: bool,
    ) -> HoistV {
        if pending.len() > 0 {
            self.push_item(NodeV::VarDecl { span, kind, declare, decls: pending })
        } else {
            self
        }
    }

    /// One declarator of a top-level variable statement. `pending` holds
    /// the declarators before it that were not put out yet. A declarator
    /// that requires a module is replaced by an import, behind what was
    /// pending. Any other declarator is rewritten and waits; where its
    /// rewriting put out items, what was pending goes before them.
    pub open spec fn fold_top_declarator(
        self,
        c: CollectV,
        pending: Seq<NodeV>,
        v: NodeV,
        span: Span,
        kind: VarKind,
        declare: bool,
    ) -> (HoistV, Seq<NodeV>)
        decreases v, 2nat,
    {
        let source = match v {
            NodeV::Declarator { init, .. } => hoistable_source(c, init),
            _ => None,
        };
        match (v, source) {
            (NodeV::Declarator { span: vspan, name, .. }, Some(src)) => (
                self.flush(pending, span, kind, declare).add_require(src).handle_non_const_require(
                    c,
                    *name,
                    vspan,
                    src,
                ),
                Seq::empty(),
            ),
            _ => {
                let (h, d) = self.fold(c, v);
                if h.module_items.len() > self.module_items.len() && pending.len() > 0 {
                    (
                        h.insert_item(
                            self.module_items.len() as int,
                            NodeV::VarDecl { span, kind, declare, decls: pending },
                        ),
                        seq![d],
                    )
                } else {
                    (h, pending.push(d))
                }
            },
        }
    }

    pub open spec fn fold_top_declarators(
        self,
        c: CollectV,
        decls: Seq<NodeV>,
        k: nat,
        span: Span,
        kind: VarKind,
        declare: bool,
    ) -> (HoistV, Seq<NodeV>)
        decreases decls, k,
    {
        if k == 0 || k > decls.len() {
            (self, Seq::empty())
        } else {
            let (h, pending) = self.fold_top_declarators(c, decls, (k - 1) as nat, span, kind, declare);
            h.fold_top_declarator(c, pending, decls[k - 1], span, kind, declare)
        }
    }

    /// An import binding that is assigned to somewhere is an error.
    pub open spec fn check_import_specifier(self, c: CollectV, sp: ImportSpecifierV) -> HoistV {
        match lookup(c.non_const_bindings, sp.local.id()) {
            Some(spans) => self.add_diagnostic(assignment_diagnostic(spans, sp.local.span)),
            None => self,
        }
    }

    pub open spec fn check_import_specifiers(
        self,
        c: CollectV,
        sps: Seq<ImportSpecifierV>,
        k: nat,
    ) -> HoistV
        decreases k,
    {
        if k == 0 || k > sps.len() {
            self
        } else {
            self.check_import_specifiers(c, sps, (k - 1) as nat).check_import_specifier(
                c,
                sps[k - 1],
            )
        }
    }

    /// One entry of `export { .. } from 'src'`.
    pub open spec fn re_export_specifier(self, src: Seq<char>, sp: ExportSpecifierV) -> HoistV {
        self.add_re_export(
            match sp.kind {
                SpecifierKind::Named => ImportedSymbolV {
                    source: src,
                    local: match sp.exported {
                        Some(e) => e.sym,
                        None => sp.name.sym,
                    },
                    imported: sp.name.sym,
                    loc: sp.span,
                },
                SpecifierKind::Default => ImportedSymbolV {
                    source: src,
                    local: sp.name.sym,
                    imported: "default"@,
                    loc: sp.name.span,
                },
                SpecifierKind::Namespace => ImportedSymbolV {
                    source: src,
                    local: sp.name.sym,
                    imported: star(),
                    loc: sp.span,
                },
            },
        )
    }

    pub open spec fn re_export_specifiers(self, src: Seq<char>, sps: Seq<ExportSpecifierV>, k: nat) -> HoistV
        decreases k,
    {
        if k == 0 || k > sps.len() {
            self
        } else {
            self.re_export_specifiers(src, sps, (k - 1) as nat).re_export_specifier(src, sps[k - 1])
        }
    }

    /// One entry of `export { .. }` without a source. An imported binding
    /// is re-exported from where it came; a local binding is exported
    /// under the new name, through the name under which it was first
    /// exported.
    pub open spec fn export_specifier(self, c: CollectV, sp: ExportSpecifierV) -> HoistV {
        if sp.kind != SpecifierKind::Named {
            self
        } else {
            let exported = match sp.exported {
                Some(e) => e.sym,
                None => sp.name.sym,
            };
            match lookup(c.imports, sp.name.id()) {
                Some(imp) => self.add_re_export(
                    ImportedSymbolV {
                        source: imp.source,
                        local: exported,
                        imported: imp.specifier,
                        loc: sp.span,
                    },
                ),
                None => match lookup(c.exports, sp.name.id()) {
                    Some(orig) => if c.should_wrap {
                        self.add_exported(ExportedSymbolV { local: orig, exported, loc: sp.span })
                    } else {
                        let (h, i) = self.export_ident(dummy_span(), orig);
                        h.add_exported(ExportedSymbolV { local: i.sym, exported, loc: sp.span })
                    },
                    None => self,
                },
            }
        }
    }

    pub open spec fn export_specifiers(self, c: CollectV, sps: Seq<ExportSpecifierV>, k: nat) -> HoistV
        decreases k,
    {
        if k == 0 || k > sps.len() {
            self
        } else {
            self.export_specifiers(c, sps, (k - 1) as nat).export_specifier(c, sps[k - 1])
        }
    }

    /// The name of a default-exported function or class: its own in a
    /// wrapped module, where it has one, else the export name of
    /// `default`.
    pub open spec fn default_decl_ident(self, c: CollectV, ident: Option<IdentV>) -> (
        HoistV,
        IdentV,
    ) {
        if c.should_wrap && ident.is_some() {
            (self, ident.unwrap())
        } else {
            self.export_ident(dummy_span(), "default"@)
        }
    }

    /// One top-level item. Imports and re-exports go to `hoisted`, the
    /// list of what will stand at the top; everything else is put out in
    /// place.
    pub open spec fn fold_item(self, c: CollectV, hoisted: Seq<NodeV>, n: NodeV) -> (
        HoistV,
        Seq<NodeV>,
    )
        decreases n, 3nat,
    {
        match n {
            NodeV::Import { specifiers, src, .. } => (
                self.check_import_specifiers(c, specifiers, specifiers.len()),
                hoisted.push(hoisted_import(self.module_id, src)),
            ),
            NodeV::ExportNamed { specifiers, src, .. } => match src {
                Some(s) => (
                    self.re_export_specifiers(s, specifiers, specifiers.len()),
                    hoisted.push(hoisted_import(self.module_id, s)),
                ),
                None => (self.export_specifiers(c, specifiers, specifiers.len()), hoisted),
            },
            NodeV::ExportAll { span, src } => (
                self.add_re_export(
                    ImportedSymbolV { source: src, local: star(), imported: star(), loc: span },
                ),
                hoisted.push(hoisted_import(self.module_id, src)),
            ),
            NodeV::ExportDefaultExpr { span, expr } => {
                let (h1, i) = self.export_ident(span, "default"@);
                let (h2, e) = h1.fold(c, *expr);
                (h2.push_item(single_var(dummy_span(), i, Some(e))), hoisted)
            },
            NodeV::ExportDefaultDecl { decl, .. } => match *decl {
                NodeV::ClassExpr { ident, class } => {
                    let (h1, i) = self.default_decl_ident(c, ident);
                    let (h2, k) = h1.fold(c, *class);
                    (
                        h2.push_item(
                            NodeV::ClassDecl { ident: i, declare: false, class: Box::new(k) },
                        ),
                        hoisted,
                    )
                },
                NodeV::FnExpr { ident, function } => {
                    let (h1, i) = self.default_decl_ident(c, ident);
                    let (h2, f) = h1.fold(c, *function);
                    (
                        h2.push_item(
                            NodeV::FnDecl { ident: i, declare: false, function: Box::new(f) },
                        ),
                        hoisted,
                    )
                },
                _ => {
                    let (h, d) = self.fold(c, *decl);
                    (h.push_item(d), hoisted)
                },
            },
            NodeV::ExportDecl { decl, .. } => {
                let (h, d) = self.fold(c, *decl);
                (h.push_item(d), hoisted)
            },
            NodeV::VarDecl { span, kind, declare, decls } => {
                let (h, pending) = self.fold_top_declarators(
                    c,
                    decls,
                    decls.len(),
                    span,
                    kind,
                    declare,
                );
                (h.flush(pending, span, kind, declare), hoisted)
            },
            NodeV::ExprStmt { span, expr } => match c.require_of(*expr) {
                Some(source) => (self.add_require(source), hoisted),
                None => {
                    let (h, e) = self.fold(c, *expr);
                    (h.push_item(NodeV::ExprStmt { span, expr: Box::new(e) }), hoisted)
                },
            },
            _ => {
                let (h, d) = self.fold(c, n);
                (h.push_item(d), hoisted)
            },
        }
    }

    pub open spec fn fold_items(self, c: CollectV, hoisted: Seq<NodeV>, ns: Seq<NodeV>, k: nat) -> (
        HoistV,
        Seq<NodeV>,
    )
        decreases ns, k,
    {
        if k == 0 || k > ns.len() {
            (self, hoisted)
        } else {
            let (h, hs) = self.fold_items(c, hoisted, ns, (k - 1) as nat);
            h.fold_item(c, hs, ns[k - 1])
        }
    }

    /// The export names that are assigned to somewhere in the module, in
    /// the order in which the rewrite first meets them.
    pub open spec fn declared_exports(self, c: CollectV, m: ModuleV) -> Seq<Seq<char>> {
        self.fold_items(c, Seq::empty(), m.body, m.body.len()).0.export_decls
    }

    /// Rewrites a module. The new body starts with the hoisted imports in
    /// the order in which they were met and one declaration for every
    /// export name that is assigned to; the items that were put out
    /// follow in their order.
    pub open spec fn fold_module(self, c: CollectV, m: ModuleV) -> (HoistV, ModuleV) {
        let (h, hoisted) = self.fold_items(c, Seq::empty(), m.body, m.body.len());
        let top = hoisted + export_decl_vars(h.export_decls, h.export_decls.len(), m.span);
        (
            HoistV { module_items: Seq::empty(), export_decls: Seq::empty(), ..h },
            ModuleV { span: m.span, body: top + h.module_items, shebang: m.shebang },
        )
    }
}

} // verus!
