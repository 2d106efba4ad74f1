//! What the analysis knows about a module, and how each node of the tree
//! changes it.
//!
//! `CollectV` is the fact base as a mathematical value; `CollectV::visit`
//! and the functions around it say, node by node, which facts the analysis
//! records. The executable analysis is proved to compute exactly these.
use crate::ast::{dummy_span, IdV, IdentV, ModuleV, NodeV, Span, SpecifierKind, UnaryOp};
use crate::ast::{ExportSpecifierV, ImportSpecifierV};
use crate::diag::{sorted_by_start, Bailout, BailoutReason};
use crate::matchers::{
    arg_expr, binds_free, imported_source, is_member_of, pat_span, required_source, static_key,
};
use crate::table::{append_at, lookup, put, put_if_absent, with_item};
use crate::text::star;
use vstd::prelude::*;

verus! {

/// The three ways in which a module can pull in another one.
#[derive(Clone, Copy, Debug, PartialEq, Eq, Structural)]
pub enum ImportKind {
    Require,
    Import,
    DynamicImport,
}

/// Where a local binding comes from: the other module, the name it has
/// there (`*` for the whole namespace), and how it was brought in.
#[derive(Debug, PartialEq, Eq)]
pub struct Import {
    pub source: String,
    pub specifier: String,
    pub kind: ImportKind,
    pub loc: Span,
}

pub struct ImportV {
    pub source: Seq<char>,
    pub specifier: Seq<char>,
    pub kind: ImportKind,
    pub loc: Span,
}

impl View for Import {
    type V = ImportV;

    open spec fn view(&self) -> ImportV {
        ImportV {
            source: self.source@,
            specifier: self.specifier@,
            kind: self.kind,
            loc: self.loc,
        }
    }
}

/// The fact base, and the flags that say where in the tree the analysis is.
pub struct CollectV {
    pub decls: Seq<IdV>,
    pub ignored: Seq<u32>,
    pub global_ctxt: u32,
    pub static_cjs_exports: bool,
    pub has_cjs_exports: bool,
    pub is_esm: bool,
    pub should_wrap: bool,
    pub imports: Seq<(IdV, ImportV)>,
    pub exports: Seq<(IdV, Seq<char>)>,
    pub non_static_access: Seq<(IdV, Seq<Span>)>,
    pub non_const_bindings: Seq<(IdV, Seq<Span>)>,
    pub non_static_requires: Seq<Seq<char>>,
    pub wrapped_requires: Seq<Seq<char>>,
    pub in_module_this: bool,
    pub in_top_level: bool,
    pub in_export_decl: bool,
    pub in_function: bool,
    pub in_assign: bool,
    pub bailouts: Option<Seq<Bailout>>,
}

/// The name of a key in an object pattern, where it is an identifier or a
/// string.
pub open spec fn prop_key_name(key: NodeV) -> Option<Seq<char>> {
    match key {
        NodeV::Key(i) => Some(i.sym),
        NodeV::Str { value, .. } => Some(value),
        _ => None,
    }
}

/// The first parameter of a function expression or an arrow function.
pub open spec fn first_param(callback: NodeV) -> Option<NodeV> {
    match callback {
        NodeV::FnExpr { function, .. } => match *function {
            NodeV::Function { params, .. } => if params.len() > 0 {
                Some(params[0])
            } else {
                None
            },
            _ => None,
        },
        NodeV::Arrow { params, .. } => if params.len() > 0 {
            Some(params[0])
        } else {
            None
        },
        _ => None,
    }
}

/// Whether a top-level item is an import or export declaration.
pub open spec fn is_module_decl(n: NodeV) -> bool {
    n is Import || n is ExportNamed || n is ExportAll || n is ExportDefaultExpr
        || n is ExportDefaultDecl || n is ExportDecl
}

pub open spec fn access_bailouts(spans: Seq<Span>) -> Seq<Bailout> {
    Seq::new(spans.len(), |i: int| Bailout { loc: spans[i], reason: BailoutReason::NonStaticAccess })
}

/// One bailout for every non-static access to one of the first `k`
/// imported bindings.
pub open spec fn late_bailouts(
    imports: Seq<(IdV, ImportV)>,
    k: nat,
    access: Seq<(IdV, Seq<Span>)>,
) -> Seq<Bailout>
    decreases k,
{
    if k == 0 || k > imports.len() {
        Seq::empty()
    } else {
        late_bailouts(imports, (k - 1) as nat, access) + match lookup(access, imports[k - 1].0) {
            Some(spans) => access_bailouts(spans),
            None => Seq::empty(),
        }
    }
}

impl CollectV {
    /// The facts before anything was visited.
    pub open spec fn initial(
        decls: Seq<IdV>,
        ignored: Seq<u32>,
        global_ctxt: u32,
        trace_bailouts: bool,
    ) -> CollectV {
        CollectV {
            decls,
            ignored,
            global_ctxt,
            static_cjs_exports: true,
            has_cjs_exports: false,
            is_esm: false,
            should_wrap: false,
            imports: Seq::empty(),
            exports: Seq::empty(),
            non_static_access: Seq::empty(),
            non_const_bindings: Seq::empty(),
            non_static_requires: Seq::empty(),
            wrapped_requires: Seq::empty(),
            in_module_this: true,
            in_top_level: true,
            in_export_decl: false,
            in_function: false,
            in_assign: false,
            bailouts: if trace_bailouts {
                Some(Seq::empty())
            } else {
                None
            },
        }
    }

    /// Records a bailout, where bailouts are traced.
    pub open spec fn bail(self, loc: Span, reason: BailoutReason) -> CollectV {
        match self.bailouts {
            Some(b) => CollectV { bailouts: Some(b.push(Bailout { loc, reason })), ..self },
            None => self,
        }
    }

    pub open spec fn declares(self, i: IdentV) -> bool {
        self.decls.contains(i.id())
    }

    pub open spec fn require_of(self, n: NodeV) -> Option<Seq<char>> {
        required_source(n, self.decls, self.ignored)
    }

    pub open spec fn import_of(self, n: NodeV) -> Option<Seq<char>> {
        imported_source(n, self.ignored)
    }

    pub open spec fn is_cjs_exports(self, n: NodeV) -> bool {
        is_member_of(n, "module"@, "exports"@, self.decls)
    }

    /// The specifier must stay a call at run time.
    pub open spec fn wrap_require(self, src: Seq<char>) -> CollectV {
        CollectV { wrapped_requires: with_item(self.wrapped_requires, src), ..self }
    }

    /// The specifier's namespace must stay an object.
    pub open spec fn keep_require(self, src: Seq<char>) -> CollectV {
        CollectV { non_static_requires: with_item(self.non_static_requires, src), ..self }
    }

    /// The CommonJS exports object was used, with a key that is known or not.
    pub open spec fn touch_exports(self, is_static: bool, span: Span) -> CollectV {
        let s = CollectV { has_cjs_exports: true, ..self };
        if is_static {
            s
        } else {
            CollectV { static_cjs_exports: false, ..s }.bail(span, BailoutReason::NonStaticExports)
        }
    }

    /// The exports object escaped as a value.
    pub open spec fn lose_exports(self) -> CollectV {
        CollectV { has_cjs_exports: true, static_cjs_exports: false, ..self }
    }

    /// The module can only run inside a wrapper.
    pub open spec fn must_wrap(self) -> CollectV {
        CollectV { should_wrap: true, ..self }
    }

    pub open spec fn with_in_function(self, b: bool) -> CollectV {
        CollectV { in_function: b, ..self }
    }

    pub open spec fn with_in_module_this(self, b: bool) -> CollectV {
        CollectV { in_module_this: b, ..self }
    }

    pub open spec fn with_in_top_level(self, b: bool) -> CollectV {
        CollectV { in_top_level: b, ..self }
    }

    pub open spec fn with_in_export_decl(self, b: bool) -> CollectV {
        CollectV { in_export_decl: b, ..self }
    }

    pub open spec fn with_in_assign(self, b: bool) -> CollectV {
        CollectV { in_assign: b, ..self }
    }

    /// The module has an import or export declaration.
    pub open spec fn esm(self) -> CollectV {
        CollectV { is_esm: true, ..self }
    }

    pub open spec fn note_access(self, id: IdV, span: Span) -> CollectV {
        CollectV { non_static_access: append_at(self.non_static_access, id, span), ..self }
    }

    pub open spec fn note_reassign(self, id: IdV, span: Span) -> CollectV {
        CollectV { non_const_bindings: append_at(self.non_const_bindings, id, span), ..self }
    }

    pub open spec fn add_import(
        self,
        id: IdV,
        source: Seq<char>,
        specifier: Seq<char>,
        kind: ImportKind,
        loc: Span,
    ) -> CollectV {
        CollectV {
            imports: put(self.imports, id, ImportV { source, specifier, kind, loc }),
            ..self
        }
    }

    pub open spec fn export_as(self, id: IdV, name: Seq<char>) -> CollectV {
        CollectV { exports: put(self.exports, id, name), ..self }
    }

    pub open spec fn export_first_as(self, id: IdV, name: Seq<char>) -> CollectV {
        CollectV { exports: put_if_absent(self.exports, id, name), ..self }
    }

    /// An identifier that a pattern binds: exported where the pattern
    /// belongs to an export declaration, reassigned where it is the target
    /// of an assignment to a top-level binding.
    pub open spec fn visit_binding(self, i: IdentV) -> CollectV {
        let s = if self.in_export_decl {
            self.export_as(i.id(), i.sym)
        } else {
            self
        };
        if s.in_assign && i.span.ctxt == s.global_ctxt {
            s.note_reassign(i.id(), i.span)
        } else {
            s
        }
    }

    /// An identifier used as a value: a free `module` forces wrapping, a
    /// free `exports` makes the exports non-static, and whatever it names
    /// is accessed non-statically.
    pub open spec fn visit_ident_expr(self, i: IdentV) -> CollectV {
        let is_module = i.sym == "module"@;
        let is_exports = i.sym == "exports"@;
        let s = if (is_module || is_exports) && !self.declares(i) {
            if is_module {
                self.lose_exports().must_wrap().bail(i.span, BailoutReason::FreeModule)
            } else {
                self.lose_exports().bail(i.span, BailoutReason::FreeExports)
            }
        } else {
            self
        };
        if i.sym != "import"@ {
            s.note_access(i.id(), i.span)
        } else {
            s
        }
    }

    /// `this` used as a value.
    pub open spec fn visit_this(self, span: Span) -> CollectV {
        if self.in_module_this {
            self.lose_exports().bail(span, BailoutReason::FreeExports)
        } else {
            self
        }
    }

    /// What every destructuring of a required module records first: away
    /// from the top level the specifier is wrapped and, unless it is a
    /// dynamic import, kept non-static.
    pub open spec fn pat_preamble(self, span: Span, src: Seq<char>, kind: ImportKind) -> CollectV {
        if !self.in_top_level {
            let s = self.wrap_require(src);
            if kind != ImportKind::DynamicImport {
                s.keep_require(src).bail(span, BailoutReason::NonTopLevelRequire)
            } else {
                s
            }
        } else {
            self
        }
    }

    pub open spec fn non_static_destructuring(self, span: Span, src: Seq<char>) -> CollectV {
        self.keep_require(src).bail(span, BailoutReason::NonStaticDestructuring)
    }

    /// `name: value` in a destructuring of `src`: an import of `name`
    /// where `value` is an identifier, which is then not constant.
    pub open spec fn add_key_value_import(
        self,
        name: Option<Seq<char>>,
        value: NodeV,
        obj_span: Span,
        src: Seq<char>,
        kind: ImportKind,
    ) -> CollectV {
        match name {
            None => self.non_static_destructuring(obj_span, src),
            Some(imported) => match value {
                NodeV::BindingIdent(i) => self.add_import(
                    i.id(),
                    src,
                    imported,
                    kind,
                    i.span,
                ).note_reassign(i.id(), i.span),
                _ => self.non_static_destructuring(obj_span, src),
            },
        }
    }

    /// One property of an object pattern that destructures `src`.
    pub open spec fn add_prop_import(
        self,
        p: NodeV,
        obj_span: Span,
        src: Seq<char>,
        kind: ImportKind,
    ) -> CollectV {
        match p {
            NodeV::KeyValue { key, value } => self.add_key_value_import(
                prop_key_name(*key),
                *value,
                obj_span,
                src,
                kind,
            ),
            NodeV::AssignPatProp { key, .. } => self.add_import(
                key.id(),
                src,
                key.sym,
                kind,
                key.span,
            ).note_reassign(key.id(), key.span),
            _ => self.non_static_destructuring(obj_span, src),
        }
    }

    pub open spec fn add_prop_imports(
        self,
        props: Seq<NodeV>,
        k: nat,
        obj_span: Span,
        src: Seq<char>,
        kind: ImportKind,
    ) -> CollectV
        decreases k,
    {
        if k == 0 || k > props.len() {
            self
        } else {
            self.add_prop_imports(props, (k - 1) as nat, obj_span, src, kind).add_prop_import(
                props[k - 1],
                obj_span,
                src,
                kind,
            )
        }
    }

    /// The pattern `pat` receives the module `src`: an identifier imports
    /// the namespace, an object pattern imports its keys, anything else
    /// keeps the specifier non-static.
    pub open spec fn add_pat_imports(self, pat: NodeV, src: Seq<char>, kind: ImportKind) -> CollectV {
        let s = self.pat_preamble(pat_span(pat), src, kind);
        match pat {
            NodeV::BindingIdent(i) => s.add_import(i.id(), src, star(), kind, i.span),
            NodeV::ObjectPat { span, props } => s.add_prop_imports(
                props,
                props.len(),
                span,
                src,
                kind,
            ),
            _ => s.non_static_destructuring(pat_span(pat), src),
        }
    }

    pub open spec fn visit_import_specifier(self, src: Seq<char>, sp: ImportSpecifierV) -> CollectV {
        let imported = match sp.kind {
            SpecifierKind::Named => match sp.imported {
                Some(i) => i.sym,
                None => sp.local.sym,
            },
            SpecifierKind::Default => "default"@,
            SpecifierKind::Namespace => star(),
        };
        self.add_import(sp.local.id(), src, imported, ImportKind::Import, sp.span)
    }

    pub open spec fn visit_import_specifiers(
        self,
        src: Seq<char>,
        sps: Seq<ImportSpecifierV>,
        k: nat,
    ) -> CollectV
        decreases k,
    {
        if k == 0 || k > sps.len() {
            self
        } else {
            self.visit_import_specifiers(src, sps, (k - 1) as nat).visit_import_specifier(
                src,
                sps[k - 1],
            )
        }
    }

    pub open spec fn visit_export_specifier(self, sp: ExportSpecifierV) -> CollectV {
        let exported = match sp.kind {
            SpecifierKind::Named => match sp.exported {
                Some(i) => i.sym,
                None => sp.name.sym,
            },
            SpecifierKind::Default => "default"@,
            SpecifierKind::Namespace => star(),
        };
        self.export_first_as(sp.name.id(), exported)
    }

    pub open spec fn visit_export_specifiers(self, sps: Seq<ExportSpecifierV>, k: nat) -> CollectV
        decreases k,
    {
        if k == 0 || k > sps.len() {
            self
        } else {
            self.visit_export_specifiers(sps, (k - 1) as nat).visit_export_specifier(sps[k - 1])
        }
    }

    /// What visiting the node `n` adds to the facts.
    pub open spec fn visit(self, n: NodeV) -> CollectV
        decreases n, 1nat,
    {
        match n {
            NodeV::Ident(i) => self.visit_ident_expr(i),
            NodeV::BindingIdent(i) => self.visit_binding(i),
            NodeV::Name(_) => self,
            NodeV::Key(_) => self,
            NodeV::Shorthand(_) => self,
            NodeV::Str { .. } => self,
            NodeV::Null(_) => self,
            NodeV::Hole => self,
            NodeV::This(span) => self.visit_this(span),
            NodeV::Member { .. } => self.visit_member(n),
            NodeV::Call { .. } => self.visit_call(n),
            NodeV::Spread { expr, .. } => self.visit(*expr),
            NodeV::Unary { .. } => self.visit_unary(n),
            NodeV::Assign { .. } => self.visit_assign(n),
            NodeV::Sequence { exprs, .. } => self.visit_all(exprs, exprs.len()),
            NodeV::Await { arg, .. } => self.visit(*arg),
            NodeV::Arrow { .. } => self.visit_arrow(n),
            NodeV::Function { .. } => self.visit_function(n),
            NodeV::Scope { .. } => self.visit_function(n),
            NodeV::FnExpr { function, .. } => self.visit(*function),
            NodeV::ClassExpr { class, .. } => self.visit(*class),
            NodeV::KeyValue { key, value } => self.visit(*key).visit(*value),
            NodeV::Computed { expr, .. } => self.visit(*expr),
            NodeV::ObjectPat { props, .. } => self.visit_all(props, props.len()),
            NodeV::AssignPatProp { key, .. } => self.visit_binding(key),
            NodeV::Rest { arg, .. } => self.visit(*arg),
            NodeV::ArrayPat { elems, .. } => self.visit_all(elems, elems.len()),
            NodeV::AssignPat { left, right, .. } => self.visit(*left).visit(*right),
            NodeV::ExprStmt { expr, .. } => self.visit(*expr),
            NodeV::VarDecl { decls, .. } => self.visit_all(decls, decls.len()),
            NodeV::Declarator { .. } => self.visit_declarator(n),
            NodeV::Return { .. } => self.visit_return(n),
            NodeV::FnDecl { function, .. } => self.visit(*function),
            NodeV::ClassDecl { class, .. } => self.visit(*class),
            NodeV::Import { specifiers, src, .. } => self.visit_import_specifiers(
                src,
                specifiers,
                specifiers.len(),
            ),
            NodeV::ExportNamed { specifiers, src, .. } => match src {
                Some(_) => self,
                None => self.visit_export_specifiers(specifiers, specifiers.len()),
            },
            NodeV::ExportAll { .. } => self,
            NodeV::ExportDefaultExpr { expr, .. } => self.visit(*expr),
            NodeV::ExportDefaultDecl { .. } => self.visit_export_default_decl(n),
            NodeV::ExportDecl { .. } => self.visit_export_decl(n),
            NodeV::Other { children, .. } => self.visit_all(children, children.len()),
        }
    }

    /// An arrow function is a function, but `this` in it is still the
    /// `this` around it.
    pub open spec fn visit_arrow(self, n: NodeV) -> CollectV
        decreases n, 0nat,
    {
        match n {
            NodeV::Arrow { params, body, .. } => self.with_in_function(true).visit_all(
                params,
                params.len(),
            ).visit(*body).with_in_function(self.in_function),
            _ => self,
        }
    }

    /// A function, a class, a getter or a setter: inside, `this` is no
    /// longer the module's and `return` is no longer at the top level.
    pub open spec fn visit_function(self, n: NodeV) -> CollectV
        decreases n, 0nat,
    {
        let inner = self.with_in_module_this(false).with_in_function(true);
        match n {
            NodeV::Function { params, body, .. } => inner.visit_all(params, params.len()).visit_all(
                body,
                body.len(),
            ).with_in_module_this(self.in_module_this).with_in_function(self.in_function),
            NodeV::Scope { children, .. } => inner.visit_all(
                children,
                children.len(),
            ).with_in_module_this(self.in_module_this).with_in_function(self.in_function),
            _ => self,
        }
    }

    /// `return` outside every function forces wrapping.
    pub open spec fn visit_return(self, n: NodeV) -> CollectV
        decreases n, 0nat,
    {
        match n {
            NodeV::Return { span, arg } => {
                let s = if !self.in_function {
                    self.must_wrap().bail(span, BailoutReason::TopLevelReturn)
                } else {
                    self
                };
                match arg {
                    Some(a) => s.visit(*a),
                    None => s,
                }
            },
            _ => self,
        }
    }

    /// What visiting the first `k` of `ns`, in order, adds to the facts.
    pub open spec fn visit_all(self, ns: Seq<NodeV>, k: nat) -> CollectV
        decreases ns, k,
    {
        if k == 0 || k > ns.len() {
            self
        } else {
            self.visit_all(ns, (k - 1) as nat).visit(ns[k - 1])
        }
    }

    /// A member access. `module.exports` as a value makes the exports
    /// non-static; `module.hot` and `module.require` are let through; a
    /// key on the exports object counts as a use of it; any other key on
    /// a free `module` forces wrapping; a key that is not known makes the
    /// access to its object non-static.
    pub open spec fn visit_member(self, n: NodeV) -> CollectV
        decreases n, 0nat,
    {
        match n {
            NodeV::Member { span, obj, prop, computed } => {
                if self.is_cjs_exports(n) {
                    self.lose_exports()
                } else if is_member_of(n, "module"@, "hot"@, self.decls) || is_member_of(
                    n,
                    "module"@,
                    "require"@,
                    self.decls,
                ) {
                    self
                } else {
                    let is_static = static_key(*prop, computed).is_some();
                    match *obj {
                        NodeV::Member { .. } => if self.is_cjs_exports(*obj) {
                            self.touch_exports(is_static, span)
                        } else {
                            self
                        },
                        NodeV::Ident(i) => {
                            let s1 = if i.sym == "exports"@ && !self.declares(i) {
                                self.touch_exports(is_static, span)
                            } else {
                                self
                            };
                            let s2 = if i.sym == "module"@ && !self.declares(i) {
                                s1.lose_exports().must_wrap().bail(span, BailoutReason::FreeModule)
                            } else {
                                s1
                            };
                            if !is_static && i.sym != "import"@ {
                                s2.note_access(i.id(), span)
                            } else {
                                s2
                            }
                        },
                        NodeV::This(_) => if self.in_module_this {
                            self.touch_exports(is_static, span)
                        } else {
                            self
                        },
                        _ => self.visit(*obj).visit(*prop),
                    }
                }
            },
            _ => self,
        }
    }

    /// What a call records before its parts are looked at: a `require`
    /// that got this far is wrapped, an `import()` is wrapped and kept
    /// non-static.
    pub open spec fn visit_call_head(self, n: NodeV, span: Span) -> CollectV {
        let s = match self.require_of(n) {
            Some(src) => self.wrap_require(src).bail(span, BailoutReason::NonTopLevelRequire),
            None => self,
        };
        match s.import_of(n) {
            Some(src) => s.keep_require(src).wrap_require(src).bail(
                span,
                BailoutReason::NonStaticDynamicImport,
            ),
            None => s,
        }
    }

    /// A call. `eval` forces wrapping. `import('x').then(callback)`
    /// imports through the callback's first parameter, or keeps `x`
    /// non-static where the callback has none.
    pub open spec fn visit_call(self, n: NodeV) -> CollectV
        decreases n, 0nat,
    {
        match n {
            NodeV::Call { span, callee, args } => {
                let s = self.visit_call_head(n, span);
                match *callee {
                    NodeV::Ident(i) => {
                        let s1 = if i.sym == "eval"@ && !s.declares(i) {
                            s.must_wrap().bail(span, BailoutReason::Eval)
                        } else {
                            s
                        };
                        s1.visit(*callee).visit_all(args, args.len())
                    },
                    NodeV::Member { obj, prop, computed, .. } => {
                        let source = s.import_of(*obj);
                        if source.is_some() && static_key(*prop, computed) == Some("then"@)
                            && args.len() > 0 {
                            let src = source.unwrap();
                            let callback = arg_expr(args[0]);
                            let s1 = match first_param(callback) {
                                Some(p) => s.add_pat_imports(p, src, ImportKind::DynamicImport),
                                None => s.keep_require(src).wrap_require(src).bail(
                                    span,
                                    BailoutReason::NonStaticDynamicImport,
                                ),
                            };
                            s1.visit(callback)
                        } else {
                            s.visit(*callee).visit_all(args, args.len())
                        }
                    },
                    _ => s.visit(*callee).visit_all(args, args.len()),
                }
            },
            _ => self,
        }
    }

    /// Whether `n` is `typeof module` or `typeof require`, with a name
    /// that the module does not declare.
    pub open spec fn is_typeof_free(self, n: NodeV) -> bool {
        match n {
            NodeV::Unary { op, arg, .. } => op == UnaryOp::TypeOf && match *arg {
                NodeV::Ident(i) => (i.sym == "module"@ || i.sym == "require"@) && !self.declares(i),
                _ => false,
            },
            _ => false,
        }
    }

    /// `typeof module` and `typeof require` do not count as a use of
    /// `module` or `require`: nothing is recorded for them. The operand
    /// of any other unary operator is visited.
    pub open spec fn visit_unary(self, n: NodeV) -> CollectV
        decreases n, 0nat,
    {
        match n {
            NodeV::Unary { arg, .. } => if self.is_typeof_free(n) {
                self
            } else {
                self.visit(*arg)
            },
            _ => self,
        }
    }

    /// An assignment: its target is visited as one, and an assignment to
    /// a free `exports` or `module` forces wrapping.
    pub open spec fn visit_assign(self, n: NodeV) -> CollectV
        decreases n, 0nat,
    {
        match n {
            NodeV::Assign { span, left, right, .. } => {
                let s1 = self.with_in_assign(true).visit(*left);
                let s2 = s1.with_in_assign(false).visit(*right);
                if binds_free(*left, "exports"@, s2.decls) {
                    s2.lose_exports().must_wrap().bail(span, BailoutReason::ExportsReassignment)
                } else if binds_free(*left, "module"@, s2.decls) {
                    s2.lose_exports().must_wrap().bail(span, BailoutReason::ModuleReassignment)
                } else {
                    s2
                }
            },
            _ => self,
        }
    }

    /// What a declarator `name = init` records where `init` is
    /// `require('y')`, `require('y').k` or `await import('y')`: the
    /// imports that the pattern `name` makes.
    pub open spec fn declarator_import(self, name: NodeV, init: NodeV) -> Option<CollectV> {
        if self.require_of(init).is_some() {
            Some(self.add_pat_imports(name, self.require_of(init).unwrap(), ImportKind::Require))
        } else {
            match init {
                NodeV::Member { obj, prop, computed, .. } => match self.require_of(*obj) {
                    Some(src) => Some(
                        self.pat_preamble(
                            dummy_span(),
                            src,
                            ImportKind::Require,
                        ).add_key_value_import(
                            static_key(*prop, computed),
                            name,
                            dummy_span(),
                            src,
                            ImportKind::Require,
                        ),
                    ),
                    None => None,
                },
                NodeV::Await { arg, .. } => match self.import_of(*arg) {
                    Some(src) => Some(self.add_pat_imports(name, src, ImportKind::DynamicImport)),
                    None => None,
                },
                _ => None,
            }
        }
    }

    /// A variable declarator. One that imports is not looked into; any
    /// other is visited, not at the top level.
    pub open spec fn visit_declarator(self, n: NodeV) -> CollectV
        decreases n, 0nat,
    {
        match n {
            NodeV::Declarator { name, init, .. } => {
                let nested = self.with_in_top_level(false).visit(*name);
                match init {
                    Some(e) => match self.declarator_import(*name, *e) {
                        Some(s) => s,
                        None => nested.visit(*e).with_in_top_level(self.in_top_level),
                    },
                    None => nested.with_in_top_level(self.in_top_level),
                }
            },
            _ => self,
        }
    }

    /// The declarators of an exported variable declaration: what their
    /// patterns bind is exported under its own name.
    pub open spec fn visit_exported_declarators(self, decls: Seq<NodeV>, k: nat) -> CollectV
        decreases decls, k,
    {
        if k == 0 || k > decls.len() {
            self
        } else {
            let s = self.visit_exported_declarators(decls, (k - 1) as nat);
            match decls[k - 1] {
                NodeV::Declarator { name, init, .. } => {
                    let s1 = s.with_in_export_decl(true).visit(*name);
                    let s2 = s1.with_in_export_decl(false);
                    match init {
                        Some(e) => s2.visit(*e),
                        None => s2,
                    }
                },
                _ => s,
            }
        }
    }

    /// `export` before a declaration: the declared names are exported
    /// under their own names, and the declaration is visited.
    pub open spec fn visit_export_decl(self, n: NodeV) -> CollectV
        decreases n, 0nat,
    {
        match n {
            NodeV::ExportDecl { decl, .. } => {
                let s = match *decl {
                    NodeV::ClassDecl { ident, .. } => self.export_as(ident.id(), ident.sym),
                    NodeV::FnDecl { ident, .. } => self.export_as(ident.id(), ident.sym),
                    NodeV::VarDecl { decls, .. } => self.visit_exported_declarators(
                        decls,
                        decls.len(),
                    ),
                    _ => self,
                };
                s.visit(*decl)
            },
            _ => self,
        }
    }

    /// `export default` before a function or a class: its name, where it
    /// has one, is exported as `default`.
    pub open spec fn visit_export_default_decl(self, n: NodeV) -> CollectV
        decreases n, 0nat,
    {
        match n {
            NodeV::ExportDefaultDecl { decl, .. } => {
                let s = match *decl {
                    NodeV::ClassExpr { ident: Some(i), .. } => self.export_as(i.id(), "default"@),
                    NodeV::FnExpr { ident: Some(i), .. } => self.export_as(i.id(), "default"@),
                    _ => self,
                };
                s.visit(*decl)
            },
            _ => self,
        }
    }

    /// A top-level item. An import or export declaration makes the module
    /// an ES module. The declarators of a variable declaration are visited
    /// at the top level; a bare `require('x')` statement is skipped;
    /// everything else is visited as nested.
    pub open spec fn visit_item(self, n: NodeV) -> CollectV
        decreases n, 2nat,
    {
        let s0 = if is_module_decl(n) {
            self.esm()
        } else {
            self
        };
        let nested = s0.with_in_top_level(false).visit(n).with_in_top_level(true);
        match n {
            NodeV::VarDecl { decls, .. } => self.visit_all(decls, decls.len()),
            NodeV::ExprStmt { expr, .. } => if self.require_of(*expr).is_some() {
                self
            } else {
                nested
            },
            _ => nested,
        }
    }

    pub open spec fn visit_items(self, ns: Seq<NodeV>, k: nat) -> CollectV
        decreases ns, k,
    {
        if k == 0 || k > ns.len() {
            self
        } else {
            self.visit_items(ns, (k - 1) as nat).visit_item(ns[k - 1])
        }
    }

    /// Where bailouts are traced: one more for every non-static access to
    /// an imported binding, and all of them in source order.
    pub open spec fn finish(self) -> CollectV {
        match self.bailouts {
            Some(b) => CollectV {
                bailouts: Some(
                    sorted_by_start(
                        b + late_bailouts(self.imports, self.imports.len(), self.non_static_access),
                    ),
                ),
                ..self
            },
            None => self,
        }
    }

    /// The facts about a whole module.
    pub open spec fn visit_module(self, m: ModuleV) -> CollectV {
        let s0 = self.with_in_module_this(true).with_in_top_level(true).with_in_function(false);
        let s1 = s0.visit_items(m.body, m.body.len());
        s1.with_in_module_this(false).finish()
    }
}

} // verus!
