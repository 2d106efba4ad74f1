//! Laws of the two passes, proved of their definitions.
use crate::ast::{IdentV, ModuleV, NodeV, Span};
use crate::ast::{ExportSpecifierV, ImportSpecifierV};
use crate::collect::sticky;
use crate::facts::{first_param, CollectV, ImportKind};
use crate::matchers::{arg_expr, static_key};
use crate::ast::VarKind;
use crate::matchers::is_member_of;
use crate::rewrite::{hoistable_source, static_import, static_namespace, HoistV};
use crate::table::has_key;
use crate::text::import_name;
use vstd::prelude::*;

verus! {

proof fn lemma_prop_imports_sticky(
    s: CollectV,
    props: Seq<NodeV>,
    k: nat,
    span: Span,
    src: Seq<char>,
    kind: ImportKind,
)
    ensures
        sticky(s, s.add_prop_imports(props, k, span, src, kind)),
    decreases k,
{
    if k > 0 && k <= props.len() {
        lemma_prop_imports_sticky(s, props, (k - 1) as nat, span, src, kind);
    }
}

proof fn lemma_pat_imports_sticky(s: CollectV, pat: NodeV, src: Seq<char>, kind: ImportKind)
    ensures
        sticky(s, s.add_pat_imports(pat, src, kind)),
{
    match pat {
        NodeV::ObjectPat { span, props } => {
            lemma_prop_imports_sticky(
                s.pat_preamble(crate::matchers::pat_span(pat), src, kind),
                props,
                props.len(),
                span,
                src,
                kind,
            );
        },
        _ => {},
    }
}

proof fn lemma_import_specifiers_sticky(
    s: CollectV,
    src: Seq<char>,
    sps: Seq<ImportSpecifierV>,
    k: nat,
)
    ensures
        sticky(s, s.visit_import_specifiers(src, sps, k)),
    decreases k,
{
    if k > 0 && k <= sps.len() {
        lemma_import_specifiers_sticky(s, src, sps, (k - 1) as nat);
    }
}

proof fn lemma_export_specifiers_sticky(s: CollectV, sps: Seq<ExportSpecifierV>, k: nat)
    ensures
        sticky(s, s.visit_export_specifiers(sps, k)),
    decreases k,
{
    if k > 0 && k <= sps.len() {
        lemma_export_specifiers_sticky(s, sps, (k - 1) as nat);
    }
}

proof fn lemma_declarator_import_sticky(s: CollectV, name: NodeV, init: NodeV)
    ensures
        match s.declarator_import(name, init) {
            Some(t) => sticky(s, t),
            None => true,
        },
{
    if s.require_of(init).is_some() {
        lemma_pat_imports_sticky(s, name, s.require_of(init).unwrap(), ImportKind::Require);
    } else {
        match init {
            NodeV::Await { arg, .. } => match s.import_of(*arg) {
                Some(src) => {
                    lemma_pat_imports_sticky(s, name, src, ImportKind::DynamicImport);
                },
                None => {},
            },
            _ => {},
        }
    }
}

/// Visiting a node never takes back a flag: once the module must be
/// wrapped it stays so, and once its exports are not static they stay so.
pub proof fn law_flags_are_sticky(s: CollectV, n: NodeV)
    ensures
        sticky(s, s.visit(n)),
    decreases n, 1nat,
{
    match n {
        NodeV::Member { .. } => lemma_member_sticky(s, n),
        NodeV::Call { .. } => lemma_call_sticky(s, n),
        NodeV::Spread { .. } => lemma_expr_parts_sticky(s, n),
        NodeV::Unary { .. } => lemma_expr_parts_sticky(s, n),
        NodeV::Assign { .. } => lemma_assign_sticky(s, n),
        NodeV::Sequence { .. } => lemma_expr_parts_sticky(s, n),
        NodeV::Await { .. } => lemma_expr_parts_sticky(s, n),
        NodeV::KeyValue { .. } => lemma_expr_parts_sticky(s, n),
        NodeV::Computed { .. } => lemma_expr_parts_sticky(s, n),
        NodeV::Arrow { .. } => lemma_scope_sticky(s, n),
        NodeV::Function { .. } => lemma_scope_sticky(s, n),
        NodeV::Scope { .. } => lemma_scope_sticky(s, n),
        NodeV::FnExpr { .. } => lemma_scope_sticky(s, n),
        NodeV::ClassExpr { .. } => lemma_scope_sticky(s, n),
        NodeV::FnDecl { .. } => lemma_scope_sticky(s, n),
        NodeV::ClassDecl { .. } => lemma_scope_sticky(s, n),
        NodeV::ObjectPat { .. } => lemma_pat_parts_sticky(s, n),
        NodeV::Rest { .. } => lemma_pat_parts_sticky(s, n),
        NodeV::ArrayPat { .. } => lemma_pat_parts_sticky(s, n),
        NodeV::AssignPat { .. } => lemma_pat_parts_sticky(s, n),
        NodeV::Other { .. } => lemma_pat_parts_sticky(s, n),
        NodeV::ExprStmt { .. } => lemma_stmt_parts_sticky(s, n),
        NodeV::VarDecl { .. } => lemma_stmt_parts_sticky(s, n),
        NodeV::Declarator { .. } => lemma_stmt_parts_sticky(s, n),
        NodeV::Return { .. } => lemma_stmt_parts_sticky(s, n),
        NodeV::Import { .. } => lemma_module_decl_sticky(s, n),
        NodeV::ExportNamed { .. } => lemma_module_decl_sticky(s, n),
        NodeV::ExportDefaultExpr { .. } => lemma_module_decl_sticky(s, n),
        NodeV::ExportDefaultDecl { .. } => lemma_module_decl_sticky(s, n),
        NodeV::ExportDecl { .. } => lemma_module_decl_sticky(s, n),
        _ => lemma_leaf_sticky(s, n),
    }
}

proof fn lemma_leaf_sticky(s: CollectV, n: NodeV)
    requires
        n is Ident || n is BindingIdent || n is Name || n is Key || n is Shorthand || n is Str
            || n is Null || n is This || n is Hole || n is AssignPatProp || n is ExportAll,
    ensures
        sticky(s, s.visit(n)),
{
    match n {
        NodeV::Ident(i) => {
            assert(sticky(s, s.visit_ident_expr(i)));
        },
        NodeV::BindingIdent(i) => {
            assert(sticky(s, s.visit_binding(i)));
        },
        NodeV::AssignPatProp { key, .. } => {
            assert(sticky(s, s.visit_binding(key)));
        },
        NodeV::This(span) => {
            assert(sticky(s, s.visit_this(span)));
        },
        _ => {},
    }
}

proof fn lemma_expr_parts_sticky(s: CollectV, n: NodeV)
    requires
        n is Spread || n is Unary || n is Sequence || n is Await || n is KeyValue || n is Computed,
    ensures
        sticky(s, s.visit(n)),
    decreases n, 0nat,
{
    match n {
        NodeV::Spread { expr, .. } => {
            law_flags_are_sticky(s, *expr);
        },
        NodeV::Unary { arg, .. } => {
            law_flags_are_sticky(s, *arg);
            assert(sticky(s, s.visit_unary(n)));
        },
        NodeV::Sequence { exprs, .. } => {
            lemma_all_sticky(s, exprs, exprs.len());
        },
        NodeV::Await { arg, .. } => {
            law_flags_are_sticky(s, *arg);
        },
        NodeV::KeyValue { key, value } => {
            law_flags_are_sticky(s, *key);
            law_flags_are_sticky(s.visit(*key), *value);
        },
        NodeV::Computed { expr, .. } => {
            law_flags_are_sticky(s, *expr);
        },
        _ => {},
    }
}

proof fn lemma_assign_sticky(s: CollectV, n: NodeV)
    requires
        n is Assign,
    ensures
        sticky(s, s.visit(n)),
    decreases n, 0nat,
{
    match n {
        NodeV::Assign { span, left, right, .. } => {
            let s0 = s.with_in_assign(true);
            let s1 = s0.visit(*left);
            let s2 = s1.with_in_assign(false);
            let s3 = s2.visit(*right);
            law_flags_are_sticky(s0, *left);
            law_flags_are_sticky(s2, *right);
            assert(sticky(s, s3));
            lemma_reassignment_sticky(s3, span, crate::diag::BailoutReason::ExportsReassignment);
            lemma_reassignment_sticky(s3, span, crate::diag::BailoutReason::ModuleReassignment);
            let r = s.visit_assign(n);
            assert(s.visit(n) == r);
            if crate::matchers::binds_free(*left, "exports"@, s3.decls) {
                assert(r == s3.lose_exports().must_wrap().bail(
                    span,
                    crate::diag::BailoutReason::ExportsReassignment,
                ));
            } else if crate::matchers::binds_free(*left, "module"@, s3.decls) {
                assert(r == s3.lose_exports().must_wrap().bail(
                    span,
                    crate::diag::BailoutReason::ModuleReassignment,
                ));
            } else {
                assert(r == s3);
            }
        },
        _ => {},
    }
}

proof fn lemma_reassignment_sticky(s: CollectV, span: Span, reason: crate::diag::BailoutReason)
    ensures
        sticky(s, s.lose_exports().must_wrap().bail(span, reason)),
{
}

proof fn lemma_scope_sticky(s: CollectV, n: NodeV)
    requires
        n is Arrow || n is Function || n is Scope || n is FnExpr || n is ClassExpr || n is FnDecl
            || n is ClassDecl,
    ensures
        sticky(s, s.visit(n)),
    decreases n, 0nat,
{
    match n {
        NodeV::Arrow { params, body, .. } => {
            let s0 = s.with_in_function(true);
            lemma_all_sticky(s0, params, params.len());
            law_flags_are_sticky(s0.visit_all(params, params.len()), *body);
            assert(sticky(s, s.visit_arrow(n)));
        },
        NodeV::Function { params, body, .. } => {
            let s0 = s.with_in_module_this(false).with_in_function(true);
            lemma_all_sticky(s0, params, params.len());
            lemma_all_sticky(s0.visit_all(params, params.len()), body, body.len());
            assert(sticky(s, s.visit_function(n)));
        },
        NodeV::Scope { children, .. } => {
            let s0 = s.with_in_module_this(false).with_in_function(true);
            lemma_all_sticky(s0, children, children.len());
            assert(sticky(s, s.visit_function(n)));
        },
        NodeV::FnExpr { function, .. } => {
            law_flags_are_sticky(s, *function);
        },
        NodeV::ClassExpr { class, .. } => {
            law_flags_are_sticky(s, *class);
        },
        NodeV::FnDecl { function, .. } => {
            law_flags_are_sticky(s, *function);
        },
        NodeV::ClassDecl { class, .. } => {
            law_flags_are_sticky(s, *class);
        },
        _ => {},
    }
}

proof fn lemma_pat_parts_sticky(s: CollectV, n: NodeV)
    requires
        n is ObjectPat || n is Rest || n is ArrayPat || n is AssignPat || n is Other,
    ensures
        sticky(s, s.visit(n)),
    decreases n, 0nat,
{
    match n {
        NodeV::ObjectPat { props, .. } => {
            lemma_all_sticky(s, props, props.len());
        },
        NodeV::Rest { arg, .. } => {
            law_flags_are_sticky(s, *arg);
        },
        NodeV::ArrayPat { elems, .. } => {
            lemma_all_sticky(s, elems, elems.len());
        },
        NodeV::AssignPat { left, right, .. } => {
            law_flags_are_sticky(s, *left);
            law_flags_are_sticky(s.visit(*left), *right);
        },
        NodeV::Other { children, .. } => {
            lemma_all_sticky(s, children, children.len());
        },
        _ => {},
    }
}

proof fn lemma_stmt_parts_sticky(s: CollectV, n: NodeV)
    requires
        n is ExprStmt || n is VarDecl || n is Declarator || n is Return,
    ensures
        sticky(s, s.visit(n)),
    decreases n, 0nat,
{
    match n {
        NodeV::ExprStmt { expr, .. } => {
            law_flags_are_sticky(s, *expr);
        },
        NodeV::VarDecl { decls, .. } => {
            lemma_all_sticky(s, decls, decls.len());
        },
        NodeV::Declarator { name, init, .. } => {
            let s0 = s.with_in_top_level(false);
            law_flags_are_sticky(s0, *name);
            match init {
                Some(e) => {
                    lemma_declarator_import_sticky(s, *name, *e);
                    law_flags_are_sticky(s0.visit(*name), *e);
                },
                None => {},
            }
            assert(sticky(s, s.visit_declarator(n)));
        },
        NodeV::Return { span, arg } => {
            match arg {
                Some(a) => {
                    let s0 = if !s.in_function {
                        s.must_wrap().bail(span, crate::diag::BailoutReason::TopLevelReturn)
                    } else {
                        s
                    };
                    law_flags_are_sticky(s0, *a);
                },
                None => {},
            }
            assert(sticky(s, s.visit_return(n)));
        },
        _ => {},
    }
}

proof fn lemma_module_decl_sticky(s: CollectV, n: NodeV)
    requires
        n is Import || n is ExportNamed || n is ExportDefaultExpr || n is ExportDefaultDecl
            || n is ExportDecl,
    ensures
        sticky(s, s.visit(n)),
    decreases n, 0nat,
{
    match n {
        NodeV::Import { specifiers, src, .. } => {
            lemma_import_specifiers_sticky(s, src, specifiers, specifiers.len());
        },
        NodeV::ExportNamed { specifiers, .. } => {
            lemma_export_specifiers_sticky(s, specifiers, specifiers.len());
        },
        NodeV::ExportDefaultExpr { expr, .. } => {
            law_flags_are_sticky(s, *expr);
        },
        NodeV::ExportDefaultDecl { decl, .. } => {
            let s0 = match *decl {
                NodeV::ClassExpr { ident: Some(i), .. } => s.export_as(i.id(), "default"@),
                NodeV::FnExpr { ident: Some(i), .. } => s.export_as(i.id(), "default"@),
                _ => s,
            };
            law_flags_are_sticky(s0, *decl);
            assert(sticky(s, s.visit_export_default_decl(n)));
        },
        NodeV::ExportDecl { decl, .. } => {
            let s0 = match *decl {
                NodeV::ClassDecl { ident, .. } => s.export_as(ident.id(), ident.sym),
                NodeV::FnDecl { ident, .. } => s.export_as(ident.id(), ident.sym),
                NodeV::VarDecl { decls, .. } => {
                    lemma_exported_declarators_sticky(s, decls, decls.len());
                    s.visit_exported_declarators(decls, decls.len())
                },
                _ => s,
            };
            law_flags_are_sticky(s0, *decl);
            assert(sticky(s, s.visit_export_decl(n)));
        },
        _ => {},
    }
}

proof fn lemma_all_sticky(s: CollectV, ns: Seq<NodeV>, k: nat)
    ensures
        sticky(s, s.visit_all(ns, k)),
    decreases ns, k,
{
    if k > 0 && k <= ns.len() {
        lemma_all_sticky(s, ns, (k - 1) as nat);
        law_flags_are_sticky(s.visit_all(ns, (k - 1) as nat), ns[k - 1]);
    }
}

proof fn lemma_member_sticky(s: CollectV, n: NodeV)
    ensures
        sticky(s, s.visit_member(n)),
    decreases n, 0nat,
{
    match n {
        NodeV::Member { obj, prop, .. } => {
            if s.is_cjs_exports(n) {
            } else if crate::matchers::is_member_of(n, "module"@, "hot"@, s.decls)
                || crate::matchers::is_member_of(n, "module"@, "require"@, s.decls) {
            } else {
                match *obj {
                    NodeV::Member { .. } => {},
                    NodeV::Ident(_) => {},
                    NodeV::This(_) => {},
                    _ => {
                        law_flags_are_sticky(s, *obj);
                        law_flags_are_sticky(s.visit(*obj), *prop);
                    },
                }
            }
        },
        _ => {},
    }
}

proof fn lemma_call_sticky(s: CollectV, n: NodeV)
    ensures
        sticky(s, s.visit_call(n)),
    decreases n, 0nat,
{
    match n {
        NodeV::Call { span, callee, args } => {
            let s0 = s.visit_call_head(n, span);
            match *callee {
                NodeV::Ident(i) => {
                    let s1 = if i.sym == "eval"@ && !s0.declares(i) {
                        s0.must_wrap().bail(span, crate::diag::BailoutReason::Eval)
                    } else {
                        s0
                    };
                    law_flags_are_sticky(s1, *callee);
                    lemma_all_sticky(s1.visit(*callee), args, args.len());
                },
                NodeV::Member { obj, prop, computed, .. } => {
                    let source = s0.import_of(*obj);
                    if source.is_some() && static_key(*prop, computed) == Some("then"@)
                        && args.len() > 0 {
                        let src = source.unwrap();
                        let callback = arg_expr(args[0]);
                        let s1 = match first_param(callback) {
                            Some(p) => {
                                lemma_pat_imports_sticky(s0, p, src, ImportKind::DynamicImport);
                                s0.add_pat_imports(p, src, ImportKind::DynamicImport)
                            },
                            None => s0.keep_require(src).wrap_require(src).bail(
                                span,
                                crate::diag::BailoutReason::NonStaticDynamicImport,
                            ),
                        };
                        lemma_arg_expr_smaller(args, 0);
                        law_flags_are_sticky(s1, callback);
                    } else {
                        law_flags_are_sticky(s0, *callee);
                        lemma_all_sticky(s0.visit(*callee), args, args.len());
                    }
                },
                _ => {
                    law_flags_are_sticky(s0, *callee);
                    lemma_all_sticky(s0.visit(*callee), args, args.len());
                },
            }
        },
        _ => {},
    }
}

proof fn lemma_exported_declarators_sticky(s: CollectV, decls: Seq<NodeV>, k: nat)
    ensures
        sticky(s, s.visit_exported_declarators(decls, k)),
    decreases decls, k,
{
    if k > 0 && k <= decls.len() {
        lemma_exported_declarators_sticky(s, decls, (k - 1) as nat);
        let s0 = s.visit_exported_declarators(decls, (k - 1) as nat);
        match decls[k - 1] {
            NodeV::Declarator { name, init, .. } => {
                law_flags_are_sticky(s0.with_in_export_decl(true), *name);
                let s1 = s0.with_in_export_decl(true).visit(*name).with_in_export_decl(false);
                match init {
                    Some(e) => {
                        law_flags_are_sticky(s1, *e);
                    },
                    None => {},
                }
            },
            _ => {},
        }
    }
}

/// An argument without its `...` is part of the argument list.
proof fn lemma_arg_expr_smaller(args: Seq<NodeV>, i: int)
    requires
        0 <= i < args.len(),
    ensures
        decreases_to!(args => arg_expr(args[i])),
{
    match args[i] {
        NodeV::Spread { expr, .. } => {
            assert(decreases_to!(args => args[i]));
            assert(decreases_to!(args[i] => *expr));
        },
        _ => {},
    }
}

/// The same for a top-level item.
pub proof fn law_item_flags_are_sticky(s: CollectV, n: NodeV)
    ensures
        sticky(s, s.visit_item(n)),
{
    let s0 = if crate::facts::is_module_decl(n) {
        s.esm()
    } else {
        s
    };
    law_flags_are_sticky(s0.with_in_top_level(false), n);
    match n {
        NodeV::VarDecl { decls, .. } => lemma_all_sticky(s, decls, decls.len()),
        _ => {},
    }
}

proof fn lemma_items_sticky(s: CollectV, ns: Seq<NodeV>, k: nat)
    ensures
        sticky(s, s.visit_items(ns, k)),
    decreases k,
{
    if k > 0 && k <= ns.len() {
        lemma_items_sticky(s, ns, (k - 1) as nat);
        law_item_flags_are_sticky(s.visit_items(ns, (k - 1) as nat), ns[k - 1]);
    }
}

/// The same for a whole module: what the analysis reports at the end is
/// at least as conservative as what it started from.
pub proof fn law_module_flags_are_sticky(s: CollectV, m: ModuleV)
    ensures
        sticky(s, s.visit_module(m)),
{
    let s0 = s.with_in_module_this(true).with_in_top_level(true).with_in_function(false);
    lemma_items_sticky(s0, m.body, m.body.len());
}

/// The name that stands for an import depends on the module id, the
/// specifier and the key alone: not on what was rewritten before.
pub proof fn law_import_names_are_stateless(
    a: HoistV,
    b: HoistV,
    span: Span,
    source: Seq<char>,
    key: Seq<char>,
    loc: Span,
)
    requires
        a.module_id == b.module_id,
    ensures
        a.import_ident(span, source, key, loc).1 == b.import_ident(span, source, key, loc).1,
        a.import_ident(span, source, key, loc).1.sym == crate::text::import_name(
            a.module_id,
            source,
            key,
        ),
{
}

/// The name that stands for an export depends on the module id and the
/// exported name alone.
pub proof fn law_export_names_are_stateless(a: HoistV, b: HoistV, span: Span, exported: Seq<char>)
    requires
        a.module_id == b.module_id,
    ensures
        a.export_ident(span, exported).1 == b.export_ident(span, exported).1,
        a.export_ident(span, exported).1.sym == crate::text::export_name(a.module_id, exported),
{
}

/// `b` starts with the items that `a` has put out, belongs to the same
/// module and holds the same diagnostics.
pub open spec fn extends(a: HoistV, b: HoistV) -> bool {
    &&& a.module_id == b.module_id
    &&& a.diagnostics == b.diagnostics
    &&& a.module_items.len() <= b.module_items.len()
    &&& forall|i: int| 0 <= i < a.module_items.len() ==> b.module_items[i] == a.module_items[i]
}

/// The items that `after` has put out since `before`.
pub open spec fn added(before: HoistV, after: HoistV) -> Seq<NodeV> {
    after.module_items.skip(before.module_items.len() as int)
}

/// What a statement is made of when it comes to order: a variable
/// statement is its declarators, any other item is itself.
pub open spec fn units_of(item: NodeV) -> Seq<NodeV> {
    match item {
        NodeV::VarDecl { decls, .. } => decls,
        _ => seq![item],
    }
}

/// The declarators and other items of a list of statements, one after the
/// other.
pub open spec fn units(items: Seq<NodeV>) -> Seq<NodeV>
    decreases items.len(),
{
    if items.len() == 0 {
        Seq::empty()
    } else {
        units(items.drop_last()) + units_of(items.last())
    }
}

proof fn lemma_units_push(items: Seq<NodeV>, x: NodeV)
    ensures
        units(items.push(x)) == units(items) + units_of(x),
{
    assert(items.push(x).drop_last() =~= items);
}

proof fn lemma_units_add(a: Seq<NodeV>, b: Seq<NodeV>)
    ensures
        units(a + b) == units(a) + units(b),
    decreases b.len(),
{
    if b.len() == 0 {
        assert(a + b =~= a);
        assert(units(a) + units(b) =~= units(a));
    } else {
        lemma_units_add(a, b.drop_last());
        assert((a + b).drop_last() =~= a + b.drop_last());
        assert((a + b).last() == b.last());
        assert(units(a) + units(b.drop_last()) + units_of(b.last()) =~= units(a) + (units(
            b.drop_last(),
        ) + units_of(b.last())));
    }
}

proof fn lemma_extends_split(a: HoistV, b: HoistV)
    requires
        extends(a, b),
    ensures
        b.module_items == a.module_items + added(a, b),
        units(b.module_items) == units(a.module_items) + units(added(a, b)),
{
    assert(b.module_items =~= a.module_items + added(a, b));
    lemma_units_add(a.module_items, added(a, b));
}

proof fn lemma_added_chain(a: HoistV, b: HoistV, c: HoistV)
    requires
        extends(a, b),
        extends(b, c),
    ensures
        extends(a, c),
        added(a, c) == added(a, b) + added(b, c),
{
    assert(added(a, c) =~= added(a, b) + added(b, c));
}

proof fn lemma_fold_all_extends(h: HoistV, c: CollectV, ns: Seq<NodeV>, k: nat)
    ensures
        extends(h, h.fold_all(c, ns, k).0),
    decreases ns, k,
{
    if k > 0 && k <= ns.len() {
        lemma_fold_all_extends(h, c, ns, (k - 1) as nat);
        lemma_fold_extends(h.fold_all(c, ns, (k - 1) as nat).0, c, ns[k - 1]);
    }
}

proof fn lemma_fold_sequence_extends(h: HoistV, c: CollectV, ns: Seq<NodeV>, k: nat)
    ensures
        extends(h, h.fold_sequence(c, ns, k).0),
    decreases ns, k,
{
    if k > 0 && k <= ns.len() {
        lemma_fold_sequence_extends(h, c, ns, (k - 1) as nat);
        lemma_fold_extends(h.fold_sequence(c, ns, (k - 1) as nat).0, c, ns[k - 1]);
    }
}

proof fn lemma_fold_ident_extends(h: HoistV, c: CollectV, i: IdentV)
    ensures
        extends(h, h.fold_ident(c, i).0),
        extends(h, h.fold_opt_ident(c, Some(i)).0),
        extends(h, h.fold_opt_ident(c, None).0),
        extends(h, h.fold_shorthand(c, i).0),
{
    assert(extends(h, h.note_dynamic_use(c, i)));
    assert(extends(h.note_dynamic_use(c, i), h.note_dynamic_use(c, i).fold_plain_ident(c, i).0));
    assert(extends(h, h.fold_plain_ident(c, i).0));
}

/// Rewriting a node only ever adds items behind those that are there.
proof fn lemma_fold_extends(h: HoistV, c: CollectV, n: NodeV)
    ensures
        extends(h, h.fold(c, n).0),
    decreases n, 1nat,
{
    match n {
        NodeV::Ident(i) => lemma_fold_ident_extends(h, c, i),
        NodeV::BindingIdent(i) => lemma_fold_ident_extends(h, c, i),
        NodeV::Name(i) => lemma_fold_ident_extends(h, c, i),
        NodeV::Shorthand(i) => lemma_fold_ident_extends(h, c, i),
        NodeV::This(span) => {
            assert(extends(h, h.fold_this(c, span).0));
        },
        NodeV::Member { .. } => lemma_fold_member_extends(h, c, n),
        NodeV::Call { .. } => lemma_fold_call_extends(h, c, n),
        NodeV::Unary { .. } => lemma_fold_expr_extends(h, c, n),
        NodeV::Spread { .. } => lemma_fold_expr_extends(h, c, n),
        NodeV::Sequence { .. } => lemma_fold_expr_extends(h, c, n),
        NodeV::Await { .. } => lemma_fold_expr_extends(h, c, n),
        NodeV::KeyValue { .. } => lemma_fold_expr_extends(h, c, n),
        NodeV::Computed { .. } => lemma_fold_expr_extends(h, c, n),
        NodeV::Assign { .. } => lemma_fold_assign_extends(h, c, n),
        NodeV::Arrow { .. } => lemma_fold_scope_extends(h, c, n),
        NodeV::Function { .. } => lemma_fold_scope_extends(h, c, n),
        NodeV::Scope { .. } => lemma_fold_scope_extends(h, c, n),
        NodeV::FnExpr { .. } => lemma_fold_scope_extends(h, c, n),
        NodeV::ClassExpr { .. } => lemma_fold_scope_extends(h, c, n),
        NodeV::FnDecl { .. } => lemma_fold_scope_extends(h, c, n),
        NodeV::ClassDecl { .. } => lemma_fold_scope_extends(h, c, n),
        NodeV::ObjectPat { .. } => lemma_fold_pat_extends(h, c, n),
        NodeV::AssignPatProp { .. } => lemma_fold_pat_extends(h, c, n),
        NodeV::Rest { .. } => lemma_fold_pat_extends(h, c, n),
        NodeV::ArrayPat { .. } => lemma_fold_pat_extends(h, c, n),
        NodeV::AssignPat { .. } => lemma_fold_pat_extends(h, c, n),
        NodeV::Other { .. } => lemma_fold_pat_extends(h, c, n),
        NodeV::ExprStmt { .. } => lemma_fold_stmt_extends(h, c, n),
        NodeV::VarDecl { .. } => lemma_fold_stmt_extends(h, c, n),
        NodeV::Declarator { .. } => lemma_fold_stmt_extends(h, c, n),
        NodeV::Return { .. } => lemma_fold_stmt_extends(h, c, n),
        NodeV::ExportDefaultExpr { .. } => lemma_fold_stmt_extends(h, c, n),
        NodeV::ExportDefaultDecl { .. } => lemma_fold_stmt_extends(h, c, n),
        NodeV::ExportDecl { .. } => lemma_fold_stmt_extends(h, c, n),
        _ => {},
    }
}

proof fn lemma_fold_member_extends(h: HoistV, c: CollectV, n: NodeV)
    requires
        n is Member,
    ensures
        extends(h, h.fold(c, n).0),
    decreases n, 0nat,
{
    match n {
        NodeV::Member { obj, prop, computed, .. } => {
            assert(extends(h, h.member_note(c, n)));
            match h.member_rewrite(c, n) {
                Some(r) => {
                    assert(extends(h, r.0));
                },
                None => match static_key(*prop, computed) {
                    None => {
                        lemma_fold_extends(h, c, *obj);
                        lemma_fold_extends(h.fold(c, *obj).0, c, *prop);
                    },
                    Some(_) => {
                        lemma_fold_extends(h.member_note(c, n), c, *obj);
                    },
                },
            }
            assert(extends(h, h.fold_member(c, n).0));
        },
        _ => {},
    }
}

proof fn lemma_fold_call_extends(h: HoistV, c: CollectV, n: NodeV)
    requires
        n is Call,
    ensures
        extends(h, h.fold(c, n).0),
    decreases n, 0nat,
{
    match n {
        NodeV::Call { callee, args, .. } => {
            match h.call_rewrite(c, n) {
                Some(r) => {
                    assert(extends(h, r.0));
                },
                None => {
                    lemma_fold_extends(h, c, *callee);
                    lemma_fold_all_extends(h.fold(c, *callee).0, c, args, args.len());
                },
            }
            assert(extends(h, h.fold_call(c, n).0));
        },
        _ => {},
    }
}

proof fn lemma_fold_expr_extends(h: HoistV, c: CollectV, n: NodeV)
    requires
        n is Unary || n is Spread || n is Sequence || n is Await || n is KeyValue || n is Computed,
    ensures
        extends(h, h.fold(c, n).0),
    decreases n, 0nat,
{
    match n {
        NodeV::Unary { arg, .. } => {
            lemma_fold_extends(h, c, *arg);
            assert(extends(h, h.fold_unary(c, n).0));
        },
        NodeV::Spread { expr, .. } => {
            lemma_fold_extends(h, c, *expr);
        },
        NodeV::Sequence { exprs, .. } => {
            lemma_fold_sequence_extends(h, c, exprs, exprs.len());
        },
        NodeV::Await { arg, .. } => {
            lemma_fold_extends(h, c, *arg);
        },
        NodeV::KeyValue { key, value } => {
            lemma_fold_extends(h, c, *key);
            lemma_fold_extends(h.fold(c, *key).0, c, *value);
        },
        NodeV::Computed { expr, .. } => {
            lemma_fold_extends(h, c, *expr);
        },
        _ => {},
    }
}

proof fn lemma_fold_assign_extends(h: HoistV, c: CollectV, n: NodeV)
    requires
        n is Assign,
    ensures
        extends(h, h.fold(c, n).0),
    decreases n, 0nat,
{
    match n {
        NodeV::Assign { left, right, .. } => {
            if !c.should_wrap && c.is_cjs_exports(*left) {
                match *left {
                    NodeV::Member { span: mspan, .. } => {
                        lemma_fold_extends(h.export_ident(mspan, crate::text::star()).0, c, *right);
                    },
                    _ => {},
                }
            } else if !c.should_wrap && HoistV::assigns_export(c, *left) {
                match *left {
                    NodeV::Member { span: mspan, prop, computed, .. } => {
                        let key = static_key(*prop, computed);
                        if c.static_cjs_exports && key.is_some() {
                            let (h1, i) = h.export_ident(mspan, key.unwrap());
                            lemma_fold_extends(h1.add_export_decl(i.sym), c, *right);
                        } else {
                            let (h1, i) = h.export_ident(mspan, crate::text::star());
                            lemma_fold_extends(h1, c, *prop);
                            lemma_fold_extends(h1.fold(c, *prop).0, c, *right);
                        }
                    },
                    _ => {},
                }
            } else {
                lemma_fold_extends(h, c, *left);
                lemma_fold_extends(h.fold(c, *left).0, c, *right);
            }
            assert(extends(h, h.fold_assign(c, n).0));
        },
        _ => {},
    }
}

proof fn lemma_fold_scope_extends(h: HoistV, c: CollectV, n: NodeV)
    requires
        n is Arrow || n is Function || n is Scope || n is FnExpr || n is ClassExpr || n is FnDecl
            || n is ClassDecl,
    ensures
        extends(h, h.fold(c, n).0),
    decreases n, 0nat,
{
    let inner = h.with_in_function_scope(true);
    match n {
        NodeV::Arrow { params, body, .. } => {
            lemma_fold_all_extends(h, c, params, params.len());
            lemma_fold_extends(h.fold_all(c, params, params.len()).0, c, *body);
        },
        NodeV::Function { params, body, .. } => {
            lemma_fold_all_extends(inner, c, params, params.len());
            lemma_fold_all_extends(inner.fold_all(c, params, params.len()).0, c, body, body.len());
            assert(extends(h, h.fold_function(c, n).0));
        },
        NodeV::Scope { children, .. } => {
            lemma_fold_all_extends(inner, c, children, children.len());
            assert(extends(h, h.fold_function(c, n).0));
        },
        NodeV::FnExpr { ident, function } => {
            match ident {
                Some(i) => lemma_fold_ident_extends(h, c, i),
                None => {},
            }
            lemma_fold_extends(h.fold_opt_ident(c, ident).0, c, *function);
        },
        NodeV::ClassExpr { ident, class } => {
            match ident {
                Some(i) => lemma_fold_ident_extends(h, c, i),
                None => {},
            }
            lemma_fold_extends(h.fold_opt_ident(c, ident).0, c, *class);
        },
        NodeV::FnDecl { ident, function, .. } => {
            lemma_fold_ident_extends(h, c, ident);
            lemma_fold_extends(h.fold_ident(c, ident).0, c, *function);
        },
        NodeV::ClassDecl { ident, class, .. } => {
            lemma_fold_ident_extends(h, c, ident);
            lemma_fold_extends(h.fold_ident(c, ident).0, c, *class);
        },
        _ => {},
    }
}

proof fn lemma_fold_pat_extends(h: HoistV, c: CollectV, n: NodeV)
    requires
        n is ObjectPat || n is AssignPatProp || n is Rest || n is ArrayPat || n is AssignPat
            || n is Other,
    ensures
        extends(h, h.fold(c, n).0),
    decreases n, 0nat,
{
    match n {
        NodeV::ObjectPat { props, .. } => {
            lemma_fold_all_extends(h, c, props, props.len());
        },
        NodeV::AssignPatProp { key, value, .. } => {
            lemma_fold_ident_extends(h, c, key);
            match value {
                Some(v) => {
                    lemma_fold_extends(h.fold_ident(c, key).0, c, *v);
                },
                None => {},
            }
            assert(extends(h, h.fold_assign_pat_prop(c, n).0));
        },
        NodeV::Rest { arg, .. } => {
            lemma_fold_extends(h, c, *arg);
        },
        NodeV::ArrayPat { elems, .. } => {
            lemma_fold_all_extends(h, c, elems, elems.len());
        },
        NodeV::AssignPat { left, right, .. } => {
            lemma_fold_extends(h, c, *left);
            lemma_fold_extends(h.fold(c, *left).0, c, *right);
        },
        NodeV::Other { children, .. } => {
            lemma_fold_all_extends(h, c, children, children.len());
        },
        _ => {},
    }
}

proof fn lemma_fold_stmt_extends(h: HoistV, c: CollectV, n: NodeV)
    requires
        n is ExprStmt || n is VarDecl || n is Declarator || n is Return || n is ExportDefaultExpr
            || n is ExportDefaultDecl || n is ExportDecl,
    ensures
        extends(h, h.fold(c, n).0),
    decreases n, 0nat,
{
    match n {
        NodeV::ExprStmt { expr, .. } => {
            lemma_fold_extends(h, c, *expr);
        },
        NodeV::VarDecl { decls, .. } => {
            lemma_fold_all_extends(h, c, decls, decls.len());
        },
        NodeV::Declarator { name, init, .. } => {
            lemma_fold_extends(h, c, *name);
            match init {
                Some(e) => {
                    lemma_fold_extends(h.fold(c, *name).0, c, *e);
                },
                None => {},
            }
        },
        NodeV::Return { arg, .. } => match arg {
            Some(a) => {
                lemma_fold_extends(h, c, *a);
            },
            None => {},
        },
        NodeV::ExportDefaultExpr { expr, .. } => {
            lemma_fold_extends(h, c, *expr);
        },
        NodeV::ExportDefaultDecl { decl, .. } => {
            lemma_fold_extends(h, c, *decl);
        },
        NodeV::ExportDecl { decl, .. } => {
            lemma_fold_extends(h, c, *decl);
        },
        _ => {},
    }
}

/// What the stand-ins for reassigned bindings add does not depend on what
/// was put out before.
proof fn lemma_stand_ins_frame(
    a: HoistV,
    b: HoistV,
    c: CollectV,
    idents: Seq<IdentV>,
    k: nat,
    span: Span,
    source: Seq<char>,
)
    requires
        a.module_id == b.module_id,
    ensures
        extends(a, a.add_stand_ins(c, idents, k, span, source)),
        extends(b, b.add_stand_ins(c, idents, k, span, source)),
        a.add_stand_ins(c, idents, k, span, source).export_decls == a.export_decls,
        added(a, a.add_stand_ins(c, idents, k, span, source)) == added(
            b,
            b.add_stand_ins(c, idents, k, span, source),
        ),
    decreases k,
{
    if k > 0 && k <= idents.len() {
        lemma_stand_ins_frame(a, b, c, idents, (k - 1) as nat, span, source);
        let a1 = a.add_stand_ins(c, idents, (k - 1) as nat, span, source);
        let b1 = b.add_stand_ins(c, idents, (k - 1) as nat, span, source);
        let a2 = a.add_stand_ins(c, idents, k, span, source);
        let b2 = b.add_stand_ins(c, idents, k, span, source);
        assert(added(a, a2) =~= added(b, b2)) by {
            assert(added(a, a1) == added(b, b1));
            assert(added(a, a1).len() == added(b, b1).len());
            assert forall|i: int| 0 <= i < added(a, a2).len() implies added(a, a2)[i] == added(
                b,
                b2,
            )[i] by {
                if i < added(a, a1).len() {
                    assert(added(a, a2)[i] == added(a, a1)[i]);
                    assert(added(b, b2)[i] == added(b, b1)[i]);
                }
            }
        }
    } else {
        assert(added(a, a) =~= added(b, b));
    }
}

/// What one declarator of a top-level variable statement contributes, in
/// order: what replaced it, where it required a module; else what its
/// rewriting put out, and then the rewritten declarator.
pub open spec fn declarator_units(h: HoistV, c: CollectV, v: NodeV) -> Seq<NodeV> {
    let source = match v {
        NodeV::Declarator { init, .. } => hoistable_source(c, init),
        _ => None,
    };
    match (v, source) {
        (NodeV::Declarator { span: vspan, name, .. }, Some(src)) => units(
            added(h, h.add_require(src).handle_non_const_require(c, *name, vspan, src)),
        ),
        _ => units(added(h, h.fold(c, v).0)) + seq![h.fold(c, v).1],
    }
}

/// What the first `k` declarators contribute, one after the other in the
/// order of the source.
pub open spec fn declarators_units(
    h: HoistV,
    c: CollectV,
    decls: Seq<NodeV>,
    k: nat,
    span: Span,
    kind: VarKind,
    declare: bool,
) -> Seq<NodeV>
    decreases k,
{
    if k == 0 || k > decls.len() {
        Seq::empty()
    } else {
        declarators_units(h, c, decls, (k - 1) as nat, span, kind, declare) + declarator_units(
            h.fold_top_declarators(c, decls, (k - 1) as nat, span, kind, declare).0,
            c,
            decls[k - 1],
        )
    }
}

proof fn lemma_flush_units(h: HoistV, pending: Seq<NodeV>, span: Span, kind: VarKind, declare: bool)
    ensures
        units(h.flush(pending, span, kind, declare).module_items) == units(h.module_items)
            + pending,
        h.flush(pending, span, kind, declare).module_id == h.module_id,
{
    if pending.len() > 0 {
        lemma_units_push(h.module_items, NodeV::VarDecl { span, kind, declare, decls: pending });
    } else {
        assert(units(h.module_items) + pending =~= units(h.module_items));
    }
}

proof fn lemma_top_declarator_order(
    h: HoistV,
    c: CollectV,
    pending: Seq<NodeV>,
    v: NodeV,
    span: Span,
    kind: VarKind,
    declare: bool,
)
    ensures
        ({
            let (h2, p2) = h.fold_top_declarator(c, pending, v, span, kind, declare);
            units(h2.module_items) + p2 == units(h.module_items) + pending + declarator_units(
                h,
                c,
                v,
            )
        }),
{
    let (h2, p2) = h.fold_top_declarator(c, pending, v, span, kind, declare);
    let source = match v {
        NodeV::Declarator { init, .. } => hoistable_source(c, init),
        _ => None,
    };
    match (v, source) {
        (NodeV::Declarator { span: vspan, name, .. }, Some(src)) => {
            let f = h.flush(pending, span, kind, declare);
            lemma_flush_units(h, pending, span, kind, declare);
            let idents = crate::rewrite::non_const_idents(c, *name, Seq::empty());
            let fa = f.add_require(src);
            let ha = h.add_require(src);
            lemma_stand_ins_frame(fa, ha, c, idents, idents.len(), vspan, src);
            let f2 = fa.add_stand_ins(c, idents, idents.len(), vspan, src);
            let g2 = ha.add_stand_ins(c, idents, idents.len(), vspan, src);
            assert(extends(f, fa));
            assert(extends(h, ha));
            lemma_added_chain(f, fa, f2);
            lemma_added_chain(h, ha, g2);
            assert(added(f, fa) =~= added(h, ha));
            lemma_extends_split(f, f2);
            assert(units(h2.module_items) + p2 =~= units(h.module_items) + pending
                + declarator_units(h, c, v));
        },
        _ => {
            let (h1, d) = h.fold(c, v);
            lemma_fold_extends(h, c, v);
            lemma_extends_split(h, h1);
            let len = h.module_items.len() as int;
            if h1.module_items.len() > h.module_items.len() && pending.len() > 0 {
                let stmt = NodeV::VarDecl { span, kind, declare, decls: pending };
                assert(h1.module_items.insert(len, stmt) =~= h.module_items.push(stmt) + added(
                    h,
                    h1,
                ));
                lemma_units_add(h.module_items.push(stmt), added(h, h1));
                lemma_units_push(h.module_items, stmt);
                assert(units(h2.module_items) + p2 =~= units(h.module_items) + pending
                    + declarator_units(h, c, v));
            } else {
                if pending.len() > 0 {
                    assert(added(h, h1) =~= Seq::<NodeV>::empty());
                }
                assert(units(h2.module_items) + p2 =~= units(h.module_items) + pending
                    + declarator_units(h, c, v));
            }
        },
    }
}

proof fn lemma_top_declarators_order(
    h: HoistV,
    c: CollectV,
    decls: Seq<NodeV>,
    k: nat,
    span: Span,
    kind: VarKind,
    declare: bool,
)
    ensures
        ({
            let (h2, p2) = h.fold_top_declarators(c, decls, k, span, kind, declare);
            units(h2.module_items) + p2 == units(h.module_items) + declarators_units(
                h,
                c,
                decls,
                k,
                span,
                kind,
                declare,
            )
        }),
    decreases k,
{
    if k == 0 || k > decls.len() {
        assert(units(h.module_items) + Seq::<NodeV>::empty() =~= units(h.module_items));
    } else {
        lemma_top_declarators_order(h, c, decls, (k - 1) as nat, span, kind, declare);
        let (h1, p1) = h.fold_top_declarators(c, decls, (k - 1) as nat, span, kind, declare);
        lemma_top_declarator_order(h1, c, p1, decls[k - 1], span, kind, declare);
        let (h2, p2) = h.fold_top_declarators(c, decls, k, span, kind, declare);
        let before = declarators_units(h, c, decls, (k - 1) as nat, span, kind, declare);
        let step = declarator_units(h1, c, decls[k - 1]);
        assert(units(h2.module_items) + p2 == units(h1.module_items) + p1 + step);
        assert(units(h.module_items) + before + step =~= units(h.module_items) + (before + step));
    }
}

/// Splitting a top-level variable statement keeps the order of what it
/// does. Taken declarator by declarator, what the rewrite puts out for
/// the statement is what was there before, followed by the contribution
/// of each declarator in the order of the source: whatever its rewriting
/// hoisted stands before the declarator itself and behind every
/// declarator before it.
pub proof fn law_declarators_keep_order(h: HoistV, c: CollectV, hoisted: Seq<NodeV>, n: NodeV)
    requires
        n is VarDecl,
    ensures
        ({
            let (h2, hoisted2) = h.fold_item(c, hoisted, n);
            &&& hoisted2 == hoisted
            &&& match n {
                NodeV::VarDecl { span, kind, declare, decls } => units(h2.module_items) == units(
                    h.module_items,
                ) + declarators_units(h, c, decls, decls.len(), span, kind, declare),
                _ => true,
            }
        }),
{
    match n {
        NodeV::VarDecl { span, kind, declare, decls } => {
            lemma_top_declarators_order(h, c, decls, decls.len(), span, kind, declare);
            let (h1, p1) = h.fold_top_declarators(c, decls, decls.len(), span, kind, declare);
            lemma_flush_units(h1, p1, span, kind, declare);
        },
        _ => {},
    }
}

/// A `return` outside every function makes the module one that must be
/// wrapped.
pub proof fn law_top_level_return_wraps(s: CollectV, n: NodeV)
    requires
        n is Return,
        !s.in_function,
    ensures
        s.visit(n).should_wrap,
{
    match n {
        NodeV::Return { span, arg } => {
            let s0 = s.must_wrap().bail(span, crate::diag::BailoutReason::TopLevelReturn);
            match arg {
                Some(a) => {
                    law_flags_are_sticky(s0, *a);
                },
                None => {},
            }
            assert(s.visit(n) == s.visit_return(n));
        },
        _ => {},
    }
}

/// A known key read through a namespace that is only ever accessed
/// statically becomes the import name of that key. The name is the same
/// whether the namespace came from `import * as m` or from `require`.
pub proof fn law_static_namespace_access(h: HoistV, c: CollectV, n: NodeV)
    requires
        !(!c.should_wrap && (c.is_cjs_exports(n) || is_member_of(n, "module"@, "hot"@, c.decls))),
        match n {
            NodeV::Member { obj, prop, computed, .. } => match *obj {
                NodeV::Ident(i) => static_key(*prop, computed).is_some() && static_namespace(
                    c,
                    i,
                ).is_some() && static_namespace(c, i).unwrap().kind != ImportKind::DynamicImport,
                _ => false,
            },
            _ => false,
        },
    ensures
        match n {
            NodeV::Member { span, obj, prop, computed } => match *obj {
                NodeV::Ident(i) => h.fold(c, n).1 == NodeV::Ident(
                    IdentV {
                        sym: import_name(
                            h.module_id,
                            static_namespace(c, i).unwrap().source,
                            static_key(*prop, computed).unwrap(),
                        ),
                        span,
                    },
                ),
                _ => true,
            },
            _ => true,
        },
{
    assert(h.fold(c, n) == h.fold_member(c, n));
    assert(h.member_rewrite(c, n).is_some());
}

/// An identifier whose import is static and never reassigned becomes the
/// import name of what it imports: for a namespace, the one name of the
/// whole namespace.
pub proof fn law_import_identifier_name(h: HoistV, c: CollectV, i: IdentV)
    requires
        static_import(c, i).is_some(),
        static_import(c, i).unwrap().kind != ImportKind::DynamicImport,
        !has_key(c.non_const_bindings, i.id()),
    ensures
        h.fold_ident(c, i).1 == (IdentV {
            sym: import_name(
                h.module_id,
                static_import(c, i).unwrap().source,
                static_import(c, i).unwrap().specifier,
            ),
            span: i.span,
        }),
        h.fold_ident(c, i).0 == h.add_imported(
            crate::summary::ImportedSymbolV {
                source: static_import(c, i).unwrap().source,
                local: import_name(
                    h.module_id,
                    static_import(c, i).unwrap().source,
                    static_import(c, i).unwrap().specifier,
                ),
                imported: static_import(c, i).unwrap().specifier,
                loc: static_import(c, i).unwrap().loc,
            },
        ),
{
}

/// Two runs give the same name to the same import. Whatever the two
/// modules hold besides and in whatever order their imports and their
/// uses stand, an identifier that stands for the key `k` of the module
/// `x` is replaced by the same name in both, and recorded under it.
pub proof fn law_names_do_not_depend_on_the_run(
    a: HoistV,
    ca: CollectV,
    ia: IdentV,
    b: HoistV,
    cb: CollectV,
    ib: IdentV,
)
    requires
        a.module_id == b.module_id,
        static_import(ca, ia).is_some(),
        static_import(cb, ib).is_some(),
        static_import(ca, ia).unwrap().kind != ImportKind::DynamicImport,
        static_import(cb, ib).unwrap().kind != ImportKind::DynamicImport,
        !has_key(ca.non_const_bindings, ia.id()),
        !has_key(cb.non_const_bindings, ib.id()),
        static_import(ca, ia).unwrap().source == static_import(cb, ib).unwrap().source,
        static_import(ca, ia).unwrap().specifier == static_import(cb, ib).unwrap().specifier,
    ensures
        a.fold_ident(ca, ia).1.sym == b.fold_ident(cb, ib).1.sym,
        a.fold_ident(ca, ia).0.imported_symbols.last().local == b.fold_ident(
            cb,
            ib,
        ).0.imported_symbols.last().local,
{
    law_import_identifier_name(a, ca, ia);
    law_import_identifier_name(b, cb, ib);
}

/// Rewriting a node changes neither the module id, nor the diagnostics,
/// nor the items that were put out before it: it only adds items behind
/// them.
pub proof fn law_rewrite_only_adds_items(h: HoistV, c: CollectV, n: NodeV)
    ensures
        extends(h, h.fold(c, n).0),
{
    lemma_fold_extends(h, c, n);
}

/// A namespace that is accessed non-statically somewhere is kept: a
/// member access through it stays a member access, on the one name of the
/// namespace.
pub proof fn law_non_static_access_keeps_namespace(h: HoistV, c: CollectV, n: NodeV)
    requires
        !(!c.should_wrap && (c.is_cjs_exports(n) || is_member_of(n, "module"@, "hot"@, c.decls))),
        match n {
            NodeV::Member { obj, .. } => match *obj {
                NodeV::Ident(i) => has_key(c.non_static_access, i.id()) && static_import(
                    c,
                    i,
                ).is_some() && static_import(c, i).unwrap().kind != ImportKind::DynamicImport
                    && !has_key(c.non_const_bindings, i.id()) && !(i.sym == "exports"@
                    && !c.declares(i)),
                _ => false,
            },
            _ => false,
        },
    ensures
        match (n, h.fold(c, n).1) {
            (NodeV::Member { obj, .. }, NodeV::Member { obj: o, .. }) => match *obj {
                NodeV::Ident(i) => *o == NodeV::Ident(
                    IdentV {
                        sym: import_name(
                            h.module_id,
                            static_import(c, i).unwrap().source,
                            static_import(c, i).unwrap().specifier,
                        ),
                        span: i.span,
                    },
                ),
                _ => true,
            },
            _ => false,
        },
{
    match n {
        NodeV::Member { obj, prop, computed, .. } => match *obj {
            NodeV::Ident(i) => {
                assert(h.fold(c, n) == h.fold_member(c, n));
                assert(static_namespace(c, i).is_none());
                assert(h.member_rewrite(c, n).is_none());
                assert(h.member_note(c, n) == h);
                law_import_identifier_name(h, c, i);
                assert(h.fold(c, *obj).1 == NodeV::Ident(h.fold_ident(c, i).1));
            },
            _ => {},
        },
        _ => {},
    }
}

/// Whether one of the first `k` bindings of an import declaration is
/// assigned to somewhere in the module.
pub open spec fn any_assigned(c: CollectV, sps: Seq<ImportSpecifierV>, k: nat) -> bool
    decreases k,
{
    if k == 0 || k > sps.len() {
        false
    } else {
        any_assigned(c, sps, (k - 1) as nat) || has_key(c.non_const_bindings, sps[k - 1].local.id())
    }
}

/// Whether `n` is an import declaration one of whose bindings is
/// assigned to somewhere in the module.
pub open spec fn assigns_import(c: CollectV, n: NodeV) -> bool {
    match n {
        NodeV::Import { specifiers, .. } => any_assigned(c, specifiers, specifiers.len()),
        _ => false,
    }
}

/// Whether one of the first `k` items is such an import declaration.
pub open spec fn any_assigned_import(c: CollectV, items: Seq<NodeV>, k: nat) -> bool
    decreases k,
{
    if k == 0 || k > items.len() {
        false
    } else {
        any_assigned_import(c, items, (k - 1) as nat) || assigns_import(c, items[k - 1])
    }
}

proof fn lemma_any_assigned(c: CollectV, sps: Seq<ImportSpecifierV>, k: nat, j: int)
    requires
        0 <= j < k <= sps.len(),
        has_key(c.non_const_bindings, sps[j].local.id()),
    ensures
        any_assigned(c, sps, k),
    decreases k,
{
    if j < k - 1 {
        lemma_any_assigned(c, sps, (k - 1) as nat, j);
    }
}

proof fn lemma_checked_specifiers(h: HoistV, c: CollectV, sps: Seq<ImportSpecifierV>, k: nat)
    requires
        k <= sps.len(),
    ensures
        h.check_import_specifiers(c, sps, k).export_decls == h.export_decls,
        h.check_import_specifiers(c, sps, k).diagnostics.len() >= h.diagnostics.len(),
        any_assigned(c, sps, k) <==> h.check_import_specifiers(c, sps, k).diagnostics.len()
            > h.diagnostics.len(),
        !any_assigned(c, sps, k) ==> h.check_import_specifiers(c, sps, k).diagnostics
            == h.diagnostics,
    decreases k,
{
    if k > 0 {
        lemma_checked_specifiers(h, c, sps, (k - 1) as nat);
    }
}

proof fn lemma_re_export_specifiers_frame(
    h: HoistV,
    src: Seq<char>,
    sps: Seq<ExportSpecifierV>,
    k: nat,
)
    ensures
        h.re_export_specifiers(src, sps, k).diagnostics == h.diagnostics,
        h.re_export_specifiers(src, sps, k).export_decls == h.export_decls,
    decreases k,
{
    if k > 0 && k <= sps.len() {
        lemma_re_export_specifiers_frame(h, src, sps, (k - 1) as nat);
    }
}

proof fn lemma_export_specifiers_frame(h: HoistV, c: CollectV, sps: Seq<ExportSpecifierV>, k: nat)
    ensures
        h.export_specifiers(c, sps, k).diagnostics == h.diagnostics,
        h.export_specifiers(c, sps, k).export_decls == h.export_decls,
    decreases k,
{
    if k > 0 && k <= sps.len() {
        lemma_export_specifiers_frame(h, c, sps, (k - 1) as nat);
    }
}

proof fn lemma_top_declarator_frame(
    h: HoistV,
    c: CollectV,
    pending: Seq<NodeV>,
    v: NodeV,
    span: Span,
    kind: VarKind,
    declare: bool,
)
    ensures
        h.fold_top_declarator(c, pending, v, span, kind, declare).0.diagnostics == h.diagnostics,
        h.fold_top_declarator(c, pending, v, span, kind, declare).0.module_id == h.module_id,
        !holds_assignment(v) ==> h.fold_top_declarator(
            c,
            pending,
            v,
            span,
            kind,
            declare,
        ).0.export_decls == h.export_decls,
{
    let source = match v {
        NodeV::Declarator { init, .. } => hoistable_source(c, init),
        _ => None,
    };
    match (v, source) {
        (NodeV::Declarator { span: vspan, name, .. }, Some(src)) => {
            let fa = h.flush(pending, span, kind, declare).add_require(src);
            let idents = crate::rewrite::non_const_idents(c, *name, Seq::empty());
            lemma_stand_ins_frame(fa, fa, c, idents, idents.len(), vspan, src);
        },
        _ => {
            lemma_fold_extends(h, c, v);
            if !holds_assignment(v) {
                lemma_fold_keeps_exports(h, c, v);
            }
        },
    }
}

proof fn lemma_top_declarators_frame(
    h: HoistV,
    c: CollectV,
    decls: Seq<NodeV>,
    k: nat,
    span: Span,
    kind: VarKind,
    declare: bool,
)
    ensures
        h.fold_top_declarators(c, decls, k, span, kind, declare).0.diagnostics == h.diagnostics,
        h.fold_top_declarators(c, decls, k, span, kind, declare).0.module_id == h.module_id,
        !any_holds_assignment(decls, k) ==> h.fold_top_declarators(
            c,
            decls,
            k,
            span,
            kind,
            declare,
        ).0.export_decls == h.export_decls,
    decreases k,
{
    if k > 0 && k <= decls.len() {
        lemma_top_declarators_frame(h, c, decls, (k - 1) as nat, span, kind, declare);
        let (h1, p1) = h.fold_top_declarators(c, decls, (k - 1) as nat, span, kind, declare);
        lemma_top_declarator_frame(h1, c, p1, decls[k - 1], span, kind, declare);
    }
}

/// Only an import declaration with an assigned binding adds a
/// diagnostic: every other top-level item leaves the diagnostics as they
/// are.
pub proof fn law_only_assigned_imports_add_diagnostics(
    h: HoistV,
    c: CollectV,
    hoisted: Seq<NodeV>,
    n: NodeV,
)
    ensures
        h.fold_item(c, hoisted, n).0.diagnostics.len() >= h.diagnostics.len(),
        assigns_import(c, n) <==> h.fold_item(c, hoisted, n).0.diagnostics.len()
            > h.diagnostics.len(),
        !assigns_import(c, n) ==> h.fold_item(c, hoisted, n).0.diagnostics == h.diagnostics,
{
    match n {
        NodeV::Import { specifiers, .. } => {
            lemma_checked_specifiers(h, c, specifiers, specifiers.len());
        },
        NodeV::ExportNamed { specifiers, src, .. } => match src {
            Some(s) => {
                lemma_re_export_specifiers_frame(h, s, specifiers, specifiers.len());
            },
            None => {
                lemma_export_specifiers_frame(h, c, specifiers, specifiers.len());
            },
        },
        NodeV::ExportAll { .. } => {},
        NodeV::ExportDefaultExpr { span, expr } => {
            lemma_fold_extends(h.export_ident(span, "default"@).0, c, *expr);
        },
        NodeV::ExportDefaultDecl { decl, .. } => match *decl {
            NodeV::ClassExpr { ident, class } => {
                lemma_fold_extends(h.default_decl_ident(c, ident).0, c, *class);
            },
            NodeV::FnExpr { ident, function } => {
                lemma_fold_extends(h.default_decl_ident(c, ident).0, c, *function);
            },
            _ => {
                lemma_fold_extends(h, c, *decl);
            },
        },
        NodeV::ExportDecl { decl, .. } => {
            lemma_fold_extends(h, c, *decl);
        },
        NodeV::VarDecl { span, kind, declare, decls } => {
            lemma_top_declarators_frame(h, c, decls, decls.len(), span, kind, declare);
        },
        NodeV::ExprStmt { expr, .. } => {
            lemma_fold_extends(h, c, *expr);
        },
        _ => {
            lemma_fold_extends(h, c, n);
        },
    }
}

proof fn lemma_items_diagnostics(
    h: HoistV,
    c: CollectV,
    hoisted: Seq<NodeV>,
    items: Seq<NodeV>,
    k: nat,
)
    ensures
        h.fold_items(c, hoisted, items, k).0.diagnostics.len() >= h.diagnostics.len(),
        any_assigned_import(c, items, k) <==> h.fold_items(c, hoisted, items, k).0.diagnostics.len()
            > h.diagnostics.len(),
    decreases k,
{
    if k > 0 && k <= items.len() {
        lemma_items_diagnostics(h, c, hoisted, items, (k - 1) as nat);
        let (h1, hs) = h.fold_items(c, hoisted, items, (k - 1) as nat);
        law_only_assigned_imports_add_diagnostics(h1, c, hs, items[k - 1]);
    }
}

/// A module is rejected exactly when it assigns to an import: the
/// rewrite of a whole module ends with a diagnostic if and only if one
/// of its import declarations has a binding that is assigned to.
pub proof fn law_rejected_exactly_when_an_import_is_assigned(
    module_id: Seq<char>,
    c: CollectV,
    m: ModuleV,
)
    ensures
        any_assigned_import(c, m.body, m.body.len()) <==> HoistV::initial(module_id).fold_module(
            c,
            m,
        ).0.diagnostics.len() > 0,
{
    lemma_items_diagnostics(HoistV::initial(module_id), c, Seq::empty(), m.body, m.body.len());
}

/// An import declaration one of whose bindings is assigned to somewhere
/// adds a diagnostic, and a module with a diagnostic is rejected.
pub proof fn law_import_assignment_is_fatal(
    h: HoistV,
    c: CollectV,
    hoisted: Seq<NodeV>,
    n: NodeV,
    j: int,
)
    requires
        match n {
            NodeV::Import { specifiers, .. } => 0 <= j < specifiers.len() && has_key(
                c.non_const_bindings,
                specifiers[j].local.id(),
            ),
            _ => false,
        },
    ensures
        h.fold_item(c, hoisted, n).0.diagnostics.len() > h.diagnostics.len(),
{
    match n {
        NodeV::Import { specifiers, .. } => {
            lemma_any_assigned(c, specifiers, specifiers.len(), j);
            lemma_checked_specifiers(h, c, specifiers, specifiers.len());
        },
        _ => {},
    }
}

/// `typeof module` and `typeof require`, with a name that the module does
/// not declare, leave no trace: no flag moves, no bailout is added and no
/// access is recorded.
pub proof fn law_typeof_leaves_no_trace(s: CollectV, n: NodeV)
    requires
        s.is_typeof_free(n),
    ensures
        s.visit(n) == s,
{
    assert(s.visit(n) == s.visit_unary(n));
}

proof fn lemma_export_decl_vars(names: Seq<Seq<char>>, k: nat, span: Span)
    requires
        k <= names.len(),
    ensures
        crate::rewrite::export_decl_vars(names, k, span).len() == k,
        forall|j: int|
            0 <= j < k ==> #[trigger] crate::rewrite::export_decl_vars(names, k, span)[j]
                == crate::rewrite::single_var(
                span,
                IdentV { sym: names[j], span: crate::ast::dummy_span() },
                None,
            ),
    decreases k,
{
    if k > 0 {
        lemma_export_decl_vars(names, (k - 1) as nat, span);
    }
}

/// Where the declarations of the assigned export names stand. The new
/// body is, in this order: the imports hoisted from import and export-from
/// declarations; one `var <name>;` without an initializer for each export
/// name that is assigned to, in the order in which the names were first
/// met; and then every other item that the rewrite put out.
pub proof fn law_export_declarations_stand_at_the_top(h: HoistV, c: CollectV, m: ModuleV)
    ensures
        ({
            let (h1, hoisted) = h.fold_items(c, Seq::empty(), m.body, m.body.len());
            let names = h.declared_exports(c, m);
            let body = h.fold_module(c, m).1.body;
            &&& names == h1.export_decls
            &&& body.len() == hoisted.len() + names.len() + h1.module_items.len()
            &&& forall|j: int| 0 <= j < hoisted.len() ==> body[j] == hoisted[j]
            &&& forall|j: int|
                0 <= j < names.len() ==> #[trigger] body[hoisted.len() + j]
                    == crate::rewrite::single_var(
                    m.span,
                    IdentV { sym: names[j], span: crate::ast::dummy_span() },
                    None,
                )
            &&& forall|j: int|
                0 <= j < h1.module_items.len() ==> #[trigger] body[hoisted.len() + names.len() + j]
                    == h1.module_items[j]
        }),
{
    let (h1, hoisted) = h.fold_items(c, Seq::empty(), m.body, m.body.len());
    lemma_export_decl_vars(h1.export_decls, h1.export_decls.len(), m.span);
}

/// Whether `n` is an assignment or holds one.
pub open spec fn holds_assignment(n: NodeV) -> bool
    decreases n, 1nat,
{
    match n {
        NodeV::Assign { .. } => true,
        NodeV::Member { obj, prop, .. } => holds_assignment(*obj) || holds_assignment(*prop),
        NodeV::Call { callee, args, .. } => holds_assignment(*callee) || any_holds_assignment(
            args,
            args.len(),
        ),
        NodeV::Spread { expr, .. } => holds_assignment(*expr),
        NodeV::Unary { arg, .. } => holds_assignment(*arg),
        NodeV::Sequence { exprs, .. } => any_holds_assignment(exprs, exprs.len()),
        NodeV::Await { arg, .. } => holds_assignment(*arg),
        NodeV::Arrow { params, body, .. } => any_holds_assignment(params, params.len())
            || holds_assignment(*body),
        NodeV::Function { params, body, .. } => any_holds_assignment(params, params.len())
            || any_holds_assignment(body, body.len()),
        NodeV::Scope { children, .. } => any_holds_assignment(children, children.len()),
        NodeV::FnExpr { function, .. } => holds_assignment(*function),
        NodeV::ClassExpr { class, .. } => holds_assignment(*class),
        NodeV::KeyValue { key, value } => holds_assignment(*key) || holds_assignment(*value),
        NodeV::Computed { expr, .. } => holds_assignment(*expr),
        NodeV::ObjectPat { props, .. } => any_holds_assignment(props, props.len()),
        NodeV::AssignPatProp { value, .. } => match value {
            Some(v) => holds_assignment(*v),
            None => false,
        },
        NodeV::Rest { arg, .. } => holds_assignment(*arg),
        NodeV::ArrayPat { elems, .. } => any_holds_assignment(elems, elems.len()),
        NodeV::AssignPat { left, right, .. } => holds_assignment(*left) || holds_assignment(*right),
        NodeV::ExprStmt { expr, .. } => holds_assignment(*expr),
        NodeV::VarDecl { decls, .. } => any_holds_assignment(decls, decls.len()),
        NodeV::Declarator { name, init, .. } => holds_assignment(*name) || match init {
            Some(e) => holds_assignment(*e),
            None => false,
        },
        NodeV::Return { arg, .. } => match arg {
            Some(a) => holds_assignment(*a),
            None => false,
        },
        NodeV::FnDecl { function, .. } => holds_assignment(*function),
        NodeV::ClassDecl { class, .. } => holds_assignment(*class),
        NodeV::ExportDefaultExpr { expr, .. } => holds_assignment(*expr),
        NodeV::ExportDefaultDecl { decl, .. } => holds_assignment(*decl),
        NodeV::ExportDecl { decl, .. } => holds_assignment(*decl),
        NodeV::Other { children, .. } => any_holds_assignment(children, children.len()),
        _ => false,
    }
}

/// Whether one of the first `k` of `ns` is an assignment or holds one.
pub open spec fn any_holds_assignment(ns: Seq<NodeV>, k: nat) -> bool
    decreases ns, k,
{
    if k == 0 || k > ns.len() {
        false
    } else {
        any_holds_assignment(ns, (k - 1) as nat) || holds_assignment(ns[k - 1])
    }
}

proof fn lemma_fold_ident_keeps_exports(h: HoistV, c: CollectV, i: IdentV)
    ensures
        h.fold_ident(c, i).0.export_decls == h.export_decls,
        h.fold_opt_ident(c, Some(i)).0.export_decls == h.export_decls,
        h.fold_opt_ident(c, None).0.export_decls == h.export_decls,
        h.fold_shorthand(c, i).0.export_decls == h.export_decls,
{
    assert(h.note_dynamic_use(c, i).export_decls == h.export_decls);
    assert(h.note_dynamic_use(c, i).fold_plain_ident(c, i).0.export_decls == h.export_decls);
    assert(h.fold_plain_ident(c, i).0.export_decls == h.export_decls);
}

proof fn lemma_fold_all_keeps_exports(h: HoistV, c: CollectV, ns: Seq<NodeV>, k: nat)
    requires
        !any_holds_assignment(ns, k),
    ensures
        h.fold_all(c, ns, k).0.export_decls == h.export_decls,
    decreases ns, k,
{
    if k > 0 && k <= ns.len() {
        lemma_fold_all_keeps_exports(h, c, ns, (k - 1) as nat);
        lemma_fold_keeps_exports(h.fold_all(c, ns, (k - 1) as nat).0, c, ns[k - 1]);
    }
}

proof fn lemma_fold_sequence_keeps_exports(h: HoistV, c: CollectV, ns: Seq<NodeV>, k: nat)
    requires
        !any_holds_assignment(ns, k),
    ensures
        h.fold_sequence(c, ns, k).0.export_decls == h.export_decls,
    decreases ns, k,
{
    if k > 0 && k <= ns.len() {
        lemma_fold_sequence_keeps_exports(h, c, ns, (k - 1) as nat);
        lemma_fold_keeps_exports(h.fold_sequence(c, ns, (k - 1) as nat).0, c, ns[k - 1]);
    }
}

/// Only an assignment declares an export name: rewriting a node that
/// holds no assignment leaves the names to declare as they are.
proof fn lemma_fold_keeps_exports(h: HoistV, c: CollectV, n: NodeV)
    requires
        !holds_assignment(n),
    ensures
        h.fold(c, n).0.export_decls == h.export_decls,
    decreases n, 1nat,
{
    match n {
        NodeV::Ident(i) => lemma_fold_ident_keeps_exports(h, c, i),
        NodeV::BindingIdent(i) => lemma_fold_ident_keeps_exports(h, c, i),
        NodeV::Name(i) => lemma_fold_ident_keeps_exports(h, c, i),
        NodeV::Shorthand(i) => lemma_fold_ident_keeps_exports(h, c, i),
        NodeV::This(span) => {
            assert(h.fold_this(c, span).0.export_decls == h.export_decls);
        },
        NodeV::Member { .. } => lemma_fold_member_keeps_exports(h, c, n),
        NodeV::Call { .. } => lemma_fold_call_keeps_exports(h, c, n),
        NodeV::Unary { .. } => lemma_fold_expr_keeps_exports(h, c, n),
        NodeV::Spread { .. } => lemma_fold_expr_keeps_exports(h, c, n),
        NodeV::Sequence { .. } => lemma_fold_expr_keeps_exports(h, c, n),
        NodeV::Await { .. } => lemma_fold_expr_keeps_exports(h, c, n),
        NodeV::KeyValue { .. } => lemma_fold_expr_keeps_exports(h, c, n),
        NodeV::Computed { .. } => lemma_fold_expr_keeps_exports(h, c, n),
        NodeV::Arrow { .. } => lemma_fold_scope_keeps_exports(h, c, n),
        NodeV::Function { .. } => lemma_fold_scope_keeps_exports(h, c, n),
        NodeV::Scope { .. } => lemma_fold_scope_keeps_exports(h, c, n),
        NodeV::FnExpr { .. } => lemma_fold_scope_keeps_exports(h, c, n),
        NodeV::ClassExpr { .. } => lemma_fold_scope_keeps_exports(h, c, n),
        NodeV::FnDecl { .. } => lemma_fold_scope_keeps_exports(h, c, n),
        NodeV::ClassDecl { .. } => lemma_fold_scope_keeps_exports(h, c, n),
        NodeV::ObjectPat { .. } => lemma_fold_pat_keeps_exports(h, c, n),
        NodeV::AssignPatProp { .. } => lemma_fold_pat_keeps_exports(h, c, n),
        NodeV::Rest { .. } => lemma_fold_pat_keeps_exports(h, c, n),
        NodeV::ArrayPat { .. } => lemma_fold_pat_keeps_exports(h, c, n),
        NodeV::AssignPat { .. } => lemma_fold_pat_keeps_exports(h, c, n),
        NodeV::Other { .. } => lemma_fold_pat_keeps_exports(h, c, n),
        NodeV::ExprStmt { .. } => lemma_fold_stmt_keeps_exports(h, c, n),
        NodeV::VarDecl { .. } => lemma_fold_stmt_keeps_exports(h, c, n),
        NodeV::Declarator { .. } => lemma_fold_stmt_keeps_exports(h, c, n),
        NodeV::Return { .. } => lemma_fold_stmt_keeps_exports(h, c, n),
        NodeV::ExportDefaultExpr { .. } => lemma_fold_stmt_keeps_exports(h, c, n),
        NodeV::ExportDefaultDecl { .. } => lemma_fold_stmt_keeps_exports(h, c, n),
        NodeV::ExportDecl { .. } => lemma_fold_stmt_keeps_exports(h, c, n),
        _ => {},
    }
}

proof fn lemma_fold_member_keeps_exports(h: HoistV, c: CollectV, n: NodeV)
    requires
        n is Member,
        !holds_assignment(n),
    ensures
        h.fold(c, n).0.export_decls == h.export_decls,
    decreases n, 0nat,
{
    match n {
        NodeV::Member { obj, prop, computed, .. } => {
            assert(h.member_note(c, n).export_decls == h.export_decls);
            match h.member_rewrite(c, n) {
                Some(r) => {
                    assert(r.0.export_decls == h.export_decls);
                },
                None => match static_key(*prop, computed) {
                    None => {
                        lemma_fold_keeps_exports(h, c, *obj);
                        lemma_fold_keeps_exports(h.fold(c, *obj).0, c, *prop);
                    },
                    Some(_) => {
                        lemma_fold_keeps_exports(h.member_note(c, n), c, *obj);
                    },
                },
            }
            assert(h.fold_member(c, n).0.export_decls == h.export_decls);
        },
        _ => {},
    }
}

proof fn lemma_fold_call_keeps_exports(h: HoistV, c: CollectV, n: NodeV)
    requires
        n is Call,
        !holds_assignment(n),
    ensures
        h.fold(c, n).0.export_decls == h.export_decls,
    decreases n, 0nat,
{
    match n {
        NodeV::Call { callee, args, .. } => {
            match h.call_rewrite(c, n) {
                Some(r) => {
                    assert(r.0.export_decls == h.export_decls);
                },
                None => {
                    lemma_fold_keeps_exports(h, c, *callee);
                    lemma_fold_all_keeps_exports(h.fold(c, *callee).0, c, args, args.len());
                },
            }
            assert(h.fold_call(c, n).0.export_decls == h.export_decls);
        },
        _ => {},
    }
}

proof fn lemma_fold_expr_keeps_exports(h: HoistV, c: CollectV, n: NodeV)
    requires
        n is Unary || n is Spread || n is Sequence || n is Await || n is KeyValue || n is Computed,
        !holds_assignment(n),
    ensures
        h.fold(c, n).0.export_decls == h.export_decls,
    decreases n, 0nat,
{
    match n {
        NodeV::Unary { arg, .. } => {
            lemma_fold_keeps_exports(h, c, *arg);
            assert(h.fold_unary(c, n).0.export_decls == h.export_decls);
        },
        NodeV::Spread { expr, .. } => {
            lemma_fold_keeps_exports(h, c, *expr);
        },
        NodeV::Sequence { exprs, .. } => {
            lemma_fold_sequence_keeps_exports(h, c, exprs, exprs.len());
        },
        NodeV::Await { arg, .. } => {
            lemma_fold_keeps_exports(h, c, *arg);
        },
        NodeV::KeyValue { key, value } => {
            lemma_fold_keeps_exports(h, c, *key);
            lemma_fold_keeps_exports(h.fold(c, *key).0, c, *value);
        },
        NodeV::Computed { expr, .. } => {
            lemma_fold_keeps_exports(h, c, *expr);
        },
        _ => {},
    }
}

proof fn lemma_fold_scope_keeps_exports(h: HoistV, c: CollectV, n: NodeV)
    requires
        n is Arrow || n is Function || n is Scope || n is FnExpr || n is ClassExpr || n is FnDecl
            || n is ClassDecl,
        !holds_assignment(n),
    ensures
        h.fold(c, n).0.export_decls == h.export_decls,
    decreases n, 0nat,
{
    let inner = h.with_in_function_scope(true);
    match n {
        NodeV::Arrow { params, body, .. } => {
            lemma_fold_all_keeps_exports(h, c, params, params.len());
            lemma_fold_keeps_exports(h.fold_all(c, params, params.len()).0, c, *body);
        },
        NodeV::Function { params, body, .. } => {
            lemma_fold_all_keeps_exports(inner, c, params, params.len());
            lemma_fold_all_keeps_exports(
                inner.fold_all(c, params, params.len()).0,
                c,
                body,
                body.len(),
            );
            assert(h.fold_function(c, n).0.export_decls == h.export_decls);
        },
        NodeV::Scope { children, .. } => {
            lemma_fold_all_keeps_exports(inner, c, children, children.len());
            assert(h.fold_function(c, n).0.export_decls == h.export_decls);
        },
        NodeV::FnExpr { ident, function } => {
            match ident {
                Some(i) => lemma_fold_ident_keeps_exports(h, c, i),
                None => {},
            }
            lemma_fold_keeps_exports(h.fold_opt_ident(c, ident).0, c, *function);
        },
        NodeV::ClassExpr { ident, class } => {
            match ident {
                Some(i) => lemma_fold_ident_keeps_exports(h, c, i),
                None => {},
            }
            lemma_fold_keeps_exports(h.fold_opt_ident(c, ident).0, c, *class);
        },
        NodeV::FnDecl { ident, function, .. } => {
            lemma_fold_ident_keeps_exports(h, c, ident);
            lemma_fold_keeps_exports(h.fold_ident(c, ident).0, c, *function);
        },
        NodeV::ClassDecl { ident, class, .. } => {
            lemma_fold_ident_keeps_exports(h, c, ident);
            lemma_fold_keeps_exports(h.fold_ident(c, ident).0, c, *class);
        },
        _ => {},
    }
}

proof fn lemma_fold_pat_keeps_exports(h: HoistV, c: CollectV, n: NodeV)
    requires
        n is ObjectPat || n is AssignPatProp || n is Rest || n is ArrayPat || n is AssignPat
            || n is Other,
        !holds_assignment(n),
    ensures
        h.fold(c, n).0.export_decls == h.export_decls,
    decreases n, 0nat,
{
    match n {
        NodeV::ObjectPat { props, .. } => {
            lemma_fold_all_keeps_exports(h, c, props, props.len());
        },
        NodeV::AssignPatProp { key, value, .. } => {
            lemma_fold_ident_keeps_exports(h, c, key);
            match value {
                Some(v) => {
                    lemma_fold_keeps_exports(h.fold_ident(c, key).0, c, *v);
                },
                None => {},
            }
            assert(h.fold_assign_pat_prop(c, n).0.export_decls == h.export_decls);
        },
        NodeV::Rest { arg, .. } => {
            lemma_fold_keeps_exports(h, c, *arg);
        },
        NodeV::ArrayPat { elems, .. } => {
            lemma_fold_all_keeps_exports(h, c, elems, elems.len());
        },
        NodeV::AssignPat { left, right, .. } => {
            lemma_fold_keeps_exports(h, c, *left);
            lemma_fold_keeps_exports(h.fold(c, *left).0, c, *right);
        },
        NodeV::Other { children, .. } => {
            lemma_fold_all_keeps_exports(h, c, children, children.len());
        },
        _ => {},
    }
}

proof fn lemma_fold_stmt_keeps_exports(h: HoistV, c: CollectV, n: NodeV)
    requires
        n is ExprStmt || n is VarDecl || n is Declarator || n is Return || n is ExportDefaultExpr
            || n is ExportDefaultDecl || n is ExportDecl,
        !holds_assignment(n),
    ensures
        h.fold(c, n).0.export_decls == h.export_decls,
    decreases n, 0nat,
{
    match n {
        NodeV::ExprStmt { expr, .. } => {
            lemma_fold_keeps_exports(h, c, *expr);
        },
        NodeV::VarDecl { decls, .. } => {
            lemma_fold_all_keeps_exports(h, c, decls, decls.len());
        },
        NodeV::Declarator { name, init, .. } => {
            lemma_fold_keeps_exports(h, c, *name);
            match init {
                Some(e) => {
                    lemma_fold_keeps_exports(h.fold(c, *name).0, c, *e);
                },
                None => {},
            }
        },
        NodeV::Return { arg, .. } => match arg {
            Some(a) => {
                lemma_fold_keeps_exports(h, c, *a);
            },
            None => {},
        },
        NodeV::ExportDefaultExpr { expr, .. } => {
            lemma_fold_keeps_exports(h, c, *expr);
        },
        NodeV::ExportDefaultDecl { decl, .. } => {
            lemma_fold_keeps_exports(h, c, *decl);
        },
        NodeV::ExportDecl { decl, .. } => {
            lemma_fold_keeps_exports(h, c, *decl);
        },
        _ => {},
    }
}

/// A top-level item that holds no assignment declares no export name.
pub proof fn law_only_assignments_declare_exports(
    h: HoistV,
    c: CollectV,
    hoisted: Seq<NodeV>,
    n: NodeV,
)
    requires
        !holds_assignment(n),
    ensures
        h.fold_item(c, hoisted, n).0.export_decls == h.export_decls,
{
    reveal_with_fuel(holds_assignment, 3);
    match n {
        NodeV::Import { specifiers, .. } => {
            lemma_checked_specifiers(h, c, specifiers, specifiers.len());
        },
        NodeV::ExportNamed { specifiers, src, .. } => match src {
            Some(s) => {
                lemma_re_export_specifiers_frame(h, s, specifiers, specifiers.len());
            },
            None => {
                lemma_export_specifiers_frame(h, c, specifiers, specifiers.len());
            },
        },
        NodeV::ExportAll { .. } => {},
        NodeV::ExportDefaultExpr { span, expr } => {
            lemma_fold_keeps_exports(h.export_ident(span, "default"@).0, c, *expr);
        },
        NodeV::ExportDefaultDecl { decl, .. } => match *decl {
            NodeV::ClassExpr { ident, class } => {
                lemma_fold_keeps_exports(h.default_decl_ident(c, ident).0, c, *class);
            },
            NodeV::FnExpr { ident, function } => {
                lemma_fold_keeps_exports(h.default_decl_ident(c, ident).0, c, *function);
            },
            _ => {
                lemma_fold_keeps_exports(h, c, *decl);
            },
        },
        NodeV::ExportDecl { decl, .. } => {
            lemma_fold_keeps_exports(h, c, *decl);
        },
        NodeV::VarDecl { span, kind, declare, decls } => {
            lemma_top_declarators_frame(h, c, decls, decls.len(), span, kind, declare);
        },
        NodeV::ExprStmt { expr, .. } => {
            lemma_fold_keeps_exports(h, c, *expr);
        },
        _ => {
            lemma_fold_keeps_exports(h, c, n);
        },
    }
}

proof fn lemma_items_keep_exports(
    h: HoistV,
    c: CollectV,
    hoisted: Seq<NodeV>,
    items: Seq<NodeV>,
    k: nat,
)
    requires
        !any_holds_assignment(items, k),
    ensures
        h.fold_items(c, hoisted, items, k).0.export_decls == h.export_decls,
    decreases k,
{
    if k > 0 && k <= items.len() {
        lemma_items_keep_exports(h, c, hoisted, items, (k - 1) as nat);
        let (h1, hs) = h.fold_items(c, hoisted, items, (k - 1) as nat);
        law_only_assignments_declare_exports(h1, c, hs, items[k - 1]);
    }
}

/// A module without any assignment gets no declaration of an export name:
/// reading `exports.key` alone declares nothing.
pub proof fn law_no_assignment_no_declaration(module_id: Seq<char>, c: CollectV, m: ModuleV)
    requires
        !any_holds_assignment(m.body, m.body.len()),
    ensures
        HoistV::initial(module_id).declared_exports(c, m).len() == 0,
{
    lemma_items_keep_exports(HoistV::initial(module_id), c, Seq::empty(), m.body, m.body.len());
}

} // verus!
