//! The rewrite: one walk over a module that renames what the analysis
//! found and hoists what it can.
use crate::ast::{
    clone_node, clone_opt_string, dummy_sp, export_specs_view, import_specs_view,
    lemma_nodes_view_add, lemma_nodes_view_insert, lemma_nodes_view_push, node_view, nodes_view,
    opt_ident_view, opt_str_view, ExportSpecifier, Id, Ident, IdentV, ImportSpecifier, Module,
    Node, NodeV, Span, SpecifierKind, StrKind, UnaryOp, VarKind,
};
use crate::collect::Collect;
use crate::diag::{
    diagnostics_view, highlights_view, Bailout, CodeHighlight, Diagnostic, DiagnosticSeverity,
};
use crate::facts::{CollectV, Import, ImportKind};
use crate::matchers::{get_static_key, match_member_expr};
use crate::rewrite::{
    assignment_diagnostic, export_decl_vars, highlights_of, hoistable_source, hoisted_import,
    list_non_const_idents, non_const_idents, prop_list_non_const_idents, prop_non_const_idents,
    single_var, static_import, static_namespace, synthesized_str, HoistV,
};
use crate::summary::{
    exported_view, imported_view, ExportedSymbol, HoistResult, ImportedSymbol,
};
use crate::table::{with_item, StrMap, StrSet};
use crate::text::{
    is_word, make_export_name, make_hoisted_specifier, make_import_async_key_name,
    make_import_async_name, make_import_name, make_require_name, make_var_name, star,
};
use vstd::prelude::*;
use vstd::string::StringExecFns;

verus! {

/// The state of the rewrite of one module.
#[derive(Debug)]
pub struct Hoist {
    pub module_id: String,
    pub module_items: Vec<Node>,
    pub export_decls: StrSet,
    pub imported_symbols: Vec<ImportedSymbol>,
    pub exported_symbols: Vec<ExportedSymbol>,
    pub re_exports: Vec<ImportedSymbol>,
    pub self_references: StrSet,
    pub dynamic_imports: StrMap,
    pub in_function_scope: bool,
    pub diagnostics: Vec<Diagnostic>,
}

impl View for Hoist {
    type V = HoistV;

    open spec fn view(&self) -> HoistV {
        HoistV {
            module_id: self.module_id@,
            module_items: nodes_view(self.module_items@),
            export_decls: self.export_decls@,
            imported_symbols: imported_view(self.imported_symbols@),
            exported_symbols: exported_view(self.exported_symbols@),
            re_exports: imported_view(self.re_exports@),
            self_references: self.self_references@,
            dynamic_imports: self.dynamic_imports@,
            in_function_scope: self.in_function_scope,
            diagnostics: diagnostics_view(self.diagnostics@),
        }
    }
}

pub open spec fn idents_view(s: Seq<Ident>) -> Seq<IdentV> {
    Seq::new(s.len(), |i: int| s[i]@)
}

pub open spec fn opt_node_view(o: Option<Node>) -> Option<NodeV> {
    match o {
        Some(n) => Some(n@),
        None => None,
    }
}

fn star_string() -> (r: String)
    ensures
        r@ == star(),
{
    String::from_str("*")
}

fn make_hoisted_import(module_id: &String, source: &String) -> (r: Node)
    ensures
        r@ == hoisted_import(module_id@, source@),
{
    let r = Node::Import {
        span: dummy_sp(),
        specifiers: Vec::new(),
        src: make_hoisted_specifier(module_id.as_str(), source.as_str()),
    };
    assert(import_specs_view(Seq::<ImportSpecifier>::empty()) =~= Seq::empty());
    r
}

fn make_single_var(span: Span, name: Ident, init: Option<Node>) -> (r: Node)
    ensures
        r@ == single_var(span, name@, opt_node_view(init)),
{
    let d = Node::declarator(span, Node::BindingIdent(name), init, false);
    let mut decls: Vec<Node> = Vec::new();
    decls.push(d);
    assert(nodes_view(decls@) =~= seq![d@]);
    Node::var_decl(span, VarKind::Var, false, decls)
}

fn make_synthesized_str(span: Span, value: &str) -> (r: Node)
    ensures
        r@ == synthesized_str(span, value@),
{
    Node::Str { span, value: String::from_str(value), has_escape: false, kind: StrKind::Synthesized }
}

fn make_assignment_diagnostic(spans: &Vec<Span>, local: Span) -> (r: Diagnostic)
    ensures
        r@ == assignment_diagnostic(spans@, local),
{
    let mut highlights: Vec<CodeHighlight> = Vec::new();
    let mut i: usize = 0;
    while i < spans.len()
        invariant
            i <= spans.len(),
            highlights@.len() == i,
            forall|j: int| 0 <= j < i ==> highlights@[j]@ == highlights_of(spans@)[j],
        decreases spans.len() - i,
    {
        highlights.push(CodeHighlight { message: None, loc: spans[i] });
        i += 1;
    }
    highlights.push(
        CodeHighlight { message: Some(String::from_str("Originally imported here")), loc: local },
    );
    let r = Diagnostic {
        message: String::from_str("Assignment to an import specifier is not allowed"),
        code_highlights: highlights,
        severity: DiagnosticSeverity::Error,
    };
    assert(highlights_view(r.code_highlights@) =~= assignment_diagnostic(
        spans@,
        local,
    ).code_highlights);
    r
}

fn get_static_import<'a>(c: &'a Collect, i: &Ident) -> (r: Option<&'a Import>)
    ensures
        match r {
            Some(imp) => static_import(c@, i@) == Some(imp@),
            None => static_import(c@, i@).is_none(),
        },
{
    match c.imports.get(&i.id()) {
        Some(imp) => if !c.non_static_requires.contains(&imp.source) {
            Some(imp)
        } else {
            None
        },
        None => None,
    }
}

fn get_static_namespace<'a>(c: &'a Collect, i: &Ident) -> (r: Option<&'a Import>)
    ensures
        match r {
            Some(imp) => static_namespace(c@, i@) == Some(imp@),
            None => static_namespace(c@, i@).is_none(),
        },
{
    match c.imports.get(&i.id()) {
        Some(imp) => if is_word(&imp.specifier, "*") && !c.non_static_access.contains_key(&i.id())
            && !c.non_const_bindings.contains_key(&i.id()) && !c.non_static_requires.contains(
            &imp.source,
        ) {
            Some(imp)
        } else {
            None
        },
        None => None,
    }
}

fn get_hoistable_source(c: &Collect, init: &Option<Box<Node>>) -> (r: Option<String>)
    ensures
        opt_str_view(r) == hoistable_source(
            c@,
            match *init {
                Some(b) => Some(Box::new(b@)),
                None => None,
            },
        ),
{
    match init {
        Some(e) => {
            match c.match_require(e) {
                Some(src) => if !c.non_static_requires.contains(&src) {
                    return Some(src);
                },
                None => {},
            }
            match &**e {
                Node::Member { obj, .. } => match c.match_require(obj) {
                    Some(src) => if !c.non_static_requires.contains(&src) {
                        Some(src)
                    } else {
                        None
                    },
                    None => None,
                },
                _ => None,
            }
        },
        None => None,
    }
}

fn push_ident_once(acc: &mut Vec<Ident>, i: &Ident)
    ensures
        idents_view(final(acc)@) == with_item(idents_view(old(acc)@), i@),
{
    let mut k: usize = 0;
    while k < acc.len()
        invariant
            k <= acc.len(),
            acc@ == old(acc)@,
            forall|j: int| 0 <= j < k ==> idents_view(acc@)[j] != i@,
        decreases acc.len() - k,
    {
        if acc[k].sym == i.sym && acc[k].span == i.span {
            assert(idents_view(acc@)[k as int] == i@);
            return ;
        }
        k += 1;
    }
    acc.push(i.duplicate());
    assert(idents_view(acc@) =~= idents_view(old(acc)@).push(i@));
}

fn get_non_const_idents(c: &Collect, n: &Node, acc: &mut Vec<Ident>)
    ensures
        idents_view(final(acc)@) == non_const_idents(c@, n@, idents_view(old(acc)@)),
    decreases n, 1nat,
{
    match n {
        Node::BindingIdent(i) => {
            if c.non_const_bindings.contains_key(&i.id()) {
                push_ident_once(acc, i);
            }
        },
        Node::ObjectPat { props, .. } => {
            get_prop_list_non_const_idents(c, props, acc);
        },
        Node::ArrayPat { elems, .. } => {
            get_list_non_const_idents(c, elems, acc);
        },
        _ => {},
    }
}

fn get_prop_non_const_idents(c: &Collect, p: &Node, acc: &mut Vec<Ident>)
    ensures
        idents_view(final(acc)@) == prop_non_const_idents(c@, p@, idents_view(old(acc)@)),
    decreases p, 1nat,
{
    match p {
        Node::KeyValue { value, .. } => {
            get_non_const_idents(c, value, acc);
        },
        Node::AssignPatProp { key, .. } => {
            if c.non_const_bindings.contains_key(&key.id()) {
                push_ident_once(acc, key);
            }
        },
        Node::Rest { arg, .. } => {
            get_non_const_idents(c, arg, acc);
        },
        _ => {},
    }
}

fn get_list_non_const_idents(c: &Collect, ns: &Vec<Node>, acc: &mut Vec<Ident>)
    ensures
        idents_view(final(acc)@) == list_non_const_idents(
            c@,
            nodes_view(ns@),
            ns@.len(),
            idents_view(old(acc)@),
        ),
    decreases ns, ns@.len(),
{
    let mut k: usize = 0;
    while k < ns.len()
        invariant
            k <= ns.len(),
            idents_view(acc@) == list_non_const_idents(
                c@,
                nodes_view(ns@),
                k as nat,
                idents_view(old(acc)@),
            ),
        decreases ns.len() - k,
    {
        get_non_const_idents(c, &ns[k], acc);
        k += 1;
    }
}

fn get_prop_list_non_const_idents(c: &Collect, ns: &Vec<Node>, acc: &mut Vec<Ident>)
    ensures
        idents_view(final(acc)@) == prop_list_non_const_idents(
            c@,
            nodes_view(ns@),
            ns@.len(),
            idents_view(old(acc)@),
        ),
    decreases ns, ns@.len(),
{
    let mut k: usize = 0;
    while k < ns.len()
        invariant
            k <= ns.len(),
            idents_view(acc@) == prop_list_non_const_idents(
                c@,
                nodes_view(ns@),
                k as nat,
                idents_view(old(acc)@),
            ),
        decreases ns.len() - k,
    {
        get_prop_non_const_idents(c, &ns[k], acc);
        k += 1;
    }
}

fn check_assigns_export(c: &Collect, left: &Node) -> (r: bool)
    ensures
        r == HoistV::assigns_export(c@, left@),
{
    proof {
        reveal_with_fuel(node_view, 2);
    }
    match left {
        Node::Member { obj, .. } => match &**obj {
            Node::Member { .. } => c.is_cjs_exports(obj),
            Node::Ident(i) => is_word(&i.sym, "exports") && !c.declares(i),
            _ => false,
        },
        _ => false,
    }
}

impl Hoist {
    /// The state before anything was rewritten.
    pub fn new(module_id: &str) -> (r: Self)
        ensures
            r@ == HoistV::initial(module_id@),
    {
        let r = Hoist {
            module_id: String::from_str(module_id),
            module_items: Vec::new(),
            export_decls: StrSet::new(),
            imported_symbols: Vec::new(),
            exported_symbols: Vec::new(),
            re_exports: Vec::new(),
            self_references: StrSet::new(),
            dynamic_imports: StrMap::new(),
            in_function_scope: false,
            diagnostics: Vec::new(),
        };
        assert(r@.module_items =~= Seq::empty());
        assert(r@.imported_symbols =~= Seq::empty());
        assert(r@.exported_symbols =~= Seq::empty());
        assert(r@.re_exports =~= Seq::empty());
        assert(r@.diagnostics =~= Seq::empty());
        r
    }

    /// The summary of the rewritten module.
    pub fn get_result(self, c: &Collect) -> (r: HoistResult)
        ensures
            r@ == self@.result(c@),
    {
        HoistResult {
            imported_symbols: self.imported_symbols,
            exported_symbols: self.exported_symbols,
            re_exports: self.re_exports,
            self_references: self.self_references,
            dynamic_imports: self.dynamic_imports,
            wrapped_requires: c.wrapped_requires.duplicate(),
            static_cjs_exports: c.static_cjs_exports,
            has_cjs_exports: c.has_cjs_exports,
            is_esm: c.is_esm,
            should_wrap: c.should_wrap,
        }
    }

    fn push_item(&mut self, n: Node)
        ensures
            final(self)@ == old(self)@.push_item(n@),
    {
        proof {
            lemma_nodes_view_push(self.module_items@, n);
        }
        self.module_items.push(n);
    }

    fn insert_item(&mut self, at: usize, n: Node)
        requires
            at <= old(self)@.module_items.len(),
        ensures
            final(self)@ == old(self)@.insert_item(at as int, n@),
    {
        proof {
            lemma_nodes_view_insert(self.module_items@, at as int, n);
        }
        self.module_items.insert(at, n);
    }

    fn items_len(&self) -> (n: usize)
        ensures
            n == self@.module_items.len(),
    {
        self.module_items.len()
    }

    fn add_require(&mut self, source: &String)
        ensures
            final(self)@ == old(self)@.add_require(source@),
    {
        let item = make_hoisted_import(&self.module_id, source);
        self.push_item(item);
    }

    fn add_imported(&mut self, sym: ImportedSymbol)
        ensures
            final(self)@ == old(self)@.add_imported(sym@),
    {
        self.imported_symbols.push(sym);
        assert(imported_view(self.imported_symbols@) =~= imported_view(
            old(self).imported_symbols@,
        ).push(sym@));
    }

    fn add_exported(&mut self, sym: ExportedSymbol)
        ensures
            final(self)@ == old(self)@.add_exported(sym@),
    {
        self.exported_symbols.push(sym);
        assert(exported_view(self.exported_symbols@) =~= exported_view(
            old(self).exported_symbols@,
        ).push(sym@));
    }

    fn add_re_export(&mut self, sym: ImportedSymbol)
        ensures
            final(self)@ == old(self)@.add_re_export(sym@),
    {
        self.re_exports.push(sym);
        assert(imported_view(self.re_exports@) =~= imported_view(old(self).re_exports@).push(
            sym@,
        ));
    }

    fn self_ref(&mut self, key: String)
        ensures
            final(self)@ == old(self)@.self_ref(key@),
    {
        self.self_references.insert(key);
    }

    fn add_dynamic_import(&mut self, name: String, source: String)
        ensures
            final(self)@ == old(self)@.add_dynamic_import(name@, source@),
    {
        self.dynamic_imports.insert(name, source);
    }

    fn add_export_decl(&mut self, name: String)
        ensures
            final(self)@ == old(self)@.add_export_decl(name@),
    {
        self.export_decls.insert(name);
    }

    fn add_diagnostic(&mut self, d: Diagnostic)
        ensures
            final(self)@ == old(self)@.add_diagnostic(d@),
    {
        self.diagnostics.push(d);
        assert(diagnostics_view(self.diagnostics@) =~= diagnostics_view(
            old(self).diagnostics@,
        ).push(d@));
    }

    fn set_in_function_scope(&mut self, b: bool)
        ensures
            final(self)@ == old(self)@.with_in_function_scope(b),
    {
        self.in_function_scope = b;
    }

    fn import_ident(&mut self, span: Span, source: &String, imported: &String, loc: Span) -> (r:
        Ident)
        ensures
            final(self)@ == old(self)@.import_ident(span, source@, imported@, loc).0,
            r@ == old(self)@.import_ident(span, source@, imported@, loc).1,
    {
        let name = make_import_name(self.module_id.as_str(), source, imported);
        self.add_imported(
            ImportedSymbol {
                source: source.clone(),
                local: name.clone(),
                imported: imported.clone(),
                loc,
            },
        );
        Ident { sym: name, span }
    }

    fn import_node(&mut self, span: Span, source: &String, imported: &String, loc: Span) -> (r:
        Node)
        ensures
            final(self)@ == old(self)@.import_node(span, source@, imported@, loc).0,
            r@ == old(self)@.import_node(span, source@, imported@, loc).1,
    {
        Node::Ident(self.import_ident(span, source, imported, loc))
    }

    fn require_ident(&self, local: &String) -> (r: Ident)
        ensures
            r@ == self@.require_ident(local@),
    {
        Ident { sym: make_require_name(self.module_id.as_str(), local), span: dummy_sp() }
    }

    fn export_ident(&mut self, span: Span, exported: &String) -> (r: Ident)
        ensures
            final(self)@ == old(self)@.export_ident(span, exported@).0,
            r@ == old(self)@.export_ident(span, exported@).1,
    {
        let name = make_export_name(self.module_id.as_str(), exported);
        self.add_exported(
            ExportedSymbol { local: name.clone(), exported: exported.clone(), loc: span },
        );
        Ident { sym: name, span: Span { lo: span.lo, hi: span.hi, ctxt: 0 } }
    }

    fn export_node(&mut self, span: Span, exported: &String) -> (r: Node)
        ensures
            final(self)@ == old(self)@.export_node(span, exported@).0,
            r@ == old(self)@.export_node(span, exported@).1,
    {
        Node::Ident(self.export_ident(span, exported))
    }

    fn note_dynamic_use(&mut self, c: &Collect, i: &Ident)
        ensures
            final(self)@ == old(self)@.note_dynamic_use(c@, i@),
    {
        match get_static_import(c, i) {
            Some(imp) => {
                if imp.kind == ImportKind::DynamicImport {
                    if !is_word(&imp.specifier, "*") {
                        let local = make_import_async_key_name(
                            self.module_id.as_str(),
                            &imp.source,
                            &imp.specifier,
                        );
                        self.add_imported(
                            ImportedSymbol {
                                source: imp.source.clone(),
                                local,
                                imported: imp.specifier.clone(),
                                loc: imp.loc,
                            },
                        );
                    } else if c.non_static_access.contains_key(&i.id()) {
                        let local = make_import_async_name(self.module_id.as_str(), &imp.source);
                        self.add_imported(
                            ImportedSymbol {
                                source: imp.source.clone(),
                                local,
                                imported: star_string(),
                                loc: imp.loc,
                            },
                        );
                    }
                }
            },
            None => {},
        }
    }

    fn fold_plain_ident(&mut self, c: &Collect, i: &Ident) -> (r: Ident)
        ensures
            final(self)@ == old(self)@.fold_plain_ident(c@, i@).0,
            r@ == old(self)@.fold_plain_ident(c@, i@).1,
    {
        match c.exports.get(&i.id()) {
            Some(exported) => {
                if c.should_wrap {
                    self.add_exported(
                        ExportedSymbol {
                            local: i.sym.clone(),
                            exported: exported.clone(),
                            loc: i.span,
                        },
                    );
                    i.duplicate()
                } else {
                    self.export_ident(i.span, exported)
                }
            },
            None => {
                let declared = c.declares(i);
                if is_word(&i.sym, "exports") && !declared && !c.should_wrap {
                    self.self_ref(star_string());
                    self.export_ident(i.span, &star_string())
                } else if is_word(&i.sym, "global") && !declared {
                    Ident { sym: String::from_str("$parcel$global"), span: i.span }
                } else if i.span.ctxt == c.global_ctxt && declared && !c.should_wrap {
                    Ident { sym: make_var_name(self.module_id.as_str(), &i.sym), span: i.span }
                } else {
                    i.duplicate()
                }
            },
        }
    }

    /// The identifier that replaces `i`.
    pub fn fold_ident(&mut self, c: &Collect, i: &Ident) -> (r: Ident)
        ensures
            final(self)@ == old(self)@.fold_ident(c@, i@).0,
            r@ == old(self)@.fold_ident(c@, i@).1,
    {
        match get_static_import(c, i) {
            Some(imp) => {
                if imp.kind != ImportKind::DynamicImport {
                    if c.non_const_bindings.contains_key(&i.id()) {
                        self.require_ident(&i.sym)
                    } else {
                        self.import_ident(i.span, &imp.source, &imp.specifier, imp.loc)
                    }
                } else {
                    self.note_dynamic_use(c, i);
                    self.fold_plain_ident(c, i)
                }
            },
            None => self.fold_plain_ident(c, i),
        }
    }

    fn fold_opt_ident(&mut self, c: &Collect, o: &Option<Ident>) -> (r: Option<Ident>)
        ensures
            final(self)@ == old(self)@.fold_opt_ident(c@, opt_ident_view(*o)).0,
            opt_ident_view(r) == old(self)@.fold_opt_ident(c@, opt_ident_view(*o)).1,
    {
        match o {
            Some(i) => Some(self.fold_ident(c, i)),
            None => None,
        }
    }

    fn fold_shorthand(&mut self, c: &Collect, i: &Ident) -> (r: Node)
        ensures
            final(self)@ == old(self)@.fold_shorthand(c@, i@).0,
            r@ == old(self)@.fold_shorthand(c@, i@).1,
    {
        let j = self.fold_ident(c, i);
        if c.should_wrap {
            Node::Shorthand(j)
        } else {
            Node::key_value(
                Node::Key(Ident { sym: i.sym.clone(), span: dummy_sp() }),
                Node::Ident(j),
            )
        }
    }

    fn fold_this(&mut self, c: &Collect, span: Span) -> (r: Node)
        ensures
            final(self)@ == old(self)@.fold_this(c@, span).0,
            r@ == old(self)@.fold_this(c@, span).1,
    {
        if !self.in_function_scope && c.is_esm {
            Node::Ident(Ident { sym: String::from_str("undefined"), span: dummy_sp() })
        } else if !self.in_function_scope && !c.should_wrap {
            self.self_ref(star_string());
            self.export_node(span, &star_string())
        } else {
            Node::This(span)
        }
    }

    fn member_note(&mut self, c: &Collect, n: &Node)
        ensures
            final(self)@ == old(self)@.member_note(c@, n@),
    {
        proof {
            reveal_with_fuel(node_view, 2);
        }
        match n {
            Node::Member { span, obj, prop, computed } => {
                match (&**obj, get_static_key(prop, *computed)) {
                    (Node::Ident(i), Some(key)) => {
                        match get_static_namespace(c, i) {
                            Some(imp) => {
                                if imp.kind == ImportKind::DynamicImport {
                                    let local = make_import_async_key_name(
                                        self.module_id.as_str(),
                                        &imp.source,
                                        &key,
                                    );
                                    self.add_imported(
                                        ImportedSymbol {
                                            source: imp.source.clone(),
                                            local,
                                            imported: key,
                                            loc: *span,
                                        },
                                    );
                                }
                            },
                            None => {},
                        }
                    },
                    _ => {},
                }
            },
            _ => {},
        }
    }

    fn member_rewrite(&mut self, c: &Collect, n: &Node) -> (r: Option<Node>)
        ensures
            match r {
                Some(x) => old(self)@.member_rewrite(c@, n@) == Some((final(self)@, x@)),
                None => old(self)@.member_rewrite(c@, n@).is_none() && final(self)@ == old(self)@,
            },
    {
        proof {
            reveal_with_fuel(node_view, 2);
        }
        match n {
            Node::Member { span, obj, prop, computed } => {
                if !c.should_wrap && c.is_cjs_exports(n) {
                    self.self_ref(star_string());
                    return Some(self.export_node(*span, &star_string()));
                }
                if !c.should_wrap && match_member_expr(n, "module", "hot", &c.decls) {
                    return Some(Node::Null(*span));
                }
                match get_static_key(prop, *computed) {
                    None => None,
                    Some(key) => {
                        let own = c.static_cjs_exports && !c.should_wrap;
                        match &**obj {
                            Node::Ident(i) => {
                                match get_static_namespace(c, i) {
                                    Some(imp) => {
                                        if imp.kind != ImportKind::DynamicImport {
                                            return Some(
                                                self.import_node(*span, &imp.source, &key, *span),
                                            );
                                        }
                                    },
                                    None => {},
                                }
                                if is_word(&i.sym, "exports") && !c.declares(i) && own {
                                    self.member_note(c, n);
                                    self.self_ref(key.clone());
                                    Some(self.export_node(*span, &key))
                                } else {
                                    None
                                }
                            },
                            Node::Call { .. } => match c.match_require(obj) {
                                Some(source) => {
                                    self.add_require(&source);
                                    Some(self.import_node(*span, &source, &key, *span))
                                },
                                None => None,
                            },
                            Node::Member { .. } => {
                                if own && c.is_cjs_exports(obj) {
                                    self.self_ref(key.clone());
                                    Some(self.export_node(*span, &key))
                                } else {
                                    None
                                }
                            },
                            Node::This(_) => {
                                if own && !self.in_function_scope && !c.is_esm {
                                    self.self_ref(key.clone());
                                    Some(self.export_node(*span, &key))
                                } else {
                                    None
                                }
                            },
                            _ => None,
                        }
                    },
                }
            },
            _ => None,
        }
    }

    fn call_rewrite(&mut self, c: &Collect, n: &Node) -> (r: Option<Node>)
        ensures
            match r {
                Some(x) => old(self)@.call_rewrite(c@, n@) == Some((final(self)@, x@)),
                None => old(self)@.call_rewrite(c@, n@).is_none() && final(self)@ == old(self)@,
            },
    {
        match n {
            Node::Call { span, .. } => {
                match c.match_require(n) {
                    Some(source) => {
                        self.add_require(&source);
                        return Some(self.import_node(*span, &source, &star_string(), *span));
                    },
                    None => {},
                }
                match c.match_import(n) {
                    Some(source) => {
                        let name = make_import_async_name(self.module_id.as_str(), &source);
                        self.add_require(&source);
                        self.add_dynamic_import(name.clone(), source.clone());
                        if c.non_static_requires.contains(&source) || c.should_wrap {
                            self.add_imported(
                                ImportedSymbol {
                                    source,
                                    local: name.clone(),
                                    imported: star_string(),
                                    loc: *span,
                                },
                            );
                        }
                        Some(Node::Ident(Ident { sym: name, span: *span }))
                    },
                    None => None,
                }
            },
            _ => None,
        }
    }

    fn unary_rewrite(&self, c: &Collect, n: &Node) -> (r: Option<Node>)
        ensures
            opt_node_view(r) == self@.unary_rewrite(c@, n@),
    {
        proof {
            reveal_with_fuel(node_view, 2);
        }
        match n {
            Node::Unary { span, op, arg } => {
                if *op == UnaryOp::TypeOf {
                    match &**arg {
                        Node::Ident(i) => {
                            let declared = c.declares(i);
                            if is_word(&i.sym, "require") && !declared {
                                Some(make_synthesized_str(*span, "function"))
                            } else if is_word(&i.sym, "module") && !declared {
                                Some(make_synthesized_str(*span, "object"))
                            } else {
                                None
                            }
                        },
                        _ => None,
                    }
                } else {
                    None
                }
            },
            _ => None,
        }
    }

    /// Rewrites one node and all that it contains.
    pub fn fold(&mut self, c: &Collect, n: &Node) -> (r: Node)
        ensures
            final(self)@ == old(self)@.fold(c@, n@).0,
            r@ == old(self)@.fold(c@, n@).1,
        decreases n, 3nat,
    {
        match n {
            Node::Ident(i) => Node::Ident(self.fold_ident(c, i)),
            Node::BindingIdent(i) => Node::BindingIdent(self.fold_ident(c, i)),
            Node::Name(i) => Node::Name(self.fold_ident(c, i)),
            Node::Key(_) => clone_node(n),
            Node::Shorthand(i) => self.fold_shorthand(c, i),
            Node::Str { .. } => clone_node(n),
            Node::Null(_) => clone_node(n),
            Node::This(span) => self.fold_this(c, *span),
            Node::Hole => clone_node(n),
            Node::Member { .. } => self.fold_member(c, n),
            Node::Call { .. } => self.fold_call(c, n),
            Node::Unary { .. } => self.fold_unary(c, n),
            Node::Assign { .. } => self.fold_assign(c, n),
            Node::Function { .. } => self.fold_function(c, n),
            Node::Scope { .. } => self.fold_function(c, n),
            Node::AssignPatProp { .. } => self.fold_assign_pat_prop(c, n),
            Node::Import { .. } => clone_node(n),
            Node::ExportNamed { .. } => clone_node(n),
            Node::ExportAll { .. } => clone_node(n),
            Node::Spread { .. } => self.fold_expr_parts(c, n),
            Node::Sequence { .. } => self.fold_expr_parts(c, n),
            Node::Await { .. } => self.fold_expr_parts(c, n),
            Node::Arrow { .. } => self.fold_expr_parts(c, n),
            Node::FnExpr { .. } => self.fold_expr_parts(c, n),
            Node::ClassExpr { .. } => self.fold_expr_parts(c, n),
            Node::KeyValue { .. } => self.fold_expr_parts(c, n),
            Node::Computed { .. } => self.fold_expr_parts(c, n),
            Node::ObjectPat { .. } => self.fold_pat_parts(c, n),
            Node::Rest { .. } => self.fold_pat_parts(c, n),
            Node::ArrayPat { .. } => self.fold_pat_parts(c, n),
            Node::AssignPat { .. } => self.fold_pat_parts(c, n),
            Node::Other { .. } => self.fold_pat_parts(c, n),
            Node::ExprStmt { .. } => self.fold_stmt_parts(c, n),
            Node::VarDecl { .. } => self.fold_stmt_parts(c, n),
            Node::Declarator { .. } => self.fold_stmt_parts(c, n),
            Node::Return { .. } => self.fold_stmt_parts(c, n),
            Node::FnDecl { .. } => self.fold_decl_parts(c, n),
            Node::ClassDecl { .. } => self.fold_decl_parts(c, n),
            Node::ExportDefaultExpr { .. } => self.fold_decl_parts(c, n),
            Node::ExportDefaultDecl { .. } => self.fold_decl_parts(c, n),
            Node::ExportDecl { .. } => self.fold_decl_parts(c, n),
        }
    }

    /// An expression whose parts are rewritten one after the other.
    fn fold_expr_parts(&mut self, c: &Collect, n: &Node) -> (r: Node)
        requires
            n@ is Spread || n@ is Sequence || n@ is Await || n@ is Arrow || n@ is FnExpr
                || n@ is ClassExpr || n@ is KeyValue || n@ is Computed,
        ensures
            final(self)@ == old(self)@.fold(c@, n@).0,
            r@ == old(self)@.fold(c@, n@).1,
        decreases n, 2nat,
    {
        match n {
            Node::Spread { dot3, expr } => {
                let e = self.fold(c, expr);
                Node::spread(*dot3, e)
            },
            Node::Sequence { span, exprs } => {
                let es = self.fold_sequence(c, exprs);
                Node::sequence(*span, es)
            },
            Node::Await { span, arg } => {
                let a = self.fold(c, arg);
                Node::await_of(*span, a)
            },
            Node::Arrow { tag, params, body } => {
                let ps = self.fold_all(c, params);
                let b = self.fold(c, body);
                Node::arrow(*tag, ps, b)
            },
            Node::FnExpr { ident, function } => {
                let i = self.fold_opt_ident(c, ident);
                let f = self.fold(c, function);
                Node::fn_expr(i, f)
            },
            Node::ClassExpr { ident, class } => {
                let i = self.fold_opt_ident(c, ident);
                let f = self.fold(c, class);
                Node::class_expr(i, f)
            },
            Node::KeyValue { key, value } => {
                let k = self.fold(c, key);
                let v = self.fold(c, value);
                Node::key_value(k, v)
            },
            Node::Computed { span, expr } => {
                let e = self.fold(c, expr);
                Node::computed(*span, e)
            },
            _ => clone_node(n),
        }
    }

    /// A pattern, or a pass-through node, whose parts are rewritten one
    /// after the other.
    fn fold_pat_parts(&mut self, c: &Collect, n: &Node) -> (r: Node)
        requires
            n@ is ObjectPat || n@ is Rest || n@ is ArrayPat || n@ is AssignPat || n@ is Other,
        ensures
            final(self)@ == old(self)@.fold(c@, n@).0,
            r@ == old(self)@.fold(c@, n@).1,
        decreases n, 2nat,
    {
        match n {
            Node::ObjectPat { span, props } => {
                let ps = self.fold_all(c, props);
                Node::object_pat(*span, ps)
            },
            Node::Rest { span, dot3, arg } => {
                let a = self.fold(c, arg);
                Node::rest(*span, *dot3, a)
            },
            Node::ArrayPat { span, elems } => {
                let es = self.fold_all(c, elems);
                Node::array_pat(*span, es)
            },
            Node::AssignPat { span, left, right } => {
                let l = self.fold(c, left);
                let r = self.fold(c, right);
                Node::assign_pat(*span, l, r)
            },
            Node::Other { tag, children } => {
                let cs = self.fold_all(c, children);
                Node::other(*tag, cs)
            },
            _ => clone_node(n),
        }
    }

    /// A statement whose parts are rewritten one after the other.
    fn fold_stmt_parts(&mut self, c: &Collect, n: &Node) -> (r: Node)
        requires
            n@ is ExprStmt || n@ is VarDecl || n@ is Declarator || n@ is Return,
        ensures
            final(self)@ == old(self)@.fold(c@, n@).0,
            r@ == old(self)@.fold(c@, n@).1,
        decreases n, 2nat,
    {
        match n {
            Node::ExprStmt { span, expr } => {
                let e = self.fold(c, expr);
                Node::expr_stmt(*span, e)
            },
            Node::VarDecl { span, kind, declare, decls } => {
                let ds = self.fold_all(c, decls);
                Node::var_decl(*span, *kind, *declare, ds)
            },
            Node::Declarator { span, name, init, definite } => {
                let nm = self.fold(c, name);
                match init {
                    Some(e) => {
                        let e2 = self.fold(c, e);
                        Node::declarator(*span, nm, Some(e2), *definite)
                    },
                    None => Node::declarator(*span, nm, None, *definite),
                }
            },
            Node::Return { span, arg } => match arg {
                Some(a) => {
                    let a2 = self.fold(c, a);
                    Node::return_of(*span, Some(a2))
                },
                None => Node::return_of(*span, None),
            },
            _ => clone_node(n),
        }
    }

    /// A declaration whose parts are rewritten one after the other.
    fn fold_decl_parts(&mut self, c: &Collect, n: &Node) -> (r: Node)
        requires
            n@ is FnDecl || n@ is ClassDecl || n@ is ExportDefaultExpr || n@ is ExportDefaultDecl
                || n@ is ExportDecl,
        ensures
            final(self)@ == old(self)@.fold(c@, n@).0,
            r@ == old(self)@.fold(c@, n@).1,
        decreases n, 2nat,
    {
        match n {
            Node::FnDecl { ident, declare, function } => {
                let i = self.fold_ident(c, ident);
                let f = self.fold(c, function);
                Node::fn_decl(i, *declare, f)
            },
            Node::ClassDecl { ident, declare, class } => {
                let i = self.fold_ident(c, ident);
                let f = self.fold(c, class);
                Node::class_decl(i, *declare, f)
            },
            Node::ExportDefaultExpr { span, expr } => {
                let e = self.fold(c, expr);
                Node::export_default_expr(*span, e)
            },
            Node::ExportDefaultDecl { span, decl } => {
                let d = self.fold(c, decl);
                Node::export_default_decl(*span, d)
            },
            Node::ExportDecl { span, decl } => {
                let d = self.fold(c, decl);
                Node::export_decl(*span, d)
            },
            _ => clone_node(n),
        }
    }

    /// Rewrites the nodes of a list in order.
    pub fn fold_all(&mut self, c: &Collect, ns: &Vec<Node>) -> (r: Vec<Node>)
        ensures
            final(self)@ == old(self)@.fold_all(c@, nodes_view(ns@), ns@.len()).0,
            nodes_view(r@) == old(self)@.fold_all(c@, nodes_view(ns@), ns@.len()).1,
        decreases ns, ns@.len(),
    {
        let mut out: Vec<Node> = Vec::new();
        assert(nodes_view(out@) =~= Seq::empty());
        let mut k: usize = 0;
        while k < ns.len()
            invariant
                k <= ns.len(),
                self@ == old(self)@.fold_all(c@, nodes_view(ns@), k as nat).0,
                nodes_view(out@) == old(self)@.fold_all(c@, nodes_view(ns@), k as nat).1,
            decreases ns.len() - k,
        {
            let x = self.fold(c, &ns[k]);
            proof {
                lemma_nodes_view_push(out@, x);
            }
            out.push(x);
            k += 1;
        }
        out
    }

    fn fold_sequence(&mut self, c: &Collect, ns: &Vec<Node>) -> (r: Vec<Node>)
        ensures
            final(self)@ == old(self)@.fold_sequence(c@, nodes_view(ns@), ns@.len()).0,
            nodes_view(r@) == old(self)@.fold_sequence(c@, nodes_view(ns@), ns@.len()).1,
        decreases ns, ns@.len(),
    {
        let mut out: Vec<Node> = Vec::new();
        assert(nodes_view(out@) =~= Seq::empty());
        let mut k: usize = 0;
        while k < ns.len()
            invariant
                k <= ns.len(),
                self@ == old(self)@.fold_sequence(c@, nodes_view(ns@), k as nat).0,
                nodes_view(out@) == old(self)@.fold_sequence(c@, nodes_view(ns@), k as nat).1,
            decreases ns.len() - k,
        {
            let guarded = k + 1 != ns.len() && c.match_require(&ns[k]).is_some();
            let x = self.fold(c, &ns[k]);
            let y = if guarded {
                Node::unary(dummy_sp(), UnaryOp::Bang, x)
            } else {
                x
            };
            proof {
                lemma_nodes_view_push(out@, y);
            }
            out.push(y);
            k += 1;
        }
        out
    }

    fn fold_member(&mut self, c: &Collect, n: &Node) -> (r: Node)
        ensures
            final(self)@ == old(self)@.fold_member(c@, n@).0,
            r@ == old(self)@.fold_member(c@, n@).1,
        decreases n, 0nat,
    {
        match n {
            Node::Member { span, obj, prop, computed } => {
                match self.member_rewrite(c, n) {
                    Some(r) => {
                        return r;
                    },
                    None => {},
                }
                match get_static_key(prop, *computed) {
                    None => {
                        let o = self.fold(c, obj);
                        let p = self.fold(c, prop);
                        Node::member(*span, o, p, *computed)
                    },
                    Some(_) => {
                        self.member_note(c, n);
                        let o = self.fold(c, obj);
                        Node::member(*span, o, clone_node(prop), *computed)
                    },
                }
            },
            _ => clone_node(n),
        }
    }

    fn fold_call(&mut self, c: &Collect, n: &Node) -> (r: Node)
        ensures
            final(self)@ == old(self)@.fold_call(c@, n@).0,
            r@ == old(self)@.fold_call(c@, n@).1,
        decreases n, 0nat,
    {
        match n {
            Node::Call { span, callee, args } => {
                match self.call_rewrite(c, n) {
                    Some(r) => {
                        return r;
                    },
                    None => {},
                }
                let f = self.fold(c, callee);
                let a = self.fold_all(c, args);
                Node::call(*span, f, a)
            },
            _ => clone_node(n),
        }
    }

    fn fold_unary(&mut self, c: &Collect, n: &Node) -> (r: Node)
        ensures
            final(self)@ == old(self)@.fold_unary(c@, n@).0,
            r@ == old(self)@.fold_unary(c@, n@).1,
        decreases n, 0nat,
    {
        match n {
            Node::Unary { span, op, arg } => {
                match self.unary_rewrite(c, n) {
                    Some(r) => {
                        return r;
                    },
                    None => {},
                }
                let a = self.fold(c, arg);
                Node::unary(*span, *op, a)
            },
            _ => clone_node(n),
        }
    }

    fn fold_assign(&mut self, c: &Collect, n: &Node) -> (r: Node)
        ensures
            final(self)@ == old(self)@.fold_assign(c@, n@).0,
            r@ == old(self)@.fold_assign(c@, n@).1,
        decreases n, 1nat,
    {
        match n {
            Node::Assign { span, op, left, right } => {
                if !c.should_wrap && c.is_cjs_exports(left) {
                    self.fold_exports_assign(c, n)
                } else if !c.should_wrap && check_assigns_export(c, left) {
                    self.fold_export_assign(c, n)
                } else {
                    let l = self.fold(c, left);
                    let r = self.fold(c, right);
                    Node::assign(*span, *op, l, r)
                }
            },
            _ => clone_node(n),
        }
    }

    /// An assignment to `module.exports`.
    fn fold_exports_assign(&mut self, c: &Collect, n: &Node) -> (r: Node)
        requires
            !c@.should_wrap,
            match n@ {
                NodeV::Assign { left, .. } => c@.is_cjs_exports(*left),
                _ => false,
            },
        ensures
            final(self)@ == old(self)@.fold_assign(c@, n@).0,
            r@ == old(self)@.fold_assign(c@, n@).1,
        decreases n, 0nat,
    {
        proof {
            reveal_with_fuel(node_view, 2);
        }
        match n {
            Node::Assign { span, op, left, right } => match &**left {
                Node::Member { span: mspan, .. } => {
                    let i = self.export_ident(*mspan, &star_string());
                    let r = self.fold(c, right);
                    Node::assign(*span, *op, Node::BindingIdent(i), r)
                },
                _ => clone_node(n),
            },
            _ => clone_node(n),
        }
    }

    /// An assignment to a property of the exports object.
    fn fold_export_assign(&mut self, c: &Collect, n: &Node) -> (r: Node)
        requires
            !c@.should_wrap,
            match n@ {
                NodeV::Assign { left, .. } => !c@.is_cjs_exports(*left) && HoistV::assigns_export(
                    c@,
                    *left,
                ),
                _ => false,
            },
        ensures
            final(self)@ == old(self)@.fold_assign(c@, n@).0,
            r@ == old(self)@.fold_assign(c@, n@).1,
        decreases n, 0nat,
    {
        proof {
            reveal_with_fuel(node_view, 2);
        }
        match n {
            Node::Assign { span, op, left, right } => match &**left {
                Node::Member { span: mspan, prop, computed, .. } => {
                    match get_static_key(prop, *computed) {
                        Some(k) => {
                            if c.static_cjs_exports {
                                let i = self.export_ident(*mspan, &k);
                                self.add_export_decl(i.sym.clone());
                                let r = self.fold(c, right);
                                return Node::assign(*span, *op, Node::BindingIdent(i), r);
                            }
                        },
                        None => {},
                    }
                    let i = self.export_ident(*mspan, &star_string());
                    let p = self.fold(c, prop);
                    let r = self.fold(c, right);
                    let target = Node::member(*mspan, Node::Ident(i), p, *computed);
                    Node::assign(*span, *op, target, r)
                },
                _ => clone_node(n),
            },
            _ => clone_node(n),
        }
    }

    fn fold_function(&mut self, c: &Collect, n: &Node) -> (r: Node)
        ensures
            final(self)@ == old(self)@.fold_function(c@, n@).0,
            r@ == old(self)@.fold_function(c@, n@).1,
        decreases n, 0nat,
    {
        let saved = self.in_function_scope;
        match n {
            Node::Function { tag, params, body } => {
                self.set_in_function_scope(true);
                let ps = self.fold_all(c, params);
                let b = self.fold_all(c, body);
                self.set_in_function_scope(saved);
                Node::function(*tag, ps, b)
            },
            Node::Scope { tag, children } => {
                self.set_in_function_scope(true);
                let cs = self.fold_all(c, children);
                self.set_in_function_scope(saved);
                Node::scope(*tag, cs)
            },
            _ => clone_node(n),
        }
    }

    fn fold_assign_pat_prop(&mut self, c: &Collect, n: &Node) -> (r: Node)
        ensures
            final(self)@ == old(self)@.fold_assign_pat_prop(c@, n@).0,
            r@ == old(self)@.fold_assign_pat_prop(c@, n@).1,
        decreases n, 0nat,
    {
        match n {
            Node::AssignPatProp { span, key, value } => {
                let k = self.fold_ident(c, key);
                let plain_key = Node::Key(Ident { sym: key.sym.clone(), span: dummy_sp() });
                match value {
                    Some(v) => {
                        let v2 = self.fold(c, v);
                        if c.should_wrap {
                            Node::assign_pat_prop(*span, k, Some(v2))
                        } else {
                            Node::key_value(
                                plain_key,
                                Node::assign_pat(dummy_sp(), Node::BindingIdent(k), v2),
                            )
                        }
                    },
                    None => {
                        if c.should_wrap {
                            Node::assign_pat_prop(*span, k, None)
                        } else {
                            Node::key_value(plain_key, Node::BindingIdent(k))
                        }
                    },
                }
            },
            _ => clone_node(n),
        }
    }

    fn add_stand_ins(&mut self, c: &Collect, idents: &Vec<Ident>, span: Span, source: &String)
        ensures
            final(self)@ == old(self)@.add_stand_ins(
                c@,
                idents_view(idents@),
                idents@.len(),
                span,
                source@,
            ),
    {
        let mut k: usize = 0;
        while k < idents.len()
            invariant
                k <= idents.len(),
                self@ == old(self)@.add_stand_ins(
                    c@,
                    idents_view(idents@),
                    k as nat,
                    span,
                    source@,
                ),
            decreases idents.len() - k,
        {
            let i = &idents[k];
            match c.imports.get(&i.id()) {
                Some(imp) => {
                    let require_id = self.require_ident(&i.sym);
                    let import_id = self.import_ident(span, source, &imp.specifier, span);
                    self.push_item(
                        make_single_var(dummy_sp(), require_id, Some(Node::Ident(import_id))),
                    );
                },
                None => {},
            }
            k += 1;
        }
    }

    fn handle_non_const_require(&mut self, c: &Collect, name: &Node, span: Span, source: &String)
        ensures
            final(self)@ == old(self)@.handle_non_const_require(c@, name@, span, source@),
    {
        let mut idents: Vec<Ident> = Vec::new();
        assert(idents_view(idents@) =~= Seq::empty());
        get_non_const_idents(c, name, &mut idents);
        self.add_stand_ins(c, &idents, span, source);
    }

    fn flush(&mut self, pending: &mut Vec<Node>, span: Span, kind: VarKind, declare: bool)
        ensures
            final(self)@ == old(self)@.flush(nodes_view(old(pending)@), span, kind, declare),
            final(pending)@.len() == 0,
    {
        if pending.len() > 0 {
            let mut taken: Vec<Node> = Vec::new();
            core::mem::swap(pending, &mut taken);
            self.push_item(Node::var_decl(span, kind, declare, taken));
        }
    }

    fn fold_top_declarator(
        &mut self,
        c: &Collect,
        pending: &mut Vec<Node>,
        v: &Node,
        span: Span,
        kind: VarKind,
        declare: bool,
    )
        ensures
            final(self)@ == old(self)@.fold_top_declarator(
                c@,
                nodes_view(old(pending)@),
                v@,
                span,
                kind,
                declare,
            ).0,
            nodes_view(final(pending)@) == old(self)@.fold_top_declarator(
                c@,
                nodes_view(old(pending)@),
                v@,
                span,
                kind,
                declare,
            ).1,
    {
        let source = match v {
            Node::Declarator { init, .. } => get_hoistable_source(c, init),
            _ => None,
        };
        match (v, source) {
            (Node::Declarator { span: vspan, name, .. }, Some(src)) => {
                self.flush(pending, span, kind, declare);
                self.add_require(&src);
                self.handle_non_const_require(c, name, *vspan, &src);
                assert(nodes_view(pending@) =~= Seq::empty());
            },
            _ => {
                let items_len = self.items_len();
                let d = self.fold(c, v);
                if self.items_len() > items_len && pending.len() > 0 {
                    let mut taken: Vec<Node> = Vec::new();
                    core::mem::swap(pending, &mut taken);
                    self.insert_item(items_len, Node::var_decl(span, kind, declare, taken));
                    pending.push(d);
                    assert(nodes_view(pending@) =~= seq![d@]);
                } else {
                    proof {
                        lemma_nodes_view_push(pending@, d);
                    }
                    pending.push(d);
                }
            },
        }
    }

    fn fold_top_declarators(
        &mut self,
        c: &Collect,
        decls: &Vec<Node>,
        span: Span,
        kind: VarKind,
        declare: bool,
    ) -> (pending: Vec<Node>)
        ensures
            final(self)@ == old(self)@.fold_top_declarators(
                c@,
                nodes_view(decls@),
                decls@.len(),
                span,
                kind,
                declare,
            ).0,
            nodes_view(pending@) == old(self)@.fold_top_declarators(
                c@,
                nodes_view(decls@),
                decls@.len(),
                span,
                kind,
                declare,
            ).1,
    {
        let mut pending: Vec<Node> = Vec::new();
        assert(nodes_view(pending@) =~= Seq::empty());
        let mut k: usize = 0;
        while k < decls.len()
            invariant
                k <= decls.len(),
                self@ == old(self)@.fold_top_declarators(
                    c@,
                    nodes_view(decls@),
                    k as nat,
                    span,
                    kind,
                    declare,
                ).0,
                nodes_view(pending@) == old(self)@.fold_top_declarators(
                    c@,
                    nodes_view(decls@),
                    k as nat,
                    span,
                    kind,
                    declare,
                ).1,
            decreases decls.len() - k,
        {
            self.fold_top_declarator(c, &mut pending, &decls[k], span, kind, declare);
            k += 1;
        }
        pending
    }

    fn check_import_specifiers(&mut self, c: &Collect, sps: &Vec<ImportSpecifier>)
        ensures
            final(self)@ == old(self)@.check_import_specifiers(
                c@,
                import_specs_view(sps@),
                sps@.len(),
            ),
    {
        let mut k: usize = 0;
        while k < sps.len()
            invariant
                k <= sps.len(),
                self@ == old(self)@.check_import_specifiers(
                    c@,
                    import_specs_view(sps@),
                    k as nat,
                ),
            decreases sps.len() - k,
        {
            let sp = &sps[k];
            match c.non_const_bindings.get(&sp.local.id()) {
                Some(spans) => {
                    self.add_diagnostic(make_assignment_diagnostic(spans, sp.local.span));
                },
                None => {},
            }
            k += 1;
        }
    }

    fn re_export_specifier(&mut self, src: &String, sp: &ExportSpecifier)
        ensures
            final(self)@ == old(self)@.re_export_specifier(src@, sp@),
    {
        let sym = match sp.kind {
            SpecifierKind::Named => ImportedSymbol {
                source: src.clone(),
                local: match &sp.exported {
                    Some(e) => e.sym.clone(),
                    None => sp.name.sym.clone(),
                },
                imported: sp.name.sym.clone(),
                loc: sp.span,
            },
            SpecifierKind::Default => ImportedSymbol {
                source: src.clone(),
                local: sp.name.sym.clone(),
                imported: String::from_str("default"),
                loc: sp.name.span,
            },
            SpecifierKind::Namespace => ImportedSymbol {
                source: src.clone(),
                local: sp.name.sym.clone(),
                imported: star_string(),
                loc: sp.span,
            },
        };
        self.add_re_export(sym);
    }

    fn re_export_specifiers(&mut self, src: &String, sps: &Vec<ExportSpecifier>)
        ensures
            final(self)@ == old(self)@.re_export_specifiers(
                src@,
                export_specs_view(sps@),
                sps@.len(),
            ),
    {
        let mut k: usize = 0;
        while k < sps.len()
            invariant
                k <= sps.len(),
                self@ == old(self)@.re_export_specifiers(src@, export_specs_view(sps@), k as nat),
            decreases sps.len() - k,
        {
            self.re_export_specifier(src, &sps[k]);
            k += 1;
        }
    }

    fn export_specifier(&mut self, c: &Collect, sp: &ExportSpecifier)
        ensures
            final(self)@ == old(self)@.export_specifier(c@, sp@),
    {
        if sp.kind != SpecifierKind::Named {
            return ;
        }
        let exported = match &sp.exported {
            Some(e) => e.sym.clone(),
            None => sp.name.sym.clone(),
        };
        match c.imports.get(&sp.name.id()) {
            Some(imp) => {
                self.add_re_export(
                    ImportedSymbol {
                        source: imp.source.clone(),
                        local: exported,
                        imported: imp.specifier.clone(),
                        loc: sp.span,
                    },
                );
            },
            None => match c.exports.get(&sp.name.id()) {
                Some(orig) => {
                    if c.should_wrap {
                        self.add_exported(
                            ExportedSymbol { local: orig.clone(), exported, loc: sp.span },
                        );
                    } else {
                        let i = self.export_ident(dummy_sp(), orig);
                        self.add_exported(ExportedSymbol { local: i.sym, exported, loc: sp.span });
                    }
                },
                None => {},
            },
        }
    }

    fn export_specifiers(&mut self, c: &Collect, sps: &Vec<ExportSpecifier>)
        ensures
            final(self)@ == old(self)@.export_specifiers(c@, export_specs_view(sps@), sps@.len()),
    {
        let mut k: usize = 0;
        while k < sps.len()
            invariant
                k <= sps.len(),
                self@ == old(self)@.export_specifiers(c@, export_specs_view(sps@), k as nat),
            decreases sps.len() - k,
        {
            self.export_specifier(c, &sps[k]);
            k += 1;
        }
    }

    fn default_decl_ident(&mut self, c: &Collect, ident: &Option<Ident>) -> (r: Ident)
        ensures
            final(self)@ == old(self)@.default_decl_ident(c@, opt_ident_view(*ident)).0,
            r@ == old(self)@.default_decl_ident(c@, opt_ident_view(*ident)).1,
    {
        match ident {
            Some(i) => if c.should_wrap {
                return i.duplicate();
            },
            None => {},
        }
        self.export_ident(dummy_sp(), &String::from_str("default"))
    }

    /// `export default` before a function or a class, at the top level.
    fn fold_default_decl(&mut self, c: &Collect, n: &Node)
        requires
            n@ is ExportDefaultDecl,
        ensures
            final(self)@ == old(self)@.fold_item(c@, Seq::empty(), n@).0,
    {
        proof {
            reveal_with_fuel(node_view, 2);
        }
        match n {
            Node::ExportDefaultDecl { decl, .. } => match &**decl {
                Node::ClassExpr { ident, class } => {
                    let i = self.default_decl_ident(c, ident);
                    let k = self.fold(c, class);
                    self.push_item(Node::class_decl(i, false, k));
                },
                Node::FnExpr { ident, function } => {
                    let i = self.default_decl_ident(c, ident);
                    let f = self.fold(c, function);
                    self.push_item(Node::fn_decl(i, false, f));
                },
                _ => {
                    let d = self.fold(c, decl);
                    self.push_item(d);
                },
            },
            _ => {},
        }
    }

    /// Rewrites one top-level item; what belongs at the top of the module
    /// is added to `hoisted`.
    pub fn fold_item(&mut self, c: &Collect, hoisted: &mut Vec<Node>, n: &Node)
        ensures
            final(self)@ == old(self)@.fold_item(c@, nodes_view(old(hoisted)@), n@).0,
            nodes_view(final(hoisted)@) == old(self)@.fold_item(
                c@,
                nodes_view(old(hoisted)@),
                n@,
            ).1,
    {
        match n {
            Node::Import { specifiers, src, .. } => {
                let item = make_hoisted_import(&self.module_id, src);
                proof {
                    lemma_nodes_view_push(hoisted@, item);
                }
                hoisted.push(item);
                self.check_import_specifiers(c, specifiers);
            },
            Node::ExportNamed { specifiers, src, .. } => match src {
                Some(s) => {
                    let item = make_hoisted_import(&self.module_id, s);
                    proof {
                        lemma_nodes_view_push(hoisted@, item);
                    }
                    hoisted.push(item);
                    self.re_export_specifiers(s, specifiers);
                },
                None => {
                    self.export_specifiers(c, specifiers);
                },
            },
            Node::ExportAll { span, src } => {
                let item = make_hoisted_import(&self.module_id, src);
                proof {
                    lemma_nodes_view_push(hoisted@, item);
                }
                hoisted.push(item);
                self.add_re_export(
                    ImportedSymbol {
                        source: src.clone(),
                        local: star_string(),
                        imported: star_string(),
                        loc: *span,
                    },
                );
            },
            Node::ExportDefaultExpr { span, expr } => {
                let i = self.export_ident(*span, &String::from_str("default"));
                let e = self.fold(c, expr);
                self.push_item(make_single_var(dummy_sp(), i, Some(e)));
            },
            Node::ExportDefaultDecl { .. } => {
                self.fold_default_decl(c, n);
            },
            Node::ExportDecl { decl, .. } => {
                let d = self.fold(c, decl);
                self.push_item(d);
            },
            Node::VarDecl { span, kind, declare, decls } => {
                let mut pending = self.fold_top_declarators(c, decls, *span, *kind, *declare);
                self.flush(&mut pending, *span, *kind, *declare);
            },
            Node::ExprStmt { span, expr } => match c.match_require(expr) {
                Some(source) => {
                    self.add_require(&source);
                },
                None => {
                    let e = self.fold(c, expr);
                    self.push_item(Node::expr_stmt(*span, e));
                },
            },
            _ => {
                let d = self.fold(c, n);
                self.push_item(d);
            },
        }
    }

    fn fold_items(&mut self, c: &Collect, hoisted: &mut Vec<Node>, ns: &Vec<Node>)
        ensures
            final(self)@ == old(self)@.fold_items(
                c@,
                nodes_view(old(hoisted)@),
                nodes_view(ns@),
                ns@.len(),
            ).0,
            nodes_view(final(hoisted)@) == old(self)@.fold_items(
                c@,
                nodes_view(old(hoisted)@),
                nodes_view(ns@),
                ns@.len(),
            ).1,
    {
        let mut k: usize = 0;
        while k < ns.len()
            invariant
                k <= ns.len(),
                self@ == old(self)@.fold_items(
                    c@,
                    nodes_view(old(hoisted)@),
                    nodes_view(ns@),
                    k as nat,
                ).0,
                nodes_view(hoisted@) == old(self)@.fold_items(
                    c@,
                    nodes_view(old(hoisted)@),
                    nodes_view(ns@),
                    k as nat,
                ).1,
            decreases ns.len() - k,
        {
            self.fold_item(c, hoisted, &ns[k]);
            k += 1;
        }
    }

    /// One `var <name>;` for every export name that was assigned to.
    fn export_decl_vars(&self, span: Span) -> (r: Vec<Node>)
        ensures
            nodes_view(r@) == export_decl_vars(self@.export_decls, self@.export_decls.len(), span),
            self@.export_decls.no_duplicates(),
    {
        let mut out: Vec<Node> = Vec::new();
        assert(nodes_view(out@) =~= Seq::empty());
        let n = self.export_decls.len();
        let mut k: usize = 0;
        while k < n
            invariant
                k <= n,
                n == self@.export_decls.len(),
                nodes_view(out@) == export_decl_vars(self@.export_decls, k as nat, span),
            decreases n - k,
        {
            let name = Ident { sym: self.export_decls.item(k).clone(), span: dummy_sp() };
            let item = make_single_var(span, name, None);
            proof {
                lemma_nodes_view_push(out@, item);
            }
            out.push(item);
            k += 1;
        }
        out
    }

    /// Rewrites a whole module. No export name is declared twice at the
    /// top of the new body.
    pub fn fold_module(&mut self, c: &Collect, m: &Module) -> (r: Module)
        ensures
            final(self)@ == old(self)@.fold_module(c@, m@).0,
            r@ == old(self)@.fold_module(c@, m@).1,
            old(self)@.declared_exports(c@, m@).no_duplicates(),
    {
        let mut body: Vec<Node> = Vec::new();
        assert(nodes_view(body@) =~= Seq::empty());
        self.fold_items(c, &mut body, &m.body);
        let mut vars = self.export_decl_vars(m.span);
        proof {
            lemma_nodes_view_add(body@, vars@);
        }
        body.append(&mut vars);
        let mut items: Vec<Node> = Vec::new();
        assert(nodes_view(items@) =~= Seq::empty());
        core::mem::swap(&mut self.module_items, &mut items);
        proof {
            lemma_nodes_view_add(body@, items@);
        }
        body.append(&mut items);
        self.export_decls = StrSet::new();
        Module { span: m.span, body, shebang: clone_opt_string(&m.shebang) }
    }
}

/// What the two passes make of a module: the facts, the state of the
/// rewrite at its end, and the new tree.
pub open spec fn hoisted(
    module: crate::ast::ModuleV,
    module_id: Seq<char>,
    decls: Seq<crate::ast::IdV>,
    ignored: Seq<u32>,
    global_ctxt: u32,
    trace_bailouts: bool,
) -> (CollectV, HoistV, crate::ast::ModuleV) {
    let c = CollectV::initial(decls, ignored, global_ctxt, trace_bailouts).visit_module(module);
    let (h, m) = HoistV::initial(module_id).fold_module(c, module);
    (c, h, m)
}

pub open spec fn traced(c: CollectV) -> Seq<Bailout> {
    match c.bailouts {
        Some(b) => b,
        None => Seq::empty(),
    }
}

fn copy_bailouts(c: &Collect) -> (r: Vec<Bailout>)
    ensures
        r@ == traced(c@),
{
    let mut out: Vec<Bailout> = Vec::new();
    match &c.bailouts {
        Some(b) => {
            let mut i: usize = 0;
            while i < b.len()
                invariant
                    i <= b.len(),
                    out@ == b@.take(i as int),
                decreases b.len() - i,
            {
                out.push(b[i]);
                assert(out@ =~= b@.take(i + 1));
                i += 1;
            }
            assert(b@.take(b@.len() as int) =~= b@);
        },
        None => {},
    }
    out
}

/// Analyses and rewrites one module. `decls` are the bindings that its top
/// level declares, `ignored` the scopes that mark synthetic names,
/// `global_ctxt` the scope of the top level. The module is rejected, with
/// the diagnostics that say why, where an import binding is assigned to;
/// else the new tree comes back with the summary and the bailouts that
/// were traced. No export name is declared twice at the top of the new
/// tree.
pub fn hoist(
    module: Module,
    module_id: &str,
    decls: Vec<Id>,
    ignored: Vec<u32>,
    global_ctxt: u32,
    trace_bailouts: bool,
) -> (r: Result<(Module, HoistResult, Vec<Bailout>), Vec<Diagnostic>>)
    ensures
        ({
            let (c, h, m) = hoisted(
                module@,
                module_id@,
                crate::table::ids_view(decls@),
                ignored@,
                global_ctxt,
                trace_bailouts,
            );
            match r {
                Ok((m2, res, bailouts)) => h.diagnostics.len() == 0 && m2@ == m && res@ == h.result(
                    c,
                ) && bailouts@ == traced(c),
                Err(d) => h.diagnostics.len() > 0 && diagnostics_view(d@) == h.diagnostics,
            }
        }),
        HoistV::initial(module_id@).declared_exports(
            CollectV::initial(
                crate::table::ids_view(decls@),
                ignored@,
                global_ctxt,
                trace_bailouts,
            ).visit_module(module@),
            module@,
        ).no_duplicates(),
{
    let mut collect = Collect::new(decls, ignored, global_ctxt, trace_bailouts);
    collect.visit_module(&module);
    let mut hoist = Hoist::new(module_id);
    let rewritten = hoist.fold_module(&collect, &module);
    if hoist.diagnostics.len() > 0 {
        return Err(hoist.diagnostics);
    }
    let bailouts = copy_bailouts(&collect);
    let result = hoist.get_result(&collect);
    Ok((rewritten, result, bailouts))
}

} // verus!
