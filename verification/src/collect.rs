//! The analysis: one walk over a module that fills the fact base.
use crate::ast::{dummy_sp, node_view, nodes_view, Id, Ident, Module, Node, Span, SpecifierKind};
use crate::ast::{ExportSpecifier, ImportSpecifier, UnaryOp};
use crate::ast::{export_specs_view, import_specs_view};
use crate::diag::{sort_bailouts, Bailout, BailoutReason};
use crate::facts::{
    access_bailouts, first_param, is_module_decl, late_bailouts, prop_key_name, CollectV, Import,
    ImportKind,
};
use crate::matchers::{
    get_arg_expr, get_pat_span, get_static_key, has_binding_identifier, match_import,
    match_member_expr, match_require,
};
use crate::table::{ids_view, id_in, StrSet, Table};
use crate::text::is_word;
use vstd::prelude::*;
use vstd::string::StringExecFns;

verus! {

/// The fact base of one module, being filled or complete.
#[derive(Debug)]
pub struct Collect {
    pub decls: Vec<Id>,
    pub ignored: Vec<u32>,
    pub global_ctxt: u32,
    pub static_cjs_exports: bool,
    pub has_cjs_exports: bool,
    pub is_esm: bool,
    pub should_wrap: bool,
    pub imports: Table<Import>,
    pub exports: Table<String>,
    pub non_static_access: Table<Vec<Span>>,
    pub non_const_bindings: Table<Vec<Span>>,
    pub non_static_requires: StrSet,
    pub wrapped_requires: StrSet,
    pub in_module_this: bool,
    pub in_top_level: bool,
    pub in_export_decl: bool,
    pub in_function: bool,
    pub in_assign: bool,
    pub bailouts: Option<Vec<Bailout>>,
}

impl View for Collect {
    type V = CollectV;

    open spec fn view(&self) -> CollectV {
        CollectV {
            decls: ids_view(self.decls@),
            ignored: self.ignored@,
            global_ctxt: self.global_ctxt,
            static_cjs_exports: self.static_cjs_exports,
            has_cjs_exports: self.has_cjs_exports,
            is_esm: self.is_esm,
            should_wrap: self.should_wrap,
            imports: self.imports@,
            exports: self.exports@,
            non_static_access: self.non_static_access@,
            non_const_bindings: self.non_const_bindings@,
            non_static_requires: self.non_static_requires@,
            wrapped_requires: self.wrapped_requires@,
            in_module_this: self.in_module_this,
            in_top_level: self.in_top_level,
            in_export_decl: self.in_export_decl,
            in_function: self.in_function,
            in_assign: self.in_assign,
            bailouts: match self.bailouts {
                Some(b) => Some(b@),
                None => None,
            },
        }
    }
}

/// The module flags only ever move towards the conservative side, and
/// what the analysis was given stays as it was.
pub open spec fn sticky(a: CollectV, b: CollectV) -> bool {
    &&& a.should_wrap ==> b.should_wrap
    &&& !a.static_cjs_exports ==> !b.static_cjs_exports
    &&& a.has_cjs_exports ==> b.has_cjs_exports
    &&& a.is_esm ==> b.is_esm
    &&& a.decls == b.decls
    &&& a.ignored == b.ignored
    &&& a.global_ctxt == b.global_ctxt
    &&& a.bailouts.is_some() == b.bailouts.is_some()
}

/// The first parameter of a function expression or an arrow function.
fn get_first_param(callback: &Node) -> (r: Option<&Node>)
    ensures
        match r {
            Some(p) => first_param(callback@) == Some(p@),
            None => first_param(callback@).is_none(),
        },
{
    proof {
        reveal_with_fuel(node_view, 3);
        reveal_with_fuel(nodes_view, 3);
    }
    match callback {
        Node::FnExpr { function, .. } => match &**function {
            Node::Function { params, .. } => if params.len() > 0 {
                Some(&params[0])
            } else {
                None
            },
            _ => None,
        },
        Node::Arrow { params, .. } => if params.len() > 0 {
            Some(&params[0])
        } else {
            None
        },
        _ => None,
    }
}

fn get_prop_key_name(key: &Node) -> (r: Option<String>)
    ensures
        crate::ast::opt_str_view(r) == prop_key_name(key@),
{
    match key {
        Node::Key(i) => Some(i.sym.clone()),
        Node::Str { value, .. } => Some(value.clone()),
        _ => None,
    }
}

fn check_module_decl(n: &Node) -> (r: bool)
    ensures
        r == is_module_decl(n@),
{
    match n {
        Node::Import { .. } => true,
        Node::ExportNamed { .. } => true,
        Node::ExportAll { .. } => true,
        Node::ExportDefaultExpr { .. } => true,
        Node::ExportDefaultDecl { .. } => true,
        Node::ExportDecl { .. } => true,
        _ => false,
    }
}

impl Collect {
    /// An empty fact base for a module whose top level declares `decls`,
    /// in which the scopes `ignored` mark synthetic names and
    /// `global_ctxt` is the scope of the top level.
    pub fn new(decls: Vec<Id>, ignored: Vec<u32>, global_ctxt: u32, trace_bailouts: bool) -> (r:
        Self)
        ensures
            r@ == CollectV::initial(ids_view(decls@), ignored@, global_ctxt, trace_bailouts),
    {
        Collect {
            decls,
            ignored,
            global_ctxt,
            static_cjs_exports: true,
            has_cjs_exports: false,
            is_esm: false,
            should_wrap: false,
            imports: Table::new(),
            exports: Table::new(),
            non_static_access: Table::new(),
            non_const_bindings: Table::new(),
            non_static_requires: StrSet::new(),
            wrapped_requires: StrSet::new(),
            in_module_this: true,
            in_top_level: true,
            in_export_decl: false,
            in_function: false,
            in_assign: false,
            bailouts: if trace_bailouts {
                Some(Vec::new())
            } else {
                None
            },
        }
    }

    /// The specifier that `node` requires, where it is a call of a free
    /// `require` with a string literal.
    pub fn match_require(&self, node: &Node) -> (r: Option<String>)
        ensures
            crate::ast::opt_str_view(r) == self@.require_of(node@),
    {
        match_require(node, &self.decls, &self.ignored)
    }

    /// The specifier that `node` imports, where it is a call of `import`
    /// with a string literal.
    pub fn match_import(&self, node: &Node) -> (r: Option<String>)
        ensures
            crate::ast::opt_str_view(r) == self@.import_of(node@),
    {
        match_import(node, &self.ignored)
    }

    /// Whether the module declares the binding that `i` names.
    pub fn declares(&self, i: &Ident) -> (r: bool)
        ensures
            r == self@.declares(i@),
    {
        id_in(&self.decls, &i.id())
    }

    /// Whether `n` is `module.exports`, with `module` free.
    pub fn is_cjs_exports(&self, n: &Node) -> (r: bool)
        ensures
            r == self@.is_cjs_exports(n@),
    {
        match_member_expr(n, "module", "exports", &self.decls)
    }

    fn add_bailout(&mut self, loc: Span, reason: BailoutReason)
        ensures
            final(self)@ == old(self)@.bail(loc, reason),
            sticky(old(self)@, final(self)@),
    {
        match &mut self.bailouts {
            Some(b) => {
                b.push(Bailout { loc, reason });
            },
            None => {},
        }
    }

    fn wrap_require(&mut self, src: &String)
        ensures
            final(self)@ == old(self)@.wrap_require(src@),
            sticky(old(self)@, final(self)@),
    {
        self.wrapped_requires.insert(src.clone());
    }

    fn keep_require(&mut self, src: &String)
        ensures
            final(self)@ == old(self)@.keep_require(src@),
            sticky(old(self)@, final(self)@),
    {
        self.non_static_requires.insert(src.clone());
    }

    fn touch_exports(&mut self, is_static: bool, span: Span)
        ensures
            final(self)@ == old(self)@.touch_exports(is_static, span),
            sticky(old(self)@, final(self)@),
    {
        self.has_cjs_exports = true;
        if !is_static {
            self.static_cjs_exports = false;
            self.add_bailout(span, BailoutReason::NonStaticExports);
        }
    }

    fn lose_exports(&mut self)
        ensures
            final(self)@ == old(self)@.lose_exports(),
            sticky(old(self)@, final(self)@),
    {
        self.has_cjs_exports = true;
        self.static_cjs_exports = false;
    }

    fn must_wrap(&mut self)
        ensures
            final(self)@ == old(self)@.must_wrap(),
            sticky(old(self)@, final(self)@),
    {
        self.should_wrap = true;
    }

    fn set_in_function(&mut self, b: bool)
        ensures
            final(self)@ == old(self)@.with_in_function(b),
            sticky(old(self)@, final(self)@),
    {
        self.in_function = b;
    }

    fn set_in_module_this(&mut self, b: bool)
        ensures
            final(self)@ == old(self)@.with_in_module_this(b),
            sticky(old(self)@, final(self)@),
    {
        self.in_module_this = b;
    }

    fn set_in_top_level(&mut self, b: bool)
        ensures
            final(self)@ == old(self)@.with_in_top_level(b),
            sticky(old(self)@, final(self)@),
    {
        self.in_top_level = b;
    }

    fn set_in_export_decl(&mut self, b: bool)
        ensures
            final(self)@ == old(self)@.with_in_export_decl(b),
            sticky(old(self)@, final(self)@),
    {
        self.in_export_decl = b;
    }

    fn set_in_assign(&mut self, b: bool)
        ensures
            final(self)@ == old(self)@.with_in_assign(b),
            sticky(old(self)@, final(self)@),
    {
        self.in_assign = b;
    }

    fn set_esm(&mut self)
        ensures
            final(self)@ == old(self)@.esm(),
            sticky(old(self)@, final(self)@),
    {
        self.is_esm = true;
    }

    fn note_access(&mut self, id: Id, span: Span)
        ensures
            final(self)@ == old(self)@.note_access(id@, span),
            sticky(old(self)@, final(self)@),
    {
        self.non_static_access.append(id, span);
    }

    fn note_reassign(&mut self, id: Id, span: Span)
        ensures
            final(self)@ == old(self)@.note_reassign(id@, span),
            sticky(old(self)@, final(self)@),
    {
        self.non_const_bindings.append(id, span);
    }

    fn add_import(&mut self, id: Id, source: &String, specifier: String, kind: ImportKind, loc: Span)
        ensures
            final(self)@ == old(self)@.add_import(id@, source@, specifier@, kind, loc),
            sticky(old(self)@, final(self)@),
    {
        self.imports.insert(id, Import { source: source.clone(), specifier, kind, loc });
    }

    fn export_as(&mut self, id: Id, name: String)
        ensures
            final(self)@ == old(self)@.export_as(id@, name@),
            sticky(old(self)@, final(self)@),
    {
        self.exports.insert(id, name);
    }

    fn export_first_as(&mut self, id: Id, name: String)
        ensures
            final(self)@ == old(self)@.export_first_as(id@, name@),
            sticky(old(self)@, final(self)@),
    {
        self.exports.insert_if_absent(id, name);
    }

    fn visit_binding(&mut self, i: &Ident)
        ensures
            final(self)@ == old(self)@.visit_binding(i@),
            sticky(old(self)@, final(self)@),
    {
        if self.in_export_decl {
            self.export_as(i.id(), i.sym.clone());
        }
        if self.in_assign && i.span.ctxt == self.global_ctxt {
            self.note_reassign(i.id(), i.span);
        }
    }

    fn visit_ident_expr(&mut self, i: &Ident)
        ensures
            final(self)@ == old(self)@.visit_ident_expr(i@),
            sticky(old(self)@, final(self)@),
    {
        let is_module = is_word(&i.sym, "module");
        let is_exports = is_word(&i.sym, "exports");
        if (is_module || is_exports) && !self.declares(i) {
            self.lose_exports();
            if is_module {
                self.must_wrap();
                self.add_bailout(i.span, BailoutReason::FreeModule);
            } else {
                self.add_bailout(i.span, BailoutReason::FreeExports);
            }
        }
        if !is_word(&i.sym, "import") {
            self.note_access(i.id(), i.span);
        }
    }

    fn visit_this(&mut self, span: Span)
        ensures
            final(self)@ == old(self)@.visit_this(span),
            sticky(old(self)@, final(self)@),
    {
        if self.in_module_this {
            self.lose_exports();
            self.add_bailout(span, BailoutReason::FreeExports);
        }
    }

    fn pat_preamble(&mut self, span: Span, src: &String, kind: ImportKind)
        ensures
            final(self)@ == old(self)@.pat_preamble(span, src@, kind),
            sticky(old(self)@, final(self)@),
    {
        if !self.in_top_level {
            self.wrap_require(src);
            if kind != ImportKind::DynamicImport {
                self.keep_require(src);
                self.add_bailout(span, BailoutReason::NonTopLevelRequire);
            }
        }
    }

    fn non_static_destructuring(&mut self, span: Span, src: &String)
        ensures
            final(self)@ == old(self)@.non_static_destructuring(span, src@),
            sticky(old(self)@, final(self)@),
    {
        self.keep_require(src);
        self.add_bailout(span, BailoutReason::NonStaticDestructuring);
    }

    fn add_key_value_import(
        &mut self,
        name: Option<String>,
        value: &Node,
        obj_span: Span,
        src: &String,
        kind: ImportKind,
    )
        ensures
            final(self)@ == old(self)@.add_key_value_import(
                crate::ast::opt_str_view(name),
                value@,
                obj_span,
                src@,
                kind,
            ),
            sticky(old(self)@, final(self)@),
    {
        match name {
            None => {
                self.non_static_destructuring(obj_span, src);
            },
            Some(imported) => match value {
                Node::BindingIdent(i) => {
                    self.add_import(i.id(), src, imported, kind, i.span);
                    self.note_reassign(i.id(), i.span);
                },
                _ => {
                    self.non_static_destructuring(obj_span, src);
                },
            },
        }
    }

    fn add_prop_import(&mut self, p: &Node, obj_span: Span, src: &String, kind: ImportKind)
        ensures
            final(self)@ == old(self)@.add_prop_import(p@, obj_span, src@, kind),
            sticky(old(self)@, final(self)@),
    {
        match p {
            Node::KeyValue { key, value } => {
                self.add_key_value_import(get_prop_key_name(key), value, obj_span, src, kind);
            },
            Node::AssignPatProp { key, .. } => {
                self.add_import(key.id(), src, key.sym.clone(), kind, key.span);
                self.note_reassign(key.id(), key.span);
            },
            _ => {
                self.non_static_destructuring(obj_span, src);
            },
        }
    }

    /// Records what the pattern `pat` imports from the module `src`.
    fn add_pat_imports(&mut self, pat: &Node, src: &String, kind: ImportKind)
        ensures
            final(self)@ == old(self)@.add_pat_imports(pat@, src@, kind),
            sticky(old(self)@, final(self)@),
    {
        self.pat_preamble(get_pat_span(pat), src, kind);
        match pat {
            Node::BindingIdent(i) => {
                self.add_import(i.id(), src, String::from_str("*"), kind, i.span);
            },
            Node::ObjectPat { span, props } => {
                let ghost start = self@;
                let mut k: usize = 0;
                while k < props.len()
                    invariant
                        k <= props.len(),
                        self@ == start.add_prop_imports(
                            nodes_view(props@),
                            k as nat,
                            *span,
                            src@,
                            kind,
                        ),
                        sticky(old(self)@, self@),
                    decreases props.len() - k,
                {
                    self.add_prop_import(&props[k], *span, src, kind);
                    k += 1;
                }
            },
            _ => {
                self.non_static_destructuring(get_pat_span(pat), src);
            },
        }
    }

    fn visit_import_specifier(&mut self, src: &String, sp: &ImportSpecifier)
        ensures
            final(self)@ == old(self)@.visit_import_specifier(src@, sp@),
            sticky(old(self)@, final(self)@),
    {
        let imported = match sp.kind {
            SpecifierKind::Named => match &sp.imported {
                Some(i) => i.sym.clone(),
                None => sp.local.sym.clone(),
            },
            SpecifierKind::Default => String::from_str("default"),
            SpecifierKind::Namespace => String::from_str("*"),
        };
        self.add_import(sp.local.id(), src, imported, ImportKind::Import, sp.span);
    }

    fn visit_import_specifiers(&mut self, src: &String, sps: &Vec<ImportSpecifier>)
        ensures
            final(self)@ == old(self)@.visit_import_specifiers(
                src@,
                import_specs_view(sps@),
                sps@.len(),
            ),
            sticky(old(self)@, final(self)@),
    {
        let mut k: usize = 0;
        while k < sps.len()
            invariant
                k <= sps.len(),
                self@ == old(self)@.visit_import_specifiers(
                    src@,
                    import_specs_view(sps@),
                    k as nat,
                ),
                sticky(old(self)@, self@),
            decreases sps.len() - k,
        {
            self.visit_import_specifier(src, &sps[k]);
            k += 1;
        }
    }

    fn visit_export_specifier(&mut self, sp: &ExportSpecifier)
        ensures
            final(self)@ == old(self)@.visit_export_specifier(sp@),
            sticky(old(self)@, final(self)@),
    {
        let exported = match sp.kind {
            SpecifierKind::Named => match &sp.exported {
                Some(i) => i.sym.clone(),
                None => sp.name.sym.clone(),
            },
            SpecifierKind::Default => String::from_str("default"),
            SpecifierKind::Namespace => String::from_str("*"),
        };
        self.export_first_as(sp.name.id(), exported);
    }

    fn visit_export_specifiers(&mut self, sps: &Vec<ExportSpecifier>)
        ensures
            final(self)@ == old(self)@.visit_export_specifiers(export_specs_view(sps@), sps@.len()),
            sticky(old(self)@, final(self)@),
    {
        let mut k: usize = 0;
        while k < sps.len()
            invariant
                k <= sps.len(),
                self@ == old(self)@.visit_export_specifiers(export_specs_view(sps@), k as nat),
                sticky(old(self)@, self@),
            decreases sps.len() - k,
        {
            self.visit_export_specifier(&sps[k]);
            k += 1;
        }
    }

    /// Visits one node and all that it contains.
    pub fn visit(&mut self, n: &Node)
        ensures
            final(self)@ == old(self)@.visit(n@),
            sticky(old(self)@, final(self)@),
        decreases n, 1nat,
    {
        match n {
            Node::Ident(i) => {
                self.visit_ident_expr(i);
            },
            Node::BindingIdent(i) => {
                self.visit_binding(i);
            },
            Node::Name(_) => {},
            Node::Key(_) => {},
            Node::Shorthand(_) => {},
            Node::Str { .. } => {},
            Node::Null(_) => {},
            Node::Hole => {},
            Node::This(span) => {
                self.visit_this(*span);
            },
            Node::Member { .. } => {
                self.visit_member(n);
            },
            Node::Call { .. } => {
                self.visit_call(n);
            },
            Node::Spread { expr, .. } => {
                self.visit(expr);
            },
            Node::Unary { .. } => {
                self.visit_unary(n);
            },
            Node::Assign { .. } => {
                self.visit_assign(n);
            },
            Node::Sequence { exprs, .. } => {
                self.visit_all(exprs);
            },
            Node::Await { arg, .. } => {
                self.visit(arg);
            },
            Node::Arrow { .. } => {
                self.visit_arrow(n);
            },
            Node::Function { .. } => {
                self.visit_function(n);
            },
            Node::Scope { .. } => {
                self.visit_function(n);
            },
            Node::FnExpr { function, .. } => {
                self.visit(function);
            },
            Node::ClassExpr { class, .. } => {
                self.visit(class);
            },
            Node::KeyValue { key, value } => {
                self.visit(key);
                self.visit(value);
            },
            Node::Computed { expr, .. } => {
                self.visit(expr);
            },
            Node::ObjectPat { props, .. } => {
                self.visit_all(props);
            },
            Node::AssignPatProp { key, .. } => {
                self.visit_binding(key);
            },
            Node::Rest { arg, .. } => {
                self.visit(arg);
            },
            Node::ArrayPat { elems, .. } => {
                self.visit_all(elems);
            },
            Node::AssignPat { left, right, .. } => {
                self.visit(left);
                self.visit(right);
            },
            Node::ExprStmt { expr, .. } => {
                self.visit(expr);
            },
            Node::VarDecl { decls, .. } => {
                self.visit_all(decls);
            },
            Node::Declarator { .. } => {
                self.visit_declarator(n);
            },
            Node::Return { .. } => {
                self.visit_return(n);
            },
            Node::FnDecl { function, .. } => {
                self.visit(function);
            },
            Node::ClassDecl { class, .. } => {
                self.visit(class);
            },
            Node::Import { specifiers, src, .. } => {
                self.visit_import_specifiers(src, specifiers);
            },
            Node::ExportNamed { specifiers, src, .. } => {
                match src {
                    Some(_) => {},
                    None => {
                        self.visit_export_specifiers(specifiers);
                    },
                }
            },
            Node::ExportAll { .. } => {},
            Node::ExportDefaultExpr { expr, .. } => {
                self.visit(expr);
            },
            Node::ExportDefaultDecl { .. } => {
                self.visit_export_default_decl(n);
            },
            Node::ExportDecl { .. } => {
                self.visit_export_decl(n);
            },
            Node::Other { children, .. } => {
                self.visit_all(children);
            },
        }
    }

    fn visit_arrow(&mut self, n: &Node)
        ensures
            final(self)@ == old(self)@.visit_arrow(n@),
            sticky(old(self)@, final(self)@),
        decreases n, 0nat,
    {
        match n {
            Node::Arrow { params, body, .. } => {
                let in_function = self.in_function;
                self.set_in_function(true);
                self.visit_all(params);
                self.visit(body);
                self.set_in_function(in_function);
            },
            _ => {},
        }
    }

    fn visit_function(&mut self, n: &Node)
        ensures
            final(self)@ == old(self)@.visit_function(n@),
            sticky(old(self)@, final(self)@),
        decreases n, 0nat,
    {
        let in_module_this = self.in_module_this;
        let in_function = self.in_function;
        match n {
            Node::Function { params, body, .. } => {
                self.set_in_module_this(false);
                self.set_in_function(true);
                self.visit_all(params);
                self.visit_all(body);
                self.set_in_module_this(in_module_this);
                self.set_in_function(in_function);
            },
            Node::Scope { children, .. } => {
                self.set_in_module_this(false);
                self.set_in_function(true);
                self.visit_all(children);
                self.set_in_module_this(in_module_this);
                self.set_in_function(in_function);
            },
            _ => {},
        }
    }

    fn visit_return(&mut self, n: &Node)
        ensures
            final(self)@ == old(self)@.visit_return(n@),
            sticky(old(self)@, final(self)@),
        decreases n, 0nat,
    {
        match n {
            Node::Return { span, arg } => {
                if !self.in_function {
                    self.must_wrap();
                    self.add_bailout(*span, BailoutReason::TopLevelReturn);
                }
                match arg {
                    Some(a) => {
                        self.visit(a);
                    },
                    None => {},
                }
            },
            _ => {},
        }
    }

    /// Visits the nodes of a list in order.
    pub fn visit_all(&mut self, ns: &Vec<Node>)
        ensures
            final(self)@ == old(self)@.visit_all(nodes_view(ns@), ns@.len()),
            sticky(old(self)@, final(self)@),
        decreases ns, ns@.len(),
    {
        let mut k: usize = 0;
        while k < ns.len()
            invariant
                k <= ns.len(),
                self@ == old(self)@.visit_all(nodes_view(ns@), k as nat),
                sticky(old(self)@, self@),
            decreases ns.len() - k,
        {
            self.visit(&ns[k]);
            k += 1;
        }
    }

    fn visit_member(&mut self, n: &Node)
        ensures
            final(self)@ == old(self)@.visit_member(n@),
            sticky(old(self)@, final(self)@),
        decreases n, 0nat,
    {
        proof {
            reveal_with_fuel(node_view, 2);
        }
        match n {
            Node::Member { span, obj, prop, computed } => {
                if self.is_cjs_exports(n) {
                    self.lose_exports();
                    return ;
                }
                if match_member_expr(n, "module", "hot", &self.decls) {
                    return ;
                }
                if match_member_expr(n, "module", "require", &self.decls) {
                    return ;
                }
                let is_static = get_static_key(prop, *computed).is_some();
                match &**obj {
                    Node::Member { .. } => {
                        if self.is_cjs_exports(obj) {
                            self.touch_exports(is_static, *span);
                        }
                    },
                    Node::Ident(i) => {
                        let declared = self.declares(i);
                        if is_word(&i.sym, "exports") && !declared {
                            self.touch_exports(is_static, *span);
                        }
                        if is_word(&i.sym, "module") && !declared {
                            self.lose_exports();
                            self.must_wrap();
                            self.add_bailout(*span, BailoutReason::FreeModule);
                        }
                        if !is_static && !is_word(&i.sym, "import") {
                            self.note_access(i.id(), *span);
                        }
                    },
                    Node::This(_) => {
                        if self.in_module_this {
                            self.touch_exports(is_static, *span);
                        }
                    },
                    _ => {
                        self.visit(obj);
                        self.visit(prop);
                    },
                }
            },
            _ => {},
        }
    }

    fn visit_call_head(&mut self, n: &Node, span: Span)
        ensures
            final(self)@ == old(self)@.visit_call_head(n@, span),
            sticky(old(self)@, final(self)@),
    {
        match self.match_require(n) {
            Some(src) => {
                self.wrap_require(&src);
                self.add_bailout(span, BailoutReason::NonTopLevelRequire);
            },
            None => {},
        }
        match self.match_import(n) {
            Some(src) => {
                self.keep_require(&src);
                self.wrap_require(&src);
                self.add_bailout(span, BailoutReason::NonStaticDynamicImport);
            },
            None => {},
        }
    }

    fn visit_call(&mut self, n: &Node)
        ensures
            final(self)@ == old(self)@.visit_call(n@),
            sticky(old(self)@, final(self)@),
        decreases n, 0nat,
    {
        proof {
            reveal_with_fuel(node_view, 2);
        }
        match n {
            Node::Call { span, callee, args } => {
                self.visit_call_head(n, *span);
                match &**callee {
                    Node::Ident(i) => {
                        if is_word(&i.sym, "eval") && !self.declares(i) {
                            self.must_wrap();
                            self.add_bailout(*span, BailoutReason::Eval);
                        }
                    },
                    Node::Member { obj, prop, computed, .. } => {
                        let source = self.match_import(obj);
                        let is_then = match get_static_key(prop, *computed) {
                            Some(key) => is_word(&key, "then"),
                            None => false,
                        };
                        if is_then && args.len() > 0 {
                            match source {
                                Some(src) => {
                                    let callback = get_arg_expr(&args[0]);
                                    match get_first_param(callback) {
                                        Some(p) => {
                                            self.add_pat_imports(p, &src, ImportKind::DynamicImport);
                                        },
                                        None => {
                                            self.keep_require(&src);
                                            self.wrap_require(&src);
                                            self.add_bailout(
                                                *span,
                                                BailoutReason::NonStaticDynamicImport,
                                            );
                                        },
                                    }
                                    self.visit_callback(args);
                                    return ;
                                },
                                None => {},
                            }
                        }
                    },
                    _ => {},
                }
                self.visit(callee);
                self.visit_all(args);
            },
            _ => {},
        }
    }

    /// Visits the first of `args` without the `...` that may stand before it.
    fn visit_callback(&mut self, args: &Vec<Node>)
        requires
            args@.len() > 0,
        ensures
            final(self)@ == old(self)@.visit(crate::matchers::arg_expr(nodes_view(args@)[0])),
            sticky(old(self)@, final(self)@),
        decreases args, 0nat,
    {
        match &args[0] {
            Node::Spread { expr, .. } => {
                self.visit(expr);
            },
            _ => {
                self.visit(&args[0]);
            },
        }
    }

    fn visit_unary(&mut self, n: &Node)
        ensures
            final(self)@ == old(self)@.visit_unary(n@),
            sticky(old(self)@, final(self)@),
        decreases n, 0nat,
    {
        proof {
            reveal_with_fuel(node_view, 2);
        }
        match n {
            Node::Unary { op, arg, .. } => {
                let skipped = *op == UnaryOp::TypeOf && match &**arg {
                    Node::Ident(i) => (is_word(&i.sym, "module") || is_word(&i.sym, "require"))
                        && !self.declares(i),
                    _ => false,
                };
                if !skipped {
                    self.visit(arg);
                }
            },
            _ => {},
        }
    }

    fn visit_assign(&mut self, n: &Node)
        ensures
            final(self)@ == old(self)@.visit_assign(n@),
            sticky(old(self)@, final(self)@),
        decreases n, 0nat,
    {
        match n {
            Node::Assign { span, left, right, .. } => {
                self.set_in_assign(true);
                self.visit(left);
                self.set_in_assign(false);
                self.visit(right);
                if has_binding_identifier(left, "exports", &self.decls) {
                    self.lose_exports();
                    self.must_wrap();
                    self.add_bailout(*span, BailoutReason::ExportsReassignment);
                } else if has_binding_identifier(left, "module", &self.decls) {
                    self.lose_exports();
                    self.must_wrap();
                    self.add_bailout(*span, BailoutReason::ModuleReassignment);
                }
            },
            _ => {},
        }
    }

    /// Records the imports of `name = init` where `init` requires or
    /// imports a module, and says whether it did.
    fn declarator_import(&mut self, name: &Node, init: &Node) -> (done: bool)
        ensures
            done == old(self)@.declarator_import(name@, init@).is_some(),
            done ==> final(self)@ == old(self)@.declarator_import(name@, init@).unwrap(),
            !done ==> final(self)@ == old(self)@,
            sticky(old(self)@, final(self)@),
    {
        match self.match_require(init) {
            Some(src) => {
                self.add_pat_imports(name, &src, ImportKind::Require);
                return true;
            },
            None => {},
        }
        match init {
            Node::Member { obj, prop, computed, .. } => {
                match self.match_require(obj) {
                    Some(src) => {
                        self.pat_preamble(dummy_sp(), &src, ImportKind::Require);
                        self.add_key_value_import(
                            get_static_key(prop, *computed),
                            name,
                            dummy_sp(),
                            &src,
                            ImportKind::Require,
                        );
                        true
                    },
                    None => false,
                }
            },
            Node::Await { arg, .. } => {
                match self.match_import(arg) {
                    Some(src) => {
                        self.add_pat_imports(name, &src, ImportKind::DynamicImport);
                        true
                    },
                    None => false,
                }
            },
            _ => false,
        }
    }

    fn visit_declarator(&mut self, n: &Node)
        ensures
            final(self)@ == old(self)@.visit_declarator(n@),
            sticky(old(self)@, final(self)@),
        decreases n, 0nat,
    {
        match n {
            Node::Declarator { name, init, .. } => {
                match init {
                    Some(e) => {
                        if self.declarator_import(name, e) {
                            return ;
                        }
                    },
                    None => {},
                }
                let in_top_level = self.in_top_level;
                self.set_in_top_level(false);
                self.visit(name);
                match init {
                    Some(e) => {
                        self.visit(e);
                    },
                    None => {},
                }
                self.set_in_top_level(in_top_level);
            },
            _ => {},
        }
    }

    fn visit_exported_declarators(&mut self, decls: &Vec<Node>)
        ensures
            final(self)@ == old(self)@.visit_exported_declarators(nodes_view(decls@), decls@.len()),
            sticky(old(self)@, final(self)@),
        decreases decls, decls@.len(),
    {
        let mut k: usize = 0;
        while k < decls.len()
            invariant
                k <= decls.len(),
                self@ == old(self)@.visit_exported_declarators(nodes_view(decls@), k as nat),
                sticky(old(self)@, self@),
            decreases decls.len() - k,
        {
            match &decls[k] {
                Node::Declarator { name, init, .. } => {
                    self.set_in_export_decl(true);
                    self.visit(name);
                    self.set_in_export_decl(false);
                    match init {
                        Some(e) => {
                            self.visit(e);
                        },
                        None => {},
                    }
                },
                _ => {},
            }
            k += 1;
        }
    }

    fn visit_export_decl(&mut self, n: &Node)
        ensures
            final(self)@ == old(self)@.visit_export_decl(n@),
            sticky(old(self)@, final(self)@),
        decreases n, 0nat,
    {
        proof {
            reveal_with_fuel(node_view, 2);
        }
        match n {
            Node::ExportDecl { decl, .. } => {
                match &**decl {
                    Node::ClassDecl { ident, .. } => {
                        self.export_as(ident.id(), ident.sym.clone());
                    },
                    Node::FnDecl { ident, .. } => {
                        self.export_as(ident.id(), ident.sym.clone());
                    },
                    Node::VarDecl { decls, .. } => {
                        self.visit_exported_declarators(decls);
                    },
                    _ => {},
                }
                self.visit(decl);
            },
            _ => {},
        }
    }

    fn visit_export_default_decl(&mut self, n: &Node)
        ensures
            final(self)@ == old(self)@.visit_export_default_decl(n@),
            sticky(old(self)@, final(self)@),
        decreases n, 0nat,
    {
        proof {
            reveal_with_fuel(node_view, 2);
        }
        match n {
            Node::ExportDefaultDecl { decl, .. } => {
                match &**decl {
                    Node::ClassExpr { ident: Some(i), .. } => {
                        self.export_as(i.id(), String::from_str("default"));
                    },
                    Node::FnExpr { ident: Some(i), .. } => {
                        self.export_as(i.id(), String::from_str("default"));
                    },
                    _ => {},
                }
                self.visit(decl);
            },
            _ => {},
        }
    }

    /// Visits one top-level item of a module.
    pub fn visit_item(&mut self, n: &Node)
        ensures
            final(self)@ == old(self)@.visit_item(n@),
            sticky(old(self)@, final(self)@),
        decreases n, 2nat,
    {
        match n {
            Node::VarDecl { decls, .. } => {
                self.visit_all(decls);
                return ;
            },
            Node::ExprStmt { expr, .. } => {
                if self.match_require(expr).is_some() {
                    return ;
                }
            },
            _ => {},
        }
        if check_module_decl(n) {
            self.set_esm();
        }
        self.set_in_top_level(false);
        self.visit(n);
        self.set_in_top_level(true);
    }

    fn visit_items(&mut self, ns: &Vec<Node>)
        ensures
            final(self)@ == old(self)@.visit_items(nodes_view(ns@), ns@.len()),
            sticky(old(self)@, final(self)@),
    {
        let mut k: usize = 0;
        while k < ns.len()
            invariant
                k <= ns.len(),
                self@ == old(self)@.visit_items(nodes_view(ns@), k as nat),
                sticky(old(self)@, self@),
            decreases ns.len() - k,
        {
            self.visit_item(&ns[k]);
            k += 1;
        }
    }

    /// The bailouts that are only known once every access was seen.
    fn late_bailouts(&self) -> (r: Vec<Bailout>)
        ensures
            r@ == late_bailouts(self@.imports, self@.imports.len(), self@.non_static_access),
    {
        let mut out: Vec<Bailout> = Vec::new();
        let n = self.imports.len();
        let mut k: usize = 0;
        while k < n
            invariant
                k <= n,
                n == self@.imports.len(),
                out@ == late_bailouts(self@.imports, k as nat, self@.non_static_access),
            decreases n - k,
        {
            match self.non_static_access.get(self.imports.key(k)) {
                Some(spans) => {
                    let ghost before = out@;
                    let mut j: usize = 0;
                    while j < spans.len()
                        invariant
                            j <= spans.len(),
                            out@ == before + access_bailouts(spans@).take(j as int),
                        decreases spans.len() - j,
                    {
                        out.push(Bailout { loc: spans[j], reason: BailoutReason::NonStaticAccess });
                        assert(out@ =~= before + access_bailouts(spans@).take(j + 1));
                        j += 1;
                    }
                    assert(access_bailouts(spans@).take(spans@.len() as int) =~= access_bailouts(
                        spans@,
                    ));
                },
                None => {
                    assert(out@ =~= out@ + Seq::<Bailout>::empty());
                },
            }
            k += 1;
        }
        out
    }

    fn finish(&mut self)
        ensures
            final(self)@ == old(self)@.finish(),
            sticky(old(self)@, final(self)@),
    {
        let late = self.late_bailouts();
        match &mut self.bailouts {
            Some(b) => {
                let mut all: Vec<Bailout> = Vec::new();
                let mut i: usize = 0;
                while i < b.len()
                    invariant
                        i <= b.len(),
                        all@ == b@.take(i as int),
                    decreases b.len() - i,
                {
                    all.push(b[i]);
                    assert(all@ =~= b@.take(i + 1));
                    i += 1;
                }
                assert(b@.take(b@.len() as int) =~= b@);
                let mut j: usize = 0;
                while j < late.len()
                    invariant
                        j <= late.len(),
                        all@ == b@ + late@.take(j as int),
                    decreases late.len() - j,
                {
                    all.push(late[j]);
                    assert(all@ =~= b@ + late@.take(j + 1));
                    j += 1;
                }
                assert(late@.take(late@.len() as int) =~= late@);
                *b = sort_bailouts(&all);
            },
            None => {},
        }
    }

    /// Analyses a whole module.
    pub fn visit_module(&mut self, m: &Module)
        ensures
            final(self)@ == old(self)@.visit_module(m@),
            sticky(old(self)@, final(self)@),
    {
        self.set_in_module_this(true);
        self.set_in_top_level(true);
        self.set_in_function(false);
        self.visit_items(&m.body);
        self.set_in_module_this(false);
        self.finish();
    }
}

} // verus!
