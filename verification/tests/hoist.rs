use scope_hoist::ast as tree;
use scope_hoist::ast::Node;
use scope_hoist::collect::Collect;
use scope_hoist::facts::ImportKind;
use scope_hoist::diag::{Bailout, BailoutReason, Diagnostic, DiagnosticSeverity};
use scope_hoist::hoist::{hoist, Hoist};
use scope_hoist::summary::HoistResult;
use scope_hoist::table::{StrMap, StrSet, Table};
use std::collections::{HashMap, HashSet, VecDeque};
use swc_atoms::JsWord;
use swc_common::comments::SingleThreadedComments;
use swc_common::sync::Lrc;
use swc_common::{BytePos, FileName, Globals, Mark, SourceMap, SyntaxContext, DUMMY_SP};
use swc_ecmascript::ast as js;
use swc_ecmascript::codegen::text_writer::JsWriter;
use swc_ecmascript::parser::lexer::Lexer;
use swc_ecmascript::parser::{EsConfig, Parser, StringInput, Syntax};
use swc_ecmascript::transforms::resolver_with_mark;
use swc_ecmascript::visit::{FoldWith, Node as AnyNode, Visit, VisitMut, VisitMutWith, VisitWith};

/// What a tagged node of the tree was before it was converted.
#[derive(Clone)]
enum Shell {
    Expr(js::Expr),
    Pat(js::Pat),
    Stmt(js::Stmt),
    Prop(js::Prop),
    PropName(js::PropName),
    Function(js::Function),
    Class(js::Class),
    Arrow(js::ArrowExpr),
    Block(js::BlockStmt),
    Super(js::Super),
}

/// Converts between the parser's tree and the library's.
struct Bridge {
    shells: Vec<Shell>,
    ctxts: Vec<SyntaxContext>,
    collecting: Vec<Vec<Node>>,
    restoring: Vec<VecDeque<Node>>,
}

impl Bridge {
    fn new() -> Bridge {
        Bridge {
            shells: vec![],
            ctxts: vec![SyntaxContext::empty()],
            collecting: vec![],
            restoring: vec![],
        }
    }

    fn ctxt_id(&mut self, ctxt: SyntaxContext) -> u32 {
        match self.ctxts.iter().position(|c| *c == ctxt) {
            Some(i) => i as u32,
            None => {
                self.ctxts.push(ctxt);
                (self.ctxts.len() - 1) as u32
            }
        }
    }

    fn span(&mut self, s: swc_common::Span) -> tree::Span {
        tree::Span { lo: s.lo.0, hi: s.hi.0, ctxt: self.ctxt_id(s.ctxt) }
    }

    fn span_back(&self, s: tree::Span) -> swc_common::Span {
        swc_common::Span { lo: BytePos(s.lo), hi: BytePos(s.hi), ctxt: self.ctxts[s.ctxt as usize] }
    }

    fn ident(&mut self, i: &js::Ident) -> tree::Ident {
        tree::Ident { sym: i.sym.to_string(), span: self.span(i.span) }
    }

    fn ident_back(&self, i: tree::Ident) -> js::Ident {
        js::Ident { span: self.span_back(i.span), sym: JsWord::from(i.sym), optional: false }
    }

    fn shell(&mut self, s: Shell) -> u32 {
        self.shells.push(s);
        (self.shells.len() - 1) as u32
    }

    fn begin(&mut self) {
        self.collecting.push(vec![]);
    }

    fn end(&mut self) -> Vec<Node> {
        self.collecting.pop().unwrap()
    }

    fn emit(&mut self, n: Node) {
        self.collecting.last_mut().unwrap().push(n);
    }

    fn next(&mut self) -> Node {
        self.restoring.last_mut().unwrap().pop_front().unwrap()
    }

    fn children<T: VisitWith<Bridge>>(&mut self, n: &T) -> Vec<Node> {
        self.begin();
        n.visit_children_with(self);
        self.end()
    }

    fn restore<T: VisitMutWith<Bridge>>(&mut self, shell: T, children: Vec<Node>) -> T {
        let mut shell = shell;
        self.restoring.push(children.into_iter().collect());
        shell.visit_mut_children_with(self);
        let rest = self.restoring.pop().unwrap();
        assert!(rest.is_empty(), "children left over: {:?}", rest);
        shell
    }

    // From the parser's tree.

    fn str_lit(&mut self, s: &js::Str) -> Node {
        Node::Str {
            span: self.span(s.span),
            value: s.value.to_string(),
            has_escape: s.has_escape,
            kind: match s.kind {
                js::StrKind::Normal { contains_quote } => tree::StrKind::Normal { contains_quote },
                js::StrKind::Synthesized => tree::StrKind::Synthesized,
            },
        }
    }

    fn expr(&mut self, e: &js::Expr) -> Node {
        match e {
            js::Expr::Ident(i) => Node::Ident(self.ident(i)),
            js::Expr::Lit(js::Lit::Str(s)) => self.str_lit(s),
            js::Expr::Lit(js::Lit::Null(n)) => Node::Null(self.span(n.span)),
            js::Expr::This(t) => Node::This(self.span(t.span)),
            js::Expr::Member(m) => {
                let span = self.span(m.span);
                let obj = self.expr_or_super(&m.obj);
                let prop = self.expr(&m.prop);
                Node::member(span, obj, prop, m.computed)
            }
            js::Expr::Call(c) => {
                let span = self.span(c.span);
                let callee = self.expr_or_super(&c.callee);
                let args = c.args.iter().map(|a| self.arg(a)).collect();
                Node::call(span, callee, args)
            }
            js::Expr::Unary(u) => {
                let span = self.span(u.span);
                let arg = self.expr(&u.arg);
                Node::unary(span, unary_op(u.op), arg)
            }
            js::Expr::Assign(a) => {
                let span = self.span(a.span);
                let left = match &a.left {
                    js::PatOrExpr::Expr(e) => self.expr(e),
                    js::PatOrExpr::Pat(p) => self.pat(p),
                };
                let right = self.expr(&a.right);
                Node::assign(span, assign_op(a.op), left, right)
            }
            js::Expr::Seq(s) => {
                let span = self.span(s.span);
                let exprs = s.exprs.iter().map(|e| self.expr(e)).collect();
                Node::sequence(span, exprs)
            }
            js::Expr::Await(a) => {
                let span = self.span(a.span);
                let arg = self.expr(&a.arg);
                Node::await_of(span, arg)
            }
            js::Expr::Arrow(a) => {
                let tag = self.shell(Shell::Arrow(a.clone()));
                let params = a.params.iter().map(|p| self.pat(p)).collect();
                let body = match &a.body {
                    js::BlockStmtOrExpr::Expr(e) => self.expr(e),
                    js::BlockStmtOrExpr::BlockStmt(b) => {
                        let tag = self.shell(Shell::Block(b.clone()));
                        let children = self.children(b);
                        Node::other(tag, children)
                    }
                };
                Node::arrow(tag, params, body)
            }
            js::Expr::Fn(f) => {
                let ident = f.ident.as_ref().map(|i| self.ident(i));
                let function = self.function(&f.function);
                Node::fn_expr(ident, function)
            }
            js::Expr::Class(c) => {
                let ident = c.ident.as_ref().map(|i| self.ident(i));
                let class = self.class(&c.class);
                Node::class_expr(ident, class)
            }
            other => {
                let tag = self.shell(Shell::Expr(other.clone()));
                let children = self.children(other);
                Node::other(tag, children)
            }
        }
    }

    fn expr_or_super(&mut self, e: &js::ExprOrSuper) -> Node {
        match e {
            js::ExprOrSuper::Expr(e) => self.expr(e),
            js::ExprOrSuper::Super(s) => {
                let tag = self.shell(Shell::Super(s.clone()));
                Node::other(tag, vec![])
            }
        }
    }

    fn arg(&mut self, a: &js::ExprOrSpread) -> Node {
        let expr = self.expr(&a.expr);
        match a.spread {
            Some(dot3) => Node::spread(self.span(dot3), expr),
            None => expr,
        }
    }

    fn pat(&mut self, p: &js::Pat) -> Node {
        match p {
            js::Pat::Ident(b) => Node::BindingIdent(self.ident(&b.id)),
            js::Pat::Array(a) => {
                let span = self.span(a.span);
                let elems = a
                    .elems
                    .iter()
                    .map(|e| match e {
                        Some(p) => self.pat(p),
                        None => Node::Hole,
                    })
                    .collect();
                Node::array_pat(span, elems)
            }
            js::Pat::Object(o) => {
                let span = self.span(o.span);
                let props = o.props.iter().map(|p| self.pat_prop(p)).collect();
                Node::object_pat(span, props)
            }
            js::Pat::Rest(r) => self.rest(r),
            js::Pat::Assign(a) => {
                let span = self.span(a.span);
                let left = self.pat(&a.left);
                let right = self.expr(&a.right);
                Node::assign_pat(span, left, right)
            }
            js::Pat::Expr(e) => self.expr(e),
            js::Pat::Invalid(_) => {
                let tag = self.shell(Shell::Pat(p.clone()));
                Node::other(tag, vec![])
            }
        }
    }

    fn rest(&mut self, r: &js::RestPat) -> Node {
        let span = self.span(r.span);
        let dot3 = self.span(r.dot3_token);
        let arg = self.pat(&r.arg);
        Node::rest(span, dot3, arg)
    }

    fn pat_prop(&mut self, p: &js::ObjectPatProp) -> Node {
        match p {
            js::ObjectPatProp::KeyValue(kv) => {
                let key = self.prop_name(&kv.key);
                let value = self.pat(&kv.value);
                Node::key_value(key, value)
            }
            js::ObjectPatProp::Assign(a) => {
                let span = self.span(a.span);
                let key = self.ident(&a.key);
                let value = a.value.as_ref().map(|v| self.expr(v));
                Node::assign_pat_prop(span, key, value)
            }
            js::ObjectPatProp::Rest(r) => self.rest(r),
        }
    }

    fn prop_name(&mut self, k: &js::PropName) -> Node {
        match k {
            js::PropName::Ident(i) => Node::Key(self.ident(i)),
            js::PropName::Str(s) => self.str_lit(s),
            js::PropName::Computed(c) => {
                let span = self.span(c.span);
                let expr = self.expr(&c.expr);
                Node::computed(span, expr)
            }
            other => {
                let tag = self.shell(Shell::PropName(other.clone()));
                Node::other(tag, vec![])
            }
        }
    }

    fn prop(&mut self, p: &js::Prop) -> Node {
        match p {
            js::Prop::Shorthand(i) => Node::Shorthand(self.ident(i)),
            js::Prop::KeyValue(kv) => {
                let key = self.prop_name(&kv.key);
                let value = self.expr(&kv.value);
                Node::key_value(key, value)
            }
            js::Prop::Getter(_) | js::Prop::Setter(_) => {
                let tag = self.shell(Shell::Prop(p.clone()));
                let children = self.children(p);
                Node::scope(tag, children)
            }
            other => {
                let tag = self.shell(Shell::Prop(other.clone()));
                let children = self.children(other);
                Node::other(tag, children)
            }
        }
    }

    fn function(&mut self, f: &js::Function) -> Node {
        let tag = self.shell(Shell::Function(f.clone()));
        if f.params.iter().any(|p| !p.decorators.is_empty()) {
            let children = self.children(f);
            return Node::scope(tag, children);
        }
        let params = f.params.iter().map(|p| self.pat(&p.pat)).collect();
        self.begin();
        for d in &f.decorators {
            d.visit_with(f as &dyn AnyNode, self);
        }
        if let Some(b) = &f.body {
            b.visit_with(f as &dyn AnyNode, self);
        }
        let body = self.end();
        Node::function(tag, params, body)
    }

    fn class(&mut self, c: &js::Class) -> Node {
        let tag = self.shell(Shell::Class(c.clone()));
        let children = self.children(c);
        Node::scope(tag, children)
    }

    fn var_decl(&mut self, v: &js::VarDecl) -> Node {
        let span = self.span(v.span);
        let kind = match v.kind {
            js::VarDeclKind::Var => tree::VarKind::Var,
            js::VarDeclKind::Let => tree::VarKind::Let,
            js::VarDeclKind::Const => tree::VarKind::Const,
        };
        let decls = v
            .decls
            .iter()
            .map(|d| {
                let span = self.span(d.span);
                let name = self.pat(&d.name);
                let init = d.init.as_ref().map(|e| self.expr(e));
                Node::declarator(span, name, init, d.definite)
            })
            .collect();
        Node::var_decl(span, kind, v.declare, decls)
    }

    fn decl(&mut self, d: &js::Decl) -> Node {
        match d {
            js::Decl::Var(v) => self.var_decl(v),
            js::Decl::Fn(f) => {
                let ident = self.ident(&f.ident);
                let function = self.function(&f.function);
                Node::fn_decl(ident, f.declare, function)
            }
            js::Decl::Class(c) => {
                let ident = self.ident(&c.ident);
                let class = self.class(&c.class);
                Node::class_decl(ident, c.declare, class)
            }
            other => {
                let stmt = js::Stmt::Decl(other.clone());
                let tag = self.shell(Shell::Stmt(stmt));
                let children = self.children(other);
                Node::other(tag, children)
            }
        }
    }

    fn stmt(&mut self, s: &js::Stmt) -> Node {
        match s {
            js::Stmt::Expr(e) => {
                let span = self.span(e.span);
                let expr = self.expr(&e.expr);
                Node::expr_stmt(span, expr)
            }
            js::Stmt::Decl(d) => self.decl(d),
            js::Stmt::Return(r) => {
                let span = self.span(r.span);
                let arg = r.arg.as_ref().map(|e| self.expr(e));
                Node::return_of(span, arg)
            }
            other => {
                let tag = self.shell(Shell::Stmt(other.clone()));
                let children = self.children(other);
                Node::other(tag, children)
            }
        }
    }

    fn module_item(&mut self, item: &js::ModuleItem) -> Node {
        match item {
            js::ModuleItem::Stmt(s) => self.stmt(s),
            js::ModuleItem::ModuleDecl(d) => match d {
                js::ModuleDecl::Import(i) => Node::Import {
                    span: self.span(i.span),
                    specifiers: i
                        .specifiers
                        .iter()
                        .map(|s| match s {
                            js::ImportSpecifier::Named(n) => tree::ImportSpecifier {
                                kind: tree::SpecifierKind::Named,
                                span: self.span(n.span),
                                local: self.ident(&n.local),
                                imported: n.imported.as_ref().map(|i| self.ident(i)),
                            },
                            js::ImportSpecifier::Default(n) => tree::ImportSpecifier {
                                kind: tree::SpecifierKind::Default,
                                span: self.span(n.span),
                                local: self.ident(&n.local),
                                imported: None,
                            },
                            js::ImportSpecifier::Namespace(n) => tree::ImportSpecifier {
                                kind: tree::SpecifierKind::Namespace,
                                span: self.span(n.span),
                                local: self.ident(&n.local),
                                imported: None,
                            },
                        })
                        .collect(),
                    src: i.src.value.to_string(),
                },
                js::ModuleDecl::ExportNamed(e) => Node::ExportNamed {
                    span: self.span(e.span),
                    specifiers: e
                        .specifiers
                        .iter()
                        .map(|s| match s {
                            js::ExportSpecifier::Named(n) => tree::ExportSpecifier {
                                kind: tree::SpecifierKind::Named,
                                span: self.span(n.span),
                                name: self.ident(&n.orig),
                                exported: n.exported.as_ref().map(|i| self.ident(i)),
                            },
                            js::ExportSpecifier::Default(n) => tree::ExportSpecifier {
                                kind: tree::SpecifierKind::Default,
                                span: self.span(n.exported.span),
                                name: self.ident(&n.exported),
                                exported: None,
                            },
                            js::ExportSpecifier::Namespace(n) => tree::ExportSpecifier {
                                kind: tree::SpecifierKind::Namespace,
                                span: self.span(n.span),
                                name: self.ident(&n.name),
                                exported: None,
                            },
                        })
                        .collect(),
                    src: e.src.as_ref().map(|s| s.value.to_string()),
                },
                js::ModuleDecl::ExportAll(e) => {
                    Node::ExportAll { span: self.span(e.span), src: e.src.value.to_string() }
                }
                js::ModuleDecl::ExportDefaultExpr(e) => {
                    let span = self.span(e.span);
                    let expr = self.expr(&e.expr);
                    Node::export_default_expr(span, expr)
                }
                js::ModuleDecl::ExportDefaultDecl(e) => {
                    let span = self.span(e.span);
                    let decl = match &e.decl {
                        js::DefaultDecl::Class(c) => {
                            let ident = c.ident.as_ref().map(|i| self.ident(i));
                            let class = self.class(&c.class);
                            Node::class_expr(ident, class)
                        }
                        js::DefaultDecl::Fn(f) => {
                            let ident = f.ident.as_ref().map(|i| self.ident(i));
                            let function = self.function(&f.function);
                            Node::fn_expr(ident, function)
                        }
                        js::DefaultDecl::TsInterfaceDecl(_) => {
                            panic!("unsupported export default declaration")
                        }
                    };
                    Node::export_default_decl(span, decl)
                }
                js::ModuleDecl::ExportDecl(e) => {
                    let span = self.span(e.span);
                    let decl = self.decl(&e.decl);
                    Node::export_decl(span, decl)
                }
                _ => panic!("unsupported module declaration"),
            },
        }
    }

    fn module(&mut self, m: &js::Module) -> tree::Module {
        tree::Module {
            span: self.span(m.span),
            body: m.body.iter().map(|i| self.module_item(i)).collect(),
            shebang: m.shebang.as_ref().map(|s| s.to_string()),
        }
    }

    // Back to the parser's tree.

    fn str_back(&self, n: Node) -> js::Str {
        match n {
            Node::Str { span, value, has_escape, kind } => js::Str {
                span: self.span_back(span),
                value: JsWord::from(value),
                has_escape,
                kind: match kind {
                    tree::StrKind::Normal { contains_quote } => {
                        js::StrKind::Normal { contains_quote }
                    }
                    tree::StrKind::Synthesized => js::StrKind::Synthesized,
                },
            },
            other => panic!("not a string: {:?}", other),
        }
    }

    fn expr_back(&mut self, n: Node) -> js::Expr {
        match n {
            Node::Ident(i) => js::Expr::Ident(self.ident_back(i)),
            Node::Str { .. } => js::Expr::Lit(js::Lit::Str(self.str_back(n))),
            Node::Null(span) => js::Expr::Lit(js::Lit::Null(js::Null { span: self.span_back(span) })),
            Node::This(span) => js::Expr::This(js::ThisExpr { span: self.span_back(span) }),
            Node::Member { span, obj, prop, computed } => js::Expr::Member(js::MemberExpr {
                span: self.span_back(span),
                obj: self.expr_or_super_back(*obj),
                prop: Box::new(self.expr_back(*prop)),
                computed,
            }),
            Node::Call { span, callee, args } => js::Expr::Call(js::CallExpr {
                span: self.span_back(span),
                callee: self.expr_or_super_back(*callee),
                args: args.into_iter().map(|a| self.arg_back(a)).collect(),
                type_args: None,
            }),
            Node::Unary { span, op, arg } => js::Expr::Unary(js::UnaryExpr {
                span: self.span_back(span),
                op: unary_op_back(op),
                arg: Box::new(self.expr_back(*arg)),
            }),
            Node::Assign { span, op, left, right } => js::Expr::Assign(js::AssignExpr {
                span: self.span_back(span),
                op: assign_op_back(op),
                left: js::PatOrExpr::Pat(Box::new(self.pat_back(*left))),
                right: Box::new(self.expr_back(*right)),
            }),
            Node::Sequence { span, exprs } => js::Expr::Seq(js::SeqExpr {
                span: self.span_back(span),
                exprs: exprs.into_iter().map(|e| Box::new(self.expr_back(e))).collect(),
            }),
            Node::Await { span, arg } => js::Expr::Await(js::AwaitExpr {
                span: self.span_back(span),
                arg: Box::new(self.expr_back(*arg)),
            }),
            Node::Arrow { tag, params, body } => match self.shells[tag as usize].clone() {
                Shell::Arrow(a) => js::Expr::Arrow(js::ArrowExpr {
                    params: params.into_iter().map(|p| self.pat_back(p)).collect(),
                    body: match *body {
                        Node::Other { tag, children } => match self.shells[tag as usize].clone() {
                            Shell::Block(b) => {
                                js::BlockStmtOrExpr::BlockStmt(self.restore(b, children))
                            }
                            _ => js::BlockStmtOrExpr::Expr(Box::new(
                                self.expr_back(Node::Other { tag, children }),
                            )),
                        },
                        e => js::BlockStmtOrExpr::Expr(Box::new(self.expr_back(e))),
                    },
                    ..a
                }),
                _ => panic!("not an arrow function"),
            },
            Node::FnExpr { ident, function } => js::Expr::Fn(js::FnExpr {
                ident: ident.map(|i| self.ident_back(i)),
                function: self.function_back(*function),
            }),
            Node::ClassExpr { ident, class } => js::Expr::Class(js::ClassExpr {
                ident: ident.map(|i| self.ident_back(i)),
                class: self.class_back(*class),
            }),
            Node::Other { tag, children } => match self.shells[tag as usize].clone() {
                Shell::Expr(e) => self.restore(e, children),
                _ => panic!("not an expression"),
            },
            other => panic!("not an expression: {:?}", other),
        }
    }

    fn expr_or_super_back(&mut self, n: Node) -> js::ExprOrSuper {
        if let Node::Other { tag, .. } = &n {
            if let Shell::Super(s) = self.shells[*tag as usize].clone() {
                return js::ExprOrSuper::Super(s);
            }
        }
        js::ExprOrSuper::Expr(Box::new(self.expr_back(n)))
    }

    fn arg_back(&mut self, n: Node) -> js::ExprOrSpread {
        match n {
            Node::Spread { dot3, expr } => js::ExprOrSpread {
                spread: Some(self.span_back(dot3)),
                expr: Box::new(self.expr_back(*expr)),
            },
            e => js::ExprOrSpread { spread: None, expr: Box::new(self.expr_back(e)) },
        }
    }

    fn rest_back(&mut self, n: Node) -> js::RestPat {
        match n {
            Node::Rest { span, dot3, arg } => js::RestPat {
                span: self.span_back(span),
                dot3_token: self.span_back(dot3),
                arg: Box::new(self.pat_back(*arg)),
                type_ann: None,
            },
            other => panic!("not a rest pattern: {:?}", other),
        }
    }

    fn pat_back(&mut self, n: Node) -> js::Pat {
        match n {
            Node::BindingIdent(i) => {
                js::Pat::Ident(js::BindingIdent { id: self.ident_back(i), type_ann: None })
            }
            Node::ArrayPat { span, elems } => js::Pat::Array(js::ArrayPat {
                span: self.span_back(span),
                elems: elems
                    .into_iter()
                    .map(|e| match e {
                        Node::Hole => None,
                        p => Some(self.pat_back(p)),
                    })
                    .collect(),
                optional: false,
                type_ann: None,
            }),
            Node::ObjectPat { span, props } => js::Pat::Object(js::ObjectPat {
                span: self.span_back(span),
                props: props.into_iter().map(|p| self.pat_prop_back(p)).collect(),
                optional: false,
                type_ann: None,
            }),
            Node::Rest { .. } => js::Pat::Rest(self.rest_back(n)),
            Node::AssignPat { span, left, right } => js::Pat::Assign(js::AssignPat {
                span: self.span_back(span),
                left: Box::new(self.pat_back(*left)),
                right: Box::new(self.expr_back(*right)),
                type_ann: None,
            }),
            Node::Other { tag, children } => match self.shells[tag as usize].clone() {
                Shell::Pat(p) => p,
                _ => js::Pat::Expr(Box::new(self.expr_back(Node::Other { tag, children }))),
            },
            e => js::Pat::Expr(Box::new(self.expr_back(e))),
        }
    }

    fn pat_prop_back(&mut self, n: Node) -> js::ObjectPatProp {
        match n {
            Node::KeyValue { key, value } => js::ObjectPatProp::KeyValue(js::KeyValuePatProp {
                key: self.prop_name_back(*key),
                value: Box::new(self.pat_back(*value)),
            }),
            Node::AssignPatProp { span, key, value } => {
                js::ObjectPatProp::Assign(js::AssignPatProp {
                    span: self.span_back(span),
                    key: self.ident_back(key),
                    value: value.map(|v| Box::new(self.expr_back(*v))),
                })
            }
            Node::Rest { .. } => js::ObjectPatProp::Rest(self.rest_back(n)),
            other => panic!("not a property of an object pattern: {:?}", other),
        }
    }

    fn prop_name_back(&mut self, n: Node) -> js::PropName {
        match n {
            Node::Key(i) => js::PropName::Ident(self.ident_back(i)),
            Node::Str { .. } => js::PropName::Str(self.str_back(n)),
            Node::Computed { span, expr } => js::PropName::Computed(js::ComputedPropName {
                span: self.span_back(span),
                expr: Box::new(self.expr_back(*expr)),
            }),
            Node::Other { tag, .. } => match self.shells[tag as usize].clone() {
                Shell::PropName(k) => k,
                _ => panic!("not a property name"),
            },
            other => panic!("not a property name: {:?}", other),
        }
    }

    fn prop_back(&mut self, n: Node) -> js::Prop {
        match n {
            Node::Shorthand(i) => js::Prop::Shorthand(self.ident_back(i)),
            Node::KeyValue { key, value } => js::Prop::KeyValue(js::KeyValueProp {
                key: self.prop_name_back(*key),
                value: Box::new(self.expr_back(*value)),
            }),
            Node::Scope { tag, children } | Node::Other { tag, children } => {
                match self.shells[tag as usize].clone() {
                    Shell::Prop(p) => self.restore(p, children),
                    _ => panic!("not a property"),
                }
            }
            other => panic!("not a property: {:?}", other),
        }
    }

    fn function_back(&mut self, n: Node) -> js::Function {
        match n {
            Node::Function { tag, params, body } => match self.shells[tag as usize].clone() {
                Shell::Function(f) => {
                    let mut children = params;
                    children.extend(body);
                    self.restore(f, children)
                }
                _ => panic!("not a function"),
            },
            Node::Scope { tag, children } => match self.shells[tag as usize].clone() {
                Shell::Function(f) => self.restore(f, children),
                _ => panic!("not a function"),
            },
            other => panic!("not a function: {:?}", other),
        }
    }

    fn class_back(&mut self, n: Node) -> js::Class {
        match n {
            Node::Scope { tag, children } => match self.shells[tag as usize].clone() {
                Shell::Class(c) => self.restore(c, children),
                _ => panic!("not a class"),
            },
            other => panic!("not a class: {:?}", other),
        }
    }

    fn var_decl_back(&mut self, n: Node) -> js::VarDecl {
        match n {
            Node::VarDecl { span, kind, declare, decls } => js::VarDecl {
                span: self.span_back(span),
                kind: match kind {
                    tree::VarKind::Var => js::VarDeclKind::Var,
                    tree::VarKind::Let => js::VarDeclKind::Let,
                    tree::VarKind::Const => js::VarDeclKind::Const,
                },
                declare,
                decls: decls
                    .into_iter()
                    .map(|d| match d {
                        Node::Declarator { span, name, init, definite } => js::VarDeclarator {
                            span: self.span_back(span),
                            name: self.pat_back(*name),
                            init: init.map(|e| Box::new(self.expr_back(*e))),
                            definite,
                        },
                        other => panic!("not a declarator: {:?}", other),
                    })
                    .collect(),
            },
            other => panic!("not a variable declaration: {:?}", other),
        }
    }

    fn stmt_back(&mut self, n: Node) -> js::Stmt {
        match n {
            Node::ExprStmt { span, expr } => js::Stmt::Expr(js::ExprStmt {
                span: self.span_back(span),
                expr: Box::new(self.expr_back(*expr)),
            }),
            Node::VarDecl { .. } => js::Stmt::Decl(js::Decl::Var(self.var_decl_back(n))),
            Node::Return { span, arg } => js::Stmt::Return(js::ReturnStmt {
                span: self.span_back(span),
                arg: arg.map(|e| Box::new(self.expr_back(*e))),
            }),
            Node::FnDecl { ident, declare, function } => js::Stmt::Decl(js::Decl::Fn(js::FnDecl {
                ident: self.ident_back(ident),
                declare,
                function: self.function_back(*function),
            })),
            Node::ClassDecl { ident, declare, class } => {
                js::Stmt::Decl(js::Decl::Class(js::ClassDecl {
                    ident: self.ident_back(ident),
                    declare,
                    class: self.class_back(*class),
                }))
            }
            Node::Other { tag, children } => match self.shells[tag as usize].clone() {
                Shell::Stmt(js::Stmt::Decl(d)) => js::Stmt::Decl(self.restore(d, children)),
                Shell::Stmt(s) => self.restore(s, children),
                _ => panic!("not a statement"),
            },
            other => panic!("not a statement: {:?}", other),
        }
    }

    fn module_item_back(&mut self, n: Node) -> js::ModuleItem {
        match n {
            Node::Import { span, src, .. } => {
                js::ModuleItem::ModuleDecl(js::ModuleDecl::Import(js::ImportDecl {
                    span: self.span_back(span),
                    specifiers: vec![],
                    src: js::Str {
                        value: JsWord::from(src),
                        span: DUMMY_SP,
                        kind: js::StrKind::Synthesized,
                        has_escape: false,
                    },
                    type_only: false,
                    asserts: None,
                }))
            }
            other => js::ModuleItem::Stmt(self.stmt_back(other)),
        }
    }

    fn module_back(&mut self, m: tree::Module) -> js::Module {
        js::Module {
            span: self.span_back(m.span),
            body: m.body.into_iter().map(|i| self.module_item_back(i)).collect(),
            shebang: m.shebang.map(JsWord::from),
        }
    }
}

impl Visit for Bridge {
    fn visit_expr(&mut self, n: &js::Expr, _: &dyn AnyNode) {
        let x = self.expr(n);
        self.emit(x);
    }

    fn visit_pat(&mut self, n: &js::Pat, _: &dyn AnyNode) {
        let x = self.pat(n);
        self.emit(x);
    }

    fn visit_stmt(&mut self, n: &js::Stmt, _: &dyn AnyNode) {
        let x = self.stmt(n);
        self.emit(x);
    }

    fn visit_ident(&mut self, n: &js::Ident, _: &dyn AnyNode) {
        let x = Node::Name(self.ident(n));
        self.emit(x);
    }

    fn visit_binding_ident(&mut self, n: &js::BindingIdent, _: &dyn AnyNode) {
        let x = Node::BindingIdent(self.ident(&n.id));
        self.emit(x);
    }

    fn visit_function(&mut self, n: &js::Function, _: &dyn AnyNode) {
        let x = self.function(n);
        self.emit(x);
    }

    fn visit_class(&mut self, n: &js::Class, _: &dyn AnyNode) {
        let x = self.class(n);
        self.emit(x);
    }

    fn visit_prop(&mut self, n: &js::Prop, _: &dyn AnyNode) {
        let x = self.prop(n);
        self.emit(x);
    }

    fn visit_prop_name(&mut self, n: &js::PropName, _: &dyn AnyNode) {
        let x = self.prop_name(n);
        self.emit(x);
    }

    fn visit_var_decl(&mut self, n: &js::VarDecl, _: &dyn AnyNode) {
        let x = self.var_decl(n);
        self.emit(x);
    }
}

impl VisitMut for Bridge {
    fn visit_mut_expr(&mut self, n: &mut js::Expr) {
        let x = self.next();
        *n = self.expr_back(x);
    }

    fn visit_mut_pat(&mut self, n: &mut js::Pat) {
        let x = self.next();
        *n = self.pat_back(x);
    }

    fn visit_mut_stmt(&mut self, n: &mut js::Stmt) {
        let x = self.next();
        *n = self.stmt_back(x);
    }

    fn visit_mut_ident(&mut self, n: &mut js::Ident) {
        match self.next() {
            Node::Name(i) => {
                *n = js::Ident { optional: n.optional, ..self.ident_back(i) };
            }
            other => panic!("not a name: {:?}", other),
        }
    }

    fn visit_mut_binding_ident(&mut self, n: &mut js::BindingIdent) {
        match self.next() {
            Node::BindingIdent(i) => {
                n.id = self.ident_back(i);
            }
            other => panic!("not a binding: {:?}", other),
        }
    }

    fn visit_mut_function(&mut self, n: &mut js::Function) {
        let x = self.next();
        *n = self.function_back(x);
    }

    fn visit_mut_class(&mut self, n: &mut js::Class) {
        let x = self.next();
        *n = self.class_back(x);
    }

    fn visit_mut_prop(&mut self, n: &mut js::Prop) {
        let x = self.next();
        *n = self.prop_back(x);
    }

    fn visit_mut_prop_name(&mut self, n: &mut js::PropName) {
        let x = self.next();
        *n = self.prop_name_back(x);
    }

    fn visit_mut_var_decl(&mut self, n: &mut js::VarDecl) {
        let x = self.next();
        *n = self.var_decl_back(x);
    }
}

fn unary_op(op: js::UnaryOp) -> tree::UnaryOp {
    match op {
        js::UnaryOp::Minus => tree::UnaryOp::Minus,
        js::UnaryOp::Plus => tree::UnaryOp::Plus,
        js::UnaryOp::Bang => tree::UnaryOp::Bang,
        js::UnaryOp::Tilde => tree::UnaryOp::Tilde,
        js::UnaryOp::TypeOf => tree::UnaryOp::TypeOf,
        js::UnaryOp::Void => tree::UnaryOp::Void,
        js::UnaryOp::Delete => tree::UnaryOp::Delete,
    }
}

fn unary_op_back(op: tree::UnaryOp) -> js::UnaryOp {
    match op {
        tree::UnaryOp::Minus => js::UnaryOp::Minus,
        tree::UnaryOp::Plus => js::UnaryOp::Plus,
        tree::UnaryOp::Bang => js::UnaryOp::Bang,
        tree::UnaryOp::Tilde => js::UnaryOp::Tilde,
        tree::UnaryOp::TypeOf => js::UnaryOp::TypeOf,
        tree::UnaryOp::Void => js::UnaryOp::Void,
        tree::UnaryOp::Delete => js::UnaryOp::Delete,
    }
}

fn assign_op(op: js::AssignOp) -> tree::AssignOp {
    match op {
        js::AssignOp::Assign => tree::AssignOp::Assign,
        js::AssignOp::AddAssign => tree::AssignOp::AddAssign,
        js::AssignOp::SubAssign => tree::AssignOp::SubAssign,
        js::AssignOp::MulAssign => tree::AssignOp::MulAssign,
        js::AssignOp::DivAssign => tree::AssignOp::DivAssign,
        js::AssignOp::ModAssign => tree::AssignOp::ModAssign,
        js::AssignOp::LShiftAssign => tree::AssignOp::LShiftAssign,
        js::AssignOp::RShiftAssign => tree::AssignOp::RShiftAssign,
        js::AssignOp::ZeroFillRShiftAssign => tree::AssignOp::ZeroFillRShiftAssign,
        js::AssignOp::BitOrAssign => tree::AssignOp::BitOrAssign,
        js::AssignOp::BitXorAssign => tree::AssignOp::BitXorAssign,
        js::AssignOp::BitAndAssign => tree::AssignOp::BitAndAssign,
        js::AssignOp::ExpAssign => tree::AssignOp::ExpAssign,
        js::AssignOp::AndAssign => tree::AssignOp::AndAssign,
        js::AssignOp::OrAssign => tree::AssignOp::OrAssign,
        js::AssignOp::NullishAssign => tree::AssignOp::NullishAssign,
    }
}

fn assign_op_back(op: tree::AssignOp) -> js::AssignOp {
    match op {
        tree::AssignOp::Assign => js::AssignOp::Assign,
        tree::AssignOp::AddAssign => js::AssignOp::AddAssign,
        tree::AssignOp::SubAssign => js::AssignOp::SubAssign,
        tree::AssignOp::MulAssign => js::AssignOp::MulAssign,
        tree::AssignOp::DivAssign => js::AssignOp::DivAssign,
        tree::AssignOp::ModAssign => js::AssignOp::ModAssign,
        tree::AssignOp::LShiftAssign => js::AssignOp::LShiftAssign,
        tree::AssignOp::RShiftAssign => js::AssignOp::RShiftAssign,
        tree::AssignOp::ZeroFillRShiftAssign => js::AssignOp::ZeroFillRShiftAssign,
        tree::AssignOp::BitOrAssign => js::AssignOp::BitOrAssign,
        tree::AssignOp::BitXorAssign => js::AssignOp::BitXorAssign,
        tree::AssignOp::BitAndAssign => js::AssignOp::BitAndAssign,
        tree::AssignOp::ExpAssign => js::AssignOp::ExpAssign,
        tree::AssignOp::AndAssign => js::AssignOp::AndAssign,
        tree::AssignOp::OrAssign => js::AssignOp::OrAssign,
        tree::AssignOp::NullishAssign => js::AssignOp::NullishAssign,
    }
}

/// The bindings that a module declares, with their scopes.
struct DeclCollector {
    decls: HashSet<(JsWord, SyntaxContext)>,
    in_var: bool,
}

impl Visit for DeclCollector {
    fn visit_decl(&mut self, node: &js::Decl, _: &dyn AnyNode) {
        match node {
            js::Decl::Class(class) => {
                self.decls.insert((class.ident.sym.clone(), class.ident.span.ctxt));
            }
            js::Decl::Fn(f) => {
                self.decls.insert((f.ident.sym.clone(), f.ident.span.ctxt));
            }
            _ => {}
        }
        node.visit_children_with(self);
    }

    fn visit_var_declarator(&mut self, node: &js::VarDeclarator, _: &dyn AnyNode) {
        self.in_var = true;
        node.name.visit_with(node as &dyn AnyNode, self);
        self.in_var = false;
        if let Some(init) = &node.init {
            init.visit_with(node as &dyn AnyNode, self);
        }
    }

    fn visit_binding_ident(&mut self, node: &js::BindingIdent, _: &dyn AnyNode) {
        if self.in_var {
            self.decls.insert((node.id.sym.clone(), node.id.span.ctxt));
        }
    }

    fn visit_assign_pat_prop(&mut self, node: &js::AssignPatProp, _: &dyn AnyNode) {
        if self.in_var {
            self.decls.insert((node.key.sym.clone(), node.key.span.ctxt));
        }
    }

    fn visit_function(&mut self, node: &js::Function, _: &dyn AnyNode) {
        self.in_var = true;
        for param in &node.params {
            param.visit_with(node as &dyn AnyNode, self);
        }
        self.in_var = false;
        if let Some(body) = &node.body {
            body.visit_with(node as &dyn AnyNode, self);
        }
    }

    fn visit_arrow_expr(&mut self, node: &js::ArrowExpr, _: &dyn AnyNode) {
        self.in_var = true;
        for param in &node.params {
            param.visit_with(node as &dyn AnyNode, self);
        }
        self.in_var = false;
        node.body.visit_with(node as &dyn AnyNode, self);
    }

    fn visit_import_named_specifier(&mut self, node: &js::ImportNamedSpecifier, _: &dyn AnyNode) {
        self.decls.insert((node.local.sym.clone(), node.local.span.ctxt));
    }

    fn visit_import_default_specifier(
        &mut self,
        node: &js::ImportDefaultSpecifier,
        _: &dyn AnyNode,
    ) {
        self.decls.insert((node.local.sym.clone(), node.local.span.ctxt));
    }

    fn visit_import_star_as_specifier(&mut self, node: &js::ImportStarAsSpecifier, _: &dyn AnyNode) {
        self.decls.insert((node.local.sym.clone(), node.local.span.ctxt));
    }
}

fn collect_decls(module: &js::Module) -> HashSet<(JsWord, SyntaxContext)> {
    let mut c = DeclCollector { decls: HashSet::new(), in_var: false };
    module.visit_with(&js::Invalid { span: DUMMY_SP } as &dyn AnyNode, &mut c);
    c.decls
}

fn is_marked(ctxt: SyntaxContext, mark: Mark) -> bool {
    let mut ctxt = ctxt;
    loop {
        let m = ctxt.remove_mark();
        if m == Mark::root() {
            return false;
        }
        if m == mark {
            return true;
        }
    }
}

fn emit(source_map: Lrc<SourceMap>, comments: SingleThreadedComments, program: &js::Module) -> String {
    let mut src_map_buf = vec![];
    let mut buf = vec![];
    {
        let writer =
            Box::new(JsWriter::new(source_map.clone(), "\n", &mut buf, Some(&mut src_map_buf)));
        let config = swc_ecmascript::codegen::Config { minify: false };
        let mut emitter = swc_ecmascript::codegen::Emitter {
            cfg: config,
            comments: Some(&comments),
            cm: source_map,
            wr: writer,
        };
        emitter.emit_module(program).unwrap();
    }
    // This printer puts three spaces between `import` and a bare specifier.
    String::from_utf8(buf).unwrap().replace("import   \"", "import \"")
}

/// Parses `code` and hands it to `run` as the library sees it: the tree,
/// the declared bindings, the ignored scopes and the scope of the top
/// level. The tree that `run` gives back is printed.
fn with_parsed<R>(
    code: &str,
    run: impl FnOnce(tree::Module, Vec<tree::Id>, Vec<u32>, u32) -> (Option<tree::Module>, R),
) -> (Option<String>, R) {
    let source_map = Lrc::new(SourceMap::default());
    let source_file = source_map.new_source_file(FileName::Anon, code.into());
    let comments = SingleThreadedComments::default();
    let lexer = Lexer::new(
        Syntax::Es(EsConfig { dynamic_import: true, ..Default::default() }),
        Default::default(),
        StringInput::from(&*source_file),
        Some(&comments),
    );
    let mut parser = Parser::new_from(lexer);
    match parser.parse_module() {
        Ok(module) => swc_common::GLOBALS.set(&Globals::new(), || {
            swc_ecmascript::transforms::helpers::HELPERS.set(
                &swc_ecmascript::transforms::helpers::Helpers::new(false),
                || {
                    let global_mark = Mark::fresh(Mark::root());
                    let module = module.fold_with(&mut resolver_with_mark(global_mark));
                    let ignore_mark = Mark::fresh(Mark::root());

                    let mut bridge = Bridge::new();
                    let tree_module = bridge.module(&module);
                    let global_ctxt =
                        bridge.ctxt_id(SyntaxContext::empty().apply_mark(global_mark));
                    let mut decls = vec![];
                    for (sym, ctxt) in collect_decls(&module) {
                        decls.push(tree::Id { sym: sym.to_string(), ctxt: bridge.ctxt_id(ctxt) });
                    }
                    decls.sort_by(|a, b| (&a.sym, a.ctxt).cmp(&(&b.sym, b.ctxt)));
                    let mut ignored = vec![];
                    for (i, ctxt) in bridge.ctxts.iter().enumerate() {
                        if is_marked(*ctxt, ignore_mark) {
                            ignored.push(i as u32);
                        }
                    }

                    let (rewritten, r) = run(tree_module, decls, ignored, global_ctxt);
                    let code = rewritten.map(|m| {
                        let module = bridge.module_back(m);
                        emit(source_map, comments, &module)
                    });
                    (code, r)
                },
            )
        }),
        Err(err) => {
            panic!("{:?}", err);
        }
    }
}

/// Parses `code`, analyses and rewrites it as the module `abc`, and prints
/// the result.
fn parse(code: &str) -> (Collect, String, HoistResult) {
    let (code, (collect, res)) = with_parsed(code, |module, decls, ignored, global_ctxt| {
        let mut collect = Collect::new(decls, ignored, global_ctxt, false);
        collect.visit_module(&module);
        let mut hoist = Hoist::new("abc");
        let rewritten = hoist.fold_module(&collect, &module);
        let res = hoist.get_result(&collect);
        (Some(rewritten), (collect, res))
    });
    (collect, code.unwrap(), res)
}

/// The same through the library's entry point.
fn run_hoist(
    code: &str,
    trace_bailouts: bool,
) -> Result<(String, HoistResult, Vec<Bailout>), Vec<Diagnostic>> {
    let (code, r) = with_parsed(code, |module, decls, ignored, global_ctxt| {
        match hoist(module, "abc", decls, ignored, global_ctxt, trace_bailouts) {
            Ok((rewritten, res, bailouts)) => (Some(rewritten), Ok((res, bailouts))),
            Err(diagnostics) => (None, Err(diagnostics)),
        }
    });
    r.map(|(res, bailouts)| (code.unwrap(), res, bailouts))
}

fn imports_of(collect: &Collect) -> HashMap<String, (String, String, bool)> {
    let mut map = HashMap::new();
    for i in 0..collect.imports.len() {
        let key = collect.imports.key(i);
        let val = collect.imports.value(i);
        map.insert(
            key.sym.clone(),
            (val.source.clone(), val.specifier.clone(), val.kind == ImportKind::DynamicImport),
        );
    }
    map
}

fn imports_map(entries: &[(&str, &str, &str, bool)]) -> HashMap<String, (String, String, bool)> {
    let mut map = HashMap::new();
    for (k, source, specifier, dynamic) in entries {
        map.insert(k.to_string(), (source.to_string(), specifier.to_string(), *dynamic));
    }
    map
}

fn imported_symbols_of(hoist: &HoistResult) -> HashMap<String, (String, String)> {
    let mut map = HashMap::new();
    for sym in &hoist.imported_symbols {
        map.insert(sym.local.clone(), (sym.source.clone(), sym.imported.clone()));
    }
    map
}

fn symbols_map(entries: &[(&str, &str, &str)]) -> HashMap<String, (String, String)> {
    let mut map = HashMap::new();
    for (local, source, imported) in entries {
        map.insert(local.to_string(), (source.to_string(), imported.to_string()));
    }
    map
}

fn keys_of(table: &Table<Vec<tree::Span>>) -> HashSet<String> {
    let mut set = HashSet::new();
    for i in 0..table.len() {
        set.insert(table.key(i).sym.clone());
    }
    set
}

fn set_of(s: &StrSet) -> HashSet<String> {
    let mut set = HashSet::new();
    for i in 0..s.len() {
        set.insert(s.item(i).clone());
    }
    set
}

fn map_of(m: &StrMap) -> HashMap<String, String> {
    let mut map = HashMap::new();
    for i in 0..m.len() {
        map.insert(m.key(i).clone(), m.value(i).clone());
    }
    map
}

fn str_set(items: &[&str]) -> HashSet<String> {
    items.iter().map(|s| s.to_string()).collect()
}

fn str_map(entries: &[(&str, &str)]) -> HashMap<String, String> {
    entries.iter().map(|(k, v)| (k.to_string(), v.to_string())).collect()
}

#[test]
fn esm() {
    let (collect, _code, _hoist) = parse(
        r#"
    import {foo as bar} from 'other';
    export {bar as test};
    "#,
    );
    assert_eq!(imports_of(&collect), imports_map(&[("bar", "other", "foo", false)]));
}

#[test]
fn cjs_namespace() {
    let (collect, _code, _hoist) = parse(
        r#"
    const x = require('other');
    console.log(x.foo);
    "#,
    );
    assert_eq!(imports_of(&collect), imports_map(&[("x", "other", "*", false)]));
    assert_eq!(collect.non_static_access.len(), 0);

    let (_collect, _code, hoist) = parse(
        r#"
      require('other');
    "#,
    );
    assert_eq!(imported_symbols_of(&hoist), symbols_map(&[]));
}

#[test]
fn cjs_namespace_non_static() {
    let (collect, _code, _hoist) = parse(
        r#"
    const x = require('other');
    console.log(x[foo]);
    "#,
    );
    assert_eq!(imports_of(&collect), imports_map(&[("x", "other", "*", false)]));
    assert_eq!(keys_of(&collect.non_static_access), str_set(&["x"]));

    let (collect, _code, _hoist) = parse(
        r#"
    const x = require('other');
    console.log(x);
    "#,
    );
    assert_eq!(imports_of(&collect), imports_map(&[("x", "other", "*", false)]));
    assert_eq!(keys_of(&collect.non_static_access), str_set(&["x"]));
}

#[test]
fn cjs_destructure() {
    let (collect, _code, _hoist) = parse(
        r#"
    const {foo: bar} = require('other');
    exports.test = bar;
    "#,
    );
    assert_eq!(imports_of(&collect), imports_map(&[("bar", "other", "foo", false)]));
    assert!(collect.static_cjs_exports);
}

#[test]
fn cjs_reassign() {
    let (collect, _code, _hoist) = parse(
        r#"
    exports = 2;
    "#,
    );
    assert!(collect.should_wrap);

    let (collect, _code, _hoist) = parse(
        r#"
    module = 2;
    "#,
    );
    assert!(collect.should_wrap);
}

#[test]
fn should_wrap() {
    let (collect, _code, _hoist) = parse(
        r#"
    eval('');
    "#,
    );
    assert!(collect.should_wrap);

    let (collect, _code, _hoist) = parse(
        r#"
    doSomething(module);
    "#,
    );
    assert!(collect.should_wrap);

    let (collect, _code, _hoist) = parse(
        r#"
    console.log(module.id);
    "#,
    );
    assert!(collect.should_wrap);

    let (collect, _code, _hoist) = parse(
        r#"
    console.log(typeof module);
    console.log(module.hot);
    "#,
    );
    assert!(!collect.should_wrap);

    let (collect, _code, _hoist) = parse(
        r#"
    exports.foo = 2;
    return;
    exports.bar = 3;
    "#,
    );
    assert!(collect.should_wrap);

    let (collect, _code, _hoist) = parse(
        r#"
    const foo = {
      get a() {
        return 1;
      },
      set b(v) {
        return;
      },
      run() {
        return 3;
      },
    };
    console.log(foo.a);
    "#,
    );
    assert!(!collect.should_wrap);
}

#[test]
fn cjs_non_static_exports() {
    let (collect, _code, _hoist) = parse(
        r#"
    exports[test] = 2;
    "#,
    );
    assert!(!collect.static_cjs_exports);

    let (collect, _code, _hoist) = parse(
        r#"
    module.exports[test] = 2;
    "#,
    );
    assert!(!collect.static_cjs_exports);

    let (collect, _code, _hoist) = parse(
        r#"
    this[test] = 2;
    "#,
    );
    assert!(!collect.static_cjs_exports);

    let (collect, _code, _hoist) = parse(
        r#"
    module.exports[test] = 2;
    "#,
    );
    assert!(!collect.static_cjs_exports);

    let (collect, _code, _hoist) = parse(
        r#"
    alert(exports)
    "#,
    );
    assert!(!collect.static_cjs_exports);

    let (collect, _code, _hoist) = parse(
        r#"
    alert(module.exports)
    "#,
    );
    assert!(!collect.static_cjs_exports);

    let (collect, _code, _hoist) = parse(
        r#"
    alert(this)
    "#,
    );
    assert!(!collect.static_cjs_exports);

    let (collect, _code, _hoist) = parse(
        r#"
    exports.foo = 2;
    "#,
    );
    assert!(collect.static_cjs_exports);

    let (collect, _code, _hoist) = parse(
        r#"
    module.exports.foo = 2;
    "#,
    );
    assert!(collect.static_cjs_exports);

    let (collect, _code, _hoist) = parse(
        r#"
    this.foo = 2;
    "#,
    );
    assert!(collect.static_cjs_exports);

    let (collect, _code, _hoist) = parse(
        r#"
    var exports = {};
    exports[foo] = 2;
    "#,
    );
    assert!(collect.static_cjs_exports);

    let (collect, _code, _hoist) = parse(
        r#"
    var module = {exports: {}};
    module.exports[foo] = 2;
    "#,
    );
    assert!(collect.static_cjs_exports);

    let (collect, _code, _hoist) = parse(
        r#"
    test(function(exports) { return Object.keys(exports) })
    "#,
    );
    assert!(collect.static_cjs_exports);

    let (collect, _code, _hoist) = parse(
        r#"
    test(exports => Object.keys(exports))
    "#,
    );
    assert!(collect.static_cjs_exports);
}

#[test]
fn dynamic_import() {
    let (collect, _code, _hoist) = parse(
        r#"
    async function test() {
      const x = await import('other');
      x.foo;
    }
    "#,
    );
    assert_eq!(imports_of(&collect), imports_map(&[("x", "other", "*", true)]));
    assert_eq!(keys_of(&collect.non_static_access), str_set(&[]));
    assert_eq!(set_of(&collect.non_static_requires), str_set(&[]));
    assert_eq!(set_of(&collect.wrapped_requires), str_set(&["other"]));

    let (collect, _code, _hoist) = parse(
        r#"
    async function test() {
      const x = await import('other');
      x[foo];
    }
    "#,
    );
    assert_eq!(imports_of(&collect), imports_map(&[("x", "other", "*", true)]));
    assert_eq!(keys_of(&collect.non_static_access), str_set(&["x"]));
    assert_eq!(set_of(&collect.non_static_requires), str_set(&[]));
    assert_eq!(set_of(&collect.wrapped_requires), str_set(&["other"]));

    let (collect, _code, _hoist) = parse(
        r#"
    async function test() {
      const {foo} = await import('other');
    }
    "#,
    );
    assert_eq!(imports_of(&collect), imports_map(&[("foo", "other", "foo", true)]));
    assert_eq!(set_of(&collect.non_static_requires), str_set(&[]));
    assert_eq!(set_of(&collect.wrapped_requires), str_set(&["other"]));

    let (collect, _code, _hoist) = parse(
        r#"
    async function test() {
      const {foo: bar} = await import('other');
    }
    "#,
    );
    assert_eq!(imports_of(&collect), imports_map(&[("bar", "other", "foo", true)]));
    assert_eq!(set_of(&collect.non_static_requires), str_set(&[]));
    assert_eq!(set_of(&collect.wrapped_requires), str_set(&["other"]));

    let (collect, _code, _hoist) = parse(
        r#"
    import('other').then(x => x.foo);
    "#,
    );
    assert_eq!(imports_of(&collect), imports_map(&[("x", "other", "*", true)]));
    assert_eq!(keys_of(&collect.non_static_access), str_set(&[]));
    assert_eq!(set_of(&collect.non_static_requires), str_set(&[]));
    assert_eq!(set_of(&collect.wrapped_requires), str_set(&["other"]));

    let (collect, _code, _hoist) = parse(
        r#"
    import('other').then(x => x);
    "#,
    );
    assert_eq!(imports_of(&collect), imports_map(&[("x", "other", "*", true)]));
    assert_eq!(keys_of(&collect.non_static_access), str_set(&["x"]));
    assert_eq!(set_of(&collect.non_static_requires), str_set(&[]));
    assert_eq!(set_of(&collect.wrapped_requires), str_set(&["other"]));

    let (collect, _code, _hoist) = parse(
        r#"
    import('other').then(({foo}) => foo);
    "#,
    );
    assert_eq!(imports_of(&collect), imports_map(&[("foo", "other", "foo", true)]));
    assert_eq!(set_of(&collect.non_static_requires), str_set(&[]));
    assert_eq!(set_of(&collect.wrapped_requires), str_set(&["other"]));

    let (collect, _code, _hoist) = parse(
        r#"
    import('other').then(({foo: bar}) => bar);
    "#,
    );
    assert_eq!(imports_of(&collect), imports_map(&[("bar", "other", "foo", true)]));
    assert_eq!(set_of(&collect.non_static_requires), str_set(&[]));
    assert_eq!(set_of(&collect.wrapped_requires), str_set(&["other"]));

    let (collect, _code, _hoist) = parse(
        r#"
    import('other').then(function (x) { return x.foo });
    "#,
    );
    assert_eq!(imports_of(&collect), imports_map(&[("x", "other", "*", true)]));
    assert_eq!(keys_of(&collect.non_static_access), str_set(&[]));
    assert_eq!(set_of(&collect.non_static_requires), str_set(&[]));
    assert_eq!(set_of(&collect.wrapped_requires), str_set(&["other"]));

    let (collect, _code, _hoist) = parse(
        r#"
    import('other').then(function (x) { return x });
    "#,
    );
    assert_eq!(imports_of(&collect), imports_map(&[("x", "other", "*", true)]));
    assert_eq!(keys_of(&collect.non_static_access), str_set(&["x"]));
    assert_eq!(set_of(&collect.non_static_requires), str_set(&[]));
    assert_eq!(set_of(&collect.wrapped_requires), str_set(&["other"]));

    let (collect, _code, _hoist) = parse(
        r#"
    import('other').then(function ({foo}) {});
    "#,
    );
    assert_eq!(imports_of(&collect), imports_map(&[("foo", "other", "foo", true)]));
    assert_eq!(set_of(&collect.non_static_requires), str_set(&[]));
    assert_eq!(set_of(&collect.wrapped_requires), str_set(&["other"]));

    let (collect, _code, _hoist) = parse(
        r#"
    import('other').then(function ({foo: bar}) {});
    "#,
    );
    assert_eq!(imports_of(&collect), imports_map(&[("bar", "other", "foo", true)]));
    assert_eq!(set_of(&collect.non_static_requires), str_set(&[]));
    assert_eq!(set_of(&collect.wrapped_requires), str_set(&["other"]));

    let (collect, _code, _hoist) = parse(
        r#"
    import('other');
    "#,
    );
    assert_eq!(imports_of(&collect), imports_map(&[]));
    assert_eq!(set_of(&collect.non_static_requires), str_set(&["other"]));
    assert_eq!(set_of(&collect.wrapped_requires), str_set(&["other"]));

    let (collect, _code, _hoist) = parse(
        r#"
    let other = import('other');
    "#,
    );
    assert_eq!(imports_of(&collect), imports_map(&[]));
    assert_eq!(set_of(&collect.non_static_requires), str_set(&["other"]));
    assert_eq!(set_of(&collect.wrapped_requires), str_set(&["other"]));

    let (collect, _code, _hoist) = parse(
        r#"
    async function test() {
      let {...other} = await import('other');
    }
    "#,
    );
    assert_eq!(imports_of(&collect), imports_map(&[]));
    assert_eq!(set_of(&collect.non_static_requires), str_set(&["other"]));
    assert_eq!(set_of(&collect.wrapped_requires), str_set(&["other"]));
}

#[test]
fn fold_import() {
    let (_collect, code, _hoist) = parse(
        r#"
    import {foo as bar} from 'other';
    let test = {bar: 3};
    console.log(bar, test.bar);
    "#,
    );

    assert_eq!(code, r#"import "abc:other";
let $abc$var$test = {
    bar: 3
};
console.log($abc$import$70a00e0a8474f72a$6a5cdcad01c973fa, $abc$var$test.bar);
"#);

    let (_collect, code, _hoist) = parse(
        r#"
    import * as foo from 'other';
    console.log(foo.bar);
    "#,
    );

    assert_eq!(code, r#"import "abc:other";
console.log($abc$import$70a00e0a8474f72a$d927737047eb3867);
"#);

    let (_collect, code, _hoist) = parse(
        r#"
    import other from 'other';
    console.log(other, other.bar);
    "#,
    );

    assert_eq!(code, r#"import "abc:other";
console.log($abc$import$70a00e0a8474f72a$2e2bcd8739ae039, $abc$import$70a00e0a8474f72a$2e2bcd8739ae039.bar);
"#);
}

#[test]
fn fold_import_hoist() {
    let (_collect, code, _hoist) = parse(
        r#"
    import foo from 'other';
    console.log(foo);
    import bar from 'bar';
    console.log(bar);
    "#,
    );

    assert_eq!(code, r#"import "abc:other";
import "abc:bar";
console.log($abc$import$70a00e0a8474f72a$2e2bcd8739ae039);
console.log($abc$import$d927737047eb3867$2e2bcd8739ae039);
"#);

    let (_collect, code, _hoist) = parse(
        r#"
    import foo from 'other';
    console.log(foo);
    const x = require('x');
    console.log(x);
    import bar from 'bar';
    console.log(bar);
    "#,
    );

    assert_eq!(code, r#"import "abc:other";
import "abc:bar";
console.log($abc$import$70a00e0a8474f72a$2e2bcd8739ae039);
import "abc:x";
console.log($abc$import$d141bba7fdc215a3);
console.log($abc$import$d927737047eb3867$2e2bcd8739ae039);
"#);
}

#[test]
fn fold_static_require() {
    let (_collect, code, _hoist) = parse(
        r#"
    const x = 4, {bar} = require('other'), baz = 3;
    console.log(bar);
    "#,
    );

    assert_eq!(code, r#"const $abc$var$x = 4;
import "abc:other";
var $abc$require$bar = $abc$import$70a00e0a8474f72a$d927737047eb3867;
const $abc$var$baz = 3;
console.log($abc$require$bar);
"#);

    let (_collect, code, _hoist) = parse(
        r#"
    const x = 3, foo = require('other'), bar = 2;
    console.log(foo.bar);
    "#,
    );

    assert_eq!(code, r#"const $abc$var$x = 3;
import "abc:other";
const $abc$var$bar = 2;
console.log($abc$import$70a00e0a8474f72a$d927737047eb3867);
"#);
}

#[test]
fn fold_non_static_require() {
    let (_collect, code, _hoist) = parse(
        r#"
    const {foo, ...bar} = require('other');
    console.log(foo, bar);
    "#,
    );

    assert_eq!(code, r#"import "abc:other";
const { foo: $abc$var$foo , ...$abc$var$bar } = $abc$import$70a00e0a8474f72a;
console.log($abc$var$foo, $abc$var$bar);
"#);

    let (_collect, code, _hoist) = parse(
        r#"
    const {x: {y: z}} = require('x');
    console.log(z);
    "#,
    );

    assert_eq!(code, r#"import "abc:x";
const { x: { y: $abc$var$z  }  } = $abc$import$d141bba7fdc215a3;
console.log($abc$var$z);
"#);

    let (_collect, code, _hoist) = parse(
        r#"
    const foo = require('other');
    console.log(foo[bar]);
    "#,
    );

    assert_eq!(code, r#"import "abc:other";
console.log($abc$import$70a00e0a8474f72a[bar]);
"#);

    let (_collect, code, _hoist) = parse(
        r#"
    const foo = require('other');
    console.log(foo[bar], foo.baz);
    "#,
    );

    assert_eq!(code, r#"import "abc:other";
console.log($abc$import$70a00e0a8474f72a[bar], $abc$import$70a00e0a8474f72a.baz);
"#);
}

#[test]
fn fold_require_member() {
    // let (_collect, code, _hoist) = parse(r#"
    // let foo;
    // ({foo} = require('other'));
    // console.log(foo);
    // "#);

    // println!("{}", code);

    let (_collect, code, _hoist) = parse(
        r#"
    const foo = require('other').foo;
    console.log(foo);
    "#,
    );

    assert_eq!(code, r#"import "abc:other";
var $abc$require$foo = $abc$import$70a00e0a8474f72a$6a5cdcad01c973fa;
console.log($abc$require$foo);
"#);

    let (_collect, code, _hoist) = parse(
        r#"
    const foo = require('other')[bar];
    console.log(foo);
    "#,
    );

    assert_eq!(code, r#"import "abc:other";
const $abc$var$foo = $abc$import$70a00e0a8474f72a[bar];
console.log($abc$var$foo);
"#);

    let (_collect, code, _hoist) = parse(
        r#"
    const {foo} = require('other').foo;
    console.log(foo);
    "#,
    );

    assert_eq!(code, r#"import "abc:other";
const { foo: $abc$var$foo  } = $abc$import$70a00e0a8474f72a$6a5cdcad01c973fa;
console.log($abc$var$foo);
"#);
}

#[test]
fn fold_require_wrapped() {
    let (_collect, code, hoist) = parse(
        r#"
    function x() {
      const foo = require('other');
      console.log(foo.bar);
    }
    require('bar');
    "#,
    );

    assert_eq!(code, r#"import "abc:other";
function $abc$var$x() {
    const foo = $abc$import$70a00e0a8474f72a;
    console.log(foo.bar);
}
import "abc:bar";
"#);
    assert_eq!(set_of(&hoist.wrapped_requires), str_set(&["other"]));

    let (_collect, code, hoist) = parse(
        r#"
    var foo = (function () {
      if (Date.now() < 0) {
        var bar = require("other");
      }
    })();
    "#,
    );

    assert_eq!(code, r#"import "abc:other";
var $abc$var$foo = (function() {
    if (Date.now() < 0) {
        var bar = $abc$import$70a00e0a8474f72a;
    }
})();
"#);
    assert_eq!(set_of(&hoist.wrapped_requires), str_set(&["other"]));

    let (_collect, code, _hoist) = parse(
        r#"
    function x() {
      const foo = require('other').foo;
      console.log(foo);
    }
    "#,
    );

    assert_eq!(code, r#"import "abc:other";
function $abc$var$x() {
    const foo = $abc$import$70a00e0a8474f72a$6a5cdcad01c973fa;
    console.log(foo);
}
"#);

    let (_collect, code, _hoist) = parse(
        r#"
    function x() {
      console.log(require('other').foo);
    }
    "#,
    );

    assert_eq!(code, r#"import "abc:other";
function $abc$var$x() {
    console.log($abc$import$70a00e0a8474f72a$6a5cdcad01c973fa);
}
"#);

    let (_collect, code, _hoist) = parse(
        r#"
    function x() {
      const foo = require('other')[test];
      console.log(foo);
    }
    "#,
    );

    assert_eq!(code, r#"import "abc:other";
function $abc$var$x() {
    const foo = $abc$import$70a00e0a8474f72a[test];
    console.log(foo);
}
"#);

    let (_collect, code, _hoist) = parse(
        r#"
    function x() {
      const {foo} = require('other');
      console.log(foo);
    }
    "#,
    );

    assert_eq!(code, r#"import "abc:other";
function $abc$var$x() {
    const { foo: foo  } = $abc$import$70a00e0a8474f72a;
    console.log(foo);
}
"#);

    let (_collect, code, _hoist) = parse(
        r#"
    let x = require('a') + require('b');
    "#,
    );

    assert_eq!(code, r#"import "abc:a";
import "abc:b";
let $abc$var$x = $abc$import$407448d2b89b1813 + $abc$import$8b22cf2602fb60ce;
"#);

    let (_collect, code, _hoist) = parse(
        r#"
    let x = (require('a'), require('b'));
    "#,
    );

    assert_eq!(code, r#"import "abc:a";
import "abc:b";
let $abc$var$x = (!$abc$import$407448d2b89b1813, $abc$import$8b22cf2602fb60ce);
"#);

    let (_collect, code, _hoist) = parse(
        r#"
    let x = require('a') || require('b');
    "#,
    );

    assert_eq!(code, r#"import "abc:a";
import "abc:b";
let $abc$var$x = $abc$import$407448d2b89b1813 || $abc$import$8b22cf2602fb60ce;
"#);

    let (_collect, code, _hoist) = parse(
        r#"
    let x = condition ? require('a') : require('b');
    "#,
    );

    assert_eq!(code, r#"import "abc:a";
import "abc:b";
let $abc$var$x = condition ? $abc$import$407448d2b89b1813 : $abc$import$8b22cf2602fb60ce;
"#);

    let (_collect, code, _hoist) = parse(
        r#"
    if (condition) require('a');
    "#,
    );

    assert_eq!(code, r#"import "abc:a";
if (condition) $abc$import$407448d2b89b1813;
"#);

    let (_collect, code, _hoist) = parse(
        r#"
    for (let x = require('y'); x < 5; x++) {}
    "#,
    );

    assert_eq!(code, r#"import "abc:y";
for(let x = $abc$import$4a5767248b18ef41; x < 5; x++){
}
"#);
}

#[test]
fn fold_export() {
    let (_collect, code, _hoist) = parse(
        r#"
    let x = 3;
    let y = 4;
    let z = 6;
    export {x, y};
    "#,
    );

    assert_eq!(code, r#"let $abc$export$d141bba7fdc215a3 = 3;
let $abc$export$4a5767248b18ef41 = 4;
let $abc$var$z = 6;
"#);

    let (_collect, code, _hoist) = parse(
        r#"
    export default 3;
    "#,
    );

    assert_eq!(code, r#"var $abc$export$2e2bcd8739ae039 = 3;
"#);

    let (_collect, code, _hoist) = parse(
        r#"
    let x = 3;
    export default x;
    "#,
    );

    assert_eq!(code, r#"let $abc$var$x = 3;
var $abc$export$2e2bcd8739ae039 = $abc$var$x;
"#);

    let (_collect, code, _hoist) = parse(
        r#"
    export default function () {}
    "#,
    );

    assert_eq!(code, r#"function $abc$export$2e2bcd8739ae039() {
}
"#);

    let (_collect, code, _hoist) = parse(
        r#"
    export default class {}
    "#,
    );

    assert_eq!(code, r#"class $abc$export$2e2bcd8739ae039 {
}
"#);

    let (_collect, code, hoist) = parse(
        r#"
    console.log(module);
    export default class X {}
    "#,
    );

    assert!(hoist.should_wrap);
    assert_eq!(code, r#"console.log(module);
class X {
}
"#);

    let (_collect, code, _hoist) = parse(
        r#"
    export var x = 2, y = 3;
    "#,
    );

    assert_eq!(code, r#"var $abc$export$d141bba7fdc215a3 = 2, $abc$export$4a5767248b18ef41 = 3;
"#);

    let (_collect, code, _hoist) = parse(
        r#"
    export var {x, ...y} = something;
    export var [p, ...q] = something;
    export var {x = 3} = something;
    "#,
    );

    assert_eq!(code, r#"var { x: $abc$export$d141bba7fdc215a3 , ...$abc$export$4a5767248b18ef41 } = something;
var [$abc$export$ffb5f4729a158638, ...$abc$export$9e5f44173e64f162] = something;
var { x: $abc$export$d141bba7fdc215a3 = 3  } = something;
"#);

    let (_collect, code, _hoist) = parse(
        r#"
    export function test() {}
    "#,
    );

    assert_eq!(code, r#"function $abc$export$e0969da9b8fb378d() {
}
"#);

    let (_collect, code, _hoist) = parse(
        r#"
    export class Test {}
    "#,
    );

    assert_eq!(code, r#"class $abc$export$1b16fc9eb974a84d {
}
"#);

    let (_collect, code, _hoist) = parse(
        r#"
    export {foo} from 'bar';
    "#,
    );

    assert_eq!(code, r#"import "abc:bar";
"#);

    let (_collect, code, _hoist) = parse(
        r#"
    export * from 'bar';
    "#,
    );

    assert_eq!(code, r#"import "abc:bar";
"#);
}

#[test]
fn fold_cjs_export() {
    let (_collect, code, _hoist) = parse(
        r#"
    exports.foo = 2;
    "#,
    );

    assert_eq!(code, r#"var $abc$export$6a5cdcad01c973fa;
$abc$export$6a5cdcad01c973fa = 2;
"#);

    let (_collect, code, _hoist) = parse(
        r#"
    exports['foo'] = 2;
    "#,
    );

    assert_eq!(code, r#"var $abc$export$6a5cdcad01c973fa;
$abc$export$6a5cdcad01c973fa = 2;
"#);

    let (_collect, code, _hoist) = parse(
        r#"
    function init() {
      exports.foo = 2;
    }
    "#,
    );

    assert_eq!(code, r#"var $abc$export$6a5cdcad01c973fa;
function $abc$var$init() {
    $abc$export$6a5cdcad01c973fa = 2;
}
"#);

    let (_collect, code, _hoist) = parse(
        r#"
    module.exports.foo = 2;
    "#,
    );

    assert_eq!(code, r#"var $abc$export$6a5cdcad01c973fa;
$abc$export$6a5cdcad01c973fa = 2;
"#);

    let (_collect, code, _hoist) = parse(
        r#"
    module.exports['foo'] = 2;
    "#,
    );

    assert_eq!(code, r#"var $abc$export$6a5cdcad01c973fa;
$abc$export$6a5cdcad01c973fa = 2;
"#);

    let (_collect, code, _hoist) = parse(
        r#"
    exports.foo = 2;
    console.log(exports.foo)
    "#,
    );

    assert_eq!(code, r#"var $abc$export$6a5cdcad01c973fa;
$abc$export$6a5cdcad01c973fa = 2;
console.log($abc$export$6a5cdcad01c973fa);
"#);

    let (_collect, code, _hoist) = parse(
        r#"
    module.exports.foo = 2;
    console.log(module.exports.foo)
    "#,
    );

    assert_eq!(code, r#"var $abc$export$6a5cdcad01c973fa;
$abc$export$6a5cdcad01c973fa = 2;
console.log($abc$export$6a5cdcad01c973fa);
"#);
}

#[test]
fn fold_cjs_export_non_static() {
    let (_collect, code, _hoist) = parse(
        r#"
    exports[foo] = 2;
    exports.bar = 3;
    "#,
    );

    assert_eq!(code, r#"$abc$exports[foo] = 2;
$abc$exports.bar = 3;
"#);

    let (_collect, code, _hoist) = parse(
        r#"
    module.exports[foo] = 2;
    module.exports.bar = 3;
    "#,
    );

    assert_eq!(code, r#"$abc$exports[foo] = 2;
$abc$exports.bar = 3;
"#);

    let (_collect, code, _hoist) = parse(
        r#"
    exports.foo = 2;
    sideEffects(exports);
    "#,
    );

    assert_eq!(code, r#"$abc$exports.foo = 2;
sideEffects($abc$exports);
"#);

    let (_collect, code, _hoist) = parse(
        r#"
    exports.foo = 2;
    sideEffects(module.exports);
    "#,
    );

    assert_eq!(code, r#"$abc$exports.foo = 2;
sideEffects($abc$exports);
"#);

    let (_collect, code, _hoist) = parse(
        r#"
    exports[foo] = 2;
    console.log(exports[foo]);
    "#,
    );

    assert_eq!(code, r#"$abc$exports[foo] = 2;
console.log($abc$exports[foo]);
"#);

    let (_collect, code, _hoist) = parse(
        r#"
    exports[foo] = 2;
    console.log(exports.foo);
    "#,
    );

    assert_eq!(code, r#"$abc$exports[foo] = 2;
console.log($abc$exports.foo);
"#);

    let (_collect, code, _hoist) = parse(
        r#"
    module.exports[foo] = 2;
    console.log(module.exports[foo]);
    "#,
    );

    assert_eq!(code, r#"$abc$exports[foo] = 2;
console.log($abc$exports[foo]);
"#);

    let (_collect, code, _hoist) = parse(
        r#"
    module.exports[foo] = 2;
    console.log(module.exports.foo);
    "#,
    );

    assert_eq!(code, r#"$abc$exports[foo] = 2;
console.log($abc$exports.foo);
"#);

    let (_collect, code, _hoist) = parse(
        r#"
    var module = {exports: {}};
    module.exports.foo = 2;
    console.log(module.exports.foo);
    "#,
    );

    assert_eq!(code, r#"var $abc$var$module = {
    exports: {
    }
};
$abc$var$module.exports.foo = 2;
console.log($abc$var$module.exports.foo);
"#);
}

#[test]
fn fold_dynamic_import() {
    let (_collect, code, hoist) = parse(
        r#"
    async function test() {
      const x = await import('other');
      console.log(x.foo);
    }
    "#,
    );
    assert_eq!(imported_symbols_of(&hoist), symbols_map(&[("$abc$importAsync$70a00e0a8474f72a$6a5cdcad01c973fa", "other", "foo")]));
    assert_eq!(map_of(&hoist.dynamic_imports), str_map(&[("$abc$importAsync$70a00e0a8474f72a", "other")]));
    assert_eq!(code, r#"import "abc:other";
async function $abc$var$test() {
    const x = await $abc$importAsync$70a00e0a8474f72a;
    console.log(x.foo);
}
"#);

    let (_collect, code, hoist) = parse(
        r#"
    async function test() {
      const x = await import('other');
      console.log(x[foo]);
    }
    "#,
    );
    assert_eq!(imported_symbols_of(&hoist), symbols_map(&[("$abc$importAsync$70a00e0a8474f72a", "other", "*")]));
    assert_eq!(map_of(&hoist.dynamic_imports), str_map(&[("$abc$importAsync$70a00e0a8474f72a", "other")]));
    assert_eq!(code, r#"import "abc:other";
async function $abc$var$test() {
    const x = await $abc$importAsync$70a00e0a8474f72a;
    console.log(x[foo]);
}
"#);

    let (_collect, code, hoist) = parse(
        r#"
    async function test() {
      const {foo} = await import('other');
      console.log(foo);
    }
    "#,
    );
    assert_eq!(imported_symbols_of(&hoist), symbols_map(&[("$abc$importAsync$70a00e0a8474f72a$6a5cdcad01c973fa", "other", "foo")]));
    assert_eq!(map_of(&hoist.dynamic_imports), str_map(&[("$abc$importAsync$70a00e0a8474f72a", "other")]));
    assert_eq!(code, r#"import "abc:other";
async function $abc$var$test() {
    const { foo: foo  } = await $abc$importAsync$70a00e0a8474f72a;
    console.log(foo);
}
"#);

    let (_collect, code, hoist) = parse(
        r#"
    async function test() {
      const {foo: bar} = await import('other');
      console.log(bar);
    }
    "#,
    );
    assert_eq!(imported_symbols_of(&hoist), symbols_map(&[("$abc$importAsync$70a00e0a8474f72a$6a5cdcad01c973fa", "other", "foo")]));
    assert_eq!(map_of(&hoist.dynamic_imports), str_map(&[("$abc$importAsync$70a00e0a8474f72a", "other")]));
    assert_eq!(code, r#"import "abc:other";
async function $abc$var$test() {
    const { foo: bar  } = await $abc$importAsync$70a00e0a8474f72a;
    console.log(bar);
}
"#);

    let (_collect, code, hoist) = parse(
        r#"
    import('other').then(x => x.foo);
    "#,
    );
    assert_eq!(imported_symbols_of(&hoist), symbols_map(&[("$abc$importAsync$70a00e0a8474f72a$6a5cdcad01c973fa", "other", "foo")]));
    assert_eq!(map_of(&hoist.dynamic_imports), str_map(&[("$abc$importAsync$70a00e0a8474f72a", "other")]));
    assert_eq!(code, r#"import "abc:other";
$abc$importAsync$70a00e0a8474f72a.then((x)=>x.foo
);
"#);

    let (_collect, code, hoist) = parse(
        r#"
    import('other').then(x => x);
    "#,
    );
    assert_eq!(imported_symbols_of(&hoist), symbols_map(&[("$abc$importAsync$70a00e0a8474f72a", "other", "*")]));
    assert_eq!(map_of(&hoist.dynamic_imports), str_map(&[("$abc$importAsync$70a00e0a8474f72a", "other")]));
    assert_eq!(code, r#"import "abc:other";
$abc$importAsync$70a00e0a8474f72a.then((x)=>x
);
"#);

    let (_collect, code, hoist) = parse(
        r#"
    import('other').then(({foo}) => foo);
    "#,
    );
    assert_eq!(imported_symbols_of(&hoist), symbols_map(&[("$abc$importAsync$70a00e0a8474f72a$6a5cdcad01c973fa", "other", "foo")]));
    assert_eq!(map_of(&hoist.dynamic_imports), str_map(&[("$abc$importAsync$70a00e0a8474f72a", "other")]));
    assert_eq!(code, r#"import "abc:other";
$abc$importAsync$70a00e0a8474f72a.then(({ foo: foo  })=>foo
);
"#);

    let (_collect, code, hoist) = parse(
        r#"
    import('other').then(({foo: bar}) => bar);
    "#,
    );
    assert_eq!(imported_symbols_of(&hoist), symbols_map(&[("$abc$importAsync$70a00e0a8474f72a$6a5cdcad01c973fa", "other", "foo")]));
    assert_eq!(map_of(&hoist.dynamic_imports), str_map(&[("$abc$importAsync$70a00e0a8474f72a", "other")]));
    assert_eq!(code, r#"import "abc:other";
$abc$importAsync$70a00e0a8474f72a.then(({ foo: bar  })=>bar
);
"#);

    let (_collect, code, hoist) = parse(
        r#"
    import('other').then(function (x) { return x.foo });
    "#,
    );
    assert_eq!(imported_symbols_of(&hoist), symbols_map(&[("$abc$importAsync$70a00e0a8474f72a$6a5cdcad01c973fa", "other", "foo")]));
    assert_eq!(map_of(&hoist.dynamic_imports), str_map(&[("$abc$importAsync$70a00e0a8474f72a", "other")]));
    assert_eq!(code, r#"import "abc:other";
$abc$importAsync$70a00e0a8474f72a.then(function(x) {
    return x.foo;
});
"#);

    let (_collect, code, hoist) = parse(
        r#"
    import('other').then(function (x) { return x });
    "#,
    );
    assert_eq!(imported_symbols_of(&hoist), symbols_map(&[("$abc$importAsync$70a00e0a8474f72a", "other", "*")]));
    assert_eq!(map_of(&hoist.dynamic_imports), str_map(&[("$abc$importAsync$70a00e0a8474f72a", "other")]));
    assert_eq!(code, r#"import "abc:other";
$abc$importAsync$70a00e0a8474f72a.then(function(x) {
    return x;
});
"#);

    let (_collect, code, hoist) = parse(
        r#"
    import('other').then(function ({foo}) {});
    "#,
    );
    assert_eq!(imported_symbols_of(&hoist), symbols_map(&[("$abc$importAsync$70a00e0a8474f72a$6a5cdcad01c973fa", "other", "foo")]));
    assert_eq!(map_of(&hoist.dynamic_imports), str_map(&[("$abc$importAsync$70a00e0a8474f72a", "other")]));
    assert_eq!(code, r#"import "abc:other";
$abc$importAsync$70a00e0a8474f72a.then(function({ foo: foo  }) {
});
"#);

    let (_collect, code, hoist) = parse(
        r#"
    import('other').then(function ({foo: bar}) {});
    "#,
    );
    assert_eq!(imported_symbols_of(&hoist), symbols_map(&[("$abc$importAsync$70a00e0a8474f72a$6a5cdcad01c973fa", "other", "foo")]));
    assert_eq!(map_of(&hoist.dynamic_imports), str_map(&[("$abc$importAsync$70a00e0a8474f72a", "other")]));
    assert_eq!(code, r#"import "abc:other";
$abc$importAsync$70a00e0a8474f72a.then(function({ foo: bar  }) {
});
"#);
}

#[test]
fn fold_hoist_vars() {
    let (_collect, code, _hoist) = parse(
        r#"
    var x = 2;
    var y = {x};
    var z = {x: 3};
    var w = {[x]: 4};

    function test() {
      var x = 3;
    }
    "#,
    );
    assert_eq!(code, r#"var $abc$var$x = 2;
var $abc$var$y = {
    x: $abc$var$x
};
var $abc$var$z = {
    x: 3
};
var $abc$var$w = {
    [$abc$var$x]: 4
};
function $abc$var$test() {
    var x = 3;
}
"#);
}

#[test]
fn fold_cjs_objects() {
    let (_collect, code, _hoist) = parse(
        r#"
    console.log(typeof module);
    console.log(typeof require);
    console.log(module.hot);
    "#,
    );
    assert_eq!(code, r#"console.log("object");
console.log("function");
console.log(null);
"#);
}

#[test]
fn names_are_the_same_on_every_run() {
    let code = r#"
    import {foo as bar} from 'other';
    console.log(bar);
    "#;
    let (_collect, first, _hoist) = parse(code);
    let (_collect, second, _hoist) = parse(code);
    assert_eq!(first, second);

    // The name of `foo` from `other` does not depend on where it is used.
    let (_collect, moved, _hoist) = parse(
        r#"
    const before = 1;
    import {foo as bar} from 'other';
    function f() { return bar; }
    "#,
    );
    assert!(first.contains("$abc$import$70a00e0a8474f72a$6a5cdcad01c973fa"));
    assert!(moved.contains("$abc$import$70a00e0a8474f72a$6a5cdcad01c973fa"));
}

#[test]
fn side_effects_keep_their_order() {
    let (_collect, code, _hoist) = parse(
        r#"
    const a = f(), b = require('x'), c = g();
    "#,
    );
    assert_eq!(
        code,
        r#"const $abc$var$a = f();
import "abc:x";
const $abc$var$c = g();
"#
    );

    let (_collect, code, _hoist) = parse(
        r#"
    var x = 2, y = doSomething(require('foo')), z = 3;
    "#,
    );
    let foo = format!("$abc$import${:x}", scope_hoist::text::hash_str("foo"));
    assert_eq!(
        code,
        format!(
            "var $abc$var$x = 2;\nimport \"abc:foo\";\nvar $abc$var$y = doSomething({}), $abc$var$z = 3;\n",
            foo
        )
    );
}

#[test]
fn static_namespace_access_round_trip() {
    let (_collect, esm, hoist_esm) = parse(
        r#"
    import * as m from 'x';
    m.y;
    "#,
    );
    let (_collect, cjs, hoist_cjs) = parse(
        r#"
    const m = require('x');
    m.y;
    "#,
    );
    let name = format!(
        "$abc$import${:x}${:x}",
        scope_hoist::text::hash_str("x"),
        scope_hoist::text::hash_str("y")
    );
    assert_eq!(esm, format!("import \"abc:x\";\n{};\n", name));
    assert_eq!(cjs, format!("import \"abc:x\";\n{};\n", name));
    assert_eq!(esm.matches("import \"abc:x\";").count(), 1);
    assert_eq!(cjs.matches("import \"abc:x\";").count(), 1);
    assert_eq!(imported_symbols_of(&hoist_esm), symbols_map(&[(&name, "x", "y")]));
    assert_eq!(imported_symbols_of(&hoist_cjs), symbols_map(&[(&name, "x", "y")]));
}

#[test]
fn non_static_access_keeps_the_namespace() {
    let (collect, code, hoist) = parse(
        r#"
    const m = require('x');
    m[k];
    "#,
    );
    let namespace = format!("$abc$import${:x}", scope_hoist::text::hash_str("x"));
    assert_eq!(keys_of(&collect.non_static_access), str_set(&["m"]));
    assert_eq!(code, format!("import \"abc:x\";\n{}[k];\n", namespace));
    assert_eq!(imported_symbols_of(&hoist), symbols_map(&[(&namespace, "x", "*")]));
}

#[test]
fn assignment_to_an_import_is_fatal() {
    let r = run_hoist(
        r#"
    import {x} from 'y';
    x = 1;
    "#,
        false,
    );
    match r {
        Err(diagnostics) => {
            assert_eq!(diagnostics.len(), 1);
            assert_eq!(diagnostics[0].message, "Assignment to an import specifier is not allowed");
            assert_eq!(diagnostics[0].severity, DiagnosticSeverity::Error);
            assert_eq!(diagnostics[0].code_highlights.len(), 2);
            assert_eq!(diagnostics[0].code_highlights[0].message, None);
            assert_eq!(
                diagnostics[0].code_highlights[1].message,
                Some("Originally imported here".to_string())
            );
        }
        Ok(_) => panic!("the module should have been rejected"),
    }

    let ok = run_hoist(
        r#"
    import {x} from 'y';
    console.log(x);
    "#,
        false,
    );
    assert!(ok.is_ok());
}

#[test]
fn wrapping_triggers() {
    let (collect, _code, hoist) = parse(
        r#"
    return;
    "#,
    );
    assert!(collect.should_wrap);
    assert!(hoist.should_wrap);

    let (collect, _code, hoist) = parse(
        r#"
    console.log(typeof module);
    console.log(module.hot);
    "#,
    );
    assert!(!collect.should_wrap);
    assert!(!hoist.should_wrap);

    let (collect, _code, _hoist) = parse(
        r#"
    function f() { return 1; }
    "#,
    );
    assert!(!collect.should_wrap);
}

#[test]
fn cjs_export_is_read_back_through_the_same_name() {
    let (_collect, code, hoist) = parse(
        r#"
    exports.foo = 2;
    console.log(exports.foo);
    "#,
    );
    let name = format!("$abc$export${:x}", scope_hoist::text::hash_str("foo"));
    assert_eq!(
        code,
        format!("var {};\n{} = 2;\nconsole.log({});\n", name, name, name)
    );
    assert_eq!(code.matches(&format!("var {};", name)).count(), 1);
    assert_eq!(set_of(&hoist.self_references), str_set(&["foo"]));
}

#[test]
fn dynamic_import_destructuring() {
    let (collect, _code, hoist) = parse(
        r#"
    async function test() {
      const {foo} = await import('x');
      console.log(foo);
    }
    "#,
    );
    let namespace = format!("$abc$importAsync${:x}", scope_hoist::text::hash_str("x"));
    let key = format!("{}${:x}", namespace, scope_hoist::text::hash_str("foo"));
    assert_eq!(imports_of(&collect), imports_map(&[("foo", "x", "foo", true)]));
    assert_eq!(set_of(&collect.non_static_requires), str_set(&[]));
    assert_eq!(imported_symbols_of(&hoist), symbols_map(&[(&key, "x", "foo")]));
    assert_eq!(map_of(&hoist.dynamic_imports), str_map(&[(&namespace, "x")]));
}

#[test]
fn requires_in_a_sequence_are_kept() {
    let (_collect, code, _hoist) = parse(
        r#"
    let x = (require('a'), require('b'));
    "#,
    );
    let a = format!("$abc$import${:x}", scope_hoist::text::hash_str("a"));
    let b = format!("$abc$import${:x}", scope_hoist::text::hash_str("b"));
    assert_eq!(
        code,
        format!("import \"abc:a\";\nimport \"abc:b\";\nlet $abc$var$x = (!{}, {});\n", a, b)
    );
}

#[test]
fn bailouts_are_traced_in_source_order() {
    let (_code, _res, bailouts) = run_hoist(
        r#"
    const m = require('x');
    eval('1');
    console.log(m[k]);
    return;
    "#,
        true,
    )
    .unwrap();
    let reasons: Vec<BailoutReason> = bailouts.iter().map(|b| b.reason).collect();
    assert_eq!(
        reasons,
        vec![BailoutReason::Eval, BailoutReason::NonStaticAccess, BailoutReason::TopLevelReturn]
    );
    for pair in bailouts.windows(2) {
        assert!(pair[0].loc.lo <= pair[1].loc.lo);
    }

    let (_code, _res, bailouts) = run_hoist(
        r#"
    eval('1');
    "#,
        false,
    )
    .unwrap();
    assert!(bailouts.is_empty());
}

#[test]
fn flags_only_move_one_way() {
    let (collect, _code, _hoist) = parse(
        r#"
    exports[a] = 1;
    exports.b = 2;
    eval('');
    exports.c = 3;
    "#,
    );
    assert!(!collect.static_cjs_exports);
    assert!(collect.has_cjs_exports);
    assert!(collect.should_wrap);
}

#[test]
fn re_exports_are_recorded() {
    let (_collect, code, hoist) = parse(
        r#"
    export {foo as bar} from 'x';
    export * from 'y';
    "#,
    );
    assert_eq!(code, "import \"abc:x\";\nimport \"abc:y\";\n");
    let got: Vec<(String, String, String)> = hoist
        .re_exports
        .iter()
        .map(|s| (s.source.clone(), s.local.clone(), s.imported.clone()))
        .collect();
    assert_eq!(
        got,
        vec![
            ("x".to_string(), "bar".to_string(), "foo".to_string()),
            ("y".to_string(), "*".to_string(), "*".to_string()),
        ]
    );
    assert!(hoist.is_esm);
}

#[test]
fn global_and_this_are_replaced() {
    let (_collect, code, _hoist) = parse(
        r#"
    global.x = this;
    "#,
    );
    assert_eq!(code, "$parcel$global.x = $abc$exports;\n");

    let (_collect, code, _hoist) = parse(
        r#"
    import 'x';
    console.log(this);
    "#,
    );
    assert_eq!(code, "import \"abc:x\";\nconsole.log(undefined);\n");
}

#[test]
fn typeof_of_module_and_require_is_no_access() {
    let (collect, code, _hoist) = parse(
        r#"
    console.log(typeof require);
    console.log(typeof module);
    "#,
    );
    assert_eq!(keys_of(&collect.non_static_access), str_set(&[]));
    assert!(collect.static_cjs_exports);
    assert!(!collect.has_cjs_exports);
    assert!(!collect.should_wrap);
    assert_eq!(code, "console.log(\"function\");\nconsole.log(\"object\");\n");

    // Any other operator, and any other name, is a use like every other.
    let (collect, _code, _hoist) = parse(
        r#"
    console.log(!require, typeof other);
    "#,
    );
    assert_eq!(keys_of(&collect.non_static_access), str_set(&["require", "other"]));
}

#[test]
fn names_do_not_depend_on_the_order_of_the_imports() {
    let (_collect, first, hoist_first) = parse(
        r#"
    import {a} from 'x';
    import {b} from 'y';
    console.log(a, b);
    "#,
    );
    let (_collect, second, hoist_second) = parse(
        r#"
    import {b} from 'y';
    import {a} from 'x';
    console.log(b, a);
    "#,
    );
    let a = format!(
        "$abc$import${:x}${:x}",
        scope_hoist::text::hash_str("x"),
        scope_hoist::text::hash_str("a")
    );
    let b = format!(
        "$abc$import${:x}${:x}",
        scope_hoist::text::hash_str("y"),
        scope_hoist::text::hash_str("b")
    );
    assert_eq!(first, format!("import \"abc:x\";\nimport \"abc:y\";\nconsole.log({}, {});\n", a, b));
    assert_eq!(second, format!("import \"abc:y\";\nimport \"abc:x\";\nconsole.log({}, {});\n", b, a));
    assert_eq!(imported_symbols_of(&hoist_first), symbols_map(&[(&a, "x", "a"), (&b, "y", "b")]));
    assert_eq!(imported_symbols_of(&hoist_first), imported_symbols_of(&hoist_second));
}

#[test]
fn an_assigned_export_is_declared_once_at_the_top() {
    let (_collect, code, _hoist) = parse(
        r#"
    import 'x';
    console.log(1);
    exports.foo = 1;
    function f() { exports.foo = 2; }
    module.exports.foo = 3;
    exports.bar = 4;
    "#,
    );
    let foo = format!("$abc$export${:x}", scope_hoist::text::hash_str("foo"));
    let bar = format!("$abc$export${:x}", scope_hoist::text::hash_str("bar"));
    assert_eq!(
        code,
        format!(
            "import \"abc:x\";\nvar {foo};\nvar {bar};\nconsole.log(1);\n{foo} = 1;\nfunction $abc$var$f() {{\n    {foo} = 2;\n}}\n{foo} = 3;\n{bar} = 4;\n",
            foo = foo,
            bar = bar
        )
    );
    assert_eq!(code.matches(&format!("var {};", foo)).count(), 1);

    // A module that only reads the key declares nothing.
    let (_collect, code, _hoist) = parse(
        r#"
    console.log(exports.foo);
    "#,
    );
    assert_eq!(code, format!("console.log({});\n", foo));
}
