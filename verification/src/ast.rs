//! The syntax tree that the analysis reads and the rewrite produces.
//!
//! The tree is one sum type, [`Node`], with a variant for every shape that
//! either pass treats specially and a pass-through variant, [`Node::Other`],
//! for everything else. A pass-through node keeps its children in source
//! order together with a `tag`, an opaque handle that the embedding host
//! chose and that the passes copy unchanged, so that the host can put the
//! rewritten children back into whatever the node was.
//!
//! Every executable type has a mathematical view (`IdentV`, `NodeV`, ...)
//! in which strings are `Seq<char>` and vectors are `Seq`; all contracts of
//! the crate are stated over these views.
use vstd::prelude::*;

verus! {

/// A source range together with the lexical scope identity of what it covers.
#[derive(Clone, Copy, Debug, PartialEq, Eq, Hash, Structural)]
pub struct Span {
    pub lo: u32,
    pub hi: u32,
    pub ctxt: u32,
}

/// The span of every node that the rewrite synthesizes.
pub open spec fn dummy_span() -> Span {
    Span { lo: 0, hi: 0, ctxt: 0 }
}

pub fn dummy_sp() -> (s: Span)
    ensures
        s == dummy_span(),
{
    Span { lo: 0, hi: 0, ctxt: 0 }
}

/// The same range in the empty scope.
pub open spec fn unscoped(s: Span) -> Span {
    Span { lo: s.lo, hi: s.hi, ctxt: 0 }
}

/// A binding's identity: its name and the scope that declares it.
#[derive(Clone, Debug, PartialEq, Eq, Hash)]
pub struct Id {
    pub sym: String,
    pub ctxt: u32,
}

pub struct IdV {
    pub sym: Seq<char>,
    pub ctxt: u32,
}

impl View for Id {
    type V = IdV;

    open spec fn view(&self) -> IdV {
        IdV { sym: self.sym@, ctxt: self.ctxt }
    }
}

#[derive(Clone, Debug, PartialEq, Eq)]
pub struct Ident {
    pub sym: String,
    pub span: Span,
}

pub struct IdentV {
    pub sym: Seq<char>,
    pub span: Span,
}

impl View for Ident {
    type V = IdentV;

    open spec fn view(&self) -> IdentV {
        IdentV { sym: self.sym@, span: self.span }
    }
}

impl IdentV {
    /// The identity of the binding that this identifier names.
    pub open spec fn id(self) -> IdV {
        IdV { sym: self.sym, ctxt: self.span.ctxt }
    }
}

impl Ident {
    pub fn id(&self) -> (r: Id)
        ensures
            r@ == self@.id(),
    {
        Id { sym: self.sym.clone(), ctxt: self.span.ctxt }
    }

    pub fn duplicate(&self) -> (r: Ident)
        ensures
            r@ == self@,
    {
        Ident { sym: self.sym.clone(), span: self.span }
    }
}

pub open spec fn opt_ident_view(o: Option<Ident>) -> Option<IdentV> {
    match o {
        Some(i) => Some(i@),
        None => None,
    }
}

pub fn clone_opt_ident(o: &Option<Ident>) -> (r: Option<Ident>)
    ensures
        opt_ident_view(r) == opt_ident_view(*o),
{
    match o {
        Some(i) => Some(i.duplicate()),
        None => None,
    }
}

#[derive(Clone, Copy, Debug, PartialEq, Eq, Structural)]
pub enum UnaryOp {
    Minus,
    Plus,
    Bang,
    Tilde,
    TypeOf,
    Void,
    Delete,
}

#[derive(Clone, Copy, Debug, PartialEq, Eq, Structural)]
pub enum AssignOp {
    Assign,
    AddAssign,
    SubAssign,
    MulAssign,
    DivAssign,
    ModAssign,
    LShiftAssign,
    RShiftAssign,
    ZeroFillRShiftAssign,
    BitOrAssign,
    BitXorAssign,
    BitAndAssign,
    ExpAssign,
    AndAssign,
    OrAssign,
    NullishAssign,
}

#[derive(Clone, Copy, Debug, PartialEq, Eq, Structural)]
pub enum VarKind {
    Var,
    Let,
    Const,
}

/// How a string literal came to be, which decides how it is printed.
#[derive(Clone, Copy, Debug, PartialEq, Eq, Structural)]
pub enum StrKind {
    Normal { contains_quote: bool },
    Synthesized,
}

#[derive(Clone, Copy, Debug, PartialEq, Eq, Structural)]
pub enum SpecifierKind {
    Named,
    Default,
    Namespace,
}

/// One binding of an `import` declaration.
#[derive(Clone, Debug, PartialEq, Eq)]
pub struct ImportSpecifier {
    pub kind: SpecifierKind,
    pub span: Span,
    pub local: Ident,
    /// The name on the other side, where a named specifier renames.
    pub imported: Option<Ident>,
}

pub struct ImportSpecifierV {
    pub kind: SpecifierKind,
    pub span: Span,
    pub local: IdentV,
    pub imported: Option<IdentV>,
}

impl View for ImportSpecifier {
    type V = ImportSpecifierV;

    open spec fn view(&self) -> ImportSpecifierV {
        ImportSpecifierV {
            kind: self.kind,
            span: self.span,
            local: self.local@,
            imported: opt_ident_view(self.imported),
        }
    }
}

/// One entry of an `export { .. }` list. For `Named`, `name` is the local
/// (or, with a source, the remote) binding and `exported` the new name;
/// for `Default` and `Namespace`, `name` is the exported name.
#[derive(Clone, Debug, PartialEq, Eq)]
pub struct ExportSpecifier {
    pub kind: SpecifierKind,
    pub span: Span,
    pub name: Ident,
    pub exported: Option<Ident>,
}

pub struct ExportSpecifierV {
    pub kind: SpecifierKind,
    pub span: Span,
    pub name: IdentV,
    pub exported: Option<IdentV>,
}

impl View for ExportSpecifier {
    type V = ExportSpecifierV;

    open spec fn view(&self) -> ExportSpecifierV {
        ExportSpecifierV {
            kind: self.kind,
            span: self.span,
            name: self.name@,
            exported: opt_ident_view(self.exported),
        }
    }
}

pub open spec fn import_specs_view(s: Seq<ImportSpecifier>) -> Seq<ImportSpecifierV> {
    Seq::new(s.len(), |i: int| s[i]@)
}

pub open spec fn export_specs_view(s: Seq<ExportSpecifier>) -> Seq<ExportSpecifierV> {
    Seq::new(s.len(), |i: int| s[i]@)
}

pub open spec fn opt_str_view(o: Option<String>) -> Option<Seq<char>> {
    match o {
        Some(s) => Some(s@),
        None => None,
    }
}

#[derive(Debug, PartialEq, Eq)]
pub enum Node {
    /// An identifier in expression position.
    Ident(Ident),
    /// An identifier that a pattern binds or assigns.
    BindingIdent(Ident),
    /// Any other occurrence of an identifier that renaming may reach: a
    /// label, a private name, the halves of a meta property.
    Name(Ident),
    /// An identifier used as a property key; it is never renamed.
    Key(Ident),
    /// `{ a }` in an object literal.
    Shorthand(Ident),
    Str { span: Span, value: String, has_escape: bool, kind: StrKind },
    Null(Span),
    This(Span),
    /// A skipped element of an array pattern.
    Hole,
    Member { span: Span, obj: Box<Node>, prop: Box<Node>, computed: bool },
    Call { span: Span, callee: Box<Node>, args: Vec<Node> },
    /// `...expr` among the arguments of a call.
    Spread { dot3: Span, expr: Box<Node> },
    Unary { span: Span, op: UnaryOp, arg: Box<Node> },
    Assign { span: Span, op: AssignOp, left: Box<Node>, right: Box<Node> },
    Sequence { span: Span, exprs: Vec<Node> },
    Await { span: Span, arg: Box<Node> },
    /// An arrow function: its parameters, then its body.
    Arrow { tag: u32, params: Vec<Node>, body: Box<Node> },
    /// The parameters and the rest of a function that has its own `this`.
    Function { tag: u32, params: Vec<Node>, body: Vec<Node> },
    /// Anything else that opens a function scope: a class, a getter, a setter.
    Scope { tag: u32, children: Vec<Node> },
    FnExpr { ident: Option<Ident>, function: Box<Node> },
    ClassExpr { ident: Option<Ident>, class: Box<Node> },
    /// `key: value` in an object literal or an object pattern.
    KeyValue { key: Box<Node>, value: Box<Node> },
    /// `[expr]` used as a property key.
    Computed { span: Span, expr: Box<Node> },
    ObjectPat { span: Span, props: Vec<Node> },
    /// `{ key }` or `{ key = value }` in an object pattern.
    AssignPatProp { span: Span, key: Ident, value: Option<Box<Node>> },
    Rest { span: Span, dot3: Span, arg: Box<Node> },
    ArrayPat { span: Span, elems: Vec<Node> },
    AssignPat { span: Span, left: Box<Node>, right: Box<Node> },
    ExprStmt { span: Span, expr: Box<Node> },
    VarDecl { span: Span, kind: VarKind, declare: bool, decls: Vec<Node> },
    Declarator { span: Span, name: Box<Node>, init: Option<Box<Node>>, definite: bool },
    Return { span: Span, arg: Option<Box<Node>> },
    FnDecl { ident: Ident, declare: bool, function: Box<Node> },
    ClassDecl { ident: Ident, declare: bool, class: Box<Node> },
    Import { span: Span, specifiers: Vec<ImportSpecifier>, src: String },
    ExportNamed { span: Span, specifiers: Vec<ExportSpecifier>, src: Option<String> },
    ExportAll { span: Span, src: String },
    ExportDefaultExpr { span: Span, expr: Box<Node> },
    ExportDefaultDecl { span: Span, decl: Box<Node> },
    ExportDecl { span: Span, decl: Box<Node> },
    /// Any node that neither pass looks into, with its children in order.
    Other { tag: u32, children: Vec<Node> },
}

pub enum NodeV {
    Ident(IdentV),
    BindingIdent(IdentV),
    Name(IdentV),
    Key(IdentV),
    Shorthand(IdentV),
    Str { span: Span, value: Seq<char>, has_escape: bool, kind: StrKind },
    Null(Span),
    This(Span),
    Hole,
    Member { span: Span, obj: Box<NodeV>, prop: Box<NodeV>, computed: bool },
    Call { span: Span, callee: Box<NodeV>, args: Seq<NodeV> },
    Spread { dot3: Span, expr: Box<NodeV> },
    Unary { span: Span, op: UnaryOp, arg: Box<NodeV> },
    Assign { span: Span, op: AssignOp, left: Box<NodeV>, right: Box<NodeV> },
    Sequence { span: Span, exprs: Seq<NodeV> },
    Await { span: Span, arg: Box<NodeV> },
    Arrow { tag: u32, params: Seq<NodeV>, body: Box<NodeV> },
    Function { tag: u32, params: Seq<NodeV>, body: Seq<NodeV> },
    Scope { tag: u32, children: Seq<NodeV> },
    FnExpr { ident: Option<IdentV>, function: Box<NodeV> },
    ClassExpr { ident: Option<IdentV>, class: Box<NodeV> },
    KeyValue { key: Box<NodeV>, value: Box<NodeV> },
    Computed { span: Span, expr: Box<NodeV> },
    ObjectPat { span: Span, props: Seq<NodeV> },
    AssignPatProp { span: Span, key: IdentV, value: Option<Box<NodeV>> },
    Rest { span: Span, dot3: Span, arg: Box<NodeV> },
    ArrayPat { span: Span, elems: Seq<NodeV> },
    AssignPat { span: Span, left: Box<NodeV>, right: Box<NodeV> },
    ExprStmt { span: Span, expr: Box<NodeV> },
    VarDecl { span: Span, kind: VarKind, declare: bool, decls: Seq<NodeV> },
    Declarator { span: Span, name: Box<NodeV>, init: Option<Box<NodeV>>, definite: bool },
    Return { span: Span, arg: Option<Box<NodeV>> },
    FnDecl { ident: IdentV, declare: bool, function: Box<NodeV> },
    ClassDecl { ident: IdentV, declare: bool, class: Box<NodeV> },
    Import { span: Span, specifiers: Seq<ImportSpecifierV>, src: Seq<char> },
    ExportNamed { span: Span, specifiers: Seq<ExportSpecifierV>, src: Option<Seq<char>> },
    ExportAll { span: Span, src: Seq<char> },
    ExportDefaultExpr { span: Span, expr: Box<NodeV> },
    ExportDefaultDecl { span: Span, decl: Box<NodeV> },
    ExportDecl { span: Span, decl: Box<NodeV> },
    Other { tag: u32, children: Seq<NodeV> },
}

pub open spec fn nodes_view(ns: Seq<Node>) -> Seq<NodeV>
    decreases ns,
{
    Seq::new(ns.len(), |i: int| if 0 <= i < ns.len() { node_view(ns[i]) } else { arbitrary() })
}

pub open spec fn node_view(n: Node) -> NodeV
    decreases n,
{
    match n {
        Node::Ident(i) => NodeV::Ident(i@),
        Node::BindingIdent(i) => NodeV::BindingIdent(i@),
        Node::Name(i) => NodeV::Name(i@),
        Node::Key(i) => NodeV::Key(i@),
        Node::Shorthand(i) => NodeV::Shorthand(i@),
        Node::Str { span, value, has_escape, kind } => NodeV::Str {
            span,
            value: value@,
            has_escape,
            kind,
        },
        Node::Null(s) => NodeV::Null(s),
        Node::This(s) => NodeV::This(s),
        Node::Hole => NodeV::Hole,
        Node::Member { span, obj, prop, computed } => NodeV::Member {
            span,
            obj: Box::new(node_view(*obj)),
            prop: Box::new(node_view(*prop)),
            computed,
        },
        Node::Call { span, callee, args } => NodeV::Call {
            span,
            callee: Box::new(node_view(*callee)),
            args: nodes_view(args@),
        },
        Node::Spread { dot3, expr } => NodeV::Spread { dot3, expr: Box::new(node_view(*expr)) },
        Node::Unary { span, op, arg } => NodeV::Unary { span, op, arg: Box::new(node_view(*arg)) },
        Node::Assign { span, op, left, right } => NodeV::Assign {
            span,
            op,
            left: Box::new(node_view(*left)),
            right: Box::new(node_view(*right)),
        },
        Node::Sequence { span, exprs } => NodeV::Sequence { span, exprs: nodes_view(exprs@) },
        Node::Await { span, arg } => NodeV::Await { span, arg: Box::new(node_view(*arg)) },
        Node::Arrow { tag, params, body } => NodeV::Arrow {
            tag,
            params: nodes_view(params@),
            body: Box::new(node_view(*body)),
        },
        Node::Function { tag, params, body } => NodeV::Function {
            tag,
            params: nodes_view(params@),
            body: nodes_view(body@),
        },
        Node::Scope { tag, children } => NodeV::Scope { tag, children: nodes_view(children@) },
        Node::FnExpr { ident, function } => NodeV::FnExpr {
            ident: opt_ident_view(ident),
            function: Box::new(node_view(*function)),
        },
        Node::ClassExpr { ident, class } => NodeV::ClassExpr {
            ident: opt_ident_view(ident),
            class: Box::new(node_view(*class)),
        },
        Node::KeyValue { key, value } => NodeV::KeyValue {
            key: Box::new(node_view(*key)),
            value: Box::new(node_view(*value)),
        },
        Node::Computed { span, expr } => NodeV::Computed { span, expr: Box::new(node_view(*expr)) },
        Node::ObjectPat { span, props } => NodeV::ObjectPat { span, props: nodes_view(props@) },
        Node::AssignPatProp { span, key, value } => NodeV::AssignPatProp {
            span,
            key: key@,
            value: match value {
                Some(b) => Some(Box::new(node_view(*b))),
                None => None,
            },
        },
        Node::Rest { span, dot3, arg } => NodeV::Rest {
            span,
            dot3,
            arg: Box::new(node_view(*arg)),
        },
        Node::ArrayPat { span, elems } => NodeV::ArrayPat { span, elems: nodes_view(elems@) },
        Node::AssignPat { span, left, right } => NodeV::AssignPat {
            span,
            left: Box::new(node_view(*left)),
            right: Box::new(node_view(*right)),
        },
        Node::ExprStmt { span, expr } => NodeV::ExprStmt { span, expr: Box::new(node_view(*expr)) },
        Node::VarDecl { span, kind, declare, decls } => NodeV::VarDecl {
            span,
            kind,
            declare,
            decls: nodes_view(decls@),
        },
        Node::Declarator { span, name, init, definite } => NodeV::Declarator {
            span,
            name: Box::new(node_view(*name)),
            init: match init {
                Some(b) => Some(Box::new(node_view(*b))),
                None => None,
            },
            definite,
        },
        Node::Return { span, arg } => NodeV::Return {
            span,
            arg: match arg {
                Some(b) => Some(Box::new(node_view(*b))),
                None => None,
            },
        },
        Node::FnDecl { ident, declare, function } => NodeV::FnDecl {
            ident: ident@,
            declare,
            function: Box::new(node_view(*function)),
        },
        Node::ClassDecl { ident, declare, class } => NodeV::ClassDecl {
            ident: ident@,
            declare,
            class: Box::new(node_view(*class)),
        },
        Node::Import { span, specifiers, src } => NodeV::Import {
            span,
            specifiers: import_specs_view(specifiers@),
            src: src@,
        },
        Node::ExportNamed { span, specifiers, src } => NodeV::ExportNamed {
            span,
            specifiers: export_specs_view(specifiers@),
            src: opt_str_view(src),
        },
        Node::ExportAll { span, src } => NodeV::ExportAll { span, src: src@ },
        Node::ExportDefaultExpr { span, expr } => NodeV::ExportDefaultExpr {
            span,
            expr: Box::new(node_view(*expr)),
        },
        Node::ExportDefaultDecl { span, decl } => NodeV::ExportDefaultDecl {
            span,
            decl: Box::new(node_view(*decl)),
        },
        Node::ExportDecl { span, decl } => NodeV::ExportDecl {
            span,
            decl: Box::new(node_view(*decl)),
        },
        Node::Other { tag, children } => NodeV::Other { tag, children: nodes_view(children@) },
    }
}

impl View for Node {
    type V = NodeV;

    open spec fn view(&self) -> NodeV {
        node_view(*self)
    }
}

/// A whole module: its top-level items in source order.
#[derive(Debug, PartialEq, Eq)]
pub struct Module {
    pub span: Span,
    pub body: Vec<Node>,
    pub shebang: Option<String>,
}

pub struct ModuleV {
    pub span: Span,
    pub body: Seq<NodeV>,
    pub shebang: Option<Seq<char>>,
}

impl View for Module {
    type V = ModuleV;

    open spec fn view(&self) -> ModuleV {
        ModuleV {
            span: self.span,
            body: nodes_view(self.body@),
            shebang: opt_str_view(self.shebang),
        }
    }
}

/// The view of a list with one more node is the view of the list with one
/// more view.
pub proof fn lemma_nodes_view_push(v: Seq<Node>, n: Node)
    ensures
        nodes_view(v.push(n)) == nodes_view(v).push(n@),
{
    assert(nodes_view(v.push(n)) =~= nodes_view(v).push(n@));
}

pub proof fn lemma_nodes_view_insert(v: Seq<Node>, at: int, n: Node)
    requires
        0 <= at <= v.len(),
    ensures
        nodes_view(v.insert(at, n)) == nodes_view(v).insert(at, n@),
{
    assert(nodes_view(v.insert(at, n)) =~= nodes_view(v).insert(at, n@));
}

pub proof fn lemma_nodes_view_add(a: Seq<Node>, b: Seq<Node>)
    ensures
        nodes_view(a + b) == nodes_view(a) + nodes_view(b),
{
    assert(nodes_view(a + b) =~= nodes_view(a) + nodes_view(b));
}

pub fn clone_opt_string(o: &Option<String>) -> (r: Option<String>)
    ensures
        opt_str_view(r) == opt_str_view(*o),
{
    match o {
        Some(s) => Some(s.clone()),
        None => None,
    }
}

pub fn clone_import_specifiers(v: &Vec<ImportSpecifier>) -> (r: Vec<ImportSpecifier>)
    ensures
        import_specs_view(r@) == import_specs_view(v@),
{
    let mut r: Vec<ImportSpecifier> = Vec::new();
    let mut i: usize = 0;
    while i < v.len()
        invariant
            i <= v.len(),
            r@.len() == i,
            forall|j: int| 0 <= j < i ==> r@[j]@ == v@[j]@,
        decreases v.len() - i,
    {
        let sp = &v[i];
        r.push(
            ImportSpecifier {
                kind: sp.kind,
                span: sp.span,
                local: sp.local.duplicate(),
                imported: clone_opt_ident(&sp.imported),
            },
        );
        i += 1;
    }
    assert(import_specs_view(r@) =~= import_specs_view(v@));
    r
}

pub fn clone_export_specifiers(v: &Vec<ExportSpecifier>) -> (r: Vec<ExportSpecifier>)
    ensures
        export_specs_view(r@) == export_specs_view(v@),
{
    let mut r: Vec<ExportSpecifier> = Vec::new();
    let mut i: usize = 0;
    while i < v.len()
        invariant
            i <= v.len(),
            r@.len() == i,
            forall|j: int| 0 <= j < i ==> r@[j]@ == v@[j]@,
        decreases v.len() - i,
    {
        let sp = &v[i];
        r.push(
            ExportSpecifier {
                kind: sp.kind,
                span: sp.span,
                name: sp.name.duplicate(),
                exported: clone_opt_ident(&sp.exported),
            },
        );
        i += 1;
    }
    assert(export_specs_view(r@) =~= export_specs_view(v@));
    r
}

fn clone_boxed(n: &Box<Node>) -> (r: Box<Node>)
    ensures
        r@ == n@,
    decreases n, 2nat,
{
    Box::new(clone_node(n))
}

fn clone_opt_boxed(o: &Option<Box<Node>>) -> (r: Option<Box<Node>>)
    ensures
        match (r, *o) {
            (Some(a), Some(b)) => a@ == b@,
            (None, None) => true,
            _ => false,
        },
    decreases o, 3nat,
{
    match o {
        Some(b) => Some(clone_boxed(b)),
        None => None,
    }
}

/// A copy of a list of nodes.
pub fn clone_nodes(ns: &Vec<Node>) -> (r: Vec<Node>)
    ensures
        nodes_view(r@) == nodes_view(ns@),
    decreases ns, ns@.len(),
{
    let mut r: Vec<Node> = Vec::new();
    let mut i: usize = 0;
    while i < ns.len()
        invariant
            i <= ns.len(),
            r@.len() == i,
            forall|j: int| 0 <= j < i ==> r@[j]@ == ns@[j]@,
        decreases ns.len() - i,
    {
        r.push(clone_node(&ns[i]));
        i += 1;
    }
    assert(nodes_view(r@) =~= nodes_view(ns@));
    r
}

/// A copy of a node and of all that it contains.
pub fn clone_node(n: &Node) -> (r: Node)
    ensures
        r@ == n@,
    decreases n, 1nat,
{
    match n {
        Node::Ident(i) => Node::Ident(i.duplicate()),
        Node::BindingIdent(i) => Node::BindingIdent(i.duplicate()),
        Node::Name(i) => Node::Name(i.duplicate()),
        Node::Key(i) => Node::Key(i.duplicate()),
        Node::Shorthand(i) => Node::Shorthand(i.duplicate()),
        Node::Str { span, value, has_escape, kind } => Node::Str {
            span: *span,
            value: value.clone(),
            has_escape: *has_escape,
            kind: *kind,
        },
        Node::Null(s) => Node::Null(*s),
        Node::This(s) => Node::This(*s),
        Node::Hole => Node::Hole,
        Node::Member { span, obj, prop, computed } => Node::Member {
            span: *span,
            obj: clone_boxed(obj),
            prop: clone_boxed(prop),
            computed: *computed,
        },
        Node::Call { span, callee, args } => Node::Call {
            span: *span,
            callee: clone_boxed(callee),
            args: clone_nodes(args),
        },
        Node::Spread { dot3, expr } => Node::Spread { dot3: *dot3, expr: clone_boxed(expr) },
        Node::Unary { span, op, arg } => Node::Unary { span: *span, op: *op, arg: clone_boxed(arg) },
        Node::Assign { span, op, left, right } => Node::Assign {
            span: *span,
            op: *op,
            left: clone_boxed(left),
            right: clone_boxed(right),
        },
        Node::Sequence { span, exprs } => Node::Sequence { span: *span, exprs: clone_nodes(exprs) },
        Node::Await { span, arg } => Node::Await { span: *span, arg: clone_boxed(arg) },
        Node::Arrow { tag, params, body } => Node::Arrow {
            tag: *tag,
            params: clone_nodes(params),
            body: clone_boxed(body),
        },
        Node::Function { tag, params, body } => Node::Function {
            tag: *tag,
            params: clone_nodes(params),
            body: clone_nodes(body),
        },
        Node::Scope { tag, children } => Node::Scope { tag: *tag, children: clone_nodes(children) },
        Node::FnExpr { ident, function } => Node::FnExpr {
            ident: clone_opt_ident(ident),
            function: clone_boxed(function),
        },
        Node::ClassExpr { ident, class } => Node::ClassExpr {
            ident: clone_opt_ident(ident),
            class: clone_boxed(class),
        },
        Node::KeyValue { key, value } => Node::KeyValue {
            key: clone_boxed(key),
            value: clone_boxed(value),
        },
        Node::Computed { span, expr } => Node::Computed { span: *span, expr: clone_boxed(expr) },
        Node::ObjectPat { span, props } => Node::ObjectPat { span: *span, props: clone_nodes(props) },
        Node::AssignPatProp { span, key, value } => Node::AssignPatProp {
            span: *span,
            key: key.duplicate(),
            value: clone_opt_boxed(value),
        },
        Node::Rest { span, dot3, arg } => Node::Rest {
            span: *span,
            dot3: *dot3,
            arg: clone_boxed(arg),
        },
        Node::ArrayPat { span, elems } => Node::ArrayPat { span: *span, elems: clone_nodes(elems) },
        Node::AssignPat { span, left, right } => Node::AssignPat {
            span: *span,
            left: clone_boxed(left),
            right: clone_boxed(right),
        },
        Node::ExprStmt { span, expr } => Node::ExprStmt { span: *span, expr: clone_boxed(expr) },
        Node::VarDecl { span, kind, declare, decls } => Node::VarDecl {
            span: *span,
            kind: *kind,
            declare: *declare,
            decls: clone_nodes(decls),
        },
        Node::Declarator { span, name, init, definite } => Node::Declarator {
            span: *span,
            name: clone_boxed(name),
            init: clone_opt_boxed(init),
            definite: *definite,
        },
        Node::Return { span, arg } => Node::Return { span: *span, arg: clone_opt_boxed(arg) },
        Node::FnDecl { ident, declare, function } => Node::FnDecl {
            ident: ident.duplicate(),
            declare: *declare,
            function: clone_boxed(function),
        },
        Node::ClassDecl { ident, declare, class } => Node::ClassDecl {
            ident: ident.duplicate(),
            declare: *declare,
            class: clone_boxed(class),
        },
        Node::Import { span, specifiers, src } => Node::Import {
            span: *span,
            specifiers: clone_import_specifiers(specifiers),
            src: src.clone(),
        },
        Node::ExportNamed { span, specifiers, src } => Node::ExportNamed {
            span: *span,
            specifiers: clone_export_specifiers(specifiers),
            src: clone_opt_string(src),
        },
        Node::ExportAll { span, src } => Node::ExportAll { span: *span, src: src.clone() },
        Node::ExportDefaultExpr { span, expr } => Node::ExportDefaultExpr {
            span: *span,
            expr: clone_boxed(expr),
        },
        Node::ExportDefaultDecl { span, decl } => Node::ExportDefaultDecl {
            span: *span,
            decl: clone_boxed(decl),
        },
        Node::ExportDecl { span, decl } => Node::ExportDecl { span: *span, decl: clone_boxed(decl) },
        Node::Other { tag, children } => Node::Other { tag: *tag, children: clone_nodes(children) },
    }
}

pub open spec fn boxed_view(o: Option<Node>) -> Option<Box<NodeV>> {
    match o {
        Some(n) => Some(Box::new(n@)),
        None => None,
    }
}

impl Node {
    /// `obj.prop`, or `obj[prop]` where `computed`.
    pub fn member(span: Span, obj: Node, prop: Node, computed: bool) -> (r: Node)
        ensures
            r@ == (NodeV::Member { span, obj: Box::new(obj@), prop: Box::new(prop@), computed }),
    {
        Node::Member {
            span,
            obj: Box::new(obj),
            prop: Box::new(prop),
            computed,
        }
    }

    /// `callee(args)`.
    pub fn call(span: Span, callee: Node, args: Vec<Node>) -> (r: Node)
        ensures
            r@ == (NodeV::Call { span, callee: Box::new(callee@), args: nodes_view(args@) }),
    {
        Node::Call {
            span,
            callee: Box::new(callee),
            args,
        }
    }

    /// `...expr`.
    pub fn spread(dot3: Span, expr: Node) -> (r: Node)
        ensures
            r@ == (NodeV::Spread { dot3, expr: Box::new(expr@) }),
    {
        Node::Spread {
            dot3,
            expr: Box::new(expr),
        }
    }

    /// A unary operator applied to `arg`.
    pub fn unary(span: Span, op: UnaryOp, arg: Node) -> (r: Node)
        ensures
            r@ == (NodeV::Unary { span, op, arg: Box::new(arg@) }),
    {
        Node::Unary {
            span,
            op,
            arg: Box::new(arg),
        }
    }

    /// `left op right`.
    pub fn assign(span: Span, op: AssignOp, left: Node, right: Node) -> (r: Node)
        ensures
            r@ == (NodeV::Assign { span, op, left: Box::new(left@), right: Box::new(right@) }),
    {
        Node::Assign {
            span,
            op,
            left: Box::new(left),
            right: Box::new(right),
        }
    }

    /// `a, b, c`.
    pub fn sequence(span: Span, exprs: Vec<Node>) -> (r: Node)
        ensures
            r@ == (NodeV::Sequence { span, exprs: nodes_view(exprs@) }),
    {
        Node::Sequence {
            span,
            exprs,
        }
    }

    /// `await arg`.
    pub fn await_of(span: Span, arg: Node) -> (r: Node)
        ensures
            r@ == (NodeV::Await { span, arg: Box::new(arg@) }),
    {
        Node::Await {
            span,
            arg: Box::new(arg),
        }
    }

    /// An arrow function.
    pub fn arrow(tag: u32, params: Vec<Node>, body: Node) -> (r: Node)
        ensures
            r@ == (NodeV::Arrow { tag, params: nodes_view(params@), body: Box::new(body@) }),
    {
        Node::Arrow {
            tag,
            params,
            body: Box::new(body),
        }
    }

    /// A function.
    pub fn function(tag: u32, params: Vec<Node>, body: Vec<Node>) -> (r: Node)
        ensures
            r@ == (NodeV::Function { tag, params: nodes_view(params@), body: nodes_view(body@) }),
    {
        Node::Function {
            tag,
            params,
            body,
        }
    }

    /// A class, a getter or a setter.
    pub fn scope(tag: u32, children: Vec<Node>) -> (r: Node)
        ensures
            r@ == (NodeV::Scope { tag, children: nodes_view(children@) }),
    {
        Node::Scope {
            tag,
            children,
        }
    }

    /// A function expression.
    pub fn fn_expr(ident: Option<Ident>, function: Node) -> (r: Node)
        ensures
            r@ == (NodeV::FnExpr { ident: opt_ident_view(ident), function: Box::new(function@) }),
    {
        Node::FnExpr {
            ident,
            function: Box::new(function),
        }
    }

    /// A class expression.
    pub fn class_expr(ident: Option<Ident>, class: Node) -> (r: Node)
        ensures
            r@ == (NodeV::ClassExpr { ident: opt_ident_view(ident), class: Box::new(class@) }),
    {
        Node::ClassExpr {
            ident,
            class: Box::new(class),
        }
    }

    /// `key: value`.
    pub fn key_value(key: Node, value: Node) -> (r: Node)
        ensures
            r@ == (NodeV::KeyValue { key: Box::new(key@), value: Box::new(value@) }),
    {
        Node::KeyValue {
            key: Box::new(key),
            value: Box::new(value),
        }
    }

    /// `[expr]` as a property key.
    pub fn computed(span: Span, expr: Node) -> (r: Node)
        ensures
            r@ == (NodeV::Computed { span, expr: Box::new(expr@) }),
    {
        Node::Computed {
            span,
            expr: Box::new(expr),
        }
    }

    /// An object pattern.
    pub fn object_pat(span: Span, props: Vec<Node>) -> (r: Node)
        ensures
            r@ == (NodeV::ObjectPat { span, props: nodes_view(props@) }),
    {
        Node::ObjectPat {
            span,
            props,
        }
    }

    /// `{ key }` or `{ key = value }` in an object pattern.
    pub fn assign_pat_prop(span: Span, key: Ident, value: Option<Node>) -> (r: Node)
        ensures
            r@ == (NodeV::AssignPatProp { span, key: key@, value: boxed_view(value) }),
    {
        Node::AssignPatProp {
            span,
            key,
            value: match value {
                Some(n) => Some(Box::new(n)),
                None => None,
            },
        }
    }

    /// `...arg` in a pattern.
    pub fn rest(span: Span, dot3: Span, arg: Node) -> (r: Node)
        ensures
            r@ == (NodeV::Rest { span, dot3, arg: Box::new(arg@) }),
    {
        Node::Rest {
            span,
            dot3,
            arg: Box::new(arg),
        }
    }

    /// An array pattern.
    pub fn array_pat(span: Span, elems: Vec<Node>) -> (r: Node)
        ensures
            r@ == (NodeV::ArrayPat { span, elems: nodes_view(elems@) }),
    {
        Node::ArrayPat {
            span,
            elems,
        }
    }

    /// `left = right` in a pattern.
    pub fn assign_pat(span: Span, left: Node, right: Node) -> (r: Node)
        ensures
            r@ == (NodeV::AssignPat { span, left: Box::new(left@), right: Box::new(right@) }),
    {
        Node::AssignPat {
            span,
            left: Box::new(left),
            right: Box::new(right),
        }
    }

    /// An expression statement.
    pub fn expr_stmt(span: Span, expr: Node) -> (r: Node)
        ensures
            r@ == (NodeV::ExprStmt { span, expr: Box::new(expr@) }),
    {
        Node::ExprStmt {
            span,
            expr: Box::new(expr),
        }
    }

    /// A variable declaration.
    pub fn var_decl(span: Span, kind: VarKind, declare: bool, decls: Vec<Node>) -> (r: Node)
        ensures
            r@ == (NodeV::VarDecl { span, kind, declare, decls: nodes_view(decls@) }),
    {
        Node::VarDecl {
            span,
            kind,
            declare,
            decls,
        }
    }

    /// One declarator of a variable declaration.
    pub fn declarator(span: Span, name: Node, init: Option<Node>, definite: bool) -> (r: Node)
        ensures
            r@ == (NodeV::Declarator { span, name: Box::new(name@), init: boxed_view(init), definite }),
    {
        Node::Declarator {
            span,
            name: Box::new(name),
            init: match init {
                Some(n) => Some(Box::new(n)),
                None => None,
            },
            definite,
        }
    }

    /// `return arg;`.
    pub fn return_of(span: Span, arg: Option<Node>) -> (r: Node)
        ensures
            r@ == (NodeV::Return { span, arg: boxed_view(arg) }),
    {
        Node::Return {
            span,
            arg: match arg {
                Some(n) => Some(Box::new(n)),
                None => None,
            },
        }
    }

    /// A function declaration.
    pub fn fn_decl(ident: Ident, declare: bool, function: Node) -> (r: Node)
        ensures
            r@ == (NodeV::FnDecl { ident: ident@, declare, function: Box::new(function@) }),
    {
        Node::FnDecl {
            ident,
            declare,
            function: Box::new(function),
        }
    }

    /// A class declaration.
    pub fn class_decl(ident: Ident, declare: bool, class: Node) -> (r: Node)
        ensures
            r@ == (NodeV::ClassDecl { ident: ident@, declare, class: Box::new(class@) }),
    {
        Node::ClassDecl {
            ident,
            declare,
            class: Box::new(class),
        }
    }

    /// `export default expr;`.
    pub fn export_default_expr(span: Span, expr: Node) -> (r: Node)
        ensures
            r@ == (NodeV::ExportDefaultExpr { span, expr: Box::new(expr@) }),
    {
        Node::ExportDefaultExpr {
            span,
            expr: Box::new(expr),
        }
    }

    /// `export default` before a function or a class.
    pub fn export_default_decl(span: Span, decl: Node) -> (r: Node)
        ensures
            r@ == (NodeV::ExportDefaultDecl { span, decl: Box::new(decl@) }),
    {
        Node::ExportDefaultDecl {
            span,
            decl: Box::new(decl),
        }
    }

    /// `export` before a declaration.
    pub fn export_decl(span: Span, decl: Node) -> (r: Node)
        ensures
            r@ == (NodeV::ExportDecl { span, decl: Box::new(decl@) }),
    {
        Node::ExportDecl {
            span,
            decl: Box::new(decl),
        }
    }

    /// A pass-through node.
    pub fn other(tag: u32, children: Vec<Node>) -> (r: Node)
        ensures
            r@ == (NodeV::Other { tag, children: nodes_view(children@) }),
    {
        Node::Other {
            tag,
            children,
        }
    }

}

} // verus!
