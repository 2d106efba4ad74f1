//! Recognisers for the shapes that both passes look for: `require('x')`,
//! `import('x')`, `module.exports`, a statically known property key, and a
//! pattern that assigns to a free name.
use crate::ast::{dummy_sp, dummy_span, opt_str_view, Id, IdV, Node, NodeV, Span};
use crate::table::{id_in, ids_view, u32_in};
use crate::text::is_word;
use vstd::prelude::*;

verus! {

/// The key of a member access, where it is known without running the
/// program: an identifier behind a dot, or a string literal.
pub open spec fn static_key(prop: NodeV, computed: bool) -> Option<Seq<char>> {
    match prop {
        NodeV::Ident(i) => if computed {
            None
        } else {
            Some(i.sym)
        },
        NodeV::Str { value, .. } => Some(value),
        _ => None,
    }
}

pub fn get_static_key(prop: &Node, computed: bool) -> (r: Option<String>)
    ensures
        opt_str_view(r) == static_key(prop@, computed),
{
    match prop {
        Node::Ident(i) => if computed {
            None
        } else {
            Some(i.sym.clone())
        },
        Node::Str { value, .. } => Some(value.clone()),
        _ => None,
    }
}

/// An argument without the `...` that may stand before it.
pub open spec fn arg_expr(n: NodeV) -> NodeV {
    match n {
        NodeV::Spread { expr, .. } => *expr,
        _ => n,
    }
}

pub fn get_arg_expr(n: &Node) -> (r: &Node)
    ensures
        r@ == arg_expr(n@),
{
    match n {
        Node::Spread { expr, .. } => &**expr,
        _ => n,
    }
}

/// The first argument, where it is a string literal.
pub open spec fn first_arg_str(args: Seq<NodeV>) -> Option<Seq<char>> {
    if args.len() == 0 {
        None
    } else {
        match arg_expr(args[0]) {
            NodeV::Str { value, .. } => Some(value),
            _ => None,
        }
    }
}

pub fn get_first_arg_str(args: &Vec<Node>) -> (r: Option<String>)
    ensures
        opt_str_view(r) == first_arg_str(crate::ast::nodes_view(args@)),
{
    if args.len() == 0 {
        None
    } else {
        match get_arg_expr(&args[0]) {
            Node::Str { value, .. } => Some(value.clone()),
            _ => None,
        }
    }
}

/// Whether `n` is `object.property` or `object['property']`, with `object`
/// a name that the module does not declare.
pub open spec fn is_member_of(
    n: NodeV,
    object: Seq<char>,
    property: Seq<char>,
    decls: Seq<IdV>,
) -> bool {
    match n {
        NodeV::Member { obj, prop, computed, .. } => static_key(*prop, computed) == Some(property)
            && match *obj {
            NodeV::Ident(i) => i.sym == object && !decls.contains(i.id()),
            _ => false,
        },
        _ => false,
    }
}

pub fn match_member_expr(n: &Node, object: &str, property: &str, decls: &Vec<Id>) -> (r: bool)
    ensures
        r == is_member_of(n@, object@, property@, ids_view(decls@)),
{
    proof {
        reveal_with_fuel(crate::ast::node_view, 2);
    }
    match n {
        Node::Member { obj, prop, computed, .. } => {
            match get_static_key(prop, *computed) {
                Some(key) => {
                    if !is_word(&key, property) {
                        return false;
                    }
                    match &**obj {
                        Node::Ident(i) => is_word(&i.sym, object) && !id_in(decls, &i.id()),
                        _ => false,
                    }
                },
                None => false,
            }
        },
        _ => false,
    }
}

/// The specifier of `require('x')` or `module.require('x')`, where
/// `require` is neither declared by the module nor marked to be ignored.
pub open spec fn required_source(n: NodeV, decls: Seq<IdV>, ignored: Seq<u32>) -> Option<
    Seq<char>,
> {
    match n {
        NodeV::Call { callee, args, .. } => match *callee {
            NodeV::Ident(i) => if i.sym == "require"@ && !decls.contains(i.id())
                && !ignored.contains(i.span.ctxt) {
                first_arg_str(args)
            } else {
                None
            },
            NodeV::Member { .. } => if is_member_of(*callee, "module"@, "require"@, decls) {
                first_arg_str(args)
            } else {
                None
            },
            _ => None,
        },
        _ => None,
    }
}

pub fn match_require(n: &Node, decls: &Vec<Id>, ignored: &Vec<u32>) -> (r: Option<String>)
    ensures
        opt_str_view(r) == required_source(n@, ids_view(decls@), ignored@),
{
    proof {
        reveal_with_fuel(crate::ast::node_view, 2);
    }
    match n {
        Node::Call { callee, args, .. } => match &**callee {
            Node::Ident(i) => if is_word(&i.sym, "require") && !id_in(decls, &i.id()) && !u32_in(
                ignored,
                i.span.ctxt,
            ) {
                get_first_arg_str(args)
            } else {
                None
            },
            Node::Member { .. } => if match_member_expr(callee, "module", "require", decls) {
                get_first_arg_str(args)
            } else {
                None
            },
            _ => None,
        },
        _ => None,
    }
}

/// The specifier of `import('x')`, where `import` is not marked to be
/// ignored.
pub open spec fn imported_source(n: NodeV, ignored: Seq<u32>) -> Option<Seq<char>> {
    match n {
        NodeV::Call { callee, args, .. } => match *callee {
            NodeV::Ident(i) => if i.sym == "import"@ && !ignored.contains(i.span.ctxt) {
                first_arg_str(args)
            } else {
                None
            },
            _ => None,
        },
        _ => None,
    }
}

pub fn match_import(n: &Node, ignored: &Vec<u32>) -> (r: Option<String>)
    ensures
        opt_str_view(r) == imported_source(n@, ignored@),
{
    proof {
        reveal_with_fuel(crate::ast::node_view, 2);
    }
    match n {
        Node::Call { callee, args, .. } => match &**callee {
            Node::Ident(i) => if is_word(&i.sym, "import") && !u32_in(ignored, i.span.ctxt) {
                get_first_arg_str(args)
            } else {
                None
            },
            _ => None,
        },
        _ => None,
    }
}

/// Where a pattern stands in the source; an expression used as a pattern
/// has no place of its own.
pub open spec fn pat_span(n: NodeV) -> Span {
    match n {
        NodeV::BindingIdent(i) => i.span,
        NodeV::ArrayPat { span, .. } => span,
        NodeV::ObjectPat { span, .. } => span,
        NodeV::Rest { span, .. } => span,
        NodeV::AssignPat { span, .. } => span,
        _ => dummy_span(),
    }
}

pub fn get_pat_span(n: &Node) -> (r: Span)
    ensures
        r == pat_span(n@),
{
    match n {
        Node::BindingIdent(i) => i.span,
        Node::ArrayPat { span, .. } => *span,
        Node::ObjectPat { span, .. } => *span,
        Node::Rest { span, .. } => *span,
        Node::AssignPat { span, .. } => *span,
        _ => dummy_sp(),
    }
}

/// Whether the pattern `n` binds the name `sym`, which the module does not
/// declare: as an identifier, inside an object pattern, or as an element
/// of an array pattern.
pub open spec fn binds_free(n: NodeV, sym: Seq<char>, decls: Seq<IdV>) -> bool
    decreases n, 1nat,
{
    match n {
        NodeV::BindingIdent(i) => i.sym == sym && !decls.contains(i.id()),
        NodeV::ObjectPat { props, .. } => any_prop_binds_free(props, props.len(), sym, decls),
        NodeV::ArrayPat { elems, .. } => any_binds_free(elems, elems.len(), sym, decls),
        _ => false,
    }
}

/// The same for one property of an object pattern.
pub open spec fn prop_binds_free(p: NodeV, sym: Seq<char>, decls: Seq<IdV>) -> bool
    decreases p, 1nat,
{
    match p {
        NodeV::KeyValue { value, .. } => binds_free(*value, sym, decls),
        NodeV::AssignPatProp { key, .. } => key.sym == sym && !decls.contains(key.id()),
        NodeV::Rest { arg, .. } => binds_free(*arg, sym, decls),
        _ => false,
    }
}

pub open spec fn any_binds_free(ns: Seq<NodeV>, k: nat, sym: Seq<char>, decls: Seq<IdV>) -> bool
    decreases ns, k,
{
    if k == 0 || k > ns.len() {
        false
    } else {
        any_binds_free(ns, (k - 1) as nat, sym, decls) || binds_free(ns[k - 1], sym, decls)
    }
}

pub open spec fn any_prop_binds_free(
    ns: Seq<NodeV>,
    k: nat,
    sym: Seq<char>,
    decls: Seq<IdV>,
) -> bool
    decreases ns, k,
{
    if k == 0 || k > ns.len() {
        false
    } else {
        any_prop_binds_free(ns, (k - 1) as nat, sym, decls) || prop_binds_free(
            ns[k - 1],
            sym,
            decls,
        )
    }
}

pub fn has_binding_identifier(n: &Node, sym: &str, decls: &Vec<Id>) -> (r: bool)
    ensures
        r == binds_free(n@, sym@, ids_view(decls@)),
    decreases n, 1nat,
{
    match n {
        Node::BindingIdent(i) => is_word(&i.sym, sym) && !id_in(decls, &i.id()),
        Node::ObjectPat { props, .. } => any_prop_has_binding_identifier(props, sym, decls),
        Node::ArrayPat { elems, .. } => any_has_binding_identifier(elems, sym, decls),
        _ => false,
    }
}

pub fn prop_has_binding_identifier(p: &Node, sym: &str, decls: &Vec<Id>) -> (r: bool)
    ensures
        r == prop_binds_free(p@, sym@, ids_view(decls@)),
    decreases p, 1nat,
{
    match p {
        Node::KeyValue { value, .. } => has_binding_identifier(value, sym, decls),
        Node::AssignPatProp { key, .. } => is_word(&key.sym, sym) && !id_in(decls, &key.id()),
        Node::Rest { arg, .. } => has_binding_identifier(arg, sym, decls),
        _ => false,
    }
}

fn any_has_binding_identifier(ns: &Vec<Node>, sym: &str, decls: &Vec<Id>) -> (r: bool)
    ensures
        r == any_binds_free(crate::ast::nodes_view(ns@), ns@.len(), sym@, ids_view(decls@)),
    decreases ns, ns@.len(),
{
    let mut found = false;
    let mut k: usize = 0;
    while k < ns.len()
        invariant
            k <= ns.len(),
            found == any_binds_free(
                crate::ast::nodes_view(ns@),
                k as nat,
                sym@,
                ids_view(decls@),
            ),
        decreases ns.len() - k,
    {
        let here = has_binding_identifier(&ns[k], sym, decls);
        found = found || here;
        k += 1;
    }
    found
}

fn any_prop_has_binding_identifier(ns: &Vec<Node>, sym: &str, decls: &Vec<Id>) -> (r: bool)
    ensures
        r == any_prop_binds_free(crate::ast::nodes_view(ns@), ns@.len(), sym@, ids_view(decls@)),
    decreases ns, ns@.len(),
{
    let mut found = false;
    let mut k: usize = 0;
    while k < ns.len()
        invariant
            k <= ns.len(),
            found == any_prop_binds_free(
                crate::ast::nodes_view(ns@),
                k as nat,
                sym@,
                ids_view(decls@),
            ),
        decreases ns.len() - k,
    {
        let here = prop_has_binding_identifier(&ns[k], sym, decls);
        found = found || here;
        k += 1;
    }
    found
}

} // verus!
