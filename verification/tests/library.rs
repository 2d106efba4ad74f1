use scope_hoist::ast::{
    clone_node, dummy_sp, AssignOp, Id, Ident, ImportSpecifier, Module, Node, Span, SpecifierKind,
    StrKind, UnaryOp, VarKind,
};
use scope_hoist::collect::Collect;
use scope_hoist::diag::{sort_bailouts, Bailout, BailoutReason, DiagnosticSeverity};
use scope_hoist::facts::{Import, ImportKind};
use scope_hoist::hoist::{hoist, Hoist};
use scope_hoist::matchers::{
    has_binding_identifier, match_import, match_member_expr, match_require,
};
use scope_hoist::table::{StrMap, StrSet, Table};
use scope_hoist::text::{
    hash_str, is_word, make_export_name, make_hoisted_specifier, make_import_async_key_name,
    make_import_async_name, make_import_name, make_require_name, make_var_name, push_hex,
};

const TOP: u32 = 1;

fn sp(lo: u32, hi: u32) -> Span {
    Span { lo, hi, ctxt: 0 }
}

fn id(name: &str, at: u32, ctxt: u32) -> Ident {
    Ident { sym: name.to_string(), span: Span { lo: at, hi: at + name.len() as u32, ctxt } }
}

fn free(name: &str, at: u32) -> Node {
    Node::Ident(id(name, at, 0))
}

fn top(name: &str, at: u32) -> Node {
    Node::Ident(id(name, at, TOP))
}

fn str_lit(value: &str, at: u32) -> Node {
    Node::Str {
        span: sp(at, at + value.len() as u32 + 2),
        value: value.to_string(),
        has_escape: false,
        kind: StrKind::Normal { contains_quote: true },
    }
}

fn call(callee: Node, args: Vec<Node>, lo: u32, hi: u32) -> Node {
    Node::call(sp(lo, hi), callee, args)
}

fn require(source: &str, at: u32) -> Node {
    call(free("require", at), vec![str_lit(source, at + 8)], at, at + 11 + source.len() as u32)
}

fn module(body: Vec<Node>) -> Module {
    Module { span: sp(1, 1000), body, shebang: None }
}

fn decl(name: &str, ctxt: u32) -> Id {
    Id { sym: name.to_string(), ctxt }
}

fn hex(n: u64) -> String {
    let mut s = String::new();
    push_hex(&mut s, n);
    s
}

#[test]
fn hexadecimal_has_no_leading_zeros() {
    assert_eq!(hex(0), "0");
    assert_eq!(hex(9), "9");
    assert_eq!(hex(10), "a");
    assert_eq!(hex(15), "f");
    assert_eq!(hex(16), "10");
    assert_eq!(hex(255), "ff");
    assert_eq!(hex(0x02e2bcd8739ae039), "2e2bcd8739ae039");
    assert_eq!(hex(u64::MAX), "ffffffffffffffff");
    for n in [0u64, 1, 17, 4096, 0xdead_beef, u64::MAX - 1] {
        assert_eq!(hex(n), format!("{:x}", n));
    }
}

#[test]
fn hashes_are_stable() {
    assert_eq!(hash_str("other"), 0x70a00e0a8474f72a);
    assert_eq!(hash_str("foo"), 0x6a5cdcad01c973fa);
    assert_eq!(hash_str("bar"), 0xd927737047eb3867);
    assert_eq!(hash_str("default"), 0x02e2bcd8739ae039);
    assert_eq!(hash_str("other"), hash_str("other"));
    assert_ne!(hash_str("a"), hash_str("b"));
}

#[test]
fn synthesized_names() {
    let other = "other".to_string();
    let foo = "foo".to_string();
    let star = "*".to_string();
    assert_eq!(make_hoisted_specifier("abc", "other"), "abc:other");
    assert_eq!(make_import_name("abc", &other, &star), "$abc$import$70a00e0a8474f72a");
    assert_eq!(
        make_import_name("abc", &other, &foo),
        "$abc$import$70a00e0a8474f72a$6a5cdcad01c973fa"
    );
    assert_eq!(make_import_async_name("abc", &other), "$abc$importAsync$70a00e0a8474f72a");
    assert_eq!(
        make_import_async_key_name("abc", &other, &foo),
        "$abc$importAsync$70a00e0a8474f72a$6a5cdcad01c973fa"
    );
    assert_eq!(make_export_name("abc", &star), "$abc$exports");
    assert_eq!(make_export_name("abc", &"default".to_string()), "$abc$export$2e2bcd8739ae039");
    assert_eq!(make_require_name("abc", &foo), "$abc$require$foo");
    assert_eq!(make_var_name("abc", &foo), "$abc$var$foo");
    // Another module id gives another name for the same import.
    assert_ne!(make_import_name("abc", &other, &foo), make_import_name("abd", &other, &foo));
}

#[test]
fn words_are_compared_by_content() {
    assert!(is_word(&"exports".to_string(), "exports"));
    assert!(!is_word(&"export".to_string(), "exports"));
    assert!(!is_word(&"".to_string(), "*"));
}

#[test]
fn table_keeps_insertion_order_and_distinct_keys() {
    let mut t: Table<String> = Table::new();
    assert_eq!(t.len(), 0);
    t.insert(decl("a", 1), "one".to_string());
    t.insert(decl("b", 1), "two".to_string());
    t.insert(decl("a", 2), "three".to_string());
    t.insert(decl("a", 1), "four".to_string());
    assert_eq!(t.len(), 3);
    assert_eq!(t.key(0), &decl("a", 1));
    assert_eq!(t.value(0), "four");
    assert_eq!(t.key(1), &decl("b", 1));
    assert_eq!(t.key(2), &decl("a", 2));
    assert_eq!(t.get(&decl("a", 2)), Some(&"three".to_string()));
    assert_eq!(t.get(&decl("c", 1)), None);
    assert!(t.contains_key(&decl("b", 1)));
    assert!(!t.contains_key(&decl("b", 2)));

    t.insert_if_absent(decl("b", 1), "five".to_string());
    t.insert_if_absent(decl("d", 0), "six".to_string());
    assert_eq!(t.get(&decl("b", 1)), Some(&"two".to_string()));
    assert_eq!(t.get(&decl("d", 0)), Some(&"six".to_string()));
    assert_eq!(t.len(), 4);
}

#[test]
fn table_of_lists_appends() {
    let mut t: Table<Vec<Span>> = Table::new();
    t.append(decl("x", 1), sp(5, 6));
    t.append(decl("y", 1), sp(7, 8));
    t.append(decl("x", 1), sp(9, 10));
    assert_eq!(t.len(), 2);
    assert_eq!(t.get(&decl("x", 1)), Some(&vec![sp(5, 6), sp(9, 10)]));
    assert_eq!(t.get(&decl("y", 1)), Some(&vec![sp(7, 8)]));
}

#[test]
fn string_set_and_map() {
    let mut s = StrSet::new();
    s.insert("b".to_string());
    s.insert("a".to_string());
    s.insert("b".to_string());
    assert_eq!(s.len(), 2);
    assert_eq!(s.item(0), "b");
    assert_eq!(s.item(1), "a");
    assert!(s.contains(&"a".to_string()));
    assert!(!s.contains(&"c".to_string()));
    let copy = s.duplicate();
    assert_eq!(copy.len(), 2);
    assert_eq!(copy.item(1), "a");

    let mut m = StrMap::new();
    m.insert("k".to_string(), "v".to_string());
    m.insert("l".to_string(), "w".to_string());
    m.insert("k".to_string(), "x".to_string());
    assert_eq!(m.len(), 2);
    assert_eq!((m.key(0).as_str(), m.value(0).as_str()), ("k", "x"));
    assert_eq!((m.key(1).as_str(), m.value(1).as_str()), ("l", "w"));
}

#[test]
fn bailouts_sort_by_start_and_keep_ties() {
    let b = |lo: u32, hi: u32, reason| Bailout { loc: sp(lo, hi), reason };
    let sorted = sort_bailouts(&vec![
        b(30, 31, BailoutReason::Eval),
        b(10, 12, BailoutReason::FreeModule),
        b(20, 25, BailoutReason::TopLevelReturn),
        b(10, 11, BailoutReason::FreeExports),
        b(0, 0, BailoutReason::NonStaticDestructuring),
    ]);
    assert_eq!(
        sorted,
        vec![
            b(0, 0, BailoutReason::NonStaticDestructuring),
            b(10, 12, BailoutReason::FreeModule),
            b(10, 11, BailoutReason::FreeExports),
            b(20, 25, BailoutReason::TopLevelReturn),
            b(30, 31, BailoutReason::Eval),
        ]
    );
    assert_eq!(sort_bailouts(&vec![]), vec![]);
}

#[test]
fn require_is_recognised() {
    let none: Vec<Id> = vec![];
    let ignored: Vec<u32> = vec![];
    assert_eq!(match_require(&require("x", 1), &none, &ignored), Some("x".to_string()));
    // `module.require('x')`
    let member = Node::member(sp(1, 15), free("module", 1), free("require", 8), false);
    let via_module = call(member, vec![str_lit("x", 16)], 1, 20);
    assert_eq!(match_require(&via_module, &none, &ignored), Some("x".to_string()));
    // A declared `require` is an ordinary function.
    let declared = vec![decl("require", 0)];
    assert_eq!(match_require(&require("x", 1), &declared, &ignored), None);
    // One in an ignored scope was put there by another pass.
    let marked = call(Node::Ident(id("require", 1, 7)), vec![str_lit("x", 9)], 1, 13);
    assert_eq!(match_require(&marked, &none, &vec![7]), None);
    assert_eq!(match_require(&marked, &none, &ignored), Some("x".to_string()));
    // The argument must be a string literal.
    let dynamic = call(free("require", 1), vec![free("x", 9)], 1, 11);
    assert_eq!(match_require(&dynamic, &none, &ignored), None);
    let empty = call(free("require", 1), vec![], 1, 10);
    assert_eq!(match_require(&empty, &none, &ignored), None);
    assert_eq!(match_require(&free("require", 1), &none, &ignored), None);
}

#[test]
fn import_is_recognised() {
    let ignored: Vec<u32> = vec![];
    let dynamic = call(free("import", 1), vec![str_lit("x", 8)], 1, 12);
    assert_eq!(match_import(&dynamic, &ignored), Some("x".to_string()));
    assert_eq!(match_import(&dynamic, &vec![0]), None);
    assert_eq!(match_import(&require("x", 1), &ignored), None);
}

#[test]
fn member_of_a_free_object() {
    let none: Vec<Id> = vec![];
    let dotted = Node::member(sp(1, 15), free("module", 1), free("exports", 8), false);
    assert!(match_member_expr(&dotted, "module", "exports", &none));
    assert!(!match_member_expr(&dotted, "module", "hot", &none));
    assert!(!match_member_expr(&dotted, "exports", "module", &none));
    assert!(!match_member_expr(&dotted, "module", "exports", &vec![decl("module", 0)]));
    let quoted = Node::member(sp(1, 18), free("module", 1), str_lit("exports", 8), true);
    assert!(match_member_expr(&quoted, "module", "exports", &none));
    let computed = Node::member(sp(1, 16), free("module", 1), free("exports", 8), true);
    assert!(!match_member_expr(&computed, "module", "exports", &none));
    assert!(!match_member_expr(&free("module", 1), "module", "exports", &none));
}

#[test]
fn patterns_that_bind_a_free_name() {
    let none: Vec<Id> = vec![];
    let exports = || Node::BindingIdent(id("exports", 1, 0));
    assert!(has_binding_identifier(&exports(), "exports", &none));
    assert!(!has_binding_identifier(&exports(), "module", &none));
    assert!(!has_binding_identifier(&exports(), "exports", &vec![decl("exports", 0)]));
    let in_object = Node::object_pat(
        sp(1, 20),
        vec![Node::key_value(Node::Key(id("a", 2, 0)), exports())],
    );
    assert!(has_binding_identifier(&in_object, "exports", &none));
    let shorthand = Node::object_pat(
        sp(1, 20),
        vec![Node::assign_pat_prop(sp(2, 9), id("exports", 2, 0), None)],
    );
    assert!(has_binding_identifier(&shorthand, "exports", &none));
    let object_rest =
        Node::object_pat(sp(1, 20), vec![Node::rest(sp(2, 12), sp(2, 5), exports())]);
    assert!(has_binding_identifier(&object_rest, "exports", &none));
    let in_array = Node::array_pat(sp(1, 20), vec![Node::Hole, exports()]);
    assert!(has_binding_identifier(&in_array, "exports", &none));
    // A rest element of an array pattern is not looked into.
    let array_rest = Node::array_pat(sp(1, 20), vec![Node::rest(sp(2, 12), sp(2, 5), exports())]);
    assert!(!has_binding_identifier(&array_rest, "exports", &none));
    // An expression is no pattern.
    assert!(!has_binding_identifier(&free("exports", 1), "exports", &none));
}

#[test]
fn a_copy_is_equal_to_its_original() {
    let tree = Node::var_decl(
        sp(1, 40),
        VarKind::Const,
        false,
        vec![Node::declarator(
            sp(7, 39),
            Node::object_pat(
                sp(7, 20),
                vec![
                    Node::assign_pat_prop(sp(8, 11), id("foo", 8, TOP), Some(str_lit("d", 14))),
                    Node::rest(sp(16, 19), sp(16, 19), Node::BindingIdent(id("r", 19, TOP))),
                ],
            ),
            Some(Node::other(3, vec![require("other", 23), Node::Null(sp(30, 34))])),
            false,
        )],
    );
    assert_eq!(clone_node(&tree), tree);
}

#[test]
fn analysis_of_a_hand_built_module() {
    // const {foo: bar} = require('other'); exports.test = bar;
    let body = vec![
        Node::var_decl(
            sp(1, 40),
            VarKind::Const,
            false,
            vec![Node::declarator(
                sp(7, 39),
                Node::object_pat(
                    sp(7, 17),
                    vec![Node::key_value(
                        Node::Key(id("foo", 8, 0)),
                        Node::BindingIdent(id("bar", 13, TOP)),
                    )],
                ),
                Some(require("other", 20)),
                false,
            )],
        ),
        Node::expr_stmt(
            sp(41, 60),
            Node::assign(
                sp(41, 59),
                AssignOp::Assign,
                Node::member(sp(41, 53), free("exports", 41), free("test", 49), false),
                top("bar", 56),
            ),
        ),
    ];
    let m = module(body);
    let mut collect = Collect::new(vec![decl("bar", TOP)], vec![], TOP, false);
    collect.visit_module(&m);
    assert_eq!(collect.imports.len(), 1);
    assert_eq!(collect.imports.key(0), &decl("bar", TOP));
    assert_eq!(
        collect.imports.value(0),
        &Import {
            source: "other".to_string(),
            specifier: "foo".to_string(),
            kind: ImportKind::Require,
            loc: Span { lo: 13, hi: 16, ctxt: TOP },
        }
    );
    assert!(collect.static_cjs_exports);
    assert!(collect.has_cjs_exports);
    assert!(!collect.should_wrap);
    assert!(!collect.is_esm);
    assert!(collect.non_const_bindings.contains_key(&decl("bar", TOP)));
    assert_eq!(collect.bailouts, None);

    let mut hoist = Hoist::new("abc");
    let out = hoist.fold_module(&collect, &m);
    let export = "$abc$export$".to_string() + &hex(hash_str("test"));
    let import_name = make_import_name("abc", &"other".to_string(), &"foo".to_string());
    assert_eq!(out.body.len(), 4);
    assert_eq!(
        out.body[0],
        Node::VarDecl {
            span: sp(1, 1000),
            kind: VarKind::Var,
            declare: false,
            decls: vec![Node::declarator(
                sp(1, 1000),
                Node::BindingIdent(Ident { sym: export.clone(), span: dummy_sp() }),
                None,
                false
            )],
        }
    );
    assert_eq!(
        out.body[1],
        Node::Import { span: dummy_sp(), specifiers: vec![], src: "abc:other".to_string() }
    );
    assert_eq!(
        out.body[2],
        Node::var_decl(
            dummy_sp(),
            VarKind::Var,
            false,
            vec![Node::declarator(
                dummy_sp(),
                Node::BindingIdent(Ident { sym: "$abc$require$bar".to_string(), span: dummy_sp() }),
                Some(Node::Ident(Ident { sym: import_name.clone(), span: sp(7, 39) })),
                false
            )]
        )
    );
    assert_eq!(
        out.body[3],
        Node::expr_stmt(
            sp(41, 60),
            Node::assign(
                sp(41, 59),
                AssignOp::Assign,
                Node::BindingIdent(Ident { sym: export.clone(), span: sp(41, 53) }),
                Node::Ident(Ident { sym: "$abc$require$bar".to_string(), span: dummy_sp() }),
            ),
        )
    );
    let result = hoist.get_result(&collect);
    assert_eq!(result.imported_symbols.len(), 1);
    assert_eq!(result.imported_symbols[0].local, import_name);
    assert_eq!(result.imported_symbols[0].imported, "foo");
    assert_eq!(result.exported_symbols.len(), 1);
    assert_eq!(result.exported_symbols[0].local, export);
    assert_eq!(result.exported_symbols[0].exported, "test");
    assert!(result.static_cjs_exports && result.has_cjs_exports);
    assert!(!result.should_wrap && !result.is_esm);
}

#[test]
fn splitting_a_declaration_keeps_the_order() {
    // const a = f(), b = require('x'), c = g();
    let m = module(vec![Node::var_decl(
        sp(1, 50),
        VarKind::Const,
        false,
        vec![
            Node::declarator(
                sp(7, 14),
                Node::BindingIdent(id("a", 7, TOP)),
                Some(call(free("f", 11), vec![], 11, 14)),
                false,
            ),
            Node::declarator(
                sp(16, 32),
                Node::BindingIdent(id("b", 16, TOP)),
                Some(require("x", 20)),
                false,
            ),
            Node::declarator(
                sp(34, 41),
                Node::BindingIdent(id("c", 34, TOP)),
                Some(call(free("g", 38), vec![], 38, 41)),
                false,
            ),
        ],
    )]);
    let decls = vec![decl("a", TOP), decl("b", TOP), decl("c", TOP)];
    let (out, _result, bailouts) = hoist(m, "abc", decls, vec![], TOP, true).unwrap();
    assert!(bailouts.is_empty());
    let var = |name: &str, at: u32, callee: &str, lo: u32, hi: u32, span: Span| {
        Node::var_decl(
            sp(1, 50),
            VarKind::Const,
            false,
            vec![Node::declarator(
                span,
                Node::BindingIdent(Ident {
                    sym: format!("$abc$var${}", name),
                    span: Span { lo: at, hi: at + 1, ctxt: TOP },
                }),
                Some(call(free(callee, lo), vec![], lo, hi)),
                false,
            )],
        )
    };
    assert_eq!(
        out.body,
        vec![
            var("a", 7, "f", 11, 14, sp(7, 14)),
            Node::Import { span: dummy_sp(), specifiers: vec![], src: "abc:x".to_string() },
            var("c", 34, "g", 38, 41, sp(34, 41)),
        ]
    );
}

#[test]
fn an_assigned_import_rejects_the_module() {
    // import {x} from 'y'; x = 1;
    let m = module(vec![
        Node::Import {
            span: sp(1, 21),
            specifiers: vec![ImportSpecifier {
                kind: SpecifierKind::Named,
                span: sp(9, 10),
                local: id("x", 9, TOP),
                imported: None,
            }],
            src: "y".to_string(),
        },
        Node::expr_stmt(
            sp(22, 28),
            Node::assign(
                sp(22, 27),
                AssignOp::Assign,
                Node::BindingIdent(id("x", 22, TOP)),
                Node::other(0, vec![]),
            ),
        ),
    ]);
    let r = hoist(m, "abc", vec![decl("x", TOP)], vec![], TOP, false);
    let diagnostics = r.err().unwrap();
    assert_eq!(diagnostics.len(), 1);
    assert_eq!(diagnostics[0].message, "Assignment to an import specifier is not allowed");
    assert_eq!(diagnostics[0].severity, DiagnosticSeverity::Error);
    let locs: Vec<Span> = diagnostics[0].code_highlights.iter().map(|h| h.loc).collect();
    assert_eq!(
        locs,
        vec![Span { lo: 22, hi: 23, ctxt: TOP }, Span { lo: 9, hi: 10, ctxt: TOP }]
    );
}

#[test]
fn flags_never_go_back() {
    let mut collect = Collect::new(vec![], vec![], TOP, true);
    // return;
    collect.visit(&Node::return_of(sp(1, 8), None));
    assert!(collect.should_wrap);
    // exports[k]
    collect.visit(&Node::member(sp(10, 20), free("exports", 10), free("k", 18), true));
    assert!(!collect.static_cjs_exports);
    // Nothing that follows takes either back.
    collect.visit(&Node::member(sp(30, 41), free("exports", 30), free("foo", 38), false));
    collect.visit(&Node::function(1, vec![], vec![Node::return_of(sp(50, 57), None)]));
    collect.visit(&str_lit("x", 60));
    assert!(collect.should_wrap);
    assert!(!collect.static_cjs_exports);
    assert!(collect.has_cjs_exports);
    assert_eq!(
        collect.bailouts,
        Some(vec![
            Bailout { loc: sp(1, 8), reason: BailoutReason::TopLevelReturn },
            Bailout { loc: sp(10, 20), reason: BailoutReason::NonStaticExports },
        ])
    );
}

#[test]
fn typeof_of_free_names_is_folded() {
    let collect = Collect::new(vec![], vec![], TOP, false);
    let mut hoist = Hoist::new("abc");
    let of = |name: &str| Node::unary(sp(1, 20), UnaryOp::TypeOf, free(name, 8));
    let lit = |value: &str| Node::Str {
        span: sp(1, 20),
        value: value.to_string(),
        has_escape: false,
        kind: StrKind::Synthesized,
    };
    assert_eq!(hoist.fold(&collect, &of("require")), lit("function"));
    assert_eq!(hoist.fold(&collect, &of("module")), lit("object"));
    assert_eq!(hoist.fold(&collect, &of("other")), of("other"));
    let declared = Collect::new(vec![decl("require", 0)], vec![], TOP, false);
    assert_eq!(hoist.fold(&declared, &of("require")), of("require"));
}

#[test]
fn typeof_of_a_free_module_or_require_records_nothing() {
    let of = |name: &str| Node::unary(sp(1, 20), UnaryOp::TypeOf, free(name, 8));
    let mut collect = Collect::new(vec![], vec![], TOP, true);
    collect.visit(&of("require"));
    collect.visit(&of("module"));
    assert_eq!(collect.non_static_access.len(), 0);
    assert!(collect.static_cjs_exports);
    assert!(!collect.has_cjs_exports);
    assert!(!collect.should_wrap);
    assert_eq!(collect.bailouts, Some(vec![]));

    // A declared `require` is a binding like any other.
    let mut declared = Collect::new(vec![decl("require", 0)], vec![], TOP, true);
    declared.visit(&of("require"));
    assert!(declared.non_static_access.contains_key(&decl("require", 0)));

    // So is any name under another operator.
    let mut other = Collect::new(vec![], vec![], TOP, true);
    other.visit(&Node::unary(sp(1, 20), UnaryOp::Void, free("require", 8)));
    assert!(other.non_static_access.contains_key(&decl("require", 0)));
    other.visit(&Node::unary(sp(1, 20), UnaryOp::Bang, free("module", 8)));
    assert!(other.should_wrap);
}
