use cargo_expand::{
    filter, sanitize, skip_auto_derived, to_tokens, unparse_maximal, Attr, Category, File, Filter,
    FilterError, Kind, Node,
};

fn attr(path: &str, args: bool, text: &str) -> Attr {
    Attr { path: path.to_string(), args, text: text.to_string() }
}

fn node(category: Category, kind: Kind, name: &str, head: &str, children: Vec<Node>, tail: &str) -> Node {
    Node {
        category,
        kind,
        name: name.to_string(),
        has_body: true,
        attrs: Vec::new(),
        head: head.to_string(),
        children,
        tail: tail.to_string(),
    }
}

fn leaf(category: Category, kind: Kind, name: &str, head: &str) -> Node {
    node(category, kind, name, head, Vec::new(), "")
}

fn func(name: &str, stmts: Vec<Node>) -> Node {
    node(Category::Item, Kind::Fn, name, &format!("fn {}() {{", name), stmts, "}")
}

fn module(name: &str, items: Vec<Node>) -> Node {
    node(Category::Item, Kind::Mod, name, &format!("mod {} {{", name), items, "}")
}

fn unit(items: Vec<Node>) -> File {
    File { shebang: None, attrs: Vec::new(), items }
}

fn names(f: &File) -> Vec<String> {
    f.items.iter().map(|n| n.name.clone()).collect()
}

/// A primitive that fails on any unit whose tokens hold `BAD`.
fn picky(u: &File) -> Option<String> {
    let t = to_tokens(u);
    if t.contains("BAD") {
        None
    } else {
        Some(t)
    }
}

#[test]
fn renders_whole_unit_when_it_can() {
    let f = unit(vec![func("f", vec![leaf(Category::Stmt, Kind::Local, "", "let x = 1;")])]);
    let expected = to_tokens(&f);
    let out = unparse_maximal(f, &picky);
    assert_eq!(out, expected);
    assert!(!out.contains("..."));
}

#[test]
fn end_to_end_one_bad_statement() {
    let good = leaf(Category::Stmt, Kind::Local, "", "let x = 1;");
    let bad = leaf(Category::Stmt, Kind::Other, "", "BAD;");
    let f = unit(vec![func("main", vec![good, bad])]);
    let out = unparse_maximal(f, &picky);
    assert!(out.contains("fn main() {"));
    assert!(out.contains("let x = 1;"));
    assert!(!out.contains("BAD"));
    assert_eq!(out.matches("...").count(), 1);
    assert!(out.find("let x = 1;").unwrap() < out.find("...").unwrap());
}

#[test]
fn placeholder_stays_at_the_failing_leaf() {
    let bad_expr = leaf(Category::Expr, Kind::Expr, "", "BAD");
    let stmt = node(Category::Stmt, Kind::Expr, "", "", vec![bad_expr], ";");
    let inner = func("inner", vec![leaf(Category::Stmt, Kind::Local, "", "let a = 2;"), stmt]);
    let f = unit(vec![module("m", vec![inner, func("other", Vec::new())])]);
    let out = unparse_maximal(f, &picky);
    assert_eq!(out.matches("...").count(), 1);
    assert!(out.contains("mod m {"));
    assert!(out.contains("fn inner() {"));
    assert!(out.contains("let a = 2;"));
    assert!(out.contains("fn other() {"));
    assert!(out.contains("... ;"));
}

#[test]
fn totality_when_nothing_renders() {
    let f = unit(vec![func("f", vec![leaf(Category::Stmt, Kind::Local, "", "let x = 1;")])]);
    let out = unparse_maximal(f, &|_: &File| None);
    assert_eq!(out, "... ");
}

#[test]
fn trait_member_is_tried_inside_a_trait() {
    let seen = std::cell::RefCell::new(Vec::new());
    let member = leaf(Category::TraitItem, Kind::Fn, "m", "fn m(BAD);");
    let tr = node(Category::Item, Kind::Trait, "T", "trait T {", vec![member], "}");
    let render = |u: &File| {
        let t = to_tokens(u);
        seen.borrow_mut().push(t.clone());
        if t.contains("BAD") { None } else { Some(t) }
    };
    let out = unparse_maximal(unit(vec![tr]), &render);
    assert!(seen.borrow().iter().any(|t| t.starts_with("trait Trait {")));
    assert_eq!(out.matches("...").count(), 1);
    assert!(out.contains("trait T {"));
}

#[test]
fn sanitize_removes_macros_and_statement_docs() {
    let mut stmt = leaf(Category::Stmt, Kind::Expr, "", "x();");
    stmt.attrs = vec![attr("doc", true, "#[doc = \" a\"]"), attr("allow", true, "#[allow(x)]")];
    let mac_stmt = leaf(Category::Stmt, Kind::Macro, "m", "macro_rules! m {}");
    let inner_mac = leaf(Category::Item, Kind::Macro, "n", "macro_rules! n {}");
    let mut f = unit(vec![
        leaf(Category::Item, Kind::Macro, "top", "macro_rules! top {}"),
        module("m", vec![inner_mac, func("g", Vec::new())]),
        func("f", vec![stmt, mac_stmt]),
    ]);
    sanitize(&mut f);
    assert_eq!(names(&f), vec!["m", "f"]);
    assert_eq!(f.items[0].children.len(), 1);
    assert_eq!(f.items[0].children[0].name, "g");
    assert_eq!(f.items[1].children.len(), 1);
    assert_eq!(f.items[1].children[0].attrs.len(), 1);
    assert_eq!(f.items[1].children[0].attrs[0].path, "allow");
}

#[test]
fn sanitize_keeps_item_docs() {
    let mut g = func("g", Vec::new());
    g.attrs = vec![attr("doc", true, "#[doc = \" g\"]")];
    let mut f = unit(vec![g]);
    sanitize(&mut f);
    assert_eq!(f.items[0].attrs.len(), 1);
}

#[test]
fn sanitize_twice_is_sanitize_once() {
    let mut stmt = leaf(Category::Stmt, Kind::Local, "", "let y = 0;");
    stmt.attrs = vec![attr("doc", true, "#[doc = \" y\"]")];
    let build = || {
        unit(vec![
            leaf(Category::Item, Kind::Macro, "a", "macro_rules! a {}"),
            func("f", vec![leaf(Category::Stmt, Kind::Macro, "b", "macro_rules! b {}")]),
        ])
    };
    let mut once = build();
    sanitize(&mut once);
    let mut twice = build();
    sanitize(&mut twice);
    sanitize(&mut twice);
    assert_eq!(to_tokens(&once), to_tokens(&twice));
    let mut one = unit(vec![func("h", vec![stmt])]);
    sanitize(&mut one);
    let first = to_tokens(&one);
    sanitize(&mut one);
    assert_eq!(first, to_tokens(&one));
}

fn imp(name: &str, marked: bool) -> Node {
    let mut n = node(Category::Item, Kind::Impl, name, &format!("impl {} {{", name), Vec::new(), "}");
    n.name = String::new();
    if marked {
        n.attrs = vec![attr("automatically_derived", false, "#[automatically_derived]")];
    }
    n
}

#[test]
fn skip_auto_derived_removes_only_marked_impls() {
    let mut f = unit(vec![func("a", Vec::new()), imp("X", true), imp("Y", false), func("b", Vec::new())]);
    skip_auto_derived(&mut f);
    assert_eq!(f.items.len(), 3);
    assert_eq!(f.items[0].name, "a");
    assert_eq!(f.items[1].head, "impl Y {");
    assert_eq!(f.items[2].name, "b");
}

#[test]
fn skip_auto_derived_reaches_nested_modules() {
    let mut f = unit(vec![module("outer", vec![module("inner", vec![imp("X", true), imp("Z", false)])])]);
    skip_auto_derived(&mut f);
    let inner = &f.items[0].children[0];
    assert_eq!(inner.children.len(), 1);
    assert_eq!(inner.children[0].head, "impl Z {");
}

#[test]
fn marker_must_be_bare() {
    let mut with_args = imp("X", false);
    with_args.attrs = vec![attr("automatically_derived", true, "#[automatically_derived(x)]")];
    let mut qualified = imp("Y", false);
    qualified.attrs = vec![attr("::automatically_derived", false, "#[::automatically_derived]")];
    let mut f = unit(vec![with_args, qualified]);
    skip_auto_derived(&mut f);
    assert_eq!(f.items.len(), 2);
}

#[test]
fn selector_unwraps_module() {
    let inner = module("inner", vec![func("f", Vec::new()), func("g", Vec::new())]);
    let mut f = unit(vec![module("outer", vec![inner]), func("h", Vec::new())]);
    f.shebang = Some("#!/bin/x".to_string());
    f.attrs = vec![attr("allow", true, "#![allow(x)]")];
    let sel = Filter::from_str("outer::inner").unwrap();
    filter(&mut f, &sel);
    assert_eq!(names(&f), vec!["f", "g"]);
    assert!(f.shebang.is_none());
    assert!(f.attrs.is_empty());
}

#[test]
fn selector_keeps_single_function() {
    let mut f = unit(vec![module("outer", vec![func("f", Vec::new())])]);
    let sel = Filter::from_str("::outer::f").unwrap();
    filter(&mut f, &sel);
    assert_eq!(names(&f), vec!["f"]);
    assert_eq!(f.items[0].category, Category::Item);
}

#[test]
fn selector_trait_default_becomes_function() {
    let with_default = node(Category::TraitItem, Kind::Fn, "m", "fn m() {", Vec::new(), "}");
    let mut without = leaf(Category::TraitItem, Kind::Fn, "n", "fn n();");
    without.has_body = false;
    let tr = node(Category::Item, Kind::Trait, "T", "trait T {", vec![with_default, without], "}");
    let mut f = unit(vec![tr]);
    filter(&mut f, &Filter::from_str("T::m").unwrap());
    assert_eq!(names(&f), vec!["m"]);
    assert_eq!(f.items[0].category, Category::Item);
    assert_eq!(f.items[0].kind, Kind::Fn);
    assert_eq!(f.items[0].head, "fn m() {");

    let with_default = node(Category::TraitItem, Kind::Fn, "m", "fn m() {", Vec::new(), "}");
    let mut without = leaf(Category::TraitItem, Kind::Fn, "n", "fn n();");
    without.has_body = false;
    let tr = node(Category::Item, Kind::Trait, "T", "trait T {", vec![with_default, without], "}");
    let mut f = unit(vec![tr]);
    filter(&mut f, &Filter::from_str("T::n").unwrap());
    assert!(f.items.is_empty());
}

#[test]
fn selector_does_not_open_functions() {
    let nested = leaf(Category::Item, Kind::Struct, "S", "struct S;");
    let mut f = unit(vec![func("f", vec![nested])]);
    filter(&mut f, &Filter::from_str("f::S").unwrap());
    assert!(f.items.is_empty());
}

#[test]
fn selector_keeps_every_match_by_name() {
    let mut f = unit(vec![
        leaf(Category::Item, Kind::Struct, "A", "struct A;"),
        leaf(Category::Item, Kind::Fn, "A", "fn A() {}"),
        leaf(Category::Item, Kind::Struct, "B", "struct B;"),
    ]);
    filter(&mut f, &Filter::from_str("A").unwrap());
    assert_eq!(f.items.len(), 2);
}

#[test]
fn selector_parse_errors() {
    assert_eq!(Filter::from_str("").unwrap_err(), FilterError::EmptyPath);
    assert_eq!(Filter::from_str("::").unwrap_err(), FilterError::EmptyPath);
    assert_eq!(
        Filter::from_str("a::1b::c").unwrap_err(),
        FilterError::InvalidSegment("1b".to_string())
    );
    assert_eq!(Filter::from_str("a::").unwrap_err(), FilterError::InvalidSegment(String::new()));
    assert_eq!(Filter::from_str("a b").unwrap_err(), FilterError::InvalidSegment("a b".to_string()));
    assert_eq!(Filter::from_str("::a::b").unwrap().to_string(), "::a::b");
}

#[test]
fn tokens_of_unit() {
    let mut f = unit(vec![func("f", vec![leaf(Category::Stmt, Kind::Local, "", "let x = 1;")])]);
    f.shebang = Some("#!/x".to_string());
    f.attrs = vec![attr("allow", true, "#![allow(y)]")];
    assert_eq!(to_tokens(&f), "#!/x\n#![allow(y)] fn f() { let x = 1;  } ");
}
