use javadoc_md::parse::parse;

#[test]
fn end_to_end_scenario() {
    let text = "package com.example;\nimport java.util.List;\n/** Does X.\n * @param x the input\n * @return the output */\npublic int compute(int x)\n";
    let c = parse(text);
    assert_eq!(c.package_name, "com.example");
    assert_eq!(c.dependencies, vec!["java.util.List".to_string()]);
    assert_eq!(c.methods.len(), 1);
    let m = &c.methods[0];
    assert_eq!(m.name, "compute");
    assert_eq!(m.privacy, "public");
    assert_eq!(m.return_type, "int");
    assert_eq!(m.description, "Does X.");
    assert_eq!(m.parameters.len(), 1);
    assert_eq!(m.parameters[0].name, "x");
    assert_eq!(m.parameters[0].var_type, "int");
    assert_eq!(m.parameters[0].desc, "the input");
}

#[test]
fn parameters_follow_declaration_order() {
    let text = "/**\n * Joins.\n * @param b second\n * @param a first\n */\npublic String join(int a, String b) {";
    let c = parse(text);
    let ps = &c.methods[0].parameters;
    assert_eq!(ps.len(), 2);
    assert_eq!(ps[0].name, "a");
    assert_eq!(ps[0].var_type, "int");
    assert_eq!(ps[0].desc, "first");
    assert_eq!(ps[1].name, "b");
    assert_eq!(ps[1].var_type, "String");
    assert_eq!(ps[1].desc, "second");
}

#[test]
fn unmatched_param_tag_is_dropped() {
    let text = "/**\n * Adds.\n * @param a one\n * @param c ghost value\n */\nint add(int a, int b) {";
    let c = parse(text);
    let m = &c.methods[0];
    assert_eq!(m.description, "Adds.");
    assert_eq!(m.parameters.len(), 2);
    assert_eq!(m.parameters[0].desc, "one");
    assert_eq!(m.parameters[1].desc, "");
    for p in &m.parameters {
        assert_ne!(p.name, "c");
        assert!(!p.desc.contains("ghost"));
    }
}

#[test]
fn missing_visibility_is_empty() {
    let c = parse("void run() {\n}\nstatic int count(String s) {");
    assert_eq!(c.methods.len(), 2);
    assert_eq!(c.methods[0].privacy, "");
    assert_eq!(c.methods[0].return_type, "void");
    assert_eq!(c.methods[1].privacy, "");
    assert_eq!(c.methods[1].return_type, "int");
    assert_eq!(c.methods[1].name, "count");
}

#[test]
fn comment_separated_by_code_does_not_bind() {
    let text = "/** Lost.\n * @param x gone\n */\nimport a.B;\npublic void f(int x) {";
    let c = parse(text);
    assert_eq!(c.dependencies, vec!["a.B".to_string()]);
    assert_eq!(c.methods[0].description, "");
    assert_eq!(c.methods[0].parameters[0].desc, "");
}

#[test]
fn blank_lines_keep_the_binding() {
    let text = "/** Kept. */\n\n   \npublic void f() {";
    let c = parse(text);
    assert_eq!(c.methods[0].description, "Kept.");
}

#[test]
fn surrounding_whitespace_is_ignored() {
    let a = parse("/** Doc.\n * @param n count\n */\npublic long size(int n) {");
    let b = parse("   /** Doc.  \n\t *   @param n count \r\n  */   \n\t public long size(int n) {  ");
    assert_eq!(a.methods.len(), 1);
    assert_eq!(b.methods.len(), 1);
    assert_eq!(a.methods[0].name, b.methods[0].name);
    assert_eq!(a.methods[0].privacy, b.methods[0].privacy);
    assert_eq!(a.methods[0].description, b.methods[0].description);
    assert_eq!(a.methods[0].return_type, b.methods[0].return_type);
    assert_eq!(a.methods[0].parameters[0].desc, b.methods[0].parameters[0].desc);
    assert_eq!(b.methods[0].parameters[0].desc, "count");
}

#[test]
fn order_and_duplicates_are_kept() {
    let text = "import x.A;\nimport x.B;\nimport x.A;\npublic void one() {\n}\nprivate int two() {\n}\nprotected String three() {";
    let c = parse(text);
    let deps: Vec<&str> = c.dependencies.iter().map(|d| d.as_str()).collect();
    assert_eq!(deps, vec!["x.A", "x.B", "x.A"]);
    let names: Vec<&str> = c.methods.iter().map(|m| m.name.as_str()).collect();
    assert_eq!(names, vec!["one", "two", "three"]);
    assert_eq!(c.methods[1].privacy, "private");
    assert_eq!(c.methods[2].privacy, "protected");
}

#[test]
fn any_text_gives_a_record() {
    let c = parse("");
    assert_eq!(c.class_name, "");
    assert!(c.methods.is_empty());
    assert!(c.dependencies.is_empty());
    let d = parse("/** never closed\n * @param q x\npublic void f() {");
    assert!(d.methods.is_empty());
    let e = parse("}}}\n((( = )))\n@@@\n*/\n");
    assert!(e.methods.is_empty());
    assert_eq!(e.class_name, "");
}

#[test]
fn class_header_is_read() {
    let text = "package p.q;\n\n/**\n * A shape.\n * Drawn on screen.\n */\npublic final class Shape extends Base {\n  /** Area. */\n  public abstract double area();\n}";
    let c = parse(text);
    assert_eq!(c.package_name, "p.q");
    assert_eq!(c.class_name, "Shape");
    assert_eq!(c.access, "public");
    assert_eq!(c.description, "A shape.\nDrawn on screen.");
    assert_eq!(c.methods.len(), 1);
    assert_eq!(c.methods[0].name, "area");
    assert_eq!(c.methods[0].return_type, "double");
    assert_eq!(c.methods[0].description, "Area.");
}

#[test]
fn interface_without_visibility() {
    let c = parse("interface Runner<T> {");
    assert_eq!(c.class_name, "Runner");
    assert_eq!(c.access, "");
}

#[test]
fn param_detail_continues_over_lines() {
    let text = "/**\n * Sums.\n * @param values the numbers\n *        to add\n * @return total\n *         sum\n */\npublic int sum(int[] values) {";
    let c = parse(text);
    let m = &c.methods[0];
    assert_eq!(m.description, "Sums.");
    assert_eq!(m.parameters[0].var_type, "int[]");
    assert_eq!(m.parameters[0].desc, "the numbers to add");
}

#[test]
fn statements_are_not_methods() {
    let c = parse("return compute(x);\nint y = f(x);\nfoo(bar);\nthrow new Error(m);\n} else if (a) {");
    assert!(c.methods.is_empty());
}

#[test]
fn new_comment_replaces_waiting_one() {
    let text = "/** First. */\n/** Second. */\npublic void g() {";
    let c = parse(text);
    assert_eq!(c.methods[0].description, "Second.");
}

#[test]
fn file_name_names_an_undeclared_class() {
    let c = javadoc_md::parse::parse_named("public void f() {", "Util.java");
    assert_eq!(c.class_name, "Util");
    assert_eq!(c.methods.len(), 1);
    let d = javadoc_md::parse::parse_named("class Real {", "Other.java");
    assert_eq!(d.class_name, "Real");
    let e = javadoc_md::parse::parse_named("", "Makefile");
    assert_eq!(e.class_name, "Makefile");
}

#[test]
fn form_feed_and_other_spaces_are_whitespace() {
    let a = parse("package a;");
    let b = parse("\u{c}package a;\u{b}");
    let c = parse("\u{3000}package\u{a0}a; ");
    assert_eq!(a.package_name, "a");
    assert_eq!(b.package_name, "a");
    assert_eq!(c.package_name, "a");
}

#[test]
fn generic_parameter_types_are_kept() {
    let text = "/**\n * Puts.\n * @param m the map\n * @param k the key\n */\npublic void put(Map<String, Integer> m, List<Map<K,V>> k, int[] xs) {";
    let c = parse(text);
    let ps = &c.methods[0].parameters;
    assert_eq!(ps.len(), 3);
    assert_eq!(ps[0].var_type, "Map<String, Integer>");
    assert_eq!(ps[0].name, "m");
    assert_eq!(ps[0].desc, "the map");
    assert_eq!(ps[1].var_type, "List<Map<K,V>>");
    assert_eq!(ps[1].name, "k");
    assert_eq!(ps[1].desc, "the key");
    assert_eq!(ps[2].var_type, "int[]");
    assert_eq!(ps[2].name, "xs");
}

#[test]
fn annotations_and_type_parameters_are_skipped() {
    let text = "/** Runs. */\n@Override public void run() {\n}\npublic static <T extends Comparable<T>> T max(List<T> xs) {\n@Deprecated\nint old() {";
    let c = parse(text);
    assert_eq!(c.methods.len(), 3);
    assert_eq!(c.methods[0].name, "run");
    assert_eq!(c.methods[0].privacy, "public");
    assert_eq!(c.methods[0].description, "Runs.");
    assert_eq!(c.methods[1].name, "max");
    assert_eq!(c.methods[1].return_type, "T");
    assert_eq!(c.methods[1].parameters[0].var_type, "List<T>");
    assert_eq!(c.methods[2].name, "old");
    assert_eq!(c.methods[2].privacy, "");
}
