use javadoc_md::files::{batch_of, is_java_file, worker_count};
use javadoc_md::parse::parse;
use javadoc_md::render::{markdown_path, render_markdown};

#[test]
fn java_file_names() {
    assert!(is_java_file("Main.java"));
    assert!(is_java_file("a.b.Main.java"));
    assert!(!is_java_file("java"));
    assert!(!is_java_file("x.javascript"));
    assert!(!is_java_file("Main.jav"));
    assert!(is_java_file(".java"));
    assert!(!is_java_file("Main.txt"));
    assert!(!is_java_file("java.txt"));
    assert!(!is_java_file(""));
}

#[test]
fn markdown_of_a_class() {
    let text = "package com.example;\nimport java.util.List;\n/** A calculator. */\npublic class Calc {\n/** Does X.\n * @param x the input\n * @return the output */\npublic int compute(int x)\nvoid reset() {";
    let c = parse(text);
    let md = render_markdown(&c);
    let expected = "# Calc\n\ndescription: A calculator.\nprivacy: public\npackage: com.example\n\n## Dependencies\n\n- java.util.List\n\n## Methods\n\n#### compute\n\nprivacy: public\ndescription: Does X.\nreturn: int\n\n| Name | Type | Description |\n|_____|_____|_____|\n| x | int | the input |\n\n#### reset\n\nprivacy: \ndescription: \nreturn: void\n\nThis method has no parameters.\n\n";
    assert_eq!(md, expected);
}

#[test]
fn markdown_without_description() {
    let c = parse("class Bare {");
    let md = render_markdown(&c);
    assert_eq!(md, "# Bare\n\nprivacy: \npackage: \n\n## Dependencies\n\n\n## Methods\n\n");
}

#[test]
fn markdown_file_path() {
    assert_eq!(markdown_path("./generated", "Calc"), "./generated/Calc.md");
}

#[test]
fn workers_and_batches() {
    assert_eq!(worker_count(0), 0);
    assert_eq!(worker_count(1), 1);
    assert_eq!(worker_count(4), 1);
    assert_eq!(worker_count(5), 2);
    assert_eq!(worker_count(8), 2);
    assert_eq!(batch_of(0, 5), (0, 4));
    assert_eq!(batch_of(1, 5), (4, 5));
    assert_eq!(batch_of(2, 5), (5, 5));
}

#[test]
fn markdown_trims_unicode_whitespace() {
    let c = parse("\u{c}public class Spaced {\n/** Doc. */\n\u{a0}private void f() {");
    assert_eq!(c.access, "public");
    let md = render_markdown(&c);
    assert!(md.contains("privacy: public\n"));
    assert!(md.contains("#### f\n\nprivacy: private\n"));
}
