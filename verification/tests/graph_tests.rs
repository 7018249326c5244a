use simpledot::attribute::{attribute_parser, Attribute, Shape, Style};
use simpledot::ir::{
    graph_parser, parse_graph, AttributeKind, GraphKind, GraphParseError, Statement,
};

#[test]
fn edge_chain_scenario() {
    let g = parse_graph("digraph { a -> b -> c }").expect("expected successful parse");
    assert!(matches!(g.kind, GraphKind::Directed));
    assert!(!g.strict);
    assert_eq!(g.statements.len(), 1);
    match &g.statements[0] {
        Statement::Edge(e) => {
            assert_eq!(
                e.list,
                vec!["a".to_owned(), "b".to_owned(), "c".to_owned()]
            );
            assert!(e.attributes.is_empty());
        }
        s => panic!("expected an edge statement, got {:?}", s),
    }
}

#[test]
fn attribute_block_scenario() {
    let g = parse_graph("strict graph { node [style=dashed,bold] }")
        .expect("expected successful parse");
    assert!(matches!(g.kind, GraphKind::Undirected));
    assert!(g.strict);
    assert_eq!(g.statements.len(), 1);
    match &g.statements[0] {
        Statement::Attribute(a) => {
            assert!(matches!(a.kind, AttributeKind::Node));
            assert_eq!(
                a.attributes,
                vec![Attribute::Style(vec![Style::Dashed, Style::Bold])]
            );
        }
        s => panic!("expected an attribute statement, got {:?}", s),
    }
}

#[test]
fn unrecognized_attribute_name_fails() {
    assert!(attribute_parser("color=red").is_err());
    match parse_graph("graph { node [color=red] }") {
        Err(GraphParseError::ParseError(_)) => {}
        r => panic!("expected a parse error, got {:?}", r),
    }
}

#[test]
fn trailing_input_scenario() {
    match parse_graph("graph {} garbage") {
        Err(GraphParseError::UnexpectedInput(rest)) => assert_eq!(rest, "garbage"),
        r => panic!("expected unexpected trailing input, got {:?}", r),
    }
}

#[test]
fn parse_is_idempotent() {
    let text = "strict digraph { a -> b [style=bold] c [shape=box] }";
    assert_eq!(parse_graph(text), parse_graph(text));
    let bad = "digraph { node [color=red] }";
    assert_eq!(parse_graph(bad), parse_graph(bad));
}

#[test]
fn empty_graph() {
    let g = parse_graph("graph {}").expect("expected successful parse");
    assert!(matches!(g.kind, GraphKind::Undirected));
    assert!(!g.strict);
    assert!(g.statements.is_empty());
}

#[test]
fn unexpected_eof() {
    match parse_graph("graph {") {
        Err(GraphParseError::UnexpectedEof) => {}
        r => panic!("expected an end-of-input error, got {:?}", r),
    }
}

#[test]
fn missing_kind_keyword_fails() {
    match parse_graph("strict { a }") {
        Err(GraphParseError::ParseError(_)) => {}
        r => panic!("expected a parse error, got {:?}", r),
    }
}

#[test]
fn multiple_attribute_groups_flatten() {
    let g = parse_graph("graph { a [style=bold][shape=box] }").expect("parse");
    match &g.statements[0] {
        Statement::Node(n) => {
            assert_eq!(n.name, "a");
            assert_eq!(
                n.attributes,
                vec![
                    Attribute::Style(vec![Style::Bold]),
                    Attribute::Shape(Shape::Box)
                ]
            );
        }
        s => panic!("expected a node statement, got {:?}", s),
    }
}

#[test]
fn attribute_separators() {
    let g = parse_graph("graph { a [style=bold; shape=circle,] }").expect("parse");
    match &g.statements[0] {
        Statement::Node(n) => {
            assert_eq!(
                n.attributes,
                vec![
                    Attribute::Style(vec![Style::Bold]),
                    Attribute::Shape(Shape::Circle)
                ]
            );
        }
        s => panic!("expected a node statement, got {:?}", s),
    }
}

#[test]
fn styles_preserve_order_and_duplicates() {
    let g = parse_graph("graph { node [style=bold,bold,dashed] }").expect("parse");
    match &g.statements[0] {
        Statement::Attribute(a) => {
            assert_eq!(
                a.attributes,
                vec![Attribute::Style(vec![
                    Style::Bold,
                    Style::Bold,
                    Style::Dashed
                ])]
            );
        }
        s => panic!("expected an attribute statement, got {:?}", s),
    }
}

#[test]
fn numeral_and_quoted_identifiers_in_edges() {
    let g = parse_graph("digraph { 1.5 -> \"x y\" }").expect("parse");
    match &g.statements[0] {
        Statement::Edge(e) => {
            assert_eq!(e.list, vec!["1.5".to_owned(), "x y".to_owned()]);
        }
        s => panic!("expected an edge statement, got {:?}", s),
    }
}

#[test]
fn undirected_edge_operator() {
    let g = parse_graph("graph { a -- b }").expect("parse");
    match &g.statements[0] {
        Statement::Edge(e) => assert_eq!(e.list, vec!["a".to_owned(), "b".to_owned()]),
        s => panic!("expected an edge statement, got {:?}", s),
    }
}

#[test]
fn graph_parser_returns_remainder() {
    let (rest, g) = graph_parser("graph {} tail").expect("parse");
    assert_eq!(rest, "tail");
    assert!(g.statements.is_empty());
}

#[test]
fn quoted_identifier_in_graph() {
    let g = parse_graph("graph { \"a\\\"b\" }").expect("parse");
    match &g.statements[0] {
        Statement::Node(n) => assert_eq!(n.name, "a\"b"),
        s => panic!("expected a node statement, got {:?}", s),
    }
}

#[test]
fn edge_with_attributes() {
    let g = parse_graph("digraph { a -> b [style=dotted] }").expect("parse");
    match &g.statements[0] {
        Statement::Edge(e) => {
            assert_eq!(e.list, vec!["a".to_owned(), "b".to_owned()]);
            assert_eq!(e.attributes, vec![Attribute::Style(vec![Style::Dotted])]);
        }
        s => panic!("expected an edge statement, got {:?}", s),
    }
}

#[test]
fn several_statements_in_parse_order() {
    let g = parse_graph("graph { a b -- c edge [shape=oval] }").expect("parse");
    assert_eq!(g.statements.len(), 3);
    assert!(matches!(&g.statements[0], Statement::Node(n) if n.name == "a"));
    assert!(matches!(&g.statements[1], Statement::Edge(_)));
    match &g.statements[2] {
        Statement::Attribute(a) => {
            assert!(matches!(a.kind, AttributeKind::Edge));
            assert_eq!(a.attributes, vec![Attribute::Shape(Shape::Oval)]);
        }
        s => panic!("expected an attribute statement, got {:?}", s),
    }
}

#[test]
fn strict_digraph_header() {
    let g = parse_graph("strict digraph {}").expect("parse");
    assert!(matches!(g.kind, GraphKind::Directed));
    assert!(g.strict);
}
