//! The intermediate representation and the statement and graph grammars.
//!
//! A statement is resolved by ordered choice among four shapes. The edge rule
//! is tried first, because every edge chain's prefix is a valid node
//! statement; the keyword-led attribute-block rule is tried before the node
//! rule, so that `node [...]` forms a default-attribute statement rather than
//! a node that happens to be called `node`; and the node rule is tried before
//! the bare `=` definition rule. This ordering decides which construct
//! consumes a shared prefix and is a first-class invariant of the grammar.

use vstd::prelude::*;

use crate::attribute::{attribute_at, spec_attribute, Attribute, AttributeView};
use crate::error::{fail1, ErrorKind, Parsed, ParseFailure};
use crate::ident::{ident_at, spec_ident};
use crate::text::{chars_of, match_tag, string_of, tag_matches};
use crate::ws::{skip_space, spec_skip_space};

pub use crate::ident::{
    ident_parser, num_ident_parser, quote_string_ident_parser, string_ident_parser,
};

verus! {

pub type Ident = String;

#[derive(Debug, Clone, Copy, PartialEq, Eq)]
pub enum GraphKind {
    Directed,
    Undirected,
}

/// The root of the intermediate representation: the graph kind, the `strict`
/// modifier, and the statements in parse order.
#[derive(Debug, Clone, PartialEq)]
pub struct Graph {
    pub kind: GraphKind,
    pub strict: bool,
    pub statements: Vec<Statement>,
}

#[derive(Debug, Clone, PartialEq)]
pub enum Statement {
    Attribute(AttributeStatement),
    Node(NodeStatement),
    Edge(EdgeStatement),
    Definition(DefinitionStatement),
}

#[derive(Debug, Clone, Copy, PartialEq, Eq)]
pub enum AttributeKind {
    Graph,
    Node,
    Edge,
}

/// A default-attribute declaration scoped to graph, node or edge elements.
#[derive(Debug, Clone, PartialEq)]
pub struct AttributeStatement {
    pub kind: AttributeKind,
    pub attributes: Vec<Attribute>,
}

/// A node declaration with its attribute list.
#[derive(Debug, Clone, PartialEq)]
pub struct NodeStatement {
    pub name: Ident,
    pub attributes: Vec<Attribute>,
}

/// An edge chain: at least two identifiers linked pairwise by edge
/// operators, with one attribute list for the whole chain.
#[derive(Debug, Clone, PartialEq)]
pub struct EdgeStatement {
    pub list: Vec<Ident>,
    pub attributes: Vec<Attribute>,
}

#[derive(Debug, Clone, PartialEq)]
pub enum EdgeTarget {
    Node(Ident),
}

/// A graph-level `key = value` assignment.
#[derive(Debug, Clone, PartialEq)]
pub struct DefinitionStatement {
    pub lhs: Ident,
    pub rhs: Ident,
}

pub ghost struct GraphView {
    pub kind: GraphKind,
    pub strict: bool,
    pub statements: Seq<StatementView>,
}

pub ghost enum StatementView {
    Attribute(AttributeStatementView),
    Node(NodeStatementView),
    Edge(EdgeStatementView),
    Definition(DefinitionStatementView),
}

pub ghost struct AttributeStatementView {
    pub kind: AttributeKind,
    pub attributes: Seq<AttributeView>,
}

pub ghost struct NodeStatementView {
    pub name: Seq<char>,
    pub attributes: Seq<AttributeView>,
}

pub ghost struct EdgeStatementView {
    pub list: Seq<Seq<char>>,
    pub attributes: Seq<AttributeView>,
}

pub ghost struct DefinitionStatementView {
    pub lhs: Seq<char>,
    pub rhs: Seq<char>,
}

impl View for AttributeStatement {
    type V = AttributeStatementView;

    open spec fn view(&self) -> AttributeStatementView {
        AttributeStatementView { kind: self.kind, attributes: self.attributes.deep_view() }
    }
}

impl View for NodeStatement {
    type V = NodeStatementView;

    open spec fn view(&self) -> NodeStatementView {
        NodeStatementView { name: self.name@, attributes: self.attributes.deep_view() }
    }
}

impl View for EdgeStatement {
    type V = EdgeStatementView;

    open spec fn view(&self) -> EdgeStatementView {
        EdgeStatementView { list: self.list.deep_view(), attributes: self.attributes.deep_view() }
    }
}

impl View for DefinitionStatement {
    type V = DefinitionStatementView;

    open spec fn view(&self) -> DefinitionStatementView {
        DefinitionStatementView { lhs: self.lhs@, rhs: self.rhs@ }
    }
}

impl View for Statement {
    type V = StatementView;

    open spec fn view(&self) -> StatementView {
        match self {
            Statement::Attribute(s) => StatementView::Attribute(s@),
            Statement::Node(s) => StatementView::Node(s@),
            Statement::Edge(s) => StatementView::Edge(s@),
            Statement::Definition(s) => StatementView::Definition(s@),
        }
    }
}

impl DeepView for Statement {
    type V = StatementView;

    open spec fn deep_view(&self) -> StatementView {
        self@
    }
}

impl View for Graph {
    type V = GraphView;

    open spec fn view(&self) -> GraphView {
        GraphView { kind: self.kind, strict: self.strict, statements: self.statements.deep_view() }
    }
}

/// The lengths of the statement and graph grammars' literal tokens.
pub proof fn ir_keyword_facts()
    ensures
        "strict"@.len() == 6,
        "graph"@.len() == 5,
        "digraph"@.len() == 7,
        "node"@.len() == 4,
        "edge"@.len() == 4,
        "--"@.len() == 2,
        "->"@.len() == 2,
{
    reveal_strlit("strict");
    reveal_strlit("graph");
    reveal_strlit("digraph");
    reveal_strlit("node");
    reveal_strlit("edge");
    reveal_strlit("--");
    reveal_strlit("->");
}

/// An identifier with insignificant whitespace skipped before and after it.
pub open spec fn spec_ws_ident(s: Seq<char>, pos: int) -> Parsed<Seq<char>> {
    let p = spec_skip_space(s, pos);
    match spec_ident(s, p) {
        Parsed::Found { end, val } => Parsed::Found { end: spec_skip_space(s, end), val },
        Parsed::Missing { at } => Parsed::Missing { at },
    }
}

/// An edge operator, `--` or `->`, with whitespace around it. The operator
/// is directionless at the grammar level: both forms are accepted whatever
/// the declared graph kind.
pub open spec fn spec_edge_op(s: Seq<char>, pos: int) -> Parsed<()> {
    let p = spec_skip_space(s, pos);
    if tag_matches(s, p, "--"@) || tag_matches(s, p, "->"@) {
        Parsed::Found { end: spec_skip_space(s, p + "--"@.len()), val: () }
    } else {
        Parsed::Missing { at: p }
    }
}

/// The operator-and-identifier pairs of an edge chain after its first
/// identifier; the repetition stops, without failing, at the first position
/// where no further pair matches.
pub open spec fn spec_edge_tail(s: Seq<char>, pos: int) -> (int, Seq<Seq<char>>)
    decreases s.len() - pos,
{
    match spec_edge_op(s, pos) {
        Parsed::Found { end: p1, val } => match spec_ws_ident(s, p1) {
            Parsed::Found { end: p2, val: id } => {
                if pos < p2 <= s.len() {
                    let (e, rest) = spec_edge_tail(s, p2);
                    (e, seq![id] + rest)
                } else {
                    (pos, Seq::empty())
                }
            },
            Parsed::Missing { .. } => (pos, Seq::empty()),
        },
        Parsed::Missing { .. } => (pos, Seq::empty()),
    }
}

/// The attributes of one bracket group after its first attribute.
pub open spec fn spec_a_list_tail(s: Seq<char>, pos: int) -> (int, Seq<AttributeView>)
    decreases s.len() - pos,
{
    match spec_attribute(s, pos) {
        Parsed::Found { end, val } => {
            if pos < end <= s.len() {
                let (e, rest) = spec_a_list_tail(s, end);
                (e, seq![val] + rest)
            } else {
                (pos, Seq::empty())
            }
        },
        Parsed::Missing { .. } => (pos, Seq::empty()),
    }
}

/// One or more attributes in a row.
pub open spec fn spec_a_list(s: Seq<char>, pos: int) -> Parsed<Seq<AttributeView>> {
    match spec_attribute(s, pos) {
        Parsed::Missing { at } => Parsed::Missing { at },
        Parsed::Found { end, val } => {
            let (e, rest) = spec_a_list_tail(s, end);
            Parsed::Found { end: e, val: seq![val] + rest }
        },
    }
}

/// One bracket-delimited attribute group, whitespace permitted around the
/// brackets and the attributes.
pub open spec fn spec_attr_group(s: Seq<char>, pos: int) -> Parsed<Seq<AttributeView>> {
    let p = spec_skip_space(s, pos);
    if 0 <= p && p < s.len() && s[p] == '[' {
        let p1 = spec_skip_space(s, p + 1);
        match spec_a_list(s, p1) {
            Parsed::Missing { at } => Parsed::Missing { at },
            Parsed::Found { end, val } => {
                let p2 = spec_skip_space(s, end);
                if p2 < s.len() && s[p2] == ']' {
                    Parsed::Found { end: spec_skip_space(s, p2 + 1), val }
                } else {
                    Parsed::Missing { at: p2 }
                }
            },
        }
    } else {
        Parsed::Missing { at: p }
    }
}

/// The bracket groups of an attribute list after the first one; their
/// attributes are flattened onto the ones already read.
pub open spec fn spec_attr_group_tail(s: Seq<char>, pos: int) -> (int, Seq<AttributeView>)
    decreases s.len() - pos,
{
    match spec_attr_group(s, pos) {
        Parsed::Found { end, val } => {
            if pos < end <= s.len() {
                let (e, rest) = spec_attr_group_tail(s, end);
                (e, val + rest)
            } else {
                (pos, Seq::empty())
            }
        },
        Parsed::Missing { .. } => (pos, Seq::empty()),
    }
}

/// The attribute-list rule: one or more bracket groups, flattened into one
/// ordered sequence.
pub open spec fn spec_attr_list(s: Seq<char>, pos: int) -> Parsed<Seq<AttributeView>> {
    match spec_attr_group(s, pos) {
        Parsed::Missing { at } => Parsed::Missing { at },
        Parsed::Found { end, val } => {
            let (e, rest) = spec_attr_group_tail(s, end);
            Parsed::Found { end: e, val: val + rest }
        },
    }
}

/// An optional attribute list: its absence is valid and yields no
/// attributes.
pub open spec fn spec_opt_attr_list(s: Seq<char>, pos: int) -> (int, Seq<AttributeView>) {
    match spec_attr_list(s, pos) {
        Parsed::Found { end, val } => (end, val),
        Parsed::Missing { .. } => (pos, Seq::empty()),
    }
}

/// The edge-statement rule: an identifier, one or more operator-and-
/// identifier pairs, and an optional attribute list.
pub open spec fn spec_edge_statement(s: Seq<char>, pos: int) -> Parsed<EdgeStatementView> {
    match spec_ws_ident(s, pos) {
        Parsed::Missing { at } => Parsed::Missing { at },
        Parsed::Found { end: p1, val: first } => match spec_edge_op(s, p1) {
            Parsed::Missing { at } => Parsed::Missing { at },
            Parsed::Found { end: p2, val } => match spec_ws_ident(s, p2) {
                Parsed::Missing { at } => Parsed::Missing { at },
                Parsed::Found { end: p3, val: second } => {
                    let (p4, more) = spec_edge_tail(s, p3);
                    let (p5, attrs) = spec_opt_attr_list(s, p4);
                    Parsed::Found {
                        end: p5,
                        val: EdgeStatementView {
                            list: seq![first, second] + more,
                            attributes: attrs,
                        },
                    }
                },
            },
        },
    }
}

/// The node-statement rule: an identifier and an optional attribute list.
pub open spec fn spec_node_statement(s: Seq<char>, pos: int) -> Parsed<NodeStatementView> {
    match spec_ws_ident(s, pos) {
        Parsed::Missing { at } => Parsed::Missing { at },
        Parsed::Found { end, val } => {
            let (e, attrs) = spec_opt_attr_list(s, end);
            Parsed::Found { end: e, val: NodeStatementView { name: val, attributes: attrs } }
        },
    }
}

/// The definition-statement rule: identifier, `=`, identifier.
pub open spec fn spec_definition_statement(s: Seq<char>, pos: int) -> Parsed<
    DefinitionStatementView,
> {
    match spec_ws_ident(s, pos) {
        Parsed::Missing { at } => Parsed::Missing { at },
        Parsed::Found { end: p1, val: lhs } => {
            if 0 <= p1 && p1 < s.len() && s[p1] == '=' {
                match spec_ws_ident(s, p1 + 1) {
                    Parsed::Missing { at } => Parsed::Missing { at },
                    Parsed::Found { end: p2, val: rhs } => Parsed::Found {
                        end: p2,
                        val: DefinitionStatementView { lhs, rhs },
                    },
                }
            } else {
                Parsed::Missing { at: p1 }
            }
        },
    }
}

/// The attribute-block rule: one of the keywords `graph`, `node`, `edge`
/// followed by a mandatory attribute list.
pub open spec fn spec_attribute_statement(s: Seq<char>, pos: int) -> Parsed<
    AttributeStatementView,
> {
    let p = spec_skip_space(s, pos);
    if tag_matches(s, p, "graph"@) {
        spec_attr_block_rest(s, spec_skip_space(s, p + "graph"@.len()), AttributeKind::Graph)
    } else if tag_matches(s, p, "node"@) {
        spec_attr_block_rest(s, spec_skip_space(s, p + "node"@.len()), AttributeKind::Node)
    } else if tag_matches(s, p, "edge"@) {
        spec_attr_block_rest(s, spec_skip_space(s, p + "edge"@.len()), AttributeKind::Edge)
    } else {
        Parsed::Missing { at: p }
    }
}

/// The mandatory attribute list of an attribute-block statement.
pub open spec fn spec_attr_block_rest(s: Seq<char>, pos: int, kind: AttributeKind) -> Parsed<
    AttributeStatementView,
> {
    match spec_attr_list(s, pos) {
        Parsed::Missing { at } => Parsed::Missing { at },
        Parsed::Found { end, val } => Parsed::Found {
            end,
            val: AttributeStatementView { kind, attributes: val },
        },
    }
}

/// The statement rule: ordered choice, with trailing whitespace consumed.
/// The edge rule is tried first, then the keyword-led attribute-block rule,
/// then the node rule, then the definition rule.
pub open spec fn spec_statement(s: Seq<char>, pos: int) -> Parsed<StatementView> {
    let p = spec_skip_space(s, pos);
    match spec_edge_statement(s, p) {
        Parsed::Found { end, val } => Parsed::Found {
            end: spec_skip_space(s, end),
            val: StatementView::Edge(val),
        },
        Parsed::Missing { .. } => match spec_attribute_statement(s, p) {
            Parsed::Found { end, val } => Parsed::Found {
                end: spec_skip_space(s, end),
                val: StatementView::Attribute(val),
            },
            Parsed::Missing { .. } => match spec_node_statement(s, p) {
                Parsed::Found { end, val } => Parsed::Found {
                    end: spec_skip_space(s, end),
                    val: StatementView::Node(val),
                },
                Parsed::Missing { .. } => match spec_definition_statement(s, p) {
                    Parsed::Found { end, val } => Parsed::Found {
                        end: spec_skip_space(s, end),
                        val: StatementView::Definition(val),
                    },
                    Parsed::Missing { at } => Parsed::Missing { at },
                },
            },
        },
    }
}

/// Zero or more statements in a row; the repetition stops, without failing,
/// at the first position where no statement matches.
pub open spec fn spec_statement_seq(s: Seq<char>, pos: int) -> (int, Seq<StatementView>)
    decreases s.len() - pos,
{
    match spec_statement(s, pos) {
        Parsed::Found { end, val } => {
            if pos < end <= s.len() {
                let (e, rest) = spec_statement_seq(s, end);
                (e, seq![val] + rest)
            } else {
                (pos, Seq::empty())
            }
        },
        Parsed::Missing { .. } => (pos, Seq::empty()),
    }
}

/// The graph rule: the optional `strict` keyword, the mandatory kind keyword
/// (`graph` for undirected, `digraph` for directed), and the brace-delimited
/// statement sequence.
pub open spec fn spec_graph_rule(s: Seq<char>, pos: int) -> Parsed<GraphView> {
    let p0 = spec_skip_space(s, pos);
    let strict = tag_matches(s, p0, "strict"@);
    let p1 = if strict {
        p0 + "strict"@.len()
    } else {
        p0
    };
    let p2 = spec_skip_space(s, p1);
    if tag_matches(s, p2, "graph"@) || tag_matches(s, p2, "digraph"@) {
        let kind = if tag_matches(s, p2, "graph"@) {
            GraphKind::Undirected
        } else {
            GraphKind::Directed
        };
        let klen = if tag_matches(s, p2, "graph"@) {
            "graph"@.len() as int
        } else {
            "digraph"@.len() as int
        };
        let p3 = spec_skip_space(s, p2 + klen);
        let p4 = spec_skip_space(s, p3);
        if 0 <= p4 && p4 < s.len() && s[p4] == '{' {
            let p5 = spec_skip_space(s, p4 + 1);
            let (p6, stmts) = spec_statement_seq(s, p5);
            let p7 = spec_skip_space(s, p6);
            if p7 < s.len() && s[p7] == '}' {
                Parsed::Found {
                    end: spec_skip_space(s, p7 + 1),
                    val: GraphView { kind, strict, statements: stmts },
                }
            } else {
                Parsed::Missing { at: p7 }
            }
        } else {
            Parsed::Missing { at: p4 }
        }
    } else {
        Parsed::Missing { at: p2 }
    }
}

/// The classified outcome of running the graph rule against a whole input.
pub ghost enum OutcomeView {
    Accepted(GraphView),
    Trailing(Seq<char>),
    Exhausted,
    Rejected { at: int },
}

/// The outcome of the parse entry point on a whole input: the graph value on
/// full success; the unconsumed remainder when the graph rule matched but
/// non-whitespace text followed; exhaustion when the decisive failure lies
/// at the end of the input; a located rejection otherwise.
pub open spec fn spec_parse_outcome(s: Seq<char>) -> OutcomeView {
    match spec_graph_rule(s, 0) {
        Parsed::Found { end, val } => {
            if spec_skip_space(s, end) < s.len() {
                OutcomeView::Trailing(s.subrange(end, s.len() as int))
            } else {
                OutcomeView::Accepted(val)
            }
        },
        Parsed::Missing { at } => {
            if at == s.len() {
                OutcomeView::Exhausted
            } else {
                OutcomeView::Rejected { at }
            }
        },
    }
}

/// The three-kind error taxonomy of the parse entry point.
#[derive(Debug, Clone, PartialEq)]
pub enum GraphParseError {
    UnexpectedEof,
    UnexpectedInput(String),
    ParseError(ParseFailure),
}

/// The outcome that a result of the parse entry point stands for.
pub open spec fn outcome_of(r: Result<Graph, GraphParseError>) -> OutcomeView {
    match r {
        Ok(g) => OutcomeView::Accepted(g@),
        Err(GraphParseError::UnexpectedEof) => OutcomeView::Exhausted,
        Err(GraphParseError::UnexpectedInput(rem)) => OutcomeView::Trailing(rem@),
        Err(GraphParseError::ParseError(f)) => OutcomeView::Rejected { at: f.at as int },
    }
}

/// Law: the parse outcome is a function of the input text alone. Two results
/// obtained for the same input — in particular, from running the entry point
/// twice — stand for the same outcome, so their graphs (or errors) are
/// structurally identical.
pub proof fn lemma_parse_outcome_deterministic(s: Seq<char>, o1: OutcomeView, o2: OutcomeView)
    requires
        o1 == spec_parse_outcome(s),
        o2 == spec_parse_outcome(s),
    ensures
        o1 == o2,
{
}

/// An edge statement links at least two identifiers; the other statement
/// shapes carry no such obligation.
pub open spec fn statement_edge_wf(st: StatementView) -> bool {
    st matches StatementView::Edge(e) ==> e.list.len() >= 2
}

/// A matched edge statement's chain holds at least two identifiers.
#[verifier::rlimit(50)]
proof fn lemma_edge_statement_wf(s: Seq<char>, pos: int)
    ensures
        spec_edge_statement(s, pos) matches Parsed::Found { val, .. } ==> val.list.len() >= 2,
{
    if let Parsed::Found { end: p1, val: first } = spec_ws_ident(s, pos) {
        if let Parsed::Found { end: p2, val: op } = spec_edge_op(s, p1) {
            if let Parsed::Found { end: p3, val: second } = spec_ws_ident(s, p2) {
                let (p4, more) = spec_edge_tail(s, p3);
                assert((seq![first, second] + more).len() >= 2);
            }
        }
    }
}

/// A successfully matched statement satisfies the edge-chain invariant: the
/// edge rule only builds a chain out of at least one edge operator, so the
/// chain holds at least two identifiers.
proof fn lemma_statement_edge_wf(s: Seq<char>, pos: int)
    ensures
        spec_statement(s, pos) matches Parsed::Found { val, .. } ==> statement_edge_wf(val),
{
    lemma_edge_statement_wf(s, spec_skip_space(s, pos));
}

/// All statements of a statement sequence satisfy the edge-chain invariant.
#[verifier::rlimit(50)]
proof fn lemma_statement_seq_edge_wf(s: Seq<char>, pos: int)
    ensures
        forall|i: int|
            0 <= i < spec_statement_seq(s, pos).1.len() ==> statement_edge_wf(
                #[trigger] spec_statement_seq(s, pos).1[i],
            ),
    decreases s.len() - pos,
{
    match spec_statement(s, pos) {
        Parsed::Found { end, val } => {
            if pos < end <= s.len() {
                lemma_statement_edge_wf(s, pos);
                lemma_statement_seq_edge_wf(s, end);
                let sq = spec_statement_seq(s, pos).1;
                let rest = spec_statement_seq(s, end).1;
                assert(sq == seq![val] + rest);
                assert forall|i: int| 0 <= i < sq.len() implies statement_edge_wf(sq[i]) by {
                    if i == 0 {
                        assert(sq[i] == val);
                    } else {
                        assert(sq[i] == rest[i - 1]);
                    }
                }
            }
        },
        Parsed::Missing { .. } => {},
    }
}

/// Law: in every graph the grammar produces, each edge statement's chain has
/// at least two elements — one identifier alone never forms an edge.
pub proof fn lemma_edge_chain_at_least_two(s: Seq<char>, pos: int)
    ensures
        spec_graph_rule(s, pos) matches Parsed::Found { val, .. } ==> forall|i: int|
            0 <= i < val.statements.len() ==> statement_edge_wf(#[trigger] val.statements[i]),
{
    if spec_graph_rule(s, pos) is Found {
        let p0 = spec_skip_space(s, pos);
        let strict = tag_matches(s, p0, "strict"@);
        let p1 = if strict {
            p0 + "strict"@.len()
        } else {
            p0
        };
        let p2 = spec_skip_space(s, p1);
        let klen = if tag_matches(s, p2, "graph"@) {
            "graph"@.len() as int
        } else {
            "digraph"@.len() as int
        };
        let p3 = spec_skip_space(s, p2 + klen);
        let p4 = spec_skip_space(s, p3);
        let p5 = spec_skip_space(s, p4 + 1);
        lemma_statement_seq_edge_wf(s, p5);
    }
}

/// Read an identifier with whitespace skipped around it.
pub(crate) fn ws_ident_at(s: &Vec<char>, pos: usize) -> (r: Result<(usize, String), ParseFailure>)
    requires
        pos <= s@.len(),
    ensures
        match r {
            Ok((end, v)) => (spec_ws_ident(s@, pos as int) == Parsed::Found {
                end: end as int,
                val: v@,
            }) && pos < end <= s@.len(),
            Err(f) => (spec_ws_ident(s@, pos as int) == Parsed::<Seq<char>>::Missing {
                at: f.at as int,
            }) && f.wf(s@.len() as int),
        },
{
    let p = skip_space(s, pos);
    match ident_at(s, p) {
        Ok((e, v)) => Ok((skip_space(s, e), v)),
        Err(f) => Err(f),
    }
}

/// Read an edge operator with whitespace skipped around it.
pub(crate) fn edge_op_at(s: &Vec<char>, pos: usize) -> (r: Result<usize, ParseFailure>)
    requires
        pos <= s@.len(),
    ensures
        match r {
            Ok(end) => (spec_edge_op(s@, pos as int) == Parsed::Found {
                end: end as int,
                val: (),
            }) && pos < end <= s@.len(),
            Err(f) => (spec_edge_op(s@, pos as int) == Parsed::<()>::Missing { at: f.at as int })
                && f.wf(s@.len() as int),
        },
{
    proof {
        ir_keyword_facts();
    }
    let _sl: usize = s.len();
    let p = skip_space(s, pos);
    if match_tag(s, p, "--") || match_tag(s, p, "->") {
        Ok(skip_space(s, p + 2))
    } else {
        Err(fail1(p, ErrorKind::EdgeOp))
    }
}

/// Read the operator-and-identifier pairs that continue an edge chain.
pub(crate) fn edge_tail_at(s: &Vec<char>, pos: usize) -> (r: (usize, Vec<Ident>))
    requires
        pos <= s@.len(),
    ensures
        spec_edge_tail(s@, pos as int).0 == r.0 as int,
        spec_edge_tail(s@, pos as int).1 == r.1.deep_view(),
        pos <= r.0 <= s@.len(),
{
    let mut acc: Vec<Ident> = Vec::new();
    let mut i = pos;
    proof {
        assert(acc.deep_view() =~= Seq::<Seq<char>>::empty());
    }
    loop
        invariant
            pos <= i <= s@.len(),
            spec_edge_tail(s@, pos as int).0 == spec_edge_tail(s@, i as int).0,
            spec_edge_tail(s@, pos as int).1 == acc.deep_view() + spec_edge_tail(s@, i as int).1,
        decreases s@.len() - i,
    {
        match edge_op_at(s, i) {
            Err(f) => {
                proof {
                    assert(acc.deep_view() + spec_edge_tail(s@, i as int).1 =~= acc.deep_view());
                }
                return (i, acc);
            },
            Ok(q) => {
                match ws_ident_at(s, q) {
                    Err(f) => {
                        proof {
                            assert(acc.deep_view() + spec_edge_tail(s@, i as int).1
                                =~= acc.deep_view());
                        }
                        return (i, acc);
                    },
                    Ok((q2, id)) => {
                        let ghost prev = acc.deep_view();
                        let ghost idv = id@;
                        acc.push(id);
                        proof {
                            assert(acc.deep_view() =~= prev.push(idv));
                            let (e, rest) = spec_edge_tail(s@, q2 as int);
                            assert(prev + (seq![idv] + rest) =~= prev.push(idv) + rest);
                        }
                        i = q2;
                    },
                }
            },
        }
    }
}

/// Read the attributes of one bracket group: one or more in a row.
pub(crate) fn a_list_at(s: &Vec<char>, pos: usize) -> (r: Result<
    (usize, Vec<Attribute>),
    ParseFailure,
>)
    requires
        pos <= s@.len(),
    ensures
        match r {
            Ok((end, v)) => (spec_a_list(s@, pos as int) == Parsed::Found {
                end: end as int,
                val: v.deep_view(),
            }) && pos < end <= s@.len(),
            Err(f) => (spec_a_list(s@, pos as int) == Parsed::<Seq<AttributeView>>::Missing {
                at: f.at as int,
            }) && f.wf(s@.len() as int),
        },
{
    match attribute_at(s, pos) {
        Err(f) => Err(f),
        Ok((p0, first)) => {
            let mut acc: Vec<Attribute> = Vec::new();
            let ghost firstv = first@;
            acc.push(first);
            let mut i = p0;
            proof {
                assert(acc.deep_view() =~= seq![firstv]);
            }
            loop
                invariant
                    pos < i <= s@.len(),
                    spec_a_list(s@, pos as int) == (Parsed::Found {
                        end: spec_a_list_tail(s@, i as int).0,
                        val: acc.deep_view() + spec_a_list_tail(s@, i as int).1,
                    }),
                decreases s@.len() - i,
            {
                match attribute_at(s, i) {
                    Ok((e2, a2)) => {
                        let ghost prev = acc.deep_view();
                        let ghost av = a2@;
                        acc.push(a2);
                        proof {
                            assert(acc.deep_view() =~= prev.push(av));
                            let (e3, rest) = spec_a_list_tail(s@, e2 as int);
                            assert(prev + (seq![av] + rest) =~= prev.push(av) + rest);
                        }
                        i = e2;
                    },
                    Err(f) => {
                        proof {
                            assert(acc.deep_view() + spec_a_list_tail(s@, i as int).1
                                =~= acc.deep_view());
                        }
                        return Ok((i, acc));
                    },
                }
            }
        },
    }
}

/// Read one bracket-delimited attribute group.
pub(crate) fn attr_group_at(s: &Vec<char>, pos: usize) -> (r: Result<
    (usize, Vec<Attribute>),
    ParseFailure,
>)
    requires
        pos <= s@.len(),
    ensures
        match r {
            Ok((end, v)) => (spec_attr_group(s@, pos as int) == Parsed::Found {
                end: end as int,
                val: v.deep_view(),
            }) && pos < end <= s@.len(),
            Err(f) => (spec_attr_group(s@, pos as int) == Parsed::<Seq<AttributeView>>::Missing {
                at: f.at as int,
            }) && f.wf(s@.len() as int),
        },
{
    let p = skip_space(s, pos);
    if p < s.len() && s[p] == '[' {
        let p1 = skip_space(s, p + 1);
        match a_list_at(s, p1) {
            Err(f) => Err(f),
            Ok((e, v)) => {
                let p2 = skip_space(s, e);
                if p2 < s.len() && s[p2] == ']' {
                    Ok((skip_space(s, p2 + 1), v))
                } else {
                    Err(fail1(p2, ErrorKind::Char).note(pos, ErrorKind::AttributeList))
                }
            },
        }
    } else {
        Err(fail1(p, ErrorKind::Char).note(pos, ErrorKind::AttributeList))
    }
}

/// Read an attribute list: one or more bracket groups, flattened.
pub(crate) fn attr_list_at(s: &Vec<char>, pos: usize) -> (r: Result<
    (usize, Vec<Attribute>),
    ParseFailure,
>)
    requires
        pos <= s@.len(),
    ensures
        match r {
            Ok((end, v)) => (spec_attr_list(s@, pos as int) == Parsed::Found {
                end: end as int,
                val: v.deep_view(),
            }) && pos < end <= s@.len(),
            Err(f) => (spec_attr_list(s@, pos as int) == Parsed::<Seq<AttributeView>>::Missing {
                at: f.at as int,
            }) && f.wf(s@.len() as int),
        },
{
    match attr_group_at(s, pos) {
        Err(f) => Err(f),
        Ok((p0, first)) => {
            let mut acc = first;
            let mut i = p0;
            loop
                invariant
                    pos < i <= s@.len(),
                    spec_attr_list(s@, pos as int) == (Parsed::Found {
                        end: spec_attr_group_tail(s@, i as int).0,
                        val: acc.deep_view() + spec_attr_group_tail(s@, i as int).1,
                    }),
                decreases s@.len() - i,
            {
                match attr_group_at(s, i) {
                    Ok((e2, v2)) => {
                        let ghost prev = acc.deep_view();
                        let ghost vv = v2.deep_view();
                        let mut m = v2;
                        acc.append(&mut m);
                        proof {
                            assert(acc.deep_view() =~= prev + vv);
                            let (e3, rest) = spec_attr_group_tail(s@, e2 as int);
                            assert(prev + (vv + rest) =~= (prev + vv) + rest);
                        }
                        i = e2;
                    },
                    Err(f) => {
                        proof {
                            assert(acc.deep_view() + spec_attr_group_tail(s@, i as int).1
                                =~= acc.deep_view());
                        }
                        return Ok((i, acc));
                    },
                }
            }
        },
    }
}

/// Read an optional attribute list; its absence yields no attributes.
pub(crate) fn opt_attr_list_at(s: &Vec<char>, pos: usize) -> (r: (usize, Vec<Attribute>))
    requires
        pos <= s@.len(),
    ensures
        spec_opt_attr_list(s@, pos as int).0 == r.0 as int,
        spec_opt_attr_list(s@, pos as int).1 == r.1.deep_view(),
        pos <= r.0 <= s@.len(),
{
    match attr_list_at(s, pos) {
        Ok((e, v)) => (e, v),
        Err(f) => {
            let empty: Vec<Attribute> = Vec::new();
            proof {
                assert(empty.deep_view() =~= Seq::<AttributeView>::empty());
            }
            (pos, empty)
        },
    }
}

/// Read an edge statement.
pub(crate) fn edge_statement_at(s: &Vec<char>, pos: usize) -> (r: Result<
    (usize, EdgeStatement),
    ParseFailure,
>)
    requires
        pos <= s@.len(),
    ensures
        match r {
            Ok((end, st)) => (spec_edge_statement(s@, pos as int) == Parsed::Found {
                end: end as int,
                val: st@,
            }) && pos < end <= s@.len(),
            Err(f) => (spec_edge_statement(s@, pos as int)
                == Parsed::<EdgeStatementView>::Missing { at: f.at as int }) && f.wf(
                s@.len() as int,
            ),
        },
{
    match ws_ident_at(s, pos) {
        Err(f) => Err(f),
        Ok((p1, first)) => match edge_op_at(s, p1) {
            Err(f) => Err(f),
            Ok(p2) => match ws_ident_at(s, p2) {
                Err(f) => Err(f),
                Ok((p3, second)) => {
                    let ghost firstv = first@;
                    let ghost secondv = second@;
                    let (p4, more) = edge_tail_at(s, p3);
                    let ghost morev = more.deep_view();
                    let (p5, attrs) = opt_attr_list_at(s, p4);
                    let mut list: Vec<Ident> = Vec::new();
                    list.push(first);
                    list.push(second);
                    let mut m = more;
                    list.append(&mut m);
                    proof {
                        assert(list.deep_view() =~= seq![firstv, secondv] + morev);
                    }
                    Ok((p5, EdgeStatement { list, attributes: attrs }))
                },
            },
        },
    }
}

/// Read a node statement.
pub(crate) fn node_statement_at(s: &Vec<char>, pos: usize) -> (r: Result<
    (usize, NodeStatement),
    ParseFailure,
>)
    requires
        pos <= s@.len(),
    ensures
        match r {
            Ok((end, st)) => (spec_node_statement(s@, pos as int) == Parsed::Found {
                end: end as int,
                val: st@,
            }) && pos < end <= s@.len(),
            Err(f) => (spec_node_statement(s@, pos as int)
                == Parsed::<NodeStatementView>::Missing { at: f.at as int }) && f.wf(
                s@.len() as int,
            ),
        },
{
    match ws_ident_at(s, pos) {
        Err(f) => Err(f),
        Ok((p1, name)) => {
            let (p2, attrs) = opt_attr_list_at(s, p1);
            Ok((p2, NodeStatement { name, attributes: attrs }))
        },
    }
}

/// Read a definition statement.
pub(crate) fn definition_statement_at(s: &Vec<char>, pos: usize) -> (r: Result<
    (usize, DefinitionStatement),
    ParseFailure,
>)
    requires
        pos <= s@.len(),
    ensures
        match r {
            Ok((end, st)) => (spec_definition_statement(s@, pos as int) == Parsed::Found {
                end: end as int,
                val: st@,
            }) && pos < end <= s@.len(),
            Err(f) => (spec_definition_statement(s@, pos as int)
                == Parsed::<DefinitionStatementView>::Missing { at: f.at as int }) && f.wf(
                s@.len() as int,
            ),
        },
{
    match ws_ident_at(s, pos) {
        Err(f) => Err(f),
        Ok((p1, lhs)) => {
            if p1 < s.len() && s[p1] == '=' {
                match ws_ident_at(s, p1 + 1) {
                    Err(f) => Err(f),
                    Ok((p2, rhs)) => Ok((p2, DefinitionStatement { lhs, rhs })),
                }
            } else {
                Err(fail1(p1, ErrorKind::Char).note(pos, ErrorKind::Statement))
            }
        },
    }
}

/// Read an attribute-block statement.
pub(crate) fn attribute_statement_at(s: &Vec<char>, pos: usize) -> (r: Result<
    (usize, AttributeStatement),
    ParseFailure,
>)
    requires
        pos <= s@.len(),
    ensures
        match r {
            Ok((end, st)) => (spec_attribute_statement(s@, pos as int) == Parsed::Found {
                end: end as int,
                val: st@,
            }) && pos < end <= s@.len(),
            Err(f) => (spec_attribute_statement(s@, pos as int)
                == Parsed::<AttributeStatementView>::Missing { at: f.at as int }) && f.wf(
                s@.len() as int,
            ),
        },
{
    proof {
        ir_keyword_facts();
    }
    let _sl: usize = s.len();
    let p = skip_space(s, pos);
    if match_tag(s, p, "graph") {
        let q = skip_space(s, p + 5);
        match attr_list_at(s, q) {
            Err(f) => Err(f),
            Ok((end, v)) => Ok((
                end,
                AttributeStatement { kind: AttributeKind::Graph, attributes: v },
            )),
        }
    } else if match_tag(s, p, "node") {
        let q = skip_space(s, p + 4);
        match attr_list_at(s, q) {
            Err(f) => Err(f),
            Ok((end, v)) => Ok((end, AttributeStatement { kind: AttributeKind::Node, attributes: v })),
        }
    } else if match_tag(s, p, "edge") {
        let q = skip_space(s, p + 4);
        match attr_list_at(s, q) {
            Err(f) => Err(f),
            Ok((end, v)) => Ok((end, AttributeStatement { kind: AttributeKind::Edge, attributes: v })),
        }
    } else {
        Err(fail1(p, ErrorKind::Tag).note(pos, ErrorKind::Statement))
    }
}

/// Read one statement: ordered choice among the four statement shapes, with
/// trailing whitespace consumed.
pub(crate) fn statement_at(s: &Vec<char>, pos: usize) -> (r: Result<
    (usize, Statement),
    ParseFailure,
>)
    requires
        pos <= s@.len(),
    ensures
        match r {
            Ok((end, st)) => (spec_statement(s@, pos as int) == Parsed::Found {
                end: end as int,
                val: st@,
            }) && pos < end <= s@.len(),
            Err(f) => (spec_statement(s@, pos as int) == Parsed::<StatementView>::Missing {
                at: f.at as int,
            }) && f.wf(s@.len() as int),
        },
{
    let p = skip_space(s, pos);
    match edge_statement_at(s, p) {
        Ok((e, st)) => Ok((skip_space(s, e), Statement::Edge(st))),
        Err(f1) => match attribute_statement_at(s, p) {
            Ok((e, st)) => Ok((skip_space(s, e), Statement::Attribute(st))),
            Err(f2) => match node_statement_at(s, p) {
                Ok((e, st)) => Ok((skip_space(s, e), Statement::Node(st))),
                Err(f3) => match definition_statement_at(s, p) {
                    Ok((e, st)) => Ok((skip_space(s, e), Statement::Definition(st))),
                    Err(f4) => Err(f1.chain(f2).chain(f3).chain(f4).note(pos, ErrorKind::Statement)),
                },
            },
        },
    }
}

/// Read zero or more statements in a row.
pub(crate) fn statements_at(s: &Vec<char>, pos: usize) -> (r: (usize, Vec<Statement>))
    requires
        pos <= s@.len(),
    ensures
        spec_statement_seq(s@, pos as int).0 == r.0 as int,
        spec_statement_seq(s@, pos as int).1 == r.1.deep_view(),
        pos <= r.0 <= s@.len(),
{
    let mut acc: Vec<Statement> = Vec::new();
    let mut i = pos;
    proof {
        assert(acc.deep_view() =~= Seq::<StatementView>::empty());
    }
    loop
        invariant
            pos <= i <= s@.len(),
            spec_statement_seq(s@, pos as int).0 == spec_statement_seq(s@, i as int).0,
            spec_statement_seq(s@, pos as int).1 == acc.deep_view() + spec_statement_seq(
                s@,
                i as int,
            ).1,
        decreases s@.len() - i,
    {
        match statement_at(s, i) {
            Ok((e, st)) => {
                let ghost prev = acc.deep_view();
                let ghost stv = st@;
                acc.push(st);
                proof {
                    assert(acc.deep_view() =~= prev.push(stv));
                    let (e2, rest) = spec_statement_seq(s@, e as int);
                    assert(prev + (seq![stv] + rest) =~= prev.push(stv) + rest);
                }
                i = e;
            },
            Err(f) => {
                proof {
                    assert(acc.deep_view() + spec_statement_seq(s@, i as int).1
                        =~= acc.deep_view());
                }
                return (i, acc);
            },
        }
    }
}

/// Read the whole graph rule at `pos`.
#[verifier::rlimit(30)]
pub(crate) fn graph_rule_at(s: &Vec<char>, pos: usize) -> (r: Result<(usize, Graph), ParseFailure>)
    requires
        pos <= s@.len(),
    ensures
        match r {
            Ok((end, g)) => (spec_graph_rule(s@, pos as int) == Parsed::Found {
                end: end as int,
                val: g@,
            }) && pos <= end <= s@.len(),
            Err(f) => (spec_graph_rule(s@, pos as int) == Parsed::<GraphView>::Missing {
                at: f.at as int,
            }) && f.wf(s@.len() as int),
        },
{
    proof {
        ir_keyword_facts();
    }
    let _sl: usize = s.len();
    let p0 = skip_space(s, pos);
    let strict = match_tag(s, p0, "strict");
    let p1 = if strict {
        p0 + 6
    } else {
        p0
    };
    let p2 = skip_space(s, p1);
    let is_graph = match_tag(s, p2, "graph");
    let is_digraph = match_tag(s, p2, "digraph");
    if is_graph || is_digraph {
        let kind = if is_graph {
            GraphKind::Undirected
        } else {
            GraphKind::Directed
        };
        let klen: usize = if is_graph {
            5
        } else {
            7
        };
        let p3 = skip_space(s, p2 + klen);
        let p4 = skip_space(s, p3);
        if p4 < s.len() && s[p4] == '{' {
            let p5 = skip_space(s, p4 + 1);
            let (p6, stmts) = statements_at(s, p5);
            let p7 = skip_space(s, p6);
            if p7 < s.len() && s[p7] == '}' {
                let end = skip_space(s, p7 + 1);
                Ok((end, Graph { kind, strict, statements: stmts }))
            } else {
                Err(fail1(p7, ErrorKind::Brace).note(pos, ErrorKind::GraphKeyword))
            }
        } else {
            Err(fail1(p4, ErrorKind::Brace).note(pos, ErrorKind::GraphKeyword))
        }
    } else {
        Err(fail1(p2, ErrorKind::GraphKeyword))
    }
}

/// Parse a graph at the start of the input; on success the unconsumed
/// remainder is returned beside the graph.
pub fn graph_parser(input: &str) -> (r: Result<(String, Graph), ParseFailure>)
    ensures
        match r {
            Ok((rest, g)) => (spec_graph_rule(input@, 0) matches Parsed::Found { end, val }
                && val == g@ && rest@ == input@.subrange(end, input@.len() as int)),
            Err(f) => (spec_graph_rule(input@, 0) matches Parsed::Missing { at }
                && at == f.at as int) && f.wf(input@.len() as int),
        },
{
    let cs = chars_of(input);
    match graph_rule_at(&cs, 0) {
        Ok((end, g)) => {
            let rest = string_of(&cs, end, cs.len());
            Ok((rest, g))
        },
        Err(f) => Err(f),
    }
}

/// The parse entry point: run the graph rule once against the full input and
/// classify the result. Exactly one of the four outcomes of
/// `spec_parse_outcome` is returned: the graph, the trailing remainder, an
/// end-of-input failure, or a located parse error with its rule trace.
pub fn parse_graph(input: &str) -> (r: Result<Graph, GraphParseError>)
    ensures
        outcome_of(r) == spec_parse_outcome(input@),
        r matches Err(GraphParseError::ParseError(f)) ==> f.wf(input@.len() as int),
{
    let cs = chars_of(input);
    match graph_rule_at(&cs, 0) {
        Ok((end, g)) => {
            let t = skip_space(&cs, end);
            if t < cs.len() {
                Err(GraphParseError::UnexpectedInput(string_of(&cs, end, cs.len())))
            } else {
                Ok(g)
            }
        },
        Err(f) => {
            if f.at == cs.len() {
                Err(GraphParseError::UnexpectedEof)
            } else {
                Err(GraphParseError::ParseError(f))
            }
        },
    }
}

} // verus!
