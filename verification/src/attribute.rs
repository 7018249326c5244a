//! Attribute definitions and the attribute grammar.
//!
//! The attribute vocabulary is one large tagged union; the grammar currently
//! dispatches on two recognized names, `style` and `shape`, each with its own
//! value grammar. An unrecognized name fails the whole attribute rule — there
//! is no catch-all.

use vstd::prelude::*;

use crate::error::{fail1, ErrorKind, Parsed, ParseFailure};
use crate::text::{chars_of, match_tag, string_of, tag_matches};
use crate::ws::{skip_space, spec_skip_space};

verus! {

pub type Int = i64;

type LabelString = String;

/// One attribute value, tagged by the attribute name it belongs to. Only the
/// `Style` and `Shape` variants can currently be produced by the grammar; the
/// remaining variants are structurally defined without a parsing path.
#[derive(Debug, Clone, PartialEq, Eq)]
pub enum Attribute {
    Background(String),
    ArrowHead(ArrowType),
    ArrowTail(ArrowType),
    Center(bool),
    Charset(String),
    ColorsSheme(String),
    Comment(String),
    Concentrate(bool),
    Decorate(bool),
    Dir(DirType),
    FixedSize(FixedSize),
    FontName(String),
    FontPath(String),
    ForceLabels(bool),
    GradientAngle(Int),
    HeadClip(bool),
    HeadLabel(LabelString),
    Image(String),
    ImagePath(String),
    ImagePos(String),
    ImageScale(ImageScale),
    Label(LabelString),
    LabelFloat(bool),
    LabelFontName(String),
    LabelJust(TextJustification),
    LabelLoc(TextLocation),
    Landscape(bool),
    Layer(Vec<String>),
    LayerListSep(String),
    Layers(Vec<String>),
    LayerSelect(Vec<String>),
    LayerSep(String),
    Layout(String),
    NoJustify(bool),
    OutputOrder(OutputMode),
    Pack(Pack),
    PackMode(PackMode),
    PageDir(PageDir),
    Peripheries(Int),
    Regular(bool),
    Rotate(Int),
    SamplePoints(Int),
    Shape(Shape),
    ShapeFile(String),
    Sides(Int),
    SortV(Int),
    Splines(EdgeRespresentation),
    Style(Vec<Style>),
    TailClip(bool),
    TailLabel(LabelString),
    XLabel(LabelString),
}

/// The mathematical model of an `Attribute`: text payloads become character
/// sequences, lists become sequences.
pub ghost enum AttributeView {
    Background(Seq<char>),
    ArrowHead(ArrowType),
    ArrowTail(ArrowType),
    Center(bool),
    Charset(Seq<char>),
    ColorsSheme(Seq<char>),
    Comment(Seq<char>),
    Concentrate(bool),
    Decorate(bool),
    Dir(DirType),
    FixedSize(FixedSize),
    FontName(Seq<char>),
    FontPath(Seq<char>),
    ForceLabels(bool),
    GradientAngle(Int),
    HeadClip(bool),
    HeadLabel(Seq<char>),
    Image(Seq<char>),
    ImagePath(Seq<char>),
    ImagePos(Seq<char>),
    ImageScale(ImageScale),
    Label(Seq<char>),
    LabelFloat(bool),
    LabelFontName(Seq<char>),
    LabelJust(TextJustification),
    LabelLoc(TextLocation),
    Landscape(bool),
    Layer(Seq<Seq<char>>),
    LayerListSep(Seq<char>),
    Layers(Seq<Seq<char>>),
    LayerSelect(Seq<Seq<char>>),
    LayerSep(Seq<char>),
    Layout(Seq<char>),
    NoJustify(bool),
    OutputOrder(OutputMode),
    Pack(Pack),
    PackMode(PackModeView),
    PageDir(PageDir),
    Peripheries(Int),
    Regular(bool),
    Rotate(Int),
    SamplePoints(Int),
    Shape(Shape),
    ShapeFile(Seq<char>),
    Sides(Int),
    SortV(Int),
    Splines(EdgeRespresentation),
    Style(Seq<Style>),
    TailClip(bool),
    TailLabel(Seq<char>),
    XLabel(Seq<char>),
}

impl View for Attribute {
    type V = AttributeView;

    open spec fn view(&self) -> AttributeView {
        match self {
            Attribute::Background(s) => AttributeView::Background(s@),
            Attribute::ArrowHead(x) => AttributeView::ArrowHead(*x),
            Attribute::ArrowTail(x) => AttributeView::ArrowTail(*x),
            Attribute::Center(x) => AttributeView::Center(*x),
            Attribute::Charset(s) => AttributeView::Charset(s@),
            Attribute::ColorsSheme(s) => AttributeView::ColorsSheme(s@),
            Attribute::Comment(s) => AttributeView::Comment(s@),
            Attribute::Concentrate(x) => AttributeView::Concentrate(*x),
            Attribute::Decorate(x) => AttributeView::Decorate(*x),
            Attribute::Dir(x) => AttributeView::Dir(*x),
            Attribute::FixedSize(x) => AttributeView::FixedSize(*x),
            Attribute::FontName(s) => AttributeView::FontName(s@),
            Attribute::FontPath(s) => AttributeView::FontPath(s@),
            Attribute::ForceLabels(x) => AttributeView::ForceLabels(*x),
            Attribute::GradientAngle(x) => AttributeView::GradientAngle(*x),
            Attribute::HeadClip(x) => AttributeView::HeadClip(*x),
            Attribute::HeadLabel(s) => AttributeView::HeadLabel(s@),
            Attribute::Image(s) => AttributeView::Image(s@),
            Attribute::ImagePath(s) => AttributeView::ImagePath(s@),
            Attribute::ImagePos(s) => AttributeView::ImagePos(s@),
            Attribute::ImageScale(x) => AttributeView::ImageScale(*x),
            Attribute::Label(s) => AttributeView::Label(s@),
            Attribute::LabelFloat(x) => AttributeView::LabelFloat(*x),
            Attribute::LabelFontName(s) => AttributeView::LabelFontName(s@),
            Attribute::LabelJust(x) => AttributeView::LabelJust(*x),
            Attribute::LabelLoc(x) => AttributeView::LabelLoc(*x),
            Attribute::Landscape(x) => AttributeView::Landscape(*x),
            Attribute::Layer(v) => AttributeView::Layer(v.deep_view()),
            Attribute::LayerListSep(s) => AttributeView::LayerListSep(s@),
            Attribute::Layers(v) => AttributeView::Layers(v.deep_view()),
            Attribute::LayerSelect(v) => AttributeView::LayerSelect(v.deep_view()),
            Attribute::LayerSep(s) => AttributeView::LayerSep(s@),
            Attribute::Layout(s) => AttributeView::Layout(s@),
            Attribute::NoJustify(x) => AttributeView::NoJustify(*x),
            Attribute::OutputOrder(x) => AttributeView::OutputOrder(*x),
            Attribute::Pack(x) => AttributeView::Pack(*x),
            Attribute::PackMode(m) => AttributeView::PackMode(m@),
            Attribute::PageDir(x) => AttributeView::PageDir(*x),
            Attribute::Peripheries(x) => AttributeView::Peripheries(*x),
            Attribute::Regular(x) => AttributeView::Regular(*x),
            Attribute::Rotate(x) => AttributeView::Rotate(*x),
            Attribute::SamplePoints(x) => AttributeView::SamplePoints(*x),
            Attribute::Shape(x) => AttributeView::Shape(*x),
            Attribute::ShapeFile(s) => AttributeView::ShapeFile(s@),
            Attribute::Sides(x) => AttributeView::Sides(*x),
            Attribute::SortV(x) => AttributeView::SortV(*x),
            Attribute::Splines(x) => AttributeView::Splines(*x),
            Attribute::Style(v) => AttributeView::Style(v@),
            Attribute::TailClip(x) => AttributeView::TailClip(*x),
            Attribute::TailLabel(s) => AttributeView::TailLabel(s@),
            Attribute::XLabel(s) => AttributeView::XLabel(s@),
        }
    }
}

impl DeepView for Attribute {
    type V = AttributeView;

    open spec fn deep_view(&self) -> AttributeView {
        self@
    }
}

#[derive(Debug, Clone, Copy, PartialEq, Eq)]
pub enum ArrowType {
    Normal,
    Inv,
    Dot,
    InvDot,
    ODot,
    InvODot,
    NoArrow,
    Tee,
    Empty,
    InvEmpty,
    Diamond,
    ODiamond,
    EDiamond,
    Crow,
    Box,
    OBox,
    Open,
    HalfOpen,
    Vee,
}

#[derive(Debug, Clone, Copy, PartialEq, Eq)]
pub enum ClusterMode {
    Local,
    Global,
    NoCluster,
}

#[derive(Debug, Clone, Copy, PartialEq, Eq)]
pub enum DirType {
    Forward,
    Back,
    Both,
    NoDir,
}

#[derive(Debug, Clone, Copy, PartialEq, Eq)]
pub enum ImageScale {
    False,
    True,
    Width,
    Height,
    Both,
}

#[derive(Debug, Clone, Copy, PartialEq, Eq)]
pub enum TextJustification {
    Left,
    Right,
    Center,
}

#[derive(Debug, Clone, Copy, PartialEq, Eq)]
pub enum TextLocation {
    Top,
    Bottom,
    Center,
}

#[derive(Debug, Clone, Copy, PartialEq, Eq)]
pub enum Pack {
    True,
    False,
    Value(Int),
}

#[derive(Debug, Clone, Copy, PartialEq, Eq)]
pub enum FixedSize {
    True,
    False,
    Shape,
}

#[derive(Debug, Clone, Copy, PartialEq, Eq)]
pub enum OutputMode {
    BreadthFirst,
    NodesFirst,
    EdgesFirst,
}

#[derive(Debug, Clone, PartialEq, Eq)]
pub enum PackMode {
    Node,
    Clust,
    Graph,
    Array { size: Int, flags: Vec<PackFlag> },
}

/// The mathematical model of a `PackMode`: the flag list becomes a sequence.
pub ghost enum PackModeView {
    Node,
    Clust,
    Graph,
    Array { size: Int, flags: Seq<PackFlag> },
}

impl View for PackMode {
    type V = PackModeView;

    open spec fn view(&self) -> PackModeView {
        match self {
            PackMode::Node => PackModeView::Node,
            PackMode::Clust => PackModeView::Clust,
            PackMode::Graph => PackModeView::Graph,
            PackMode::Array { size, flags } => PackModeView::Array {
                size: *size,
                flags: flags@,
            },
        }
    }
}

#[derive(Debug, Clone, Copy, PartialEq, Eq)]
pub enum PackFlag {
    ColumnMajor,
    Top,
    Bottom,
    Left,
    Right,
    User,
}

#[derive(Debug, Clone, Copy, PartialEq, Eq)]
pub struct PageDir {
    pub primary: TraversalDir,
    pub secondary: TraversalDir,
}

#[derive(Debug, Clone, Copy, PartialEq, Eq)]
pub enum TraversalDir {
    Vertical(VerticalDir),
    Horizontal(HorizontalDir),
}

#[derive(Debug, Clone, Copy, PartialEq, Eq)]
pub enum VerticalDir {
    BottomToTop,
    TopToBottom,
}

#[derive(Debug, Clone, Copy, PartialEq, Eq)]
pub enum HorizontalDir {
    LeftToRight,
    RightToLeft,
}

// only polygon shapes currently supported
#[derive(Debug, Clone, Copy, PartialEq, Eq)]
pub enum Shape {
    Box,
    Polygon,
    Ellipse,
    Oval,
    Circle,
    Point,
    Egg,
    Triangle,
    Plaintext,
    Plain,
    Diamond,
    Trapezium,
    Parallelogram,
    House,
    Pentagon,
    Hexagon,
    Septagon,
    Octagon,
    DoubleCircle,
    DoubleOctagon,
    TripleOctagon,
    InvTriangle,
    InvTrapezium,
    InvHouse,
    MDiamond,
    MSquare,
    MCircle,
    Rect,
    Rectangle,
    Square,
    Star,
    NoShape,
    Underline,
    Cylinder,
    Note,
    Tab,
    Folder,
    Box3d,
    Component,
    Promoter,
    Cds,
    Terminator,
    Utr,
    PrimerSite,
    RestrictionSite,
    FivePOverhang,
    ThreePOverhang,
    NoOverhang,
    Assembly,
    Signature,
    Insulator,
    Ribosite,
    RnaStab,
    ProteaseSite,
    ProteinStab,
    RPromoter,
    RArrow,
    LArrow,
    LPromoter,
}

#[derive(Debug, Clone, Copy, PartialEq, Eq)]
pub enum EdgeRespresentation {
    Spline,
    LineSegment,
    Off,
    Polyline,
    Ortho,
    Curved,
}

#[derive(Debug, Clone, Copy, PartialEq, Eq)]
pub enum Style {
    Dashed,
    Dotted,
    Solid,
    Invis,
    Bold,
    Tapered,
    Filled,
    Striped,
    Wedged,
    Diagonals,
    Rounded,
}

impl DeepView for Style {
    type V = Style;

    open spec fn deep_view(&self) -> Style {
        *self
    }
}

#[derive(Debug, Clone, Copy, PartialEq, Eq)]
pub enum AttributeParseError {
    AttributeNameNotFound,
    InvalidAttribueValue,
}

/// The lengths of the attribute grammar's literal tokens.
pub proof fn attribute_keyword_facts()
    ensures
        "dashed"@.len() == 6,
        "dotted"@.len() == 6,
        "solid"@.len() == 5,
        "invis"@.len() == 5,
        "bold"@.len() == 4,
        "tapered"@.len() == 7,
        "filled"@.len() == 6,
        "striped"@.len() == 7,
        "wedged"@.len() == 6,
        "diagonals"@.len() == 9,
        "rounded"@.len() == 7,
        "box"@.len() == 3,
        "polygon"@.len() == 7,
        "ellipse"@.len() == 7,
        "oval"@.len() == 4,
        "circle"@.len() == 6,
        "point"@.len() == 5,
        "style"@.len() == 5,
        "shape"@.len() == 5,
{
    reveal_strlit("dashed");
    reveal_strlit("dotted");
    reveal_strlit("solid");
    reveal_strlit("invis");
    reveal_strlit("bold");
    reveal_strlit("tapered");
    reveal_strlit("filled");
    reveal_strlit("striped");
    reveal_strlit("wedged");
    reveal_strlit("diagonals");
    reveal_strlit("rounded");
    reveal_strlit("box");
    reveal_strlit("polygon");
    reveal_strlit("ellipse");
    reveal_strlit("oval");
    reveal_strlit("circle");
    reveal_strlit("point");
    reveal_strlit("style");
    reveal_strlit("shape");
}

/// The style-keyword rule: one keyword from the fixed style set, with
/// insignificant whitespace skipped before and after, tried in order.
pub open spec fn spec_style_word(s: Seq<char>, pos: int) -> Parsed<Style> {
    let p = spec_skip_space(s, pos);
    if tag_matches(s, p, "dashed"@) {
        Parsed::Found { end: spec_skip_space(s, p + "dashed"@.len()), val: Style::Dashed }
    } else if tag_matches(s, p, "dotted"@) {
        Parsed::Found { end: spec_skip_space(s, p + "dotted"@.len()), val: Style::Dotted }
    } else if tag_matches(s, p, "solid"@) {
        Parsed::Found { end: spec_skip_space(s, p + "solid"@.len()), val: Style::Solid }
    } else if tag_matches(s, p, "invis"@) {
        Parsed::Found { end: spec_skip_space(s, p + "invis"@.len()), val: Style::Invis }
    } else if tag_matches(s, p, "bold"@) {
        Parsed::Found { end: spec_skip_space(s, p + "bold"@.len()), val: Style::Bold }
    } else if tag_matches(s, p, "tapered"@) {
        Parsed::Found { end: spec_skip_space(s, p + "tapered"@.len()), val: Style::Tapered }
    } else if tag_matches(s, p, "filled"@) {
        Parsed::Found { end: spec_skip_space(s, p + "filled"@.len()), val: Style::Filled }
    } else if tag_matches(s, p, "striped"@) {
        Parsed::Found { end: spec_skip_space(s, p + "striped"@.len()), val: Style::Striped }
    } else if tag_matches(s, p, "wedged"@) {
        Parsed::Found { end: spec_skip_space(s, p + "wedged"@.len()), val: Style::Wedged }
    } else if tag_matches(s, p, "diagonals"@) {
        Parsed::Found { end: spec_skip_space(s, p + "diagonals"@.len()), val: Style::Diagonals }
    } else if tag_matches(s, p, "rounded"@) {
        Parsed::Found { end: spec_skip_space(s, p + "rounded"@.len()), val: Style::Rounded }
    } else {
        Parsed::Missing { at: p }
    }
}

/// The shape-keyword rule: one keyword from the currently supported shape
/// subset, with whitespace skipped around it, tried in order.
pub open spec fn spec_shape_word(s: Seq<char>, pos: int) -> Parsed<Shape> {
    let p = spec_skip_space(s, pos);
    if tag_matches(s, p, "box"@) {
        Parsed::Found { end: spec_skip_space(s, p + "box"@.len()), val: Shape::Box }
    } else if tag_matches(s, p, "polygon"@) {
        Parsed::Found { end: spec_skip_space(s, p + "polygon"@.len()), val: Shape::Polygon }
    } else if tag_matches(s, p, "ellipse"@) {
        Parsed::Found { end: spec_skip_space(s, p + "ellipse"@.len()), val: Shape::Ellipse }
    } else if tag_matches(s, p, "oval"@) {
        Parsed::Found { end: spec_skip_space(s, p + "oval"@.len()), val: Shape::Oval }
    } else if tag_matches(s, p, "circle"@) {
        Parsed::Found { end: spec_skip_space(s, p + "circle"@.len()), val: Shape::Circle }
    } else if tag_matches(s, p, "point"@) {
        Parsed::Found { end: spec_skip_space(s, p + "point"@.len()), val: Shape::Point }
    } else {
        Parsed::Missing { at: p }
    }
}

/// The style keywords after the first: each preceded by a literal comma.
/// The repetition stops — without failing — as soon as no further
/// comma-and-keyword pair matches.
pub open spec fn spec_styles_tail(s: Seq<char>, pos: int) -> (int, Seq<Style>)
    decreases s.len() - pos,
{
    if 0 <= pos && pos < s.len() && s[pos] == ',' {
        match spec_style_word(s, pos + 1) {
            Parsed::Found { end, val } => {
                if pos < end <= s.len() {
                    let (e, rest) = spec_styles_tail(s, end);
                    (e, seq![val] + rest)
                } else {
                    (pos, Seq::empty())
                }
            },
            Parsed::Missing { .. } => (pos, Seq::empty()),
        }
    } else {
        (pos, Seq::empty())
    }
}

/// The style value grammar: one or more style keywords separated by commas;
/// order and duplicates are preserved as parsed.
pub open spec fn spec_styles(s: Seq<char>, pos: int) -> Parsed<Seq<Style>> {
    match spec_style_word(s, pos) {
        Parsed::Missing { at } => Parsed::Missing { at },
        Parsed::Found { end, val } => {
            let (e, rest) = spec_styles_tail(s, end);
            Parsed::Found { end: e, val: seq![val] + rest }
        },
    }
}

/// An optional trailing separator after an attribute: `,` or `;` with
/// whitespace around it; if none is present the cursor does not move.
pub open spec fn spec_opt_sep(s: Seq<char>, pos: int) -> int {
    let p = spec_skip_space(s, pos);
    if 0 <= p && p < s.len() && (s[p] == ',' || s[p] == ';') {
        spec_skip_space(s, p + 1)
    } else {
        pos
    }
}

/// The `style = ...` attribute rule.
pub open spec fn spec_style_attr(s: Seq<char>, pos: int) -> Parsed<AttributeView> {
    let p0 = spec_skip_space(s, pos);
    if tag_matches(s, p0, "style"@) {
        let p1 = spec_skip_space(s, p0 + "style"@.len());
        if 0 <= p1 && p1 < s.len() && s[p1] == '=' {
            let p2 = spec_skip_space(s, p1 + 1);
            match spec_styles(s, p2) {
                Parsed::Found { end, val } => Parsed::Found {
                    end: spec_skip_space(s, end),
                    val: AttributeView::Style(val),
                },
                Parsed::Missing { at } => Parsed::Missing { at },
            }
        } else {
            Parsed::Missing { at: p1 }
        }
    } else {
        Parsed::Missing { at: p0 }
    }
}

/// The `shape = ...` attribute rule.
pub open spec fn spec_shape_attr(s: Seq<char>, pos: int) -> Parsed<AttributeView> {
    let p0 = spec_skip_space(s, pos);
    if tag_matches(s, p0, "shape"@) {
        let p1 = spec_skip_space(s, p0 + "shape"@.len());
        if 0 <= p1 && p1 < s.len() && s[p1] == '=' {
            let p2 = spec_skip_space(s, p1 + 1);
            match spec_shape_word(s, p2) {
                Parsed::Found { end, val } => Parsed::Found {
                    end: spec_skip_space(s, end),
                    val: AttributeView::Shape(val),
                },
                Parsed::Missing { at } => Parsed::Missing { at },
            }
        } else {
            Parsed::Missing { at: p1 }
        }
    } else {
        Parsed::Missing { at: p0 }
    }
}

/// The attribute rule: ordered choice between the recognized attribute
/// names, then an optional trailing separator. An unrecognized name fails
/// the rule.
pub open spec fn spec_attribute(s: Seq<char>, pos: int) -> Parsed<AttributeView> {
    match spec_style_attr(s, pos) {
        Parsed::Found { end, val } => Parsed::Found { end: spec_opt_sep(s, end), val },
        Parsed::Missing { .. } => match spec_shape_attr(s, pos) {
            Parsed::Found { end, val } => Parsed::Found { end: spec_opt_sep(s, end), val },
            Parsed::Missing { at } => Parsed::Missing { at },
        },
    }
}

/// Read one style keyword at `pos`.
pub(crate) fn style_word_at(s: &Vec<char>, pos: usize) -> (r: Result<(usize, Style), ParseFailure>)
    requires
        pos <= s@.len(),
    ensures
        match r {
            Ok((end, v)) => (spec_style_word(s@, pos as int) == Parsed::Found {
                end: end as int,
                val: v,
            }) && pos < end <= s@.len(),
            Err(f) => (spec_style_word(s@, pos as int) == Parsed::<Style>::Missing {
                at: f.at as int,
            }) && f.wf(s@.len() as int),
        },
{
    proof {
        attribute_keyword_facts();
    }
    let _sl: usize = s.len();
    let p = skip_space(s, pos);
    if match_tag(s, p, "dashed") {
        Ok((skip_space(s, p + 6), Style::Dashed))
    } else if match_tag(s, p, "dotted") {
        Ok((skip_space(s, p + 6), Style::Dotted))
    } else if match_tag(s, p, "solid") {
        Ok((skip_space(s, p + 5), Style::Solid))
    } else if match_tag(s, p, "invis") {
        Ok((skip_space(s, p + 5), Style::Invis))
    } else if match_tag(s, p, "bold") {
        Ok((skip_space(s, p + 4), Style::Bold))
    } else if match_tag(s, p, "tapered") {
        Ok((skip_space(s, p + 7), Style::Tapered))
    } else if match_tag(s, p, "filled") {
        Ok((skip_space(s, p + 6), Style::Filled))
    } else if match_tag(s, p, "striped") {
        Ok((skip_space(s, p + 7), Style::Striped))
    } else if match_tag(s, p, "wedged") {
        Ok((skip_space(s, p + 6), Style::Wedged))
    } else if match_tag(s, p, "diagonals") {
        Ok((skip_space(s, p + 9), Style::Diagonals))
    } else if match_tag(s, p, "rounded") {
        Ok((skip_space(s, p + 7), Style::Rounded))
    } else {
        Err(fail1(p, ErrorKind::Tag).note(pos, ErrorKind::Styles))
    }
}

/// Read one shape keyword at `pos`.
pub(crate) fn shape_word_at(s: &Vec<char>, pos: usize) -> (r: Result<(usize, Shape), ParseFailure>)
    requires
        pos <= s@.len(),
    ensures
        match r {
            Ok((end, v)) => (spec_shape_word(s@, pos as int) == Parsed::Found {
                end: end as int,
                val: v,
            }) && pos < end <= s@.len(),
            Err(f) => (spec_shape_word(s@, pos as int) == Parsed::<Shape>::Missing {
                at: f.at as int,
            }) && f.wf(s@.len() as int),
        },
{
    proof {
        attribute_keyword_facts();
    }
    let _sl: usize = s.len();
    let p = skip_space(s, pos);
    if match_tag(s, p, "box") {
        Ok((skip_space(s, p + 3), Shape::Box))
    } else if match_tag(s, p, "polygon") {
        Ok((skip_space(s, p + 7), Shape::Polygon))
    } else if match_tag(s, p, "ellipse") {
        Ok((skip_space(s, p + 7), Shape::Ellipse))
    } else if match_tag(s, p, "oval") {
        Ok((skip_space(s, p + 4), Shape::Oval))
    } else if match_tag(s, p, "circle") {
        Ok((skip_space(s, p + 6), Shape::Circle))
    } else if match_tag(s, p, "point") {
        Ok((skip_space(s, p + 5), Shape::Point))
    } else {
        Err(fail1(p, ErrorKind::Tag).note(pos, ErrorKind::Shapes))
    }
}

/// Read a comma-separated list of one or more style keywords at `pos`.
pub(crate) fn styles_at(s: &Vec<char>, pos: usize) -> (r: Result<
    (usize, Vec<Style>),
    ParseFailure,
>)
    requires
        pos <= s@.len(),
    ensures
        match r {
            Ok((end, v)) => (spec_styles(s@, pos as int) == Parsed::Found {
                end: end as int,
                val: v@,
            }) && pos < end <= s@.len(),
            Err(f) => (spec_styles(s@, pos as int) == Parsed::<Seq<Style>>::Missing {
                at: f.at as int,
            }) && f.wf(s@.len() as int),
        },
{
    match style_word_at(s, pos) {
        Err(f) => Err(f),
        Ok((p0, first)) => {
            let mut acc: Vec<Style> = Vec::new();
            acc.push(first);
            let mut i = p0;
            proof {
                assert(acc@ =~= seq![first]);
            }
            loop
                invariant
                    pos < i <= s@.len(),
                    acc@.len() >= 1,
                    spec_styles(s@, pos as int) == (Parsed::Found {
                        end: spec_styles_tail(s@, i as int).0,
                        val: acc@ + spec_styles_tail(s@, i as int).1,
                    }),
                decreases s@.len() - i,
            {
                if i < s.len() && s[i] == ',' {
                    match style_word_at(s, i + 1) {
                        Ok((e2, st2)) => {
                            let ghost prev = acc@;
                            acc.push(st2);
                            proof {
                                let (e3, rest) = spec_styles_tail(s@, e2 as int);
                                assert(prev + (seq![st2] + rest) =~= acc@ + rest);
                            }
                            i = e2;
                        },
                        Err(e) => {
                            proof {
                                assert(acc@ + spec_styles_tail(s@, i as int).1 =~= acc@);
                            }
                            return Ok((i, acc));
                        },
                    }
                } else {
                    proof {
                        assert(acc@ + spec_styles_tail(s@, i as int).1 =~= acc@);
                    }
                    return Ok((i, acc));
                }
            }
        },
    }
}

/// Skip an optional `,` or `;` separator with whitespace around it; without
/// one, stay at `pos`.
pub(crate) fn opt_sep_at(s: &Vec<char>, pos: usize) -> (r: usize)
    requires
        pos <= s@.len(),
    ensures
        r as int == spec_opt_sep(s@, pos as int),
        pos <= r <= s@.len(),
{
    let p = skip_space(s, pos);
    if p < s.len() && (s[p] == ',' || s[p] == ';') {
        skip_space(s, p + 1)
    } else {
        pos
    }
}

/// Read a `style = ...` attribute at `pos`.
pub(crate) fn style_attr_at(s: &Vec<char>, pos: usize) -> (r: Result<
    (usize, Attribute),
    ParseFailure,
>)
    requires
        pos <= s@.len(),
    ensures
        match r {
            Ok((end, a)) => (spec_style_attr(s@, pos as int) == Parsed::Found {
                end: end as int,
                val: a@,
            }) && pos < end <= s@.len(),
            Err(f) => (spec_style_attr(s@, pos as int) == Parsed::<AttributeView>::Missing {
                at: f.at as int,
            }) && f.wf(s@.len() as int),
        },
{
    proof {
        attribute_keyword_facts();
    }
    let _sl: usize = s.len();
    let p0 = skip_space(s, pos);
    if match_tag(s, p0, "style") {
        let p1 = skip_space(s, p0 + 5);
        if p1 < s.len() && s[p1] == '=' {
            let p2 = skip_space(s, p1 + 1);
            match styles_at(s, p2) {
                Ok((e, v)) => {
                    let end = skip_space(s, e);
                    Ok((end, Attribute::Style(v)))
                },
                Err(f) => Err(f),
            }
        } else {
            Err(fail1(p1, ErrorKind::Char).note(pos, ErrorKind::Attribute))
        }
    } else {
        Err(fail1(p0, ErrorKind::Tag).note(pos, ErrorKind::Attribute))
    }
}

/// Read a `shape = ...` attribute at `pos`.
pub(crate) fn shape_attr_at(s: &Vec<char>, pos: usize) -> (r: Result<
    (usize, Attribute),
    ParseFailure,
>)
    requires
        pos <= s@.len(),
    ensures
        match r {
            Ok((end, a)) => (spec_shape_attr(s@, pos as int) == Parsed::Found {
                end: end as int,
                val: a@,
            }) && pos < end <= s@.len(),
            Err(f) => (spec_shape_attr(s@, pos as int) == Parsed::<AttributeView>::Missing {
                at: f.at as int,
            }) && f.wf(s@.len() as int),
        },
{
    proof {
        attribute_keyword_facts();
    }
    let _sl: usize = s.len();
    let p0 = skip_space(s, pos);
    if match_tag(s, p0, "shape") {
        let p1 = skip_space(s, p0 + 5);
        if p1 < s.len() && s[p1] == '=' {
            let p2 = skip_space(s, p1 + 1);
            match shape_word_at(s, p2) {
                Ok((e, v)) => {
                    let end = skip_space(s, e);
                    Ok((end, Attribute::Shape(v)))
                },
                Err(f) => Err(f),
            }
        } else {
            Err(fail1(p1, ErrorKind::Char).note(pos, ErrorKind::Attribute))
        }
    } else {
        Err(fail1(p0, ErrorKind::Tag).note(pos, ErrorKind::Attribute))
    }
}

/// Read one attribute at `pos`: a recognized `name = value` pair and an
/// optional trailing separator.
pub(crate) fn attribute_at(s: &Vec<char>, pos: usize) -> (r: Result<
    (usize, Attribute),
    ParseFailure,
>)
    requires
        pos <= s@.len(),
    ensures
        match r {
            Ok((end, a)) => (spec_attribute(s@, pos as int) == Parsed::Found {
                end: end as int,
                val: a@,
            }) && pos < end <= s@.len(),
            Err(f) => (spec_attribute(s@, pos as int) == Parsed::<AttributeView>::Missing {
                at: f.at as int,
            }) && f.wf(s@.len() as int),
        },
{
    match style_attr_at(s, pos) {
        Ok((e, a)) => {
            let end = opt_sep_at(s, e);
            Ok((end, a))
        },
        Err(f1) => match shape_attr_at(s, pos) {
            Ok((e, a)) => {
                let end = opt_sep_at(s, e);
                Ok((end, a))
            },
            Err(f2) => Err(f1.chain(f2).note(pos, ErrorKind::Attribute)),
        },
    }
}

/// Parse one attribute at the start of the input; on success the unconsumed
/// remainder is returned beside the attribute.
pub fn attribute_parser(input: &str) -> (r: Result<(String, Attribute), ParseFailure>)
    ensures
        match r {
            Ok((rest, a)) => (spec_attribute(input@, 0) matches Parsed::Found { end, val }
                && val == a@ && rest@ == input@.subrange(end, input@.len() as int)),
            Err(f) => (spec_attribute(input@, 0) matches Parsed::Missing { at }
                && at == f.at as int) && f.wf(input@.len() as int),
        },
{
    let cs = chars_of(input);
    match attribute_at(&cs, 0) {
        Ok((end, a)) => {
            let rest = string_of(&cs, end, cs.len());
            Ok((rest, a))
        },
        Err(f) => Err(f),
    }
}

} // verus!
