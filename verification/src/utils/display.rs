//! Terminal output: styled text, and the pieces that the summaries are laid
//! out with.
//!
//! A piece of output is a sequence of spans, each a text with the style in
//! which it is to appear. The functions of this module lay spans out; turning
//! a span into the characters that a terminal shows in colour is left to
//! the `colored` crate, which looks at the environment to decide whether
//! colours are wanted at all.

use crate::text::{chars_of, decimal, decimal_text, same_text};
use crate::utils::fs::texts;
use vstd::prelude::*;

verus! {

/// The colours of a terminal.
#[derive(Debug, Clone, Copy, PartialEq, Eq, Structural)]
pub enum Color {
    Black,
    Red,
    Green,
    Yellow,
    Blue,
    Magenta,
    Cyan,
    White,
    BrightBlack,
    BrightRed,
    BrightGreen,
    BrightYellow,
    BrightBlue,
    BrightMagenta,
    BrightCyan,
    BrightWhite,
}

impl Color {
    /// The colour's name.
    pub open spec fn name(self) -> Seq<char> {
        match self {
            Color::Black => "black"@,
            Color::Red => "red"@,
            Color::Green => "green"@,
            Color::Yellow => "yellow"@,
            Color::Blue => "blue"@,
            Color::Magenta => "magenta"@,
            Color::Cyan => "cyan"@,
            Color::White => "white"@,
            Color::BrightBlack => "bright black"@,
            Color::BrightRed => "bright red"@,
            Color::BrightGreen => "bright green"@,
            Color::BrightYellow => "bright yellow"@,
            Color::BrightBlue => "bright blue"@,
            Color::BrightMagenta => "bright magenta"@,
            Color::BrightCyan => "bright cyan"@,
            Color::BrightWhite => "bright white"@,
        }
    }

    /// The colour's name.
    pub fn to_str(&self) -> (name: &'static str)
        ensures
            name@ == self.name(),
    {
        match self {
            Color::Black => "black",
            Color::Red => "red",
            Color::Green => "green",
            Color::Yellow => "yellow",
            Color::Blue => "blue",
            Color::Magenta => "magenta",
            Color::Cyan => "cyan",
            Color::White => "white",
            Color::BrightBlack => "bright black",
            Color::BrightRed => "bright red",
            Color::BrightGreen => "bright green",
            Color::BrightYellow => "bright yellow",
            Color::BrightBlue => "bright blue",
            Color::BrightMagenta => "bright magenta",
            Color::BrightCyan => "bright cyan",
            Color::BrightWhite => "bright white",
        }
    }
}

/// How a text is to appear.
#[derive(Debug, Clone, Copy, PartialEq, Eq, Structural)]
pub struct Style {
    /// The colour of the characters, where one is set.
    pub foreground: Option<Color>,
    /// The colour behind the characters, where one is set.
    pub background: Option<Color>,
    /// Whether the characters are bold.
    pub bold: bool,
    /// Whether the characters are italic.
    pub italic: bool,
}

impl Style {
    /// No style at all.
    pub open spec fn none() -> Style {
        Style { foreground: None, background: None, bold: false, italic: false }
    }

    /// The colour `color`, and nothing else.
    pub open spec fn of(color: Color) -> Style {
        Style { foreground: Some(color), ..Style::none() }
    }

    /// The colour `color`, bold.
    pub open spec fn bold_of(color: Color) -> Style {
        Style { foreground: Some(color), bold: true, ..Style::none() }
    }
}

/// A text with its style.
#[derive(Debug, Clone)]
pub struct Span {
    /// The text.
    pub text: String,
    /// How it is to appear.
    pub style: Style,
}

/// What a [`Span`] stands for.
pub struct SpanView {
    pub text: Seq<char>,
    pub style: Style,
}

impl View for Span {
    type V = SpanView;

    open spec fn view(&self) -> SpanView {
        SpanView { text: self.text@, style: self.style }
    }
}

/// The views of a sequence of spans.
pub open spec fn span_views(spans: Seq<Span>) -> Seq<SpanView> {
    spans.map_values(|s: Span| s@)
}

/// A text without style.
pub open spec fn plain(text: Seq<char>) -> SpanView {
    SpanView { text, style: Style::none() }
}

/// A text in the style `style`.
pub open spec fn styled(text: Seq<char>, style: Style) -> SpanView {
    SpanView { text, style }
}

/// A text in the colour `color`.
pub open spec fn tinted(text: Seq<char>, color: Color) -> SpanView {
    SpanView { text, style: Style::of(color) }
}

/// A text in the colour `color`, bold.
pub open spec fn strong(text: Seq<char>, color: Color) -> SpanView {
    SpanView { text, style: Style::bold_of(color) }
}

/// `unit`, `n` times over.
pub open spec fn repeated(unit: Seq<char>, n: nat) -> Seq<char>
    decreases n,
{
    if n == 0 {
        seq![]
    } else {
        repeated(unit, (n - 1) as nat) + unit
    }
}

/// `text` filled up with spaces on the right to `width` characters; a text
/// that is as long or longer stays as it is.
pub open spec fn padded(text: Seq<char>, width: nat) -> Seq<char> {
    if text.len() >= width {
        text
    } else {
        text + repeated(" "@, (width - text.len()) as nat)
    }
}

/// `span`, with its text filled up to `width` characters.
pub open spec fn wide(span: SpanView, width: nat) -> SpanView {
    SpanView { text: padded(span.text, width), ..span }
}

impl Span {
    /// A text without style.
    pub fn plain(text: &str) -> (s: Span)
        ensures
            s@ == plain(text@),
    {
        Span {
            text: text.to_owned(),
            style: Style { foreground: None, background: None, bold: false, italic: false },
        }
    }

    /// A text in the style `style`.
    pub fn styled(text: &str, style: Style) -> (s: Span)
        ensures
            s@ == styled(text@, style),
    {
        Span { text: text.to_owned(), style }
    }

    /// A text in the colour `color`.
    pub fn tinted(text: &str, color: Color) -> (s: Span)
        ensures
            s@ == tinted(text@, color),
    {
        Span {
            text: text.to_owned(),
            style: Style { foreground: Some(color), background: None, bold: false, italic: false },
        }
    }

    /// A text in the colour `color`, bold.
    pub fn strong(text: &str, color: Color) -> (s: Span)
        ensures
            s@ == strong(text@, color),
    {
        Span {
            text: text.to_owned(),
            style: Style { foreground: Some(color), background: None, bold: true, italic: false },
        }
    }

    /// This span, with its text filled up to `width` characters.
    pub fn wide(self, width: usize) -> (s: Span)
        ensures
            s@ == wide(self@, width as nat),
    {
        let mut text = self.text;
        let len: usize = chars_of(text.as_str()).len();
        if len < width {
            text.append(repeat(" ", width - len).as_str());
        }
        Span { text, style: self.style }
    }
}

/// Writes `unit` `n` times over.
pub fn repeat(unit: &str, n: usize) -> (r: String)
    ensures
        r@ == repeated(unit@, n as nat),
{
    let mut r = String::new();
    let mut i: usize = 0;
    while i < n
        invariant
            i <= n,
            r@ == repeated(unit@, i as nat),
        decreases n - i,
    {
        r.append(unit);
        i += 1;
    }
    r
}

/// `colored::ColoredString`, a text with the colours and styles that the
/// `colored` crate is to write it in. Nothing is said of what is inside.
#[verifier::external_type_specification]
#[verifier::external_body]
pub struct ExColoredString(colored::ColoredString);

/// `ColoredString::from` of the `colored` crate: a text without colour or
/// style.
#[verifier::external_body]
fn fresh(text: &str) -> colored::ColoredString {
    colored::ColoredString::from(text)
}

/// `Colorize::color` of the `colored` crate, with the colour given by its
/// name: sets the colour of the characters.
#[verifier::external_body]
fn with_foreground(s: colored::ColoredString, name: &str) -> colored::ColoredString {
    colored::Colorize::color(s, name)
}

/// `Colorize::on_color` of the `colored` crate, with the colour given by
/// its name: sets the colour behind the characters.
#[verifier::external_body]
fn with_background(s: colored::ColoredString, name: &str) -> colored::ColoredString {
    colored::Colorize::on_color(s, name)
}

/// `Colorize::bold` of the `colored` crate.
#[verifier::external_body]
fn with_bold(s: colored::ColoredString) -> colored::ColoredString {
    colored::Colorize::bold(s)
}

/// `Colorize::italic` of the `colored` crate.
#[verifier::external_body]
fn with_italic(s: colored::ColoredString) -> colored::ColoredString {
    colored::Colorize::italic(s)
}

/// The `Display` of a `ColoredString`. What it writes depends on the
/// environment: with colours switched off it is the text alone, else the
/// text between escape sequences.
#[verifier::external_body]
fn shown(s: &colored::ColoredString) -> String {
    format!("{}", s)
}

/// Whether a span is written as it stands: it has no style.
pub open spec fn is_bare(span: SpanView) -> bool {
    span.style == Style::none()
}

/// The characters that show `span` on a terminal. A span without style is
/// written as it stands.
pub fn paint(span: &Span) -> (r: String)
    ensures
        is_bare(span@) ==> r@ == span.text@,
{
    let style = span.style;
    if style.foreground.is_none() && style.background.is_none() && !style.bold && !style.italic {
        return span.text.clone();
    }
    let mut s = fresh(span.text.as_str());
    match style.foreground {
        Some(color) => {
            s = with_foreground(s, color.to_str());
        },
        None => {},
    }
    match style.background {
        Some(color) => {
            s = with_background(s, color.to_str());
        },
        None => {},
    }
    if style.bold {
        s = with_bold(s);
    }
    if style.italic {
        s = with_italic(s);
    }
    shown(&s)
}

/// Whether `parts` can be what the spans look like on a terminal: there is
/// one part for each span, and a span that is written as it stands is its
/// own part.
pub open spec fn shows(spans: Seq<SpanView>, parts: Seq<Seq<char>>) -> bool {
    &&& parts.len() == spans.len()
    &&& forall|i: int| 0 <= i < spans.len() && is_bare(#[trigger] spans[i]) ==> parts[i] == spans[i].text
}

/// The texts `parts` one after another.
pub open spec fn chained(parts: Seq<Seq<char>>) -> Seq<char>
    decreases parts.len(),
{
    if parts.len() == 0 {
        seq![]
    } else {
        chained(parts.drop_last()) + parts.last()
    }
}

/// Paints each span.
pub fn paint_all(spans: &Vec<Span>) -> (parts: Vec<String>)
    ensures
        shows(span_views(spans@), texts(parts@)),
{
    let mut parts: Vec<String> = Vec::new();
    let mut i: usize = 0;
    while i < spans.len()
        invariant
            i <= spans.len(),
            parts.len() == i,
            forall|j: int|
                0 <= j < i && is_bare(#[trigger] span_views(spans@)[j]) ==> texts(parts@)[j]
                    == span_views(spans@)[j].text,
        decreases spans.len() - i,
    {
        let part = paint(&spans[i]);
        parts.push(part);
        i += 1;
    }
    parts
}

/// Puts the painted parts one after another.
pub fn assemble(parts: &Vec<String>) -> (r: String)
    ensures
        r@ == chained(texts(parts@)),
{
    let mut r = String::new();
    let mut i: usize = 0;
    assert(texts(parts@).take(0) =~= Seq::<Seq<char>>::empty());
    while i < parts.len()
        invariant
            i <= parts.len(),
            r@ == chained(texts(parts@).take(i as int)),
        decreases parts.len() - i,
    {
        proof {
            let all = texts(parts@);
            assert(all.take(i + 1).drop_last() =~= all.take(i as int));
            assert(all.take(i + 1).last() == parts@[i as int]@);
        }
        r.append(parts[i].as_str());
        i += 1;
    }
    assert(texts(parts@).take(parts.len() as int) =~= texts(parts@));
    r
}

/// The characters that show `spans` on a terminal, one span after another.
pub fn render(spans: &Vec<Span>) -> (r: String)
    ensures
        exists|parts: Seq<Seq<char>>| shows(span_views(spans@), parts) && r@ == chained(parts),
{
    let parts = paint_all(spans);
    assemble(&parts)
}

/// A headline: the emoji, then the title in bold `color`.
pub open spec fn header_spans(title: Seq<char>, emoji: Seq<char>, color: Color) -> Seq<SpanView> {
    seq![plain(emoji), plain(" "@), strong(title, color)]
}

/// Lays out a headline.
pub fn header(title: &str, emoji: &str, color: Color) -> (r: Vec<Span>)
    ensures
        span_views(r@) == header_spans(title@, emoji@, color),
{
    let mut r: Vec<Span> = Vec::new();
    r.push(Span::plain(emoji));
    r.push(Span::plain(" "));
    r.push(Span::strong(title, color));
    assert(span_views(r@) =~= header_spans(title@, emoji@, color));
    r
}

/// The line that sets sections apart.
pub open spec fn divider() -> Seq<char> {
    repeated("â”€"@, 50)
}

/// The head of a section: a line, the title behind a mark, a line.
pub open spec fn section_spans(title: Seq<char>) -> Seq<SpanView> {
    seq![
        plain("\n"@),
        tinted(divider(), Color::BrightBlack),
        plain("\n"@),
        strong("â–¶"@, Color::BrightBlue),
        plain(" "@),
        strong(title, Color::BrightWhite),
        plain("\n"@),
        tinted(divider(), Color::BrightBlack),
    ]
}

/// Lays out the head of a section.
pub fn section_divider(title: &str) -> (r: Vec<Span>)
    ensures
        span_views(r@) == section_spans(title@),
{
    let line = repeat("â”€", 50);
    let mut r: Vec<Span> = Vec::new();
    r.push(Span::plain("\n"));
    r.push(Span::tinted(line.as_str(), Color::BrightBlack));
    r.push(Span::plain("\n"));
    r.push(Span::strong("â–¶", Color::BrightBlue));
    r.push(Span::plain(" "));
    r.push(Span::strong(title, Color::BrightWhite));
    r.push(Span::plain("\n"));
    r.push(Span::tinted(line.as_str(), Color::BrightBlack));
    assert(span_views(r@) =~= section_spans(title@));
    r
}

/// One row of the summary box: the label, filled up to twenty characters,
/// and the value.
pub open spec fn summary_row(label: Seq<char>, value: Seq<char>) -> Seq<SpanView> {
    seq![
        plain("â”‚ "@),
        wide(tinted(label, Color::BrightBlue), 20),
        plain(" "@),
        tinted("â”‚"@, Color::BrightBlack),
        plain(" "@),
        strong(value, Color::BrightWhite),
        plain("\n"@),
    ]
}

/// The rows of the summary box for `items`.
pub open spec fn summary_rows(items: Seq<(Seq<char>, Seq<char>)>) -> Seq<SpanView>
    decreases items.len(),
{
    if items.len() == 0 {
        seq![]
    } else {
        summary_rows(items.drop_last()) + summary_row(items.last().0, items.last().1)
    }
}

/// The summary box: a top line, a row for each item, a bottom line.
pub open spec fn summary_spans(items: Seq<(Seq<char>, Seq<char>)>) -> Seq<SpanView> {
    seq![tinted("â”Œâ”€ Summary â”€â”€â”€â”€â”€â”€â”€â”€â”€â”€â”€â”€â”€â”€â”€â”€â”€â”€â”€â”€â”€â”€â”€â”€â”€â”€â”€â”€â”€â”€â”€â”€â”€â”€â”€â”€â”€â”€â”€â”€â”€â”\n"@, Color::BrightBlack)] + summary_rows(items) + seq![
        tinted("â””â”€â”€â”€â”€â”€â”€â”€â”€â”€â”€â”€â”€â”€â”€â”€â”€â”€â”€â”€â”€â”€â”€â”€â”€â”€â”€â”€â”€â”€â”€â”€â”€â”€â”€â”€â”€â”€â”€â”€â”€â”€â”€â”€â”€â”€â”€â”€â”€â”€â”€â”€â”˜\n"@, Color::BrightBlack),
    ]
}

/// The views of labelled values.
pub open spec fn item_views(items: Seq<(&str, String)>) -> Seq<(Seq<char>, Seq<char>)> {
    items.map_values(|item: (&str, String)| (item.0@, item.1@))
}

/// Lays out the summary box.
pub fn summary_box(items: &[(&str, String)]) -> (r: Vec<Span>)
    ensures
        span_views(r@) == summary_spans(item_views(items@)),
{
    let ghost views = item_views(items@);
    let ghost top = seq![tinted("â”Œâ”€ Summary â”€â”€â”€â”€â”€â”€â”€â”€â”€â”€â”€â”€â”€â”€â”€â”€â”€â”€â”€â”€â”€â”€â”€â”€â”€â”€â”€â”€â”€â”€â”€â”€â”€â”€â”€â”€â”€â”€â”€â”€â”€â”\n"@, Color::BrightBlack)];
    let mut r: Vec<Span> = Vec::new();
    r.push(Span::tinted("â”Œâ”€ Summary â”€â”€â”€â”€â”€â”€â”€â”€â”€â”€â”€â”€â”€â”€â”€â”€â”€â”€â”€â”€â”€â”€â”€â”€â”€â”€â”€â”€â”€â”€â”€â”€â”€â”€â”€â”€â”€â”€â”€â”€â”€â”\n", Color::BrightBlack));
    assert(span_views(r@) =~= top + summary_rows(views.take(0))) by {
        assert(views.take(0) =~= Seq::<(Seq<char>, Seq<char>)>::empty());
    }
    let mut i: usize = 0;
    while i < items.len()
        invariant
            i <= items.len(),
            views == item_views(items@),
            top == seq![tinted("â”Œâ”€ Summary â”€â”€â”€â”€â”€â”€â”€â”€â”€â”€â”€â”€â”€â”€â”€â”€â”€â”€â”€â”€â”€â”€â”€â”€â”€â”€â”€â”€â”€â”€â”€â”€â”€â”€â”€â”€â”€â”€â”€â”€â”€â”\n"@, Color::BrightBlack)],
            span_views(r@) =~= top + summary_rows(views.take(i as int)),
        decreases items.len() - i,
    {
        let ghost before = span_views(r@);
        r.push(Span::plain("â”‚ "));
        r.push(Span::tinted(items[i].0, Color::BrightBlue).wide(20));
        r.push(Span::plain(" "));
        r.push(Span::tinted("â”‚", Color::BrightBlack));
        r.push(Span::plain(" "));
        r.push(Span::strong(items[i].1.as_str(), Color::BrightWhite));
        r.push(Span::plain("\n"));
        proof {
            assert(views.take(i + 1).drop_last() =~= views.take(i as int));
            assert(views.take(i + 1).last() == views[i as int]);
            assert(span_views(r@) =~= before + summary_row(views[i as int].0, views[i as int].1));
        }
        i += 1;
    }
    assert(views.take(items.len() as int) =~= views);
    let ghost before = span_views(r@);
    r.push(Span::tinted("â””â”€â”€â”€â”€â”€â”€â”€â”€â”€â”€â”€â”€â”€â”€â”€â”€â”€â”€â”€â”€â”€â”€â”€â”€â”€â”€â”€â”€â”€â”€â”€â”€â”€â”€â”€â”€â”€â”€â”€â”€â”€â”€â”€â”€â”€â”€â”€â”€â”€â”€â”€â”˜\n", Color::BrightBlack));
    assert(span_views(r@) =~= before + seq![tinted("â””â”€â”€â”€â”€â”€â”€â”€â”€â”€â”€â”€â”€â”€â”€â”€â”€â”€â”€â”€â”€â”€â”€â”€â”€â”€â”€â”€â”€â”€â”€â”€â”€â”€â”€â”€â”€â”€â”€â”€â”€â”€â”€â”€â”€â”€â”€â”€â”€â”€â”€â”€â”˜\n"@, Color::BrightBlack)]);
    r
}

/// How many of `width` cells are filled when `current` of `total` are done.
pub open spec fn filled_cells(current: nat, total: nat, width: nat) -> nat {
    (current * width) / total
}

/// A progress bar `width` cells wide with the count behind it; nothing
/// where the total is zero.
pub open spec fn progress_spans(current: nat, total: nat, width: nat) -> Seq<SpanView> {
    if total == 0 {
        seq![]
    } else {
        seq![
            plain("["@),
            tinted(repeated("â–ˆ"@, filled_cells(current, total, width)), Color::BrightGreen),
            tinted(
                repeated("â–‘"@, (width - filled_cells(current, total, width)) as nat),
                Color::BrightBlack,
            ),
            plain("] "@),
            strong(decimal(current), Color::BrightWhite),
            plain("/"@),
            tinted(decimal(total), Color::BrightBlack),
        ]
    }
}

/// Lays out a progress bar. Where the total is not zero, the product of
/// `current` and `width` has to fit, and the filled cells must not be more
/// than the bar is wide.
pub fn progress_bar(current: usize, total: usize, width: usize) -> (r: Vec<Span>)
    requires
        total > 0 ==> current * width <= usize::MAX && filled_cells(
            current as nat,
            total as nat,
            width as nat,
        ) <= width,
    ensures
        span_views(r@) == progress_spans(current as nat, total as nat, width as nat),
{
    let mut r: Vec<Span> = Vec::new();
    if total == 0 {
        assert(span_views(r@) =~= Seq::<SpanView>::empty());
        return r;
    }
    let filled: usize = (current * width) / total;
    let empty: usize = width - filled;
    let full_cells = repeat("â–ˆ", filled);
    let empty_cells = repeat("â–‘", empty);
    let done = decimal_text(current);
    let all = decimal_text(total);
    r.push(Span::plain("["));
    r.push(Span::tinted(full_cells.as_str(), Color::BrightGreen));
    r.push(Span::tinted(empty_cells.as_str(), Color::BrightBlack));
    r.push(Span::plain("] "));
    r.push(Span::strong(done.as_str(), Color::BrightWhite));
    r.push(Span::plain("/"));
    r.push(Span::tinted(all.as_str(), Color::BrightBlack));
    assert(span_views(r@) =~= progress_spans(current as nat, total as nat, width as nat));
    r
}

/// The colour of a status: green for good, red for bad.
pub open spec fn status_color(is_good: bool) -> Color {
    if is_good {
        Color::BrightGreen
    } else {
        Color::BrightRed
    }
}

/// A status behind its mark, both in the colour of the status.
pub open spec fn status_spans(status: Seq<char>, is_good: bool) -> Seq<SpanView> {
    seq![
        strong(
            if is_good {
                "âœ“"@
            } else {
                "âœ—"@
            },
            status_color(is_good),
        ),
        plain(" "@),
        tinted(status, status_color(is_good)),
    ]
}

/// Lays out a status behind its mark.
pub fn status_indicator(status: &str, is_good: bool) -> (r: Vec<Span>)
    ensures
        span_views(r@) == status_spans(status@, is_good),
{
    let mut r: Vec<Span> = Vec::new();
    if is_good {
        r.push(Span::strong("âœ“", Color::BrightGreen));
        r.push(Span::plain(" "));
        r.push(Span::tinted(status, Color::BrightGreen));
    } else {
        r.push(Span::strong("âœ—", Color::BrightRed));
        r.push(Span::plain(" "));
        r.push(Span::tinted(status, Color::BrightRed));
    }
    assert(span_views(r@) =~= status_spans(status@, is_good));
    r
}

/// An item of a tree: two spaces for each level, the branch, the content.
/// The last item of its level has a branch of its own.
pub open spec fn tree_spans(content: Seq<SpanView>, is_last: bool, level: nat) -> Seq<SpanView> {
    seq![
        tinted(repeated("  "@, level), Color::BrightBlack),
        tinted(
            if is_last {
                "â””â”€"@
            } else {
                "â”œâ”€"@
            },
            Color::BrightBlack,
        ),
        plain(" "@),
    ] + content
}

/// Lays out an item of a tree.
pub fn tree_item(content: Vec<Span>, is_last: bool, level: usize) -> (r: Vec<Span>)
    ensures
        span_views(r@) == tree_spans(span_views(content@), is_last, level as nat),
{
    let indent = repeat("  ", level);
    let mut content = content;
    let ghost inner = content@;
    let mut r: Vec<Span> = Vec::new();
    r.push(Span::tinted(indent.as_str(), Color::BrightBlack));
    if is_last {
        r.push(Span::tinted("â””â”€", Color::BrightBlack));
    } else {
        r.push(Span::tinted("â”œâ”€", Color::BrightBlack));
    }
    r.push(Span::plain(" "));
    r.append(&mut content);
    assert(span_views(r@) =~= tree_spans(span_views(inner), is_last, level as nat));
    r
}

/// What a badge stands for.
#[derive(Debug, Clone, Copy, PartialEq, Eq, Structural)]
pub enum BadgeType {
    Runtime,
    Dev,
    Build,
    Optional,
    Error,
    Warning,
    Info,
}

impl BadgeType {
    /// The colour behind the text of a badge of this type.
    pub open spec fn background(self) -> Color {
        match self {
            BadgeType::Runtime => Color::BrightGreen,
            BadgeType::Dev => Color::BrightYellow,
            BadgeType::Build => Color::BrightBlue,
            BadgeType::Optional => Color::BrightMagenta,
            BadgeType::Error => Color::BrightRed,
            BadgeType::Warning => Color::Yellow,
            BadgeType::Info => Color::Cyan,
        }
    }

    /// The colour of the text of a badge of this type.
    pub open spec fn foreground(self) -> Color {
        match self {
            BadgeType::Runtime => Color::Black,
            BadgeType::Dev => Color::Black,
            BadgeType::Build => Color::White,
            BadgeType::Optional => Color::White,
            BadgeType::Error => Color::White,
            BadgeType::Warning => Color::Black,
            BadgeType::Info => Color::Black,
        }
    }
}

/// A badge: the text in bold on the colour of its type, a space on either
/// side.
pub open spec fn badge_spans(text: Seq<char>, badge_type: BadgeType) -> Seq<SpanView> {
    seq![
        plain(" "@),
        styled(
            text,
            Style {
                foreground: Some(badge_type.foreground()),
                background: Some(badge_type.background()),
                bold: true,
                italic: false,
            },
        ),
        plain(" "@),
    ]
}

/// Lays out a badge.
pub fn badge(text: &str, badge_type: BadgeType) -> (r: Vec<Span>)
    ensures
        span_views(r@) == badge_spans(text@, badge_type),
{
    let (background, foreground) = match badge_type {
        BadgeType::Runtime => (Color::BrightGreen, Color::Black),
        BadgeType::Dev => (Color::BrightYellow, Color::Black),
        BadgeType::Build => (Color::BrightBlue, Color::White),
        BadgeType::Optional => (Color::BrightMagenta, Color::White),
        BadgeType::Error => (Color::BrightRed, Color::White),
        BadgeType::Warning => (Color::Yellow, Color::Black),
        BadgeType::Info => (Color::Cyan, Color::Black),
    };
    let mut r: Vec<Span> = Vec::new();
    r.push(Span::plain(" "));
    r.push(
        Span::styled(
            text,
            Style {
                foreground: Some(foreground),
                background: Some(background),
                bold: true,
                italic: false,
            },
        ),
    );
    r.push(Span::plain(" "));
    assert(span_views(r@) =~= badge_spans(text@, badge_type));
    r
}

/// The style of a path: grey and italic.
pub open spec fn path_style() -> Style {
    Style { foreground: Some(Color::BrightBlack), italic: true, ..Style::none() }
}

/// A path as it is shown.
pub open spec fn path_spans(path: Seq<char>) -> Seq<SpanView> {
    seq![styled(path, path_style())]
}

/// Lays out a path.
pub fn file_path(path: &str) -> (r: Vec<Span>)
    ensures
        span_views(r@) == path_spans(path@),
{
    let mut r: Vec<Span> = Vec::new();
    r.push(
        Span::styled(
            path,
            Style {
                foreground: Some(Color::BrightBlack),
                background: None,
                bold: false,
                italic: true,
            },
        ),
    );
    assert(span_views(r@) =~= path_spans(path@));
    r
}

/// `text` in lower case, by the rules of Unicode.
pub uninterp spec fn lowercase(text: Seq<char>) -> Seq<char>;

/// `str::to_lowercase` of the standard library. The result depends on the
/// text alone.
#[verifier::external_body]
fn lowercased(text: &str) -> (r: String)
    ensures
        r@ == lowercase(text@),
{
    text.to_lowercase()
}

/// The icon of the ecosystem with the lower-case name `name`.
pub open spec fn icon_of(name: Seq<char>) -> Seq<char> {
    if name == "rust"@ {
        "ğŸ¦€"@
    } else if name == "node.js"@ || name == "nodejs"@ {
        "ğŸ“¦"@
    } else if name == "python"@ {
        "ğŸ"@
    } else if name == "go"@ {
        "ğŸ¹"@
    } else {
        "ğŸ“„"@
    }
}

/// Picks the icon of the ecosystem with the lower-case name `name`.
pub fn icon_for(name: &str) -> (icon: String)
    ensures
        icon@ == icon_of(name@),
{
    if same_text(name, "rust") {
        "ğŸ¦€".to_owned()
    } else if same_text(name, "node.js") || same_text(name, "nodejs") {
        "ğŸ“¦".to_owned()
    } else if same_text(name, "python") {
        "ğŸ".to_owned()
    } else if same_text(name, "go") {
        "ğŸ¹".to_owned()
    } else {
        "ğŸ“„".to_owned()
    }
}

/// Picks the icon of an ecosystem by its name, in whatever case.
pub fn ecosystem_icon(ecosystem: &str) -> (icon: String)
    ensures
        icon@ == icon_of(lowercase(ecosystem@)),
{
    let name = lowercased(ecosystem);
    icon_for(name.as_str())
}

/// A package with its version, and a mark where it is known whether the
/// version is the latest.
pub open spec fn version_spans(name: Seq<char>, version: Seq<char>, is_latest: Option<bool>) -> Seq<
    SpanView,
> {
    seq![strong(name, Color::BrightWhite), plain(" "@), tinted(version, Color::BrightGreen)] + (
    match is_latest {
        Some(true) => seq![plain(" "@), tinted("âœ“"@, Color::BrightGreen)],
        Some(false) => seq![plain(" "@), tinted("âš "@, Color::Yellow)],
        None => seq![],
    })
}

/// Lays out a package with its version.
pub fn version_display(name: &str, version: &str, is_latest: Option<bool>) -> (r: Vec<Span>)
    ensures
        span_views(r@) == version_spans(name@, version@, is_latest),
{
    let mut r: Vec<Span> = Vec::new();
    r.push(Span::strong(name, Color::BrightWhite));
    r.push(Span::plain(" "));
    r.push(Span::tinted(version, Color::BrightGreen));
    match is_latest {
        Some(true) => {
            r.push(Span::plain(" "));
            r.push(Span::tinted("âœ“", Color::BrightGreen));
        },
        Some(false) => {
            r.push(Span::plain(" "));
            r.push(Span::tinted("âš ", Color::Yellow));
        },
        None => {},
    }
    assert(span_views(r@) =~= version_spans(name@, version@, is_latest));
    r
}

/// The colour in which a kind of dependency is written in the table.
pub open spec fn kind_color(dep_type: Seq<char>) -> Color {
    if dep_type == "runtime"@ {
        Color::BrightGreen
    } else if dep_type == "dev"@ {
        Color::BrightYellow
    } else if dep_type == "build"@ {
        Color::BrightBlue
    } else {
        Color::BrightMagenta
    }
}

/// A row of the table of dependencies: four cells of 25, 12, 8 and 20
/// characters between bars.
pub open spec fn row_spans(
    name: SpanView,
    version: SpanView,
    dep_type: SpanView,
    source: SpanView,
) -> Seq<SpanView> {
    seq![
        plain("â”‚ "@),
        wide(name, 25),
        plain(" â”‚ "@),
        wide(version, 12),
        plain(" â”‚ "@),
        wide(dep_type, 8),
        plain(" â”‚ "@),
        wide(source, 20),
        plain(" â”‚"@),
    ]
}

fn row(name: Span, version: Span, dep_type: Span, source: Span) -> (r: Vec<Span>)
    ensures
        span_views(r@) == row_spans(name@, version@, dep_type@, source@),
{
    let mut r: Vec<Span> = Vec::new();
    r.push(Span::plain("â”‚ "));
    r.push(name.wide(25));
    r.push(Span::plain(" â”‚ "));
    r.push(version.wide(12));
    r.push(Span::plain(" â”‚ "));
    r.push(dep_type.wide(8));
    r.push(Span::plain(" â”‚ "));
    r.push(source.wide(20));
    r.push(Span::plain(" â”‚"));
    assert(span_views(r@) =~= row_spans(name@, version@, dep_type@, source@));
    r
}

/// The row of the table for one dependency.
pub open spec fn dependency_row_spans(
    name: Seq<char>,
    version: Seq<char>,
    dep_type: Seq<char>,
    source: Seq<char>,
) -> Seq<SpanView> {
    row_spans(
        strong(name, Color::BrightWhite),
        tinted(version, Color::BrightGreen),
        tinted(dep_type, kind_color(dep_type)),
        styled(source, path_style()),
    )
}

/// Lays out the row of the table for one dependency.
pub fn dependency_table_row(name: &str, version: &str, dep_type: &str, source: &str) -> (r: Vec<
    Span,
>)
    ensures
        span_views(r@) == dependency_row_spans(name@, version@, dep_type@, source@),
{
    let color = if same_text(dep_type, "runtime") {
        Color::BrightGreen
    } else if same_text(dep_type, "dev") {
        Color::BrightYellow
    } else if same_text(dep_type, "build") {
        Color::BrightBlue
    } else {
        Color::BrightMagenta
    };
    row(
        Span::strong(name, Color::BrightWhite),
        Span::tinted(version, Color::BrightGreen),
        Span::tinted(dep_type, color),
        Span::styled(
            source,
            Style {
                foreground: Some(Color::BrightBlack),
                background: None,
                bold: false,
                italic: true,
            },
        ),
    )
}

/// A line of the table's frame: the four cells drawn through, with a corner
/// at either end and a joint between the cells.
pub open spec fn rule(left: Seq<char>, joint: Seq<char>, right: Seq<char>) -> Seq<char> {
    left + repeated("â”€"@, 25) + joint + repeated("â”€"@, 12) + joint + repeated(
        "â”€"@,
        8,
    ) + joint + repeated("â”€"@, 20) + right
}

fn rule_text(left: &str, joint: &str, right: &str) -> (r: String)
    ensures
        r@ == rule(left@, joint@, right@),
{
    let mut r = left.to_owned();
    r.append(repeat("â”€", 25).as_str());
    r.append(joint);
    r.append(repeat("â”€", 12).as_str());
    r.append(joint);
    r.append(repeat("â”€", 8).as_str());
    r.append(joint);
    r.append(repeat("â”€", 20).as_str());
    r.append(right);
    r
}

/// The head of the table of dependencies: the top of the frame, the titles
/// of the columns, and the line below them.
pub open spec fn table_header_spans() -> Seq<SpanView> {
    seq![tinted(rule("â”Œâ”€"@, "â”€â”¬â”€"@, "â”€â”"@), Color::BrightBlack), plain("\n"@)]
        + row_spans(
        strong("Package"@, Color::BrightBlue),
        strong("Version"@, Color::BrightBlue),
        strong("Type"@, Color::BrightBlue),
        strong("Source"@, Color::BrightBlue),
    ) + seq![
        plain("\n"@),
        tinted(rule("â”œâ”€"@, "â”€â”¼â”€"@, "â”€â”¤"@), Color::BrightBlack),
    ]
}

/// Lays out the head of the table of dependencies.
pub fn dependency_table_header() -> (r: Vec<Span>)
    ensures
        span_views(r@) == table_header_spans(),
{
    let top = rule_text("â”Œâ”€", "â”€â”¬â”€", "â”€â”");
    let below = rule_text("â”œâ”€", "â”€â”¼â”€", "â”€â”¤");
    let mut titles = row(
        Span::strong("Package", Color::BrightBlue),
        Span::strong("Version", Color::BrightBlue),
        Span::strong("Type", Color::BrightBlue),
        Span::strong("Source", Color::BrightBlue),
    );
    let ghost middle = span_views(titles@);
    let mut r: Vec<Span> = Vec::new();
    r.push(Span::tinted(top.as_str(), Color::BrightBlack));
    r.push(Span::plain("\n"));
    r.append(&mut titles);
    r.push(Span::plain("\n"));
    r.push(Span::tinted(below.as_str(), Color::BrightBlack));
    assert(span_views(r@) =~= table_header_spans());
    r
}

/// The foot of the table of dependencies: the bottom of the frame.
pub open spec fn table_footer_spans() -> Seq<SpanView> {
    seq![tinted(rule("â””â”€"@, "â”€â”´â”€"@, "â”€â”˜"@), Color::BrightBlack)]
}

/// Lays out the foot of the table of dependencies.
pub fn dependency_table_footer() -> (r: Vec<Span>)
    ensures
        span_views(r@) == table_footer_spans(),
{
    let bottom = rule_text("â””â”€", "â”€â”´â”€", "â”€â”˜");
    let mut r: Vec<Span> = Vec::new();
    r.push(Span::tinted(bottom.as_str(), Color::BrightBlack));
    assert(span_views(r@) =~= table_footer_spans());
    r
}

} // verus!
