use vstd::prelude::*;
use vstd::string::{StrSliceExecFns, StringSliceAdditionalSpecFns};
use crate::bounded::{
    label_as_str, label_chars, label_from_str, label_new, label_push, lines_as_str, lines_chars,
    lines_from_str, lines_new, lines_push,
};
use crate::display::{Align, Canvas, Color, Draw};
use crate::event::Duration;
use crate::geometry::Point;
use crate::tr_theme;

verus! {

/// Bold white text on black, starting at `baseline`.
pub fn display_bold(baseline: Point, text: &str, canvas: &mut Canvas)
    ensures
        final(canvas)@ == old(canvas)@.push(bold_text(baseline, text@, Align::Left)),
{
    canvas.text(
        baseline,
        text,
        tr_theme::FONT_BOLD,
        Color { value: tr_theme::FG },
        Color { value: tr_theme::BG },
        Align::Left,
    );
}

/// Bold white text on black, centred on `baseline`.
pub fn display_bold_center(baseline: Point, text: &str, canvas: &mut Canvas)
    ensures
        final(canvas)@ == old(canvas)@.push(bold_text(baseline, text@, Align::Center)),
{
    canvas.text(
        baseline,
        text,
        tr_theme::FONT_BOLD,
        Color { value: tr_theme::FG },
        Color { value: tr_theme::BG },
        Align::Center,
    );
}

/// Bold white text on black, ending at `baseline`.
pub fn display_bold_right(baseline: Point, text: &str, canvas: &mut Canvas)
    ensures
        final(canvas)@ == old(canvas)@.push(bold_text(baseline, text@, Align::Right)),
{
    canvas.text(
        baseline,
        text,
        tr_theme::FONT_BOLD,
        Color { value: tr_theme::FG },
        Color { value: tr_theme::BG },
        Align::Right,
    );
}

pub open spec fn bold_text(at: Point, text: Seq<char>, align: Align) -> Draw {
    Draw::Text { at, text, font: tr_theme::FONT_BOLD, fg: tr_theme::fg(), bg: tr_theme::bg(), align }
}

/// How one logical position is configured: its text and, for
/// hold-to-confirm, how long it must be held.
#[derive(Copy, Clone, Debug)]
pub struct ButtonDetails {
    pub text: &'static str,
    pub duration: Option<Duration>,
}

impl ButtonDetails {
    pub fn new(text: &'static str) -> (d: ButtonDetails)
        ensures
            d.text == text,
            d.duration is None,
    {
        ButtonDetails { text, duration: None }
    }

    pub fn with_duration(self, duration: Duration) -> (d: ButtonDetails)
        ensures
            d.text == self.text,
            d.duration == Some(duration),
    {
        ButtonDetails { text: self.text, duration: Some(duration) }
    }
}

} // verus!

verus! {

/// The lines of `s` split at each `d`, as `str::split` gives them: an
/// empty text is one empty line, and a trailing delimiter ends with an
/// empty line.
pub open spec fn lines_of(s: Seq<char>, d: char) -> Seq<Seq<char>>
    decreases s.len(),
{
    if s.len() == 0 {
        seq![Seq::empty()]
    } else {
        let prev = lines_of(s.drop_last(), d);
        if s.last() == d {
            prev.push(Seq::empty())
        } else {
            prev.update(prev.len() - 1, prev.last().push(s.last()))
        }
    }
}

pub proof fn lemma_lines_count(s: Seq<char>, d: char)
    ensures
        1 <= lines_of(s, d).len() <= s.len() + 1,
    decreases s.len(),
{
    if s.len() > 0 {
        lemma_lines_count(s.drop_last(), d);
    }
}

pub open spec fn views_of(v: Seq<&str>) -> Seq<Seq<char>> {
    v.map_values(|l: &str| l@)
}

/// Splits a text into its lines at each delimiter.
pub fn split_lines<'a>(text: &'a str, delimiter: char) -> (r: Vec<&'a str>)
    ensures
        views_of(r@) == lines_of(text@, delimiter),
{
    let n: usize = text.unicode_len();
    let mut out: Vec<&'a str> = Vec::new();
    let mut start: usize = 0;
    let mut i: usize = 0;
    assert(text@.subrange(0, 0) =~= Seq::<char>::empty());
    assert(views_of(out@) + seq![text@.subrange(0, 0)] =~= lines_of(text@.subrange(0, 0), delimiter));
    while i < n
        invariant
            n == text@.len(),
            start <= i <= n,
            views_of(out@) + seq![text@.subrange(start as int, i as int)] == lines_of(
                text@.subrange(0, i as int),
                delimiter,
            ),
        decreases n - i,
    {
        let c = text.get_char(i);
        let ghost prefix = text@.subrange(0, i + 1);
        assert(prefix.drop_last() =~= text@.subrange(0, i as int));
        assert(prefix.last() == c);
        if c == delimiter {
            let line = text.substring_char(start, i);
            let ghost before = views_of(out@);
            out.push(line);
            assert(views_of(out@) =~= before.push(line@));
            start = i + 1;
            assert(text@.subrange(start as int, i + 1) =~= Seq::<char>::empty());
            assert(views_of(out@) + seq![text@.subrange(start as int, i + 1)] =~= lines_of(
                prefix,
                delimiter,
            ));
        } else {
            assert(text@.subrange(start as int, i + 1) =~= text@.subrange(start as int, i as int).push(c));
            assert(views_of(out@) + seq![text@.subrange(start as int, i + 1)] =~= lines_of(
                prefix,
                delimiter,
            ));
        }
        i = i + 1;
    }
    let last = text.substring_char(start, n);
    let ghost before = views_of(out@);
    out.push(last);
    assert(views_of(out@) =~= before.push(last@));
    assert(text@.subrange(0, n as int) =~= text@);
    assert(views_of(out@) =~= lines_of(text@, delimiter));
    out
}

/// Bold lines one below the other, ten pixels apart, the first at `(x, y)`.
#[verifier::opaque]
pub open spec fn lines_paint(lines: Seq<Seq<char>>, x: int, y: int, align: Align) -> Seq<Draw> {
    Seq::new(
        lines.len(),
        |i: int| bold_text(Point { x: x as i32, y: (y + 10 * i) as i32 }, lines[i], align),
    )
}

/// Paints each line of `text` in bold, from `(x, y)` downwards.
fn paint_lines(text: &str, delimiter: char, x: i32, y: i32, align: Align, canvas: &mut Canvas)
    requires
        text@.len() <= 100,
        0 <= x <= 200,
        0 <= y <= 200,
    ensures
        final(canvas)@ == old(canvas)@ + lines_paint(lines_of(text@, delimiter), x as int, y as int, align),
{
    let lines = split_lines(text, delimiter);
    proof {
        lemma_lines_count(text@, delimiter);
        reveal(lines_paint);
    }
    let ghost all = views_of(lines@);
    let mut k: usize = 0;
    assert(lines_paint(all.subrange(0, 0), x as int, y as int, align) =~= Seq::<Draw>::empty());
    assert(old(canvas)@ + Seq::<Draw>::empty() =~= old(canvas)@);
    while k < lines.len()
        invariant
            all == views_of(lines@),
            all.len() <= 101,
            k <= lines@.len(),
            0 <= x <= 200,
            0 <= y <= 200,
            canvas@ == old(canvas)@ + lines_paint(all.subrange(0, k as int), x as int, y as int, align),
        decreases lines@.len() - k,
    {
        let at = Point::new(x, y + 10 * (k as i32));
        let line = lines[k];
        match align {
            Align::Left => display_bold(at, line, canvas),
            Align::Center => display_bold_center(at, line, canvas),
            Align::Right => display_bold_right(at, line, canvas),
        }
        reveal(lines_paint);
        assert(lines_paint(all.subrange(0, k + 1), x as int, y as int, align) =~= lines_paint(
            all.subrange(0, k as int),
            x as int,
            y as int,
            align,
        ).push(bold_text(at, line@, align)));
        k = k + 1;
    }
    assert(all.subrange(0, k as int) =~= all);
}

pub const MIDDLE_ROW: i32 = 72;
pub const LEFT_COL: i32 = 5;
pub const MIDDLE_COL: i32 = 64;
pub const RIGHT_COL: i32 = 123;

/// Something that the choice engine can show as the current item (centre,
/// lower) or as a neighbour (left or right).
pub trait ChoiceItem {
    spec fn spec_paint_center(&self) -> Seq<Draw>;

    spec fn spec_paint_left(&self) -> Seq<Draw>;

    spec fn spec_paint_right(&self) -> Seq<Draw>;

    fn paint_center(&self, canvas: &mut Canvas)
        ensures
            final(canvas)@ == old(canvas)@ + self.spec_paint_center(),
    ;

    fn paint_left(&self, canvas: &mut Canvas)
        ensures
            final(canvas)@ == old(canvas)@ + self.spec_paint_left(),
    ;

    fn paint_right(&self, canvas: &mut Canvas)
        ensures
            final(canvas)@ == old(canvas)@ + self.spec_paint_right(),
    ;
}

/// A one-line choice of up to 50 bytes.
pub struct StringChoiceItem {
    pub text: heapless::String<50>,
}

impl StringChoiceItem {
    pub fn from_slice(slice: &str) -> (r: StringChoiceItem)
        requires
            slice.spec_bytes().len() <= 50,
        ensures
            label_chars(r.text) == slice@,
    {
        StringChoiceItem { text: label_from_str(slice) }
    }

    pub fn from_char(ch: char) -> (r: StringChoiceItem)
        ensures
            label_chars(r.text) == seq![ch],
    {
        let mut text = label_new();
        label_push(&mut text, ch);
        StringChoiceItem { text }
    }
}

impl ChoiceItem for StringChoiceItem {
    open spec fn spec_paint_center(&self) -> Seq<Draw> {
        seq![bold_text(Point { x: MIDDLE_COL, y: (MIDDLE_ROW + 10) as i32 }, label_chars(self.text), Align::Center)]
    }

    open spec fn spec_paint_left(&self) -> Seq<Draw> {
        seq![bold_text(Point { x: LEFT_COL, y: MIDDLE_ROW }, label_chars(self.text), Align::Left)]
    }

    open spec fn spec_paint_right(&self) -> Seq<Draw> {
        seq![bold_text(Point { x: RIGHT_COL, y: MIDDLE_ROW }, label_chars(self.text), Align::Right)]
    }

    /// The current item sits lower than its neighbours so that it stands out
    /// and does not collide with them.
    fn paint_center(&self, canvas: &mut Canvas) {
        display_bold_center(Point::new(MIDDLE_COL, MIDDLE_ROW + 10), label_as_str(&self.text), canvas);
        assert(canvas@ =~= old(canvas)@ + self.spec_paint_center());
    }

    fn paint_left(&self, canvas: &mut Canvas) {
        display_bold(Point::new(LEFT_COL, MIDDLE_ROW), label_as_str(&self.text), canvas);
        assert(canvas@ =~= old(canvas)@ + self.spec_paint_left());
    }

    fn paint_right(&self, canvas: &mut Canvas) {
        display_bold_right(Point::new(RIGHT_COL, MIDDLE_ROW), label_as_str(&self.text), canvas);
        assert(canvas@ =~= old(canvas)@ + self.spec_paint_right());
    }
}

/// A choice of up to 100 bytes shown as several lines, split at the
/// delimiter ('\n' unless set), and the buttons it shows while current.
pub struct MultilineStringChoiceItem {
    pub text: heapless::String<100>,
    pub delimiter: char,
    pub btn_left: Option<ButtonDetails>,
    pub btn_middle: Option<ButtonDetails>,
    pub btn_right: Option<ButtonDetails>,
}

impl MultilineStringChoiceItem {
    pub fn new(
        text: heapless::String<100>,
        btn_left: Option<ButtonDetails>,
        btn_middle: Option<ButtonDetails>,
        btn_right: Option<ButtonDetails>,
    ) -> (r: MultilineStringChoiceItem)
        ensures
            r == (MultilineStringChoiceItem { text, delimiter: '\n', btn_left, btn_middle, btn_right }),
    {
        MultilineStringChoiceItem { text, delimiter: '\n', btn_left, btn_middle, btn_right }
    }

    /// An item without buttons.
    pub fn from_slice(slice: &str) -> (r: MultilineStringChoiceItem)
        requires
            slice.spec_bytes().len() <= 100,
        ensures
            lines_chars(r.text) == slice@,
            r.delimiter == '\n',
            r.btn_left is None && r.btn_middle is None && r.btn_right is None,
    {
        MultilineStringChoiceItem {
            text: lines_from_str(slice),
            delimiter: '\n',
            btn_left: None,
            btn_middle: None,
            btn_right: None,
        }
    }

    /// An item of one character, without buttons.
    pub fn from_char(ch: char) -> (r: MultilineStringChoiceItem)
        ensures
            lines_chars(r.text) == seq![ch],
            r.delimiter == '\n',
            r.btn_left is None && r.btn_middle is None && r.btn_right is None,
    {
        let mut text = lines_new();
        lines_push(&mut text, ch);
        MultilineStringChoiceItem { text, delimiter: '\n', btn_left: None, btn_middle: None, btn_right: None }
    }

    /// Splits lines at `delimiter` instead.
    pub fn use_delimiter(self, delimiter: char) -> (r: MultilineStringChoiceItem)
        ensures
            r == (MultilineStringChoiceItem { delimiter, ..self }),
    {
        MultilineStringChoiceItem { delimiter, ..self }
    }

    pub open spec fn spec_lines(&self) -> Seq<Seq<char>> {
        lines_of(lines_chars(self.text), self.delimiter)
    }
}

impl ChoiceItem for MultilineStringChoiceItem {
    open spec fn spec_paint_center(&self) -> Seq<Draw> {
        lines_paint(self.spec_lines(), MIDDLE_COL as int, MIDDLE_ROW + 10, Align::Center)
    }

    open spec fn spec_paint_left(&self) -> Seq<Draw> {
        lines_paint(self.spec_lines(), LEFT_COL as int, MIDDLE_ROW as int, Align::Left)
    }

    open spec fn spec_paint_right(&self) -> Seq<Draw> {
        lines_paint(self.spec_lines(), RIGHT_COL as int, MIDDLE_ROW as int, Align::Right)
    }

    fn paint_center(&self, canvas: &mut Canvas) {
        paint_lines(lines_as_str(&self.text), self.delimiter, MIDDLE_COL, MIDDLE_ROW + 10, Align::Center, canvas);
    }

    fn paint_left(&self, canvas: &mut Canvas) {
        paint_lines(lines_as_str(&self.text), self.delimiter, LEFT_COL, MIDDLE_ROW, Align::Left, canvas);
    }

    fn paint_right(&self, canvas: &mut Canvas) {
        paint_lines(lines_as_str(&self.text), self.delimiter, RIGHT_COL, MIDDLE_ROW, Align::Right, canvas);
    }
}

} // verus!
