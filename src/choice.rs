use vstd::prelude::*;
use vstd::string::StrSliceExecFns;
use crate::bounded::{choices_get, choices_len, choices_of};
use crate::button::ButtonPos;
use crate::button_controller::{ButtonContainer, ButtonController, ButtonControllerMsg, ButtonState};
use crate::common::{ButtonDetails, ChoiceItem, MultilineStringChoiceItem};
use crate::display::{Canvas, Color, Draw};
use crate::event::{Event, EventCtx};
use crate::geometry::Rect;
use crate::pad::Pad;
use crate::tr_theme;

verus! {

#[derive(Copy, Clone, Debug, PartialEq, Eq, Structural)]
pub enum ChoicePageMsg {
    Choice(u8),
    LeftMost,
    RightMost,
}

/// Whether two texts hold the same characters.
pub fn str_eq(a: &str, b: &str) -> (r: bool)
    ensures
        r == (a@ == b@),
{
    let n = a.unicode_len();
    if n != b.unicode_len() {
        return false;
    }
    let mut i: usize = 0;
    while i < n
        invariant
            n == a@.len() == b@.len(),
            i <= n,
            a@.subrange(0, i as int) == b@.subrange(0, i as int),
        decreases n - i,
    {
        if a.get_char(i) != b.get_char(i) {
            assert(a@[i as int] != b@[i as int]);
            return false;
        }
        assert(a@.subrange(0, i + 1) =~= a@.subrange(0, i as int).push(a@[i as int]));
        assert(b@.subrange(0, i + 1) =~= b@.subrange(0, i as int).push(b@[i as int]));
        i = i + 1;
    }
    assert(a@ =~= a@.subrange(0, n as int));
    assert(b@ =~= b@.subrange(0, n as int));
    true
}

/// Same text and same hold duration.
pub open spec fn same_details(a: Option<ButtonDetails>, b: Option<ButtonDetails>) -> bool {
    match (a, b) {
        (None, None) => true,
        (Some(x), Some(y)) => x.text@ == y.text@ && x.duration == y.duration,
        _ => false,
    }
}

fn details_eq(a: Option<ButtonDetails>, b: Option<ButtonDetails>) -> (r: bool)
    ensures
        r == same_details(a, b),
{
    match (a, b) {
        (None, None) => true,
        (Some(x), Some(y)) => str_eq(x.text, y.text) && x.duration == y.duration,
        _ => false,
    }
}

/// The buttons an item shows while current: left, middle, right.
pub type Layout = (Option<ButtonDetails>, Option<ButtonDetails>, Option<ButtonDetails>);

pub open spec fn layout_of(item: MultilineStringChoiceItem) -> Layout {
    (item.btn_left, item.btn_middle, item.btn_right)
}

/// The controller's positions show what the layout configures: kind, text
/// and hold duration.
pub open spec fn shows_layout(c: ButtonController, l: Layout) -> bool {
    let (left, middle, right) = l;
    &&& ButtonContainer::shows(c.left_btn, left)
    &&& ButtonContainer::shows(c.middle_btn, middle)
    &&& ButtonContainer::shows(c.right_btn, right)
}

pub open spec fn same_layout(a: Layout, b: Layout) -> bool {
    same_details(a.0, b.0) && same_details(a.1, b.1) && same_details(a.2, b.2)
}

/// Lets the user step through an ordered list of items with the left and
/// right buttons and pick the current one with the middle; stepping past
/// either end is reported instead.
pub struct ChoicePage {
    pub choices: heapless::Vec<MultilineStringChoiceItem, 30>,
    pub pad: Pad,
    pub buttons: ButtonController,
    pub page_counter: u8,
}

impl ChoicePage {
    pub open spec fn items(self) -> Seq<MultilineStringChoiceItem> {
        choices_of(self.choices)
    }

    pub open spec fn current(self) -> MultilineStringChoiceItem {
        self.items()[self.page_counter as int]
    }

    /// The buttons show what the current item declares.
    pub open spec fn buttons_match(self) -> bool {
        shows_layout(self.buttons, layout_of(self.current()))
    }

    /// The cursor is always on an item.
    pub open spec fn wf(self) -> bool {
        &&& 1 <= self.items().len() <= 30
        &&& (self.page_counter as int) < self.items().len()
        &&& self.buttons.wf()
        &&& self.buttons_match()
    }

    /// The cursor and message after one event, given the position that the
    /// buttons triggered, if any.
    pub open spec fn spec_step(self, trigger: Option<ButtonControllerMsg>) -> (u8, Option<ChoicePageMsg>) {
        let last = self.items().len() - 1;
        match trigger {
            Some(ButtonControllerMsg::Triggered(ButtonPos::Left)) => if self.page_counter > 0 {
                ((self.page_counter - 1) as u8, None)
            } else {
                (self.page_counter, Some(ChoicePageMsg::LeftMost))
            },
            Some(ButtonControllerMsg::Triggered(ButtonPos::Right)) => if self.page_counter < last {
                ((self.page_counter + 1) as u8, None)
            } else {
                (self.page_counter, Some(ChoicePageMsg::RightMost))
            },
            Some(ButtonControllerMsg::Triggered(ButtonPos::Middle)) => (
                self.page_counter,
                Some(ChoicePageMsg::Choice(self.page_counter)),
            ),
            None => (self.page_counter, None),
        }
    }

    /// The current item in the middle, and its neighbours at the sides when
    /// there are any.
    pub open spec fn spec_items_paint(self) -> Seq<Draw> {
        let c = self.page_counter as int;
        self.current().spec_paint_center() + (if c > 0 {
            self.items()[c - 1].spec_paint_left()
        } else {
            Seq::empty()
        }) + (if c + 1 < self.items().len() {
            self.items()[c + 1].spec_paint_right()
        } else {
            Seq::empty()
        })
    }

    pub open spec fn spec_paint(self) -> Seq<Draw> {
        self.pad.spec_paint() + self.buttons.spec_paint() + self.spec_items_paint()
    }

    /// Starts at the first item, with its buttons.
    pub fn new(choices: heapless::Vec<MultilineStringChoiceItem, 30>) -> (p: ChoicePage)
        requires
            choices_of(choices).len() >= 1,
        ensures
            p.wf(),
            p.items() == choices_of(choices),
            p.page_counter == 0,
            p.buttons.state == ButtonState::Nothing,
    {
        // The list never holds more than its capacity.
        let _held = choices_len(&choices);
        let first = choices_get(&choices, 0);
        let left = first.btn_left;
        let middle = first.btn_middle;
        let right = first.btn_right;
        ChoicePage {
            choices,
            pad: Pad::with_background(Color { value: tr_theme::BG }),
            buttons: ButtonController::new(left, middle, right),
            page_counter: 0,
        }
    }

    /// Replaces the items, for reuse with another category; with
    /// `reset_page_counter` the cursor goes back to the first item.
    pub fn reset(
        &mut self,
        ctx: &mut EventCtx,
        new_choices: heapless::Vec<MultilineStringChoiceItem, 30>,
        reset_page_counter: bool,
    )
        requires
            old(self).wf(),
            choices_of(new_choices).len() >= 1,
            reset_page_counter || (old(self).page_counter as int) < choices_of(new_choices).len(),
        ensures
            final(self).wf(),
            final(self).items() == choices_of(new_choices),
            final(self).page_counter == if reset_page_counter {
                0
            } else {
                old(self).page_counter
            },
            final(self).buttons.state == old(self).buttons.state,
            reset_page_counter ==> final(ctx).paint_requested,
    {
        let prev = self.current_layout();
        // The list never holds more than its capacity.
        let _held = choices_len(&new_choices);
        self.choices = new_choices;
        if reset_page_counter {
            self.page_counter = 0;
            self.update_buttons(ctx, None);
            ctx.request_paint();
            self.pad.clear();
        } else {
            self.update_buttons(ctx, Some(prev));
        }
    }

    /// Moves the cursor to `page_counter` and shows that item's buttons.
    pub fn set_page_counter(&mut self, ctx: &mut EventCtx, page_counter: u8)
        requires
            old(self).wf(),
            (page_counter as int) < old(self).items().len(),
        ensures
            final(self).wf(),
            final(self).page_counter == page_counter,
            final(self).items() == old(self).items(),
            final(self).buttons.state == old(self).buttons.state,
            final(ctx).paint_requested,
    {
        ctx.request_paint();
        let prev = self.current_layout();
        self.page_counter = page_counter;
        self.update_buttons(ctx, Some(prev));
        self.pad.clear();
    }

    fn last_page_index(&self) -> (r: u8)
        requires
            self.wf(),
        ensures
            r == self.items().len() - 1,
    {
        (choices_len(&self.choices) - 1) as u8
    }

    fn has_previous_choice(&self) -> (r: bool)
        ensures
            r == (self.page_counter > 0),
    {
        self.page_counter > 0
    }

    fn has_next_choice(&self) -> (r: bool)
        requires
            self.wf(),
        ensures
            r == (self.page_counter + 1 < self.items().len()),
    {
        self.page_counter < self.last_page_index()
    }

    /// Shows the current item's buttons, unless the buttons show `prev`, a
    /// layout equal to it (nothing would change, and nothing is repainted).
    fn update_buttons(&mut self, ctx: &mut EventCtx, prev: Option<Layout>)
        requires
            1 <= old(self).items().len() <= 30,
            (old(self).page_counter as int) < old(self).items().len(),
            old(self).buttons.wf(),
            prev is Some ==> shows_layout(old(self).buttons, prev->0),
        ensures
            final(self).wf(),
            final(self).items() == old(self).items(),
            final(self).page_counter == old(self).page_counter,
            final(self).buttons.state == old(self).buttons.state,
            final(self).buttons.button_area == old(self).buttons.button_area,
            old(ctx).paint_requested ==> final(ctx).paint_requested,
            prev is Some && same_layout(prev->0, layout_of(old(self).current())) ==> final(self).buttons
                == old(self).buttons && final(ctx).paint_requested == old(ctx).paint_requested,
            !(prev is Some && same_layout(prev->0, layout_of(old(self).current()))) ==> {
                let (l, m, r) = layout_of(old(self).current());
                &&& ButtonContainer::set_outcome(old(self).buttons.left_btn, final(self).buttons.left_btn, l, old(self).buttons.button_area)
                &&& ButtonContainer::set_outcome(old(self).buttons.middle_btn, final(self).buttons.middle_btn, m, old(self).buttons.button_area)
                &&& ButtonContainer::set_outcome(old(self).buttons.right_btn, final(self).buttons.right_btn, r, old(self).buttons.button_area)
            },
    {
        let cur = self.current_layout();
        let unchanged = match prev {
            Some(p) => details_eq(p.0, cur.0) && details_eq(p.1, cur.1) && details_eq(p.2, cur.2),
            None => false,
        };
        if !unchanged {
            self.buttons.set_left(ctx, cur.0);
            self.buttons.set_right(ctx, cur.2);
            self.buttons.set_middle(ctx, cur.1);
        }
    }

    fn current_layout(&self) -> (l: Layout)
        requires
            (self.page_counter as int) < self.items().len(),
        ensures
            l == layout_of(self.current()),
    {
        let item = choices_get(&self.choices, self.page_counter as usize);
        (item.btn_left, item.btn_middle, item.btn_right)
    }

    /// Handles one event: the buttons resolve it to a position, which moves
    /// the cursor, reports an end, or picks the current item (see
    /// `spec_step`).
    pub fn event(&mut self, ctx: &mut EventCtx, event: Event) -> (msg: Option<ChoicePageMsg>)
        requires
            old(self).wf(),
        ensures
            final(self).wf(),
            final(self).items() == old(self).items(),
            (final(self).page_counter, msg) == old(self).spec_step(old(self).buttons.spec_event(event).1),
            final(self).buttons.state == old(self).buttons.spec_event(event).0,
            old(self).buttons.spec_event(event).1 is Some ==> final(ctx).paint_requested,
    {
        let button_event = self.buttons.event(ctx, event);
        match button_event {
            Some(ButtonControllerMsg::Triggered(pos)) => match pos {
                ButtonPos::Left => {
                    if self.has_previous_choice() {
                        let prev = self.current_layout();
                        self.page_counter = self.page_counter - 1;
                        self.pad.clear();
                        self.update_buttons(ctx, Some(prev));
                        ctx.request_paint();
                        None
                    } else {
                        self.pad.clear();
                        ctx.request_paint();
                        Some(ChoicePageMsg::LeftMost)
                    }
                },
                ButtonPos::Right => {
                    if self.has_next_choice() {
                        let prev = self.current_layout();
                        self.page_counter = self.page_counter + 1;
                        self.pad.clear();
                        self.update_buttons(ctx, Some(prev));
                        ctx.request_paint();
                        None
                    } else {
                        self.pad.clear();
                        ctx.request_paint();
                        Some(ChoicePageMsg::RightMost)
                    }
                },
                ButtonPos::Middle => {
                    self.pad.clear();
                    ctx.request_paint();
                    Some(ChoicePageMsg::Choice(self.page_counter))
                },
            },
            None => None,
        }
    }

    /// Splits `bounds` into the item area and a row of buttons at the
    /// bottom.
    pub fn place(&mut self, bounds: Rect) -> (r: Rect)
        requires
            old(self).wf(),
            bounds.wf(),
        ensures
            final(self).wf(),
            final(self).items() == old(self).items(),
            final(self).page_counter == old(self).page_counter,
            final(self).buttons.state == old(self).buttons.state,
            r == bounds,
    {
        let button_height = tr_theme::FONT_BOLD.line_height() + 2;
        let (content_area, button_area) = bounds.split_bottom(button_height);
        self.pad.place(content_area);
        self.buttons.place(button_area);
        bounds
    }

    /// Draws the background, the buttons and the items from state alone.
    pub fn paint(&self, canvas: &mut Canvas)
        requires
            self.wf(),
        ensures
            final(canvas)@ == old(canvas)@ + self.spec_paint(),
    {
        self.pad.paint(canvas);
        self.buttons.paint(canvas);
        self.update_situation(canvas);
        assert(canvas@ =~= old(canvas)@ + self.spec_paint());
    }

    fn update_situation(&self, canvas: &mut Canvas)
        requires
            self.wf(),
        ensures
            final(canvas)@ == old(canvas)@ + self.spec_items_paint(),
    {
        let ghost c0 = canvas@;
        let c = self.page_counter as usize;
        choices_get(&self.choices, c).paint_center(canvas);
        let ghost c1 = canvas@;
        let ghost left_part: Seq<Draw> = if c > 0 {
            self.items()[c - 1].spec_paint_left()
        } else {
            Seq::empty()
        };
        if self.has_previous_choice() {
            choices_get(&self.choices, c - 1).paint_left(canvas);
        } else {
            assert(canvas@ =~= c1 + left_part);
        }
        let ghost c2 = canvas@;
        let ghost right_part: Seq<Draw> = if c + 1 < self.items().len() {
            self.items()[c + 1].spec_paint_right()
        } else {
            Seq::empty()
        };
        if self.has_next_choice() {
            choices_get(&self.choices, c + 1).paint_right(canvas);
        } else {
            assert(canvas@ =~= c2 + right_part);
        }
        assert(self.spec_items_paint() == self.current().spec_paint_center() + left_part + right_part);
        assert(canvas@ =~= c0 + self.spec_items_paint());
    }
}


/// The cursor never leaves the items; stepping left from the first item
/// or right from the last reports the end and leaves the cursor alone.
pub proof fn lemma_cursor_in_range(p: ChoicePage, trigger: Option<ButtonControllerMsg>)
    requires
        p.wf(),
    ensures
        (p.spec_step(trigger).0 as int) < p.items().len(),
        p.page_counter == 0 && trigger == Some(ButtonControllerMsg::Triggered(ButtonPos::Left))
            ==> p.spec_step(trigger) == (p.page_counter, Some(ChoicePageMsg::LeftMost)),
        p.page_counter == p.items().len() - 1 && trigger == Some(
            ButtonControllerMsg::Triggered(ButtonPos::Right),
        ) ==> p.spec_step(trigger) == (p.page_counter, Some(ChoicePageMsg::RightMost)),
{
}

/// Selecting with the middle picks the item under the cursor and leaves the
/// cursor where it is.
pub proof fn lemma_middle_selects_current(p: ChoicePage)
    requires
        p.wf(),
    ensures
        p.spec_step(Some(ButtonControllerMsg::Triggered(ButtonPos::Middle))) == (
            p.page_counter,
            Some(ChoicePageMsg::Choice(p.page_counter)),
        ),
{
}

/// Painting twice with no event in between draws the same thing twice.
pub proof fn lemma_paint_repeatable(p: ChoicePage, before: Seq<Draw>, once: Seq<Draw>, twice: Seq<Draw>)
    requires
        once == before + p.spec_paint(),
        twice == once + p.spec_paint(),
    ensures
        twice.subrange(once.len() as int, twice.len() as int) == once.subrange(
            before.len() as int,
            once.len() as int,
        ),
{
    assert(twice.subrange(once.len() as int, twice.len() as int) =~= p.spec_paint());
    assert(once.subrange(before.len() as int, once.len() as int) =~= p.spec_paint());
}

} // verus!

verus! {

impl crate::component::Component for ChoicePage {
    type Msg = ChoicePageMsg;

    open spec fn inv(&self) -> bool {
        self.wf()
    }

    open spec fn spec_paint(&self) -> Seq<Draw> {
        ChoicePage::spec_paint(*self)
    }

    fn place(&mut self, bounds: Rect) -> (r: Rect) {
        ChoicePage::place(self, bounds)
    }

    fn event(&mut self, ctx: &mut EventCtx, event: Event) -> (msg: Option<ChoicePageMsg>) {
        ChoicePage::event(self, ctx, event)
    }

    fn paint(&self, canvas: &mut Canvas) {
        ChoicePage::paint(self, canvas)
    }

    /// The item area and the button row.
    fn bounds(&self, sink: &mut Vec<Rect>) {
        sink.push(self.pad.area);
        sink.push(self.buttons.button_area);
        assert(sink@.subrange(0, old(sink)@.len() as int) =~= old(sink)@);
    }
}

} // verus!
