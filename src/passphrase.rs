use vstd::prelude::*;
use vstd::string::StrSliceExecFns;
use vstd::utf8::is_ascii_chars;
use crate::bounded::{
    choices_new, choices_of, choices_push, label_as_str, label_chars, label_new, label_push,
    lines_chars, lines_new, lines_push,
};
use crate::button_controller::ButtonControllerMsg;
use crate::choice::{ChoicePage, ChoicePageMsg};
use crate::common::{bold_text, display_bold_center, ButtonDetails, MultilineStringChoiceItem};
use crate::display::{Align, Canvas, Draw};
use crate::event::{Duration, Event, EventCtx};
use crate::geometry::{Point, Rect};
use crate::textbox::{TextBox, TEXTBOX_CAPACITY};

verus! {

#[derive(Copy, Clone, Debug, PartialEq, Eq, Structural)]
pub enum PassphraseEntryMsg {
    Confirmed,
    Cancelled,
}

/// The choices currently on screen: the menu or one set of characters.
#[derive(Copy, Clone, Debug, PartialEq, Eq, Structural)]
pub enum ChoiceCategory {
    Menu,
    LowercaseLetter,
    UppercaseLetter,
    Digit,
    SpecialSymbol,
}

pub const PASSPHRASE_ROW: i32 = 40;
pub const MAX_VISIBLE_CHARS: usize = 18;
pub const HOLD_SECS: u32 = 1;
pub const MENU_LENGTH: usize = 6;
pub const DEL_INDEX: usize = 5;
pub const SHOW_INDEX: usize = 4;

pub const DIGITS: &'static str = "0123456789";
pub const LOWERCASE_LETTERS: &'static str = "abcdefghijklmnopqrstuvwxyz";
pub const UPPERCASE_LETTERS: &'static str = "ABCDEFGHIJKLMNOPQRSTUVWXYZ";
pub const SPECIAL_SYMBOLS: &'static str = "_<>.:@/|\\!()+%&-[]?{},'`;\"~$^=";

/// The characters of a category, in the order they are offered.
pub open spec fn category_text(c: ChoiceCategory) -> Seq<char> {
    match c {
        ChoiceCategory::LowercaseLetter => LOWERCASE_LETTERS@,
        ChoiceCategory::UppercaseLetter => UPPERCASE_LETTERS@,
        ChoiceCategory::Digit => DIGITS@,
        ChoiceCategory::SpecialSymbol => SPECIAL_SYMBOLS@,
        ChoiceCategory::Menu => Seq::empty(),
    }
}

/// The category that a menu entry opens.
pub open spec fn category_of_entry(i: int) -> ChoiceCategory {
    if i == 0 {
        ChoiceCategory::LowercaseLetter
    } else if i == 1 {
        ChoiceCategory::UppercaseLetter
    } else if i == 2 {
        ChoiceCategory::Digit
    } else {
        ChoiceCategory::SpecialSymbol
    }
}

fn category_str(c: ChoiceCategory) -> (s: &'static str)
    requires
        c != ChoiceCategory::Menu,
    ensures
        s@ == category_text(c),
        1 <= s@.len() <= 30,
        is_ascii_chars(s@),
{
    proof {
        reveal_strlit("0123456789");
        reveal_strlit("abcdefghijklmnopqrstuvwxyz");
        reveal_strlit("ABCDEFGHIJKLMNOPQRSTUVWXYZ");
        reveal_strlit("_<>.:@/|\\!()+%&-[]?{},'`;\"~$^=");
    }
    match c {
        ChoiceCategory::LowercaseLetter => LOWERCASE_LETTERS,
        ChoiceCategory::UppercaseLetter => UPPERCASE_LETTERS,
        ChoiceCategory::Digit => DIGITS,
        _ => SPECIAL_SYMBOLS,
    }
}

/// The texts of the menu: four categories, then showing the passphrase and
/// deleting its last character.
pub open spec fn menu_entry_text(i: int) -> Seq<char> {
    if i == 0 {
        "abc"@
    } else if i == 1 {
        "ABC"@
    } else if i == 2 {
        "123"@
    } else if i == 3 {
        "*#_"@
    } else if i == 4 {
        "SHOW\nPASS"@
    } else {
        "DEL\nLAST\nCHAR"@
    }
}

/// A button position with a plain click.
pub open spec fn plain(text: &'static str) -> Option<ButtonDetails> {
    Some(ButtonDetails { text, duration: None })
}

/// A button position held for the hold time to confirm.
pub open spec fn held(text: &'static str) -> Option<ButtonDetails> {
    Some(ButtonDetails { text, duration: Some(Duration { millis: (HOLD_SECS * 1000) as u32 }) })
}

/// The menu entry `k`: its text; BACK, SELECT and NEXT, but ACC held on
/// the left of the first entry (accept) and CNC held on the right of the
/// last (cancel).
pub open spec fn is_menu_item(item: MultilineStringChoiceItem, k: int) -> bool {
    &&& lines_chars(item.text) == menu_entry_text(k)
    &&& item.delimiter == '\n'
    &&& item.btn_left == if k == 0 {
        held("ACC")
    } else {
        plain("BACK")
    }
    &&& item.btn_middle == plain("SELECT")
    &&& item.btn_right == if k == MENU_LENGTH - 1 {
        held("CNC")
    } else {
        plain("NEXT")
    }
}

pub open spec fn is_menu(items: Seq<MultilineStringChoiceItem>) -> bool {
    &&& items.len() == MENU_LENGTH
    &&& forall|k: int| 0 <= k < MENU_LENGTH ==> is_menu_item(#[trigger] items[k], k)
}

/// Item `k` of a category: its character, with BACK, SELECT and NEXT, but
/// MENU at the left of the first and the right of the last.
pub open spec fn is_category_item(item: MultilineStringChoiceItem, c: ChoiceCategory, k: int) -> bool {
    let chars = category_text(c);
    &&& lines_chars(item.text) == seq![chars[k]]
    &&& item.delimiter == '\n'
    &&& item.btn_left == if k == 0 {
        plain("MENU")
    } else {
        plain("BACK")
    }
    &&& item.btn_middle == plain("SELECT")
    &&& item.btn_right == if k == chars.len() - 1 {
        plain("MENU")
    } else {
        plain("NEXT")
    }
}

/// The characters of a category, one item each.
pub open spec fn is_category(items: Seq<MultilineStringChoiceItem>, c: ChoiceCategory) -> bool {
    &&& items.len() == category_text(c).len()
    &&& forall|k: int| 0 <= k < items.len() ==> is_category_item(#[trigger] items[k], c, k)
}

/// The text of a menu entry.
fn menu_text(i: usize) -> (s: &'static str)
    requires
        i < MENU_LENGTH,
    ensures
        is_ascii_chars(s@),
        s@.len() <= 14,
        s@ == menu_entry_text(i as int),
{
    proof {
        reveal_strlit("abc");
        reveal_strlit("ABC");
        reveal_strlit("123");
        reveal_strlit("*#_");
        reveal_strlit("SHOW\nPASS");
        reveal_strlit("DEL\nLAST\nCHAR");
    }
    if i == 0 {
        "abc"
    } else if i == 1 {
        "ABC"
    } else if i == 2 {
        "123"
    } else if i == 3 {
        "*#_"
    } else if i == 4 {
        "SHOW\nPASS"
    } else {
        "DEL\nLAST\nCHAR"
    }
}

/// A choice text from an ASCII string.
fn lines_from_ascii(s: &str) -> (r: heapless::String<100>)
    requires
        is_ascii_chars(s@),
        s@.len() <= 100,
    ensures
        lines_chars(r) == s@,
{
    let n = s.unicode_len();
    let mut r = lines_new();
    let mut i: usize = 0;
    while i < n
        invariant
            n == s@.len() <= 100,
            i <= n,
            is_ascii_chars(s@),
            lines_chars(r) == s@.subrange(0, i as int),
        decreases n - i,
    {
        let c = s.get_char(i);
        proof {
            assert(is_ascii_chars(seq![c])) by {
                assert(seq![c][0] == s@[i as int]);
            }
            assert(is_ascii_chars(lines_chars(r))) by {
                assert forall|k: int| 0 <= k < lines_chars(r).len() implies '\0' <= #[trigger] lines_chars(
                    r,
                )[k] <= '\u{7f}' by {
                    assert(lines_chars(r)[k] == s@[k]);
                }
            }
        }
        lines_push(&mut r, c);
        assert(s@.subrange(0, i + 1) =~= s@.subrange(0, i as int).push(c));
        i = i + 1;
    }
    assert(s@.subrange(0, n as int) =~= s@);
    r
}

/// The menu: each entry steps with BACK and NEXT and opens with SELECT; the
/// first holds ACC on the left to accept, the last CNC on the right to
/// cancel.
pub fn get_menu_choices() -> (v: heapless::Vec<MultilineStringChoiceItem, 30>)
    ensures
        is_menu(choices_of(v)),
{
    let mut choices = choices_new();
    let mut i: usize = 0;
    while i < MENU_LENGTH
        invariant
            i <= MENU_LENGTH,
            choices_of(choices).len() == i,
            forall|k: int| 0 <= k < i ==> is_menu_item(#[trigger] choices_of(choices)[k], k),
        decreases MENU_LENGTH - i,
    {
        let left = if i == 0 {
            ButtonDetails::new("ACC").with_duration(Duration::from_secs(HOLD_SECS))
        } else {
            ButtonDetails::new("BACK")
        };
        let right = if i == MENU_LENGTH - 1 {
            ButtonDetails::new("CNC").with_duration(Duration::from_secs(HOLD_SECS))
        } else {
            ButtonDetails::new("NEXT")
        };
        let item = MultilineStringChoiceItem::new(
            lines_from_ascii(menu_text(i)),
            Some(left),
            Some(ButtonDetails::new("SELECT")),
            Some(right),
        );
        choices_push(&mut choices, item);
        i = i + 1;
    }
    choices
}

/// The characters of a category; MENU at either end leads back.
fn category_choices(c: ChoiceCategory) -> (v: heapless::Vec<MultilineStringChoiceItem, 30>)
    requires
        c != ChoiceCategory::Menu,
    ensures
        is_category(choices_of(v), c),
        1 <= category_text(c).len() <= 30,
{
    let chars = category_str(c);
    let n = chars.unicode_len();
    let mut choices = choices_new();
    let mut i: usize = 0;
    while i < n
        invariant
            n == chars@.len() <= 30,
            chars@ == category_text(c),
            i <= n,
            choices_of(choices).len() == i,
            forall|k: int| 0 <= k < i ==> is_category_item(#[trigger] choices_of(choices)[k], c, k),
        decreases n - i,
    {
        let ch = chars.get_char(i);
        let mut text = lines_new();
        lines_push(&mut text, ch);
        let left = if i == 0 {
            ButtonDetails::new("MENU")
        } else {
            ButtonDetails::new("BACK")
        };
        let right = if i == n - 1 {
            ButtonDetails::new("MENU")
        } else {
            ButtonDetails::new("NEXT")
        };
        let item = MultilineStringChoiceItem::new(text, Some(left), Some(ButtonDetails::new("SELECT")), Some(right));
        choices_push(&mut choices, item);
        i = i + 1;
    }
    choices
}

/// Entering a passphrase with three positions: pick a category from the
/// menu, then characters from it; the menu also shows the passphrase,
/// deletes its last character, accepts or cancels.
pub struct PassphraseEntry {
    pub choice_page: ChoicePage,
    pub show_plain_passphrase: bool,
    pub textbox: TextBox,
    pub current_category: ChoiceCategory,
}

impl PassphraseEntry {
    pub open spec fn wf(self) -> bool {
        &&& self.choice_page.wf()
        &&& self.textbox.wf()
        &&& is_ascii_chars(self.textbox@)
        &&& self.current_category == ChoiceCategory::Menu ==> is_menu(self.choice_page.items())
        &&& self.current_category != ChoiceCategory::Menu ==> is_category(
            self.choice_page.items(),
            self.current_category,
        )
    }

    /// What the choice page reports for an event.
    pub open spec fn page_msg(self, event: Event) -> Option<ChoicePageMsg> {
        self.choice_page.spec_step(self.choice_page.buttons.spec_event(event).1).1
    }

    pub fn new() -> (p: PassphraseEntry)
        ensures
            p.wf(),
            p.current_category == ChoiceCategory::Menu,
            p.textbox@ == Seq::<char>::empty(),
            !p.show_plain_passphrase,
    {
        PassphraseEntry {
            choice_page: ChoicePage::new(get_menu_choices()),
            show_plain_passphrase: false,
            textbox: TextBox::empty(),
            current_category: ChoiceCategory::Menu,
        }
    }

    pub fn passphrase(&self) -> (s: &str)
        ensures
            s@ == self.textbox@,
    {
        self.textbox.content()
    }

    fn is_full(&self) -> (r: bool)
        requires
            self.textbox.wf(),
        ensures
            r == (self.textbox@.len() == TEXTBOX_CAPACITY),
    {
        self.textbox.is_full()
    }

    fn get_category_from_menu(&self, page_counter: u8) -> (c: ChoiceCategory)
        requires
            page_counter < 4,
        ensures
            c == category_of_entry(page_counter as int),
    {
        if page_counter == 0 {
            ChoiceCategory::LowercaseLetter
        } else if page_counter == 1 {
            ChoiceCategory::UppercaseLetter
        } else if page_counter == 2 {
            ChoiceCategory::Digit
        } else {
            ChoiceCategory::SpecialSymbol
        }
    }

    fn get_char(&self, index: usize) -> (ch: char)
        requires
            self.current_category != ChoiceCategory::Menu,
            index < category_text(self.current_category).len(),
        ensures
            ch == category_text(self.current_category)[index as int],
            is_ascii_chars(seq![ch]),
    {
        let s = category_str(self.current_category);
        let ch = s.get_char(index);
        assert(seq![ch][0] == s@[index as int]);
        ch
    }

    fn show_menu_page(&mut self, ctx: &mut EventCtx)
        requires
            old(self).choice_page.wf(),
        ensures
            final(self).choice_page.wf(),
            is_menu(final(self).choice_page.items()),
            final(self).choice_page.page_counter == 0,
            final(self).textbox == old(self).textbox,
            final(self).show_plain_passphrase == old(self).show_plain_passphrase,
            final(self).current_category == old(self).current_category,
    {
        let menu = get_menu_choices();
        self.choice_page.reset(ctx, menu, true);
    }

    fn show_category_page(&mut self, ctx: &mut EventCtx)
        requires
            old(self).choice_page.wf(),
            old(self).current_category != ChoiceCategory::Menu,
        ensures
            final(self).choice_page.wf(),
            is_category(final(self).choice_page.items(), old(self).current_category),
            final(self).choice_page.page_counter == 0,
            final(self).textbox == old(self).textbox,
            final(self).show_plain_passphrase == old(self).show_plain_passphrase,
            final(self).current_category == old(self).current_category,
    {
        let choices = category_choices(self.current_category);
        self.choice_page.reset(ctx, choices, true);
    }

    /// Handles one event. Any event hides a shown passphrase. In the menu,
    /// picking a category opens it, SHOW shows the passphrase, DEL removes
    /// its last character, and stepping past the first or last entry
    /// accepts or cancels. In a category, picking adds the character (while
    /// there is room) and stepping past either end returns to the menu.
    pub fn event(&mut self, ctx: &mut EventCtx, event: Event) -> (msg: Option<PassphraseEntryMsg>)
        requires
            old(self).wf(),
        ensures
            final(self).wf(),
            ({
                let m = old(self).page_msg(event);
                let cat = old(self).current_category;
                let p = old(self).textbox@;
                if cat == ChoiceCategory::Menu {
                    match m {
                        Some(ChoicePageMsg::Choice(k)) => {
                            &&& msg is None
                            &&& k == DEL_INDEX ==> final(self).textbox@ == (if p.len() > 0 {
                                p.drop_last()
                            } else {
                                p
                            }) && final(self).current_category == ChoiceCategory::Menu
                            &&& k == SHOW_INDEX ==> final(self).show_plain_passphrase
                                && final(self).textbox@ == p && final(self).current_category
                                == ChoiceCategory::Menu
                            &&& k < SHOW_INDEX ==> final(self).current_category == category_of_entry(
                                k as int,
                            ) && final(self).textbox@ == p && final(self).choice_page.page_counter
                                == 0
                        },
                        Some(ChoicePageMsg::LeftMost) => msg == Some(PassphraseEntryMsg::Confirmed)
                            && final(self).textbox@ == p,
                        Some(ChoicePageMsg::RightMost) => msg == Some(PassphraseEntryMsg::Cancelled)
                            && final(self).textbox@ == p,
                        None => msg is None && final(self).textbox@ == p
                            && final(self).current_category == cat,
                    }
                } else {
                    &&& msg is None
                    &&& match m {
                        Some(ChoicePageMsg::Choice(k)) => final(self).textbox@ == (if p.len()
                            < TEXTBOX_CAPACITY {
                            p.push(category_text(cat)[k as int])
                        } else {
                            p
                        }) && final(self).current_category == cat,
                        Some(_) => final(self).current_category == ChoiceCategory::Menu
                            && final(self).textbox@ == p && final(self).choice_page.page_counter
                            == 0,
                        None => final(self).textbox@ == p && final(self).current_category == cat,
                    }
                }
            }),
            final(self).show_plain_passphrase == (old(self).current_category == ChoiceCategory::Menu
                && old(self).page_msg(event) == Some(ChoicePageMsg::Choice(SHOW_INDEX as u8))),
    {
        self.show_plain_passphrase = false;
        let msg = self.choice_page.event(ctx, event);
        let mut result: Option<PassphraseEntryMsg> = None;
        if self.current_category == ChoiceCategory::Menu {
            match msg {
                Some(ChoicePageMsg::Choice(page_counter)) => {
                    if page_counter as usize == DEL_INDEX {
                        self.textbox.delete_last(ctx);
                    } else if page_counter as usize == SHOW_INDEX {
                        self.show_plain_passphrase = true;
                    } else {
                        self.current_category = self.get_category_from_menu(page_counter);
                        self.show_category_page(ctx);
                    }
                },
                Some(ChoicePageMsg::LeftMost) => {
                    result = Some(PassphraseEntryMsg::Confirmed);
                },
                Some(ChoicePageMsg::RightMost) => {
                    result = Some(PassphraseEntryMsg::Cancelled);
                },
                None => {},
            }
        } else {
            match msg {
                Some(ChoicePageMsg::Choice(page_counter)) => {
                    if !self.is_full() {
                        let new_letter = self.get_char(page_counter as usize);
                        self.textbox.append(ctx, new_letter);
                    }
                },
                Some(_) => {
                    self.current_category = ChoiceCategory::Menu;
                    self.show_menu_page(ctx);
                },
                None => {},
            }
        }
        ctx.request_paint();
        result
    }

    /// Lays the screen out in `bounds`.
    pub fn place(&mut self, bounds: Rect) -> (r: Rect)
        requires
            old(self).wf(),
            bounds.wf(),
        ensures
            final(self).wf(),
            final(self).textbox == old(self).textbox,
            final(self).current_category == old(self).current_category,
            r == bounds,
    {
        self.choice_page.place(bounds)
    }
}

impl PassphraseEntry {
    /// Where the passphrase line is drawn and what it shows: dots for at
    /// most the visible number of characters (shifted a little on every
    /// other character once longer), or, when revealed, the text itself or
    /// an ellipsis and its tail.
    pub open spec fn spec_shown(self) -> (Point, Seq<char>) {
        let p = self.textbox@;
        let n = p.len();
        if self.show_plain_passphrase {
            (
                Point { x: 64, y: PASSPHRASE_ROW },
                if n <= MAX_VISIBLE_CHARS {
                    p
                } else {
                    seq!['.', '.', '.'] + p.subrange(n - (MAX_VISIBLE_CHARS - 3), n as int)
                },
            )
        } else {
            (
                Point {
                    x: if n > MAX_VISIBLE_CHARS && n % 2 == 0 {
                        61
                    } else {
                        64
                    },
                    y: PASSPHRASE_ROW,
                },
                Seq::new(
                    if n < MAX_VISIBLE_CHARS {
                        n
                    } else {
                        MAX_VISIBLE_CHARS as nat
                    },
                    |i: int| '*',
                ),
            )
        }
    }

    pub open spec fn spec_paint(self) -> Seq<Draw> {
        let (at, text) = self.spec_shown();
        self.choice_page.spec_paint() + seq![bold_text(at, text, Align::Center)]
    }

    fn show_passphrase_length(&self, canvas: &mut Canvas)
        requires
            self.textbox.wf(),
            is_ascii_chars(self.textbox@),
            !self.show_plain_passphrase,
        ensures
            final(canvas)@ == old(canvas)@.push(
                bold_text(self.spec_shown().0, self.spec_shown().1, Align::Center),
            ),
    {
        let char_amount = self.textbox.len();
        let dots_visible: usize = if char_amount < MAX_VISIBLE_CHARS {
            char_amount
        } else {
            MAX_VISIBLE_CHARS
        };
        let mut dots = label_new();
        let mut i: usize = 0;
        while i < dots_visible
            invariant
                dots_visible <= MAX_VISIBLE_CHARS,
                i <= dots_visible,
                label_chars(dots) == Seq::new(i as nat, |k: int| '*'),
            decreases dots_visible - i,
        {
            proof {
                assert(is_ascii_chars(seq!['*']));
                assert(is_ascii_chars(label_chars(dots)));
            }
            label_push(&mut dots, '*');
            assert(label_chars(dots) =~= Seq::new((i + 1) as nat, |k: int| '*'));
            i = i + 1;
        }
        let x: i32 = if char_amount > MAX_VISIBLE_CHARS && char_amount % 2 == 0 {
            61
        } else {
            64
        };
        display_bold_center(Point::new(x, PASSPHRASE_ROW), label_as_str(&dots), canvas);
    }

    fn reveal_current_passphrase(&self, canvas: &mut Canvas)
        requires
            self.textbox.wf(),
            is_ascii_chars(self.textbox@),
            self.show_plain_passphrase,
        ensures
            final(canvas)@ == old(canvas)@.push(
                bold_text(self.spec_shown().0, self.spec_shown().1, Align::Center),
            ),
    {
        let char_amount = self.textbox.len();
        if char_amount <= MAX_VISIBLE_CHARS {
            display_bold_center(Point::new(64, PASSPHRASE_ROW), self.passphrase(), canvas);
        } else {
            let p = self.passphrase();
            let ghost pv = p@;
            let mut shown = label_new();
            proof {
                assert(is_ascii_chars(seq!['.']));
            }
            label_push(&mut shown, '.');
            label_push(&mut shown, '.');
            label_push(&mut shown, '.');
            let start: usize = char_amount - (MAX_VISIBLE_CHARS - 3);
            let mut i: usize = start;
            assert(label_chars(shown) =~= seq!['.', '.', '.'] + pv.subrange(start as int, start as int));
            while i < char_amount
                invariant
                    pv == p@,
                    pv == self.textbox@,
                    char_amount == pv.len(),
                    is_ascii_chars(pv),
                    start <= i <= char_amount,
                    start == char_amount - (MAX_VISIBLE_CHARS - 3),
                    label_chars(shown) == seq!['.', '.', '.'] + pv.subrange(start as int, i as int),
                decreases char_amount - i,
            {
                let c = p.get_char(i);
                proof {
                    assert(is_ascii_chars(seq![c])) by {
                        assert(seq![c][0] == pv[i as int]);
                    }
                    assert(is_ascii_chars(label_chars(shown))) by {
                        assert forall|k: int| 0 <= k < label_chars(shown).len() implies '\0'
                            <= #[trigger] label_chars(shown)[k] <= '\u{7f}' by {
                            if k >= 3 {
                                assert(label_chars(shown)[k] == pv[start + k - 3]);
                            }
                        }
                    }
                }
                label_push(&mut shown, c);
                assert(seq!['.', '.', '.'] + pv.subrange(start as int, i + 1) =~= (seq!['.', '.', '.']
                    + pv.subrange(start as int, i as int)).push(c));
                i = i + 1;
            }
            display_bold_center(Point::new(64, PASSPHRASE_ROW), label_as_str(&shown), canvas);
        }
    }

    fn update_situation(&self, canvas: &mut Canvas)
        requires
            self.textbox.wf(),
            is_ascii_chars(self.textbox@),
        ensures
            final(canvas)@ == old(canvas)@.push(
                bold_text(self.spec_shown().0, self.spec_shown().1, Align::Center),
            ),
    {
        if self.show_plain_passphrase {
            self.reveal_current_passphrase(canvas);
        } else {
            self.show_passphrase_length(canvas);
        }
    }

    /// Draws the choices and the passphrase line from state alone.
    pub fn paint(&self, canvas: &mut Canvas)
        requires
            self.wf(),
        ensures
            final(canvas)@ == old(canvas)@ + self.spec_paint(),
    {
        self.choice_page.paint(canvas);
        self.update_situation(canvas);
        assert(canvas@ =~= old(canvas)@ + self.spec_paint());
    }
}

} // verus!

verus! {

impl crate::component::Component for PassphraseEntry {
    type Msg = PassphraseEntryMsg;

    open spec fn inv(&self) -> bool {
        self.wf()
    }

    open spec fn spec_paint(&self) -> Seq<Draw> {
        PassphraseEntry::spec_paint(*self)
    }

    fn place(&mut self, bounds: Rect) -> (r: Rect) {
        PassphraseEntry::place(self, bounds)
    }

    fn event(&mut self, ctx: &mut EventCtx, event: Event) -> (msg: Option<PassphraseEntryMsg>) {
        PassphraseEntry::event(self, ctx, event)
    }

    fn paint(&self, canvas: &mut Canvas) {
        PassphraseEntry::paint(self, canvas)
    }

    /// The areas of the choice page.
    fn bounds(&self, sink: &mut Vec<Rect>) {
        sink.push(self.choice_page.pad.area);
        sink.push(self.choice_page.buttons.button_area);
        assert(sink@.subrange(0, old(sink)@.len() as int) =~= old(sink)@);
    }
}

} // verus!
