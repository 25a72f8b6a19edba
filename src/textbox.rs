use vstd::prelude::*;
use vstd::string::StrSliceExecFns;
use vstd::utf8::is_ascii_chars;
use crate::bounded::{label_as_str, label_chars, label_new, label_pop, label_push};
use crate::event::EventCtx;

verus! {

/// Most characters a text box holds.
pub const TEXTBOX_CAPACITY: usize = 50;

/// An editable line of text of up to 50 bytes (`TEXTBOX_CAPACITY`
/// characters of ASCII).
pub struct TextBox {
    pub text: heapless::String<50>,
}

impl TextBox {
    pub open spec fn view(&self) -> Seq<char> {
        label_chars(self.text)
    }

    pub open spec fn wf(&self) -> bool {
        self@.len() <= TEXTBOX_CAPACITY
    }

    pub fn empty() -> (t: TextBox)
        ensures
            t@ == Seq::<char>::empty(),
            t.wf(),
    {
        TextBox { text: label_new() }
    }

    pub fn content(&self) -> (s: &str)
        ensures
            s@ == self@,
            s@.len() <= TEXTBOX_CAPACITY,
    {
        label_as_str(&self.text)
    }

    /// Number of characters held.
    pub fn len(&self) -> (n: usize)
        ensures
            n == self@.len(),
    {
        self.content().unicode_len()
    }

    pub fn is_full(&self) -> (r: bool)
        requires
            self.wf(),
        ensures
            r == (self@.len() == TEXTBOX_CAPACITY),
    {
        self.len() >= TEXTBOX_CAPACITY
    }

    /// Appends a character when its bytes still fit, and asks for a repaint
    /// when it did. An ASCII character fits in ASCII text of fewer than
    /// `TEXTBOX_CAPACITY` characters, and nothing fits in ASCII text of that
    /// many.
    pub fn append(&mut self, ctx: &mut EventCtx, ch: char)
        requires
            old(self).wf(),
        ensures
            final(self).wf(),
            final(self)@ == old(self)@.push(ch) || final(self)@ == old(self)@,
            is_ascii_chars(old(self)@) && is_ascii_chars(seq![ch]) && old(self)@.len() < TEXTBOX_CAPACITY
                ==> final(self)@ == old(self)@.push(ch),
            is_ascii_chars(old(self)@) && old(self)@.len() == TEXTBOX_CAPACITY ==> final(self)@ == old(
                self,
            )@,
            is_ascii_chars(old(self)@) && is_ascii_chars(seq![ch]) ==> is_ascii_chars(final(self)@),
            final(ctx).paint_requested == (old(ctx).paint_requested || final(self)@ != old(self)@),
            final(ctx).timers@ == old(ctx).timers@,
    {
        let ok = label_push(&mut self.text, ch);
        if ok {
            ctx.request_paint();
        }
        // The box never holds more than its capacity.
        let _held = self.content();
        proof {
            if ok {
                assert(self@.len() == old(self)@.len() + 1);
                assert(self@ != old(self)@);
            }
            if is_ascii_chars(old(self)@) && is_ascii_chars(seq![ch]) && ok {
                assert forall|i: int| 0 <= i < self@.len() implies '\0' <= #[trigger] self@[i] <= '\u{7f}' by {
                    if i < old(self)@.len() {
                        assert(self@[i] == old(self)@[i]);
                    } else {
                        assert(self@[i] == seq![ch][0]);
                    }
                }
            }
        }
    }

    /// Removes the last character, if any, and asks for a repaint.
    pub fn delete_last(&mut self, ctx: &mut EventCtx)
        requires
            old(self).wf(),
        ensures
            final(self).wf(),
            final(self)@ == if old(self)@.len() > 0 {
                old(self)@.drop_last()
            } else {
                old(self)@
            },
            is_ascii_chars(old(self)@) ==> is_ascii_chars(final(self)@),
            old(ctx).paint_requested ==> final(ctx).paint_requested,
            final(ctx).timers@ == old(ctx).timers@,
    {
        let removed = label_pop(&mut self.text);
        if removed.is_some() {
            ctx.request_paint();
        }
        let _held = self.content();
        proof {
            if is_ascii_chars(old(self)@) {
                assert forall|i: int| 0 <= i < self@.len() implies '\0' <= #[trigger] self@[i] <= '\u{7f}' by {
                    if old(self)@.len() > 0 {
                        assert(self@[i] == old(self)@[i]);
                    }
                }
            }
        }
    }
}

} // verus!
