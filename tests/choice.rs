use trezor_ui::choice::{str_eq, ChoicePage, ChoicePageMsg};
use trezor_ui::common::{split_lines, ButtonDetails, ChoiceItem, MultilineStringChoiceItem, StringChoiceItem};
use trezor_ui::display::{Canvas, DrawOp};
use trezor_ui::event::{ButtonEvent, Duration, Event, EventCtx, PhysicalButton};
use trezor_ui::geometry::{Point, Rect};
use trezor_ui::passphrase::{ChoiceCategory, PassphraseEntry, PassphraseEntryMsg};
use trezor_ui::timer::TimerQueue;

fn item(text: &str) -> MultilineStringChoiceItem {
    MultilineStringChoiceItem::new(
        heapless::String::from(text),
        Some(ButtonDetails::new("BACK")),
        Some(ButtonDetails::new("SELECT")),
        Some(ButtonDetails::new("NEXT")),
    )
}

fn page(texts: &[&str]) -> ChoicePage {
    let mut v: heapless::Vec<MultilineStringChoiceItem, 30> = heapless::Vec::new();
    for t in texts {
        assert!(v.push(item(t)).is_ok());
    }
    let mut p = ChoicePage::new(v);
    p.place(Rect::new(Point::new(0, 0), Point::new(128, 64)));
    p
}

#[derive(Clone, Copy)]
enum Key {
    Left,
    Right,
    Middle,
}

fn events(k: Key) -> Vec<Event> {
    let p = |b| Event::Button(ButtonEvent::ButtonPressed(b));
    let r = |b| Event::Button(ButtonEvent::ButtonReleased(b));
    match k {
        Key::Left => vec![p(PhysicalButton::Left), r(PhysicalButton::Left)],
        Key::Right => vec![p(PhysicalButton::Right), r(PhysicalButton::Right)],
        Key::Middle => vec![
            p(PhysicalButton::Left),
            p(PhysicalButton::Right),
            r(PhysicalButton::Left),
            r(PhysicalButton::Right),
        ],
    }
}

fn key(p: &mut ChoicePage, k: Key) -> Option<ChoicePageMsg> {
    let mut last = None;
    for e in events(k) {
        let mut ctx = EventCtx::new(1);
        last = p.event(&mut ctx, e);
    }
    last
}

#[test]
fn three_items_right_right_left_middle() {
    let mut p = page(&["a", "b", "c"]);
    assert_eq!(p.page_counter, 0);
    assert_eq!(key(&mut p, Key::Right), None);
    assert_eq!(p.page_counter, 1);
    assert_eq!(key(&mut p, Key::Right), None);
    assert_eq!(p.page_counter, 2);
    assert_eq!(key(&mut p, Key::Left), None);
    assert_eq!(p.page_counter, 1);
    assert_eq!(key(&mut p, Key::Middle), Some(ChoicePageMsg::Choice(1)));
    assert_eq!(p.page_counter, 1);
}

#[test]
fn left_at_first_item_reports_left_end() {
    let mut p = page(&["a", "b", "c"]);
    assert_eq!(key(&mut p, Key::Left), Some(ChoicePageMsg::LeftMost));
    assert_eq!(p.page_counter, 0);
}

#[test]
fn right_at_last_item_reports_right_end() {
    let mut p = page(&["a", "b"]);
    assert_eq!(key(&mut p, Key::Right), None);
    assert_eq!(key(&mut p, Key::Right), Some(ChoicePageMsg::RightMost));
    assert_eq!(p.page_counter, 1);
}

#[test]
fn single_item_is_both_ends() {
    let mut p = page(&["only"]);
    assert_eq!(key(&mut p, Key::Left), Some(ChoicePageMsg::LeftMost));
    assert_eq!(key(&mut p, Key::Right), Some(ChoicePageMsg::RightMost));
    assert_eq!(key(&mut p, Key::Middle), Some(ChoicePageMsg::Choice(0)));
}

#[test]
fn set_page_counter_and_reset() {
    let mut p = page(&["a", "b", "c"]);
    let mut ctx = EventCtx::new(1);
    p.set_page_counter(&mut ctx, 2);
    assert!(ctx.paint_requested);
    assert_eq!(p.page_counter, 2);
    let mut v: heapless::Vec<MultilineStringChoiceItem, 30> = heapless::Vec::new();
    assert!(v.push(item("x")).is_ok());
    p.reset(&mut ctx, v, true);
    assert_eq!(p.page_counter, 0);
    assert_eq!(key(&mut p, Key::Middle), Some(ChoicePageMsg::Choice(0)));
}

fn texts(c: &Canvas) -> Vec<String> {
    c.ops
        .iter()
        .filter_map(|o| match o {
            DrawOp::Text { text, .. } => Some(text.clone()),
            _ => None,
        })
        .collect()
}

#[test]
fn page_paints_neighbours_and_repeats() {
    let mut p = page(&["a", "b", "c"]);
    key(&mut p, Key::Right);
    let mut canvas = Canvas::new();
    p.paint(&mut canvas);
    let t = texts(&canvas);
    let n = t.len();
    assert_eq!(&t[n - 3..], &["b".to_string(), "a".to_string(), "c".to_string()]);
    let once = canvas.ops.len();
    p.paint(&mut canvas);
    assert_eq!(format!("{:?}", &canvas.ops[..once]), format!("{:?}", &canvas.ops[once..]));
}

#[test]
fn split_lines_like_str_split() {
    assert_eq!(split_lines("DEL\nLAST\nCHAR", '\n'), vec!["DEL", "LAST", "CHAR"]);
    assert_eq!(split_lines("", '\n'), vec![""]);
    assert_eq!(split_lines("a\n", '\n'), vec!["a", ""]);
    assert_eq!(split_lines("a,b", ','), vec!["a", "b"]);
}

#[test]
fn str_eq_compares_characters() {
    assert!(str_eq("BACK", "BACK"));
    assert!(!str_eq("BACK", "BACKS"));
    assert!(!str_eq("NEXT", "NEXS"));
    assert!(str_eq("", ""));
}

#[test]
fn string_items_paint_their_text() {
    let s = StringChoiceItem::from_slice("abc");
    let mut canvas = Canvas::new();
    s.paint_center(&mut canvas);
    s.paint_left(&mut canvas);
    s.paint_right(&mut canvas);
    assert_eq!(texts(&canvas), vec!["abc", "abc", "abc"]);
    let c = StringChoiceItem::from_char('x');
    let mut canvas = Canvas::new();
    c.paint_center(&mut canvas);
    assert_eq!(texts(&canvas), vec!["x"]);
}

#[test]
fn multiline_items_paint_each_line() {
    let m = MultilineStringChoiceItem::from_slice("SHOW\nPASS");
    let mut canvas = Canvas::new();
    m.paint_center(&mut canvas);
    assert_eq!(texts(&canvas), vec!["SHOW", "PASS"]);
    match (&canvas.ops[0], &canvas.ops[1]) {
        (DrawOp::Text { at: a, .. }, DrawOp::Text { at: b, .. }) => {
            assert_eq!(*a, Point::new(64, 82));
            assert_eq!(*b, Point::new(64, 92));
        },
        _ => panic!("expected text"),
    }
    let m = MultilineStringChoiceItem::from_char('q').use_delimiter(',');
    assert_eq!(m.delimiter, ',');
    let mut canvas = Canvas::new();
    m.paint_left(&mut canvas);
    assert_eq!(texts(&canvas), vec!["q"]);
}

fn pkey(p: &mut PassphraseEntry, k: Key) -> Option<PassphraseEntryMsg> {
    let mut last = None;
    for e in events(k) {
        let mut ctx = EventCtx::new(1);
        last = p.event(&mut ctx, e);
    }
    last
}

fn entry() -> PassphraseEntry {
    let mut p = PassphraseEntry::new();
    p.place(Rect::new(Point::new(0, 0), Point::new(128, 64)));
    p
}

#[test]
fn passphrase_typing_and_deleting() {
    let mut p = entry();
    assert_eq!(p.current_category, ChoiceCategory::Menu);
    assert_eq!(pkey(&mut p, Key::Middle), None);
    assert_eq!(p.current_category, ChoiceCategory::LowercaseLetter);
    pkey(&mut p, Key::Middle);
    pkey(&mut p, Key::Right);
    pkey(&mut p, Key::Middle);
    assert_eq!(p.passphrase(), "ab");
    // MENU on the left of the first character returns to the menu.
    pkey(&mut p, Key::Left);
    pkey(&mut p, Key::Left);
    assert_eq!(p.current_category, ChoiceCategory::Menu);
    // Digits are the third entry.
    pkey(&mut p, Key::Right);
    pkey(&mut p, Key::Right);
    pkey(&mut p, Key::Middle);
    assert_eq!(p.current_category, ChoiceCategory::Digit);
    pkey(&mut p, Key::Right);
    pkey(&mut p, Key::Right);
    pkey(&mut p, Key::Middle);
    assert_eq!(p.passphrase(), "ab2");
    // Right past the last digit leads back to the menu too.
    for _ in 0..10 {
        pkey(&mut p, Key::Right);
    }
    assert_eq!(p.current_category, ChoiceCategory::Menu);
    for _ in 0..5 {
        pkey(&mut p, Key::Right);
    }
    pkey(&mut p, Key::Middle);
    assert_eq!(p.passphrase(), "ab");
}

#[test]
fn passphrase_show_and_hide() {
    let mut p = entry();
    pkey(&mut p, Key::Middle);
    pkey(&mut p, Key::Middle);
    pkey(&mut p, Key::Left);
    pkey(&mut p, Key::Left);
    for _ in 0..4 {
        pkey(&mut p, Key::Right);
    }
    pkey(&mut p, Key::Middle);
    assert!(p.show_plain_passphrase);
    let mut canvas = Canvas::new();
    p.paint(&mut canvas);
    assert_eq!(texts(&canvas).last().unwrap(), "a");
    pkey(&mut p, Key::Right);
    assert!(!p.show_plain_passphrase);
    let mut canvas = Canvas::new();
    p.paint(&mut canvas);
    assert_eq!(texts(&canvas).last().unwrap(), "*");
}

#[test]
fn passphrase_accepted_by_holding_left() {
    let mut p = entry();
    let mut q = TimerQueue::new();
    let mut ctx = q.context();
    let pressed = Event::Button(ButtonEvent::ButtonPressed(PhysicalButton::Left));
    assert_eq!(p.event(&mut ctx, pressed), None);
    q.absorb(&ctx, 0);
    assert!(q.take_expired(999).is_empty());
    let due = q.take_expired(1000);
    assert_eq!(due.len(), 1);
    let mut ctx = q.context();
    assert_eq!(p.event(&mut ctx, Event::Timer(due[0])), Some(PassphraseEntryMsg::Confirmed));
}

#[test]
fn passphrase_cancelled_by_holding_right_on_last_entry() {
    let mut p = entry();
    for _ in 0..5 {
        pkey(&mut p, Key::Right);
    }
    let mut q = TimerQueue::new();
    let mut ctx = q.context();
    assert_eq!(p.event(&mut ctx, Event::Button(ButtonEvent::ButtonPressed(PhysicalButton::Right))), None);
    q.absorb(&ctx, 10);
    let due = q.take_expired(1010);
    assert_eq!(due.len(), 1);
    let mut ctx = q.context();
    assert_eq!(p.event(&mut ctx, Event::Timer(due[0])), Some(PassphraseEntryMsg::Cancelled));
    assert_eq!(Duration::from_secs(1), Duration::from_millis(1000));
}

#[test]
fn passphrase_stops_at_capacity_and_shows_tail() {
    let mut p = entry();
    pkey(&mut p, Key::Middle);
    for _ in 0..55 {
        pkey(&mut p, Key::Middle);
    }
    assert_eq!(p.passphrase().len(), 50);
    let mut canvas = Canvas::new();
    p.paint(&mut canvas);
    assert_eq!(texts(&canvas).last().unwrap(), &"*".repeat(18));
    match canvas.ops.last().unwrap() {
        DrawOp::Text { at, .. } => assert_eq!(*at, Point::new(61, 40)),
        _ => panic!("expected text"),
    }
    p.show_plain_passphrase = true;
    let mut canvas = Canvas::new();
    p.paint(&mut canvas);
    assert_eq!(texts(&canvas).last().unwrap(), &format!("...{}", "a".repeat(15)));
}

#[test]
fn reset_keeping_cursor_reconfigures_buttons() {
    let mut p = page(&["a", "b"]);
    key(&mut p, Key::Right);
    let mut v: heapless::Vec<MultilineStringChoiceItem, 30> = heapless::Vec::new();
    assert!(v.push(item("x")).is_ok());
    let held = MultilineStringChoiceItem::new(
        heapless::String::from("y"),
        Some(ButtonDetails::new("BACK")),
        Some(ButtonDetails::new("SELECT")),
        Some(ButtonDetails::new("CNC").with_duration(Duration::from_millis(1500))),
    );
    assert!(v.push(held).is_ok());
    let mut ctx = EventCtx::new(1);
    p.reset(&mut ctx, v, false);
    assert_eq!(p.page_counter, 1);
    assert_eq!(p.buttons.right_btn.hold_to_confirm.text, "CNC");
    assert_eq!(p.buttons.right_btn.hold_to_confirm.duration, Duration::from_millis(1500));
    assert_eq!(p.buttons.right_btn.button_type, trezor_ui::button_controller::ButtonType::HoldToConfirm);
}
