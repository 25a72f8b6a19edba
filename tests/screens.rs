use trezor_ui::bld_intro::BldIntro as IntroFrame;
use trezor_ui::bld_menu::{BldMenu, BldMenuMsg};
use trezor_ui::bld_progress::BldProgress;
use trezor_ui::bootloader::confirm::{install_confirm_screen, install_title, wipe_confirm_screen, InstallMsg};
use trezor_ui::bootloader::intro::{BldIntro, BldIntroMsg};
use trezor_ui::bootloader::menu::{Menu, MenuMsg};
use trezor_ui::bootloader::{screen, usb_eval, BootloaderLayout};
use trezor_ui::component::{BootloaderFrame, Component, ReturnToC};
use trezor_ui::display::{Canvas, Color, DrawOp, Font, IconId};
use trezor_ui::event::{touch_eval, Event, EventCtx, TouchError, TouchEvent};
use trezor_ui::geometry::{Point, Rect};
use trezor_ui::icon::{Icon, IconMsg};
use trezor_ui::install::{Install, InstallMsg as FrameInstallMsg};
use trezor_ui::text_block::TextBlock;
use trezor_ui::tt_button::ButtonMsg;
use trezor_ui::tt_theme;
use trezor_ui::wipe::{Wipe, WipeMsg};

fn raw(kind: u32) -> u32 {
    kind << 24
}

#[test]
fn palette_matches_rgb() {
    assert_eq!(Color::rgb(205, 73, 73).value, tt_theme::RED);
    assert_eq!(Color::rgb(57, 168, 20).value, tt_theme::GREEN);
    assert_eq!(Color::rgb(255, 255, 255).value, tt_theme::WHITE);
    assert_eq!(Color::rgb(0, 0, 0).value, tt_theme::BLACK);
    assert_eq!(Color::rgb(0x00, 0x17, 0xA3).value, tt_theme::BLD_BG);
    assert_eq!(Color::rgb(168, 168, 168).value, tt_theme::GREY_LIGHT);
    assert_eq!(Color::rgb(0x99, 0x99, 0x99).value, 0x9CD3);
}

#[test]
fn translucent_colors_match_blend() {
    let bg = Color { value: tt_theme::BLD_BG };
    assert_eq!(Color::rgba(bg, 0xFF, 0xFF, 0xFF, tt_theme::ALPHA_22).value, tt_theme::BLD_BTN_MENU_COLOR);
    assert_eq!(Color::rgba(bg, 0xFF, 0xFF, 0xFF, tt_theme::ALPHA_11).value, tt_theme::BLD_BTN_MENU_COLOR_ACTIVE);
    assert_eq!(Color::rgba(bg, 0xFF, 0xFF, 0xFF, tt_theme::ALPHA_33).value, tt_theme::BLD_BTN_MENUITEM_COLOR);
    assert_eq!(Color::rgba(bg, 0xFF, 0xFF, 0xFF, tt_theme::ALPHA_75).value, tt_theme::BLD_TITLE_COLOR);
    // fully opaque white over anything is white; fully transparent keeps the background
    assert_eq!(Color::rgba(bg, 0xFF, 0xFF, 0xFF, 255).value, tt_theme::WHITE);
    assert_eq!(Color::rgba(bg, 0xFF, 0xFF, 0xFF, 0).value, Color::rgb(0, 20, 160).value);
}

#[test]
fn color_channels_and_negate() {
    let c = Color::rgb(205, 73, 73);
    assert_eq!((c.r(), c.g(), c.b()), (200, 72, 72));
    assert_eq!(Color { value: 0 }.negate().value, 0xFFFF);
}

#[test]
fn font_widths() {
    assert_eq!(Font::Bold.text_width("ABC"), 21);
    assert_eq!(Font::Normal.text_width(""), 0);
    assert_eq!(Font::Mono.text_width(&"x".repeat(2000)), 6000);
    assert_eq!(Font::Medium.line_height(), 12);
}

#[test]
fn touch_decoding() {
    assert_eq!(TouchEvent::new(1, 10, 20), Ok(TouchEvent::TouchStart(Point::new(10, 20))));
    assert_eq!(TouchEvent::new(2, 10, 20), Ok(TouchEvent::TouchMove(Point::new(10, 20))));
    assert_eq!(TouchEvent::new(4, 0, 0), Ok(TouchEvent::TouchEnd(Point::new(0, 0))));
    assert_eq!(TouchEvent::new(3, 10, 20), Err(TouchError::UnknownKind));
    assert_eq!(TouchEvent::new(1, 70000, 20), Err(TouchError::OutOfRange));
    assert_eq!(touch_eval(0, 5, 5), None);
    assert_eq!(touch_eval(raw(1), 5, 6), Some(TouchEvent::TouchStart(Point::new(5, 6))));
    assert_eq!(touch_eval(raw(8), 5, 6), None);
}

#[test]
fn usb_results() {
    assert_eq!(usb_eval(0), 0xBBBB_BBBB);
    assert_eq!(usb_eval(0xAAAA_AAAA), 0xAAAA_AAAA);
    assert_eq!(usb_eval(17), 0);
}

fn start(x: i32, y: i32) -> Event {
    Event::Touch(TouchEvent::TouchStart(Point::new(x, y)))
}

fn end(x: i32, y: i32) -> Event {
    Event::Touch(TouchEvent::TouchEnd(Point::new(x, y)))
}

fn moved(x: i32, y: i32) -> Event {
    Event::Touch(TouchEvent::TouchMove(Point::new(x, y)))
}

#[test]
fn confirm_screen_cancel_and_confirm() {
    let mut s = install_confirm_screen("Vendor", "1.2.3", false, true);
    assert_eq!(s.label, "Vendor change");
    assert_eq!(s.warning, Some("Seed will be erased!"));
    s.place(screen());
    let mut ctx = EventCtx::new(1);
    assert_eq!(s.event(&mut ctx, start(20, 200)), None);
    assert_eq!(s.event(&mut ctx, end(20, 200)), Some(InstallMsg::Cancel));
    assert_eq!(InstallMsg::Cancel.return_to_c(), 1);
    assert_eq!(s.event(&mut ctx, start(200, 200)), None);
    assert_eq!(s.event(&mut ctx, end(200, 200)), Some(InstallMsg::Confirm));
    assert_eq!(InstallMsg::Confirm.return_to_c(), 2);
    // a press that slides out before ending is no click
    assert_eq!(s.event(&mut ctx, start(200, 200)), None);
    assert_eq!(s.event(&mut ctx, moved(10, 10)), None);
    assert_eq!(s.event(&mut ctx, end(10, 10)), None);
}

#[test]
fn install_titles() {
    assert_eq!(install_title(true, true), "Downgrade firmware");
    assert_eq!(install_title(false, true), "Vendor change");
    assert_eq!(install_title(false, false), "Update firmware");
    let s = install_confirm_screen("V", "2", false, false);
    assert_eq!(s.warning, None);
    let w = wipe_confirm_screen();
    assert_eq!(w.label, "Wipe device");
    assert_eq!(w.warning, Some("Seed will be erased!"));
}

#[test]
fn layout_returns_menu_choice() {
    let mut layout = BootloaderLayout::new(Menu::new());
    let mut canvas = Canvas::new();
    layout.start(&mut canvas);
    assert!(!canvas.ops.is_empty());
    let mut ctx = EventCtx::new(1);
    let mut canvas = Canvas::new();
    assert_eq!(layout.process(&mut ctx, 0, 200, 30, &mut canvas), None);
    assert!(canvas.ops.is_empty());
    assert_eq!(layout.process(&mut ctx, raw(1), 200, 30, &mut canvas), None);
    assert!(!canvas.ops.is_empty());
    assert_eq!(layout.process(&mut ctx, raw(4), 200, 30, &mut canvas), Some(1));
    assert_eq!(layout.process(&mut ctx, raw(1), 100, 200, &mut canvas), None);
    assert_eq!(layout.process(&mut ctx, raw(4), 100, 200, &mut canvas), Some(3));
    assert_eq!(MenuMsg::FwInfo.return_to_c(), 4);
    assert_eq!(MenuMsg::Reboot.return_to_c(), 2);
}

#[test]
fn intro_buttons() {
    let mut i = BldIntro::new();
    i.place(screen());
    let mut ctx = EventCtx::new(1);
    i.event(&mut ctx, start(100, 200));
    assert_eq!(i.event(&mut ctx, end(100, 200)), Some(BldIntroMsg::Host));
    i.event(&mut ctx, start(200, 30));
    assert_eq!(i.event(&mut ctx, end(200, 30)), Some(BldIntroMsg::Menu));
    assert_eq!(BldIntroMsg::Host.return_to_c(), 2);
}

#[test]
fn component_screens_tag_button_messages() {
    let msg = TextBlock::new(Font::Normal, Color { value: 0 }, Color { value: 0xFFFF }).add("hello");
    let mut inst = Install::new("Firmware update", Some(IconId::Info), msg);
    inst.add_warning("careful");
    inst.place(screen());
    let mut ctx = EventCtx::new(1);
    assert_eq!(inst.event(&mut ctx, start(20, 200)), Some(FrameInstallMsg::Cancel(ButtonMsg::Pressed)));
    let m = inst.event(&mut ctx, end(20, 200)).unwrap();
    assert_eq!(m, FrameInstallMsg::Cancel(ButtonMsg::Clicked));
    assert_eq!(inst.messages(m), Some(1));
    assert_eq!(inst.messages(FrameInstallMsg::Confirm(ButtonMsg::Clicked)), Some(2));
    assert_eq!(inst.messages(FrameInstallMsg::Confirm(ButtonMsg::Pressed)), None);

    let msg = TextBlock::new(Font::Normal, Color { value: 0 }, Color { value: 0xFFFF });
    let mut w = Wipe::new("Wipe", None, msg);
    w.place(screen());
    assert_eq!(w.event(&mut ctx, start(200, 200)), Some(WipeMsg::Right(ButtonMsg::Pressed)));
    assert_eq!(w.event(&mut ctx, end(200, 200)), Some(WipeMsg::Right(ButtonMsg::Clicked)));
    assert_eq!(w.inner().lines.len(), 0);

    let mut menu = BldMenu::new();
    menu.place(screen());
    menu.event(&mut ctx, start(100, 130));
    let m = menu.event(&mut ctx, end(100, 130)).unwrap();
    assert_eq!(m, BldMenuMsg::FwInfo(ButtonMsg::Clicked));
    assert_eq!(menu.messages(m), None);
    assert_eq!(menu.messages(BldMenuMsg::Reboot(ButtonMsg::Clicked)), Some(2));

    let mut intro = IntroFrame::new();
    intro.place(screen());
    intro.event(&mut ctx, start(200, 30));
    let m = intro.event(&mut ctx, end(200, 30)).unwrap();
    assert_eq!(intro.messages(m), Some(1));
}

#[test]
fn progress_paints_loader() {
    let mut p = BldProgress::new("Installing");
    p.set_progres(500);
    let mut canvas = Canvas::new();
    p.paint(&mut canvas);
    assert_eq!(canvas.ops.len(), 3);
    match &canvas.ops[2] {
        DrawOp::Loader { progress, overlay, .. } => {
            assert_eq!(*progress, 500);
            assert_eq!(*overlay, Some(IconId::Receive));
        },
        _ => panic!("expected a loader"),
    }
}

#[test]
fn icon_reports_touch_inside() {
    let mut i = Icon::new(IconId::Info);
    i.place(Rect::new(Point::new(10, 10), Point::new(20, 20)));
    assert_eq!(i.area(), Rect::new(Point::new(10, 10), Point::new(20, 20)));
    let mut ctx = EventCtx::new(1);
    assert_eq!(i.event(&mut ctx, start(15, 15)), Some(IconMsg::Touched));
    assert_eq!(i.event(&mut ctx, start(25, 15)), None);
    let mut canvas = Canvas::new();
    i.paint(&mut canvas);
    match &canvas.ops[1] {
        DrawOp::Icon { center, .. } => assert_eq!(*center, Point::new(15, 15)),
        _ => panic!("expected an icon"),
    }
    let mut sink = Vec::new();
    i.bounds(&mut sink);
    assert_eq!(sink, vec![Rect::new(Point::new(10, 10), Point::new(20, 20))]);
}

#[test]
fn text_block_lines_go_down() {
    let mut t = TextBlock::new(Font::Medium, Color { value: 1 }, Color { value: 2 }).add("one").add("two");
    t.place(Rect::new(Point::new(15, 75), Point::new(225, 200)));
    let mut canvas = Canvas::new();
    t.paint(&mut canvas);
    match (&canvas.ops[0], &canvas.ops[1]) {
        (DrawOp::Text { at: a, text: x, .. }, DrawOp::Text { at: b, text: y, .. }) => {
            assert_eq!((*a, x.as_str()), (Point::new(15, 87), "one"));
            assert_eq!((*b, y.as_str()), (Point::new(15, 99), "two"));
        },
        _ => panic!("expected text"),
    }
}

#[test]
fn theme_styles() {
    assert_eq!(tt_theme::borders(), trezor_ui::geometry::Insets::new(13, 10, 14, 10));
    assert_eq!(tt_theme::borders_scroll(), trezor_ui::geometry::Insets::new(13, 5, 14, 10));
    assert_eq!(tt_theme::button_clear(), tt_theme::button_default());
    assert_eq!(tt_theme::label_keyboard_warning().text_color.value, tt_theme::RED);
    assert_eq!(tt_theme::loader_default().active.loader_color.value, tt_theme::GREEN);
    assert_eq!(tt_theme::TTBootloaderText::theme().background_color.value, tt_theme::BLD_BG);
    assert_eq!(tt_theme::button_confirm().normal.button_color.value, tt_theme::GREEN);
}
