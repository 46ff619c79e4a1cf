use witui::canvas::Instruction;
use witui::geometry::{Rect, Size};
use witui::layout::{LayoutError, RenderError};
use witui::tui::{flush_resize_events, LoopAction, WiTui};
use witui::widgets::{
    CheckBox, Event, KeyCode, KeyEvent, KeyModifiers, MouseButton, MouseEvent, MouseEventKind,
    Padding,
};

fn key(code: KeyCode, modifiers: KeyModifiers) -> Event {
    Event::Key(KeyEvent { code, modifiers })
}

fn mouse(kind: MouseEventKind) -> Event {
    Event::Mouse(MouseEvent { kind, column: 0, row: 0, modifiers: KeyModifiers::empty() })
}

#[test]
fn interface_needs_a_screen() {
    assert!(WiTui::root_widget("hi", Size::new(0, 0)).is_none());
    let tui = WiTui::root_widget("hi", Size::new(4, 2)).unwrap();
    assert!(!tui.get_alternate());
    assert_eq!(*tui.get_root(), "hi");
    assert_eq!(tui.get_ctx().get_frame(), Rect::from_size(Size::new(4, 2)));
    let tui = tui.alternate(true);
    assert!(tui.get_alternate());
    assert_eq!(tui.get_ctx().canvas_size(), Size::new(4, 2));
    tui.quit();
}

#[test]
fn print_paints_the_difference() {
    let mut tui = WiTui::root_widget("hi", Size::new(4, 2)).unwrap();
    let (result, ops) = tui.print();
    assert_eq!(result, Ok(()));
    assert_eq!(ops, vec![Instruction::Print('h'), Instruction::Print('i')]);
    let (result, ops) = tui.print();
    assert_eq!(result, Ok(()));
    assert_eq!(ops, Vec::<Instruction>::new());
}

#[test]
fn print_reports_a_root_that_does_not_fit() {
    let mut tui = WiTui::root_widget(Padding::all(2).child("x"), Size::new(3, 3)).unwrap();
    let (result, ops) = tui.print();
    assert_eq!(result, Err(RenderError::Layout(LayoutError::InsufficientSpace)));
    assert_eq!(ops, Vec::<Instruction>::new());
}

#[test]
fn q_quits_and_other_keys_are_waited_out() {
    let mut tui = WiTui::root_widget(CheckBox::new(), Size::new(4, 2)).unwrap();
    assert_eq!(tui.handle_event(&key(KeyCode::Char('q'), KeyModifiers::empty())), LoopAction::Quit);
    let shift = KeyModifiers { shift: true, control: false, alt: false };
    assert_eq!(tui.handle_event(&key(KeyCode::Char('q'), shift)), LoopAction::Wait);
    assert_eq!(tui.handle_event(&key(KeyCode::Char('x'), KeyModifiers::empty())), LoopAction::Wait);
    assert_eq!(tui.handle_event(&key(KeyCode::Esc, KeyModifiers::empty())), LoopAction::Wait);
}

#[test]
fn mouse_press_reaches_the_root_and_redraws() {
    let mut tui = WiTui::root_widget(CheckBox::new(), Size::new(4, 2)).unwrap();
    assert_eq!(tui.handle_event(&mouse(MouseEventKind::Moved)), LoopAction::Wait);
    assert!(!tui.get_root().is_marked());
    assert_eq!(tui.handle_event(&mouse(MouseEventKind::Down(MouseButton::Left))), LoopAction::Redraw);
    assert!(tui.get_root().is_marked());
    let (_, ops) = tui.print();
    assert_eq!(ops, vec![Instruction::Print('◉')]);
}

#[test]
fn resize_is_followed_by_a_full_repaint() {
    let mut inline = WiTui::root_widget("hi", Size::new(4, 2)).unwrap();
    assert_eq!(inline.handle_event(&Event::Resize(2, 1)), LoopAction::Wait);
    assert_eq!(inline.get_ctx().canvas_size(), Size::new(4, 2));
    let mut tui = WiTui::root_widget("hi", Size::new(4, 2)).unwrap().alternate(true);
    let _ = tui.print();
    assert_eq!(tui.handle_event(&Event::Resize(3, 1)), LoopAction::Redraw);
    assert_eq!(tui.get_ctx().canvas_size(), Size::new(3, 1));
    assert_eq!(tui.get_ctx().get_frame(), Rect::from_size(Size::new(3, 1)));
    let (_, ops) = tui.print();
    assert_eq!(
        ops,
        vec![Instruction::Print('h'), Instruction::Print('i'), Instruction::Print(' ')]
    );
    assert_eq!(tui.handle_event(&Event::Resize(0, 5)), LoopAction::Redraw);
    assert_eq!(tui.get_ctx().canvas_size(), Size::new(3, 1));
}

#[test]
fn resize_events_are_passed_through() {
    assert_eq!(flush_resize_events(&Event::Resize(80, 24)), ((80, 24), (80, 24)));
    assert_eq!(flush_resize_events(&mouse(MouseEventKind::Moved)), ((0, 0), (0, 0)));
}
