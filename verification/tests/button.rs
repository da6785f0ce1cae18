use rwui::button::{
    Button, ButtonDescriptor, Callback, Colour, DecimalColour, Refresh, Transition,
    GEOMETRY_DURATION, LABEL_FONT_SIZE, OVERLAY_DURATION, OVERLAY_STEP,
};
use rwui::event::{ElementState, Event, MouseButton};
use rwui::geometry::{Point, Vector, UNIT};

fn descriptor() -> ButtonDescriptor {
    ButtonDescriptor {
        position: Point::new(0, 0),
        size: Vector::new(100 * UNIT, 50 * UNIT),
        z_index: 5 * UNIT,
        back_colour: Colour { red: 100, green: 200, blue: 300, alpha: UNIT },
        texture_id: Some(7),
        label: Some(String::from("Start")),
    }
}

fn cursor(x: i32, y: i32) -> Event {
    Event::CursorMoved { position: Point::new(x * UNIT, y * UNIT) }
}

fn left(state: ElementState) -> Event {
    Event::MouseInput { state, button: MouseButton::Left }
}

fn hovered_button() -> Button {
    let mut button = Button::new(&descriptor());
    assert_eq!(button.consume_event(&cursor(50, 25)), Some(Transition::Entered));
    button
}

#[test]
fn constants_have_their_values() {
    assert_eq!(GEOMETRY_DURATION, 200_000);
    assert_eq!(OVERLAY_DURATION, 100_000);
    assert_eq!(OVERLAY_STEP, UNIT / 10);
    assert_eq!(LABEL_FONT_SIZE, 14 * UNIT);
}

#[test]
fn new_button_is_at_rest() {
    let button = Button::new(&descriptor());
    assert_eq!(*button.position().current(), Point::new(0, 0));
    assert_eq!(*button.position().target(), Point::new(0, 0));
    assert!(button.position().complete());
    assert_eq!(*button.size().current(), Vector::new(100 * UNIT, 50 * UNIT));
    assert_eq!(*button.size().target(), Vector::new(100 * UNIT, 50 * UNIT));
    assert!(button.size().complete());
    assert_eq!(*button.overlay_alpha().current(), 0);
    assert_eq!(*button.overlay_alpha().target(), 0);
    assert!(button.overlay_alpha().complete());
    assert_eq!(button.z_index(), 5 * UNIT);
    assert!(!button.hovered());
    assert!(!button.pressed());
    assert_eq!(button.back_colour(), Colour { red: 100, green: 200, blue: 300, alpha: UNIT });
    assert_eq!(*button.label(), Some(String::from("Start")));
}

#[test]
fn new_button_without_a_label_has_none() {
    let mut plain = descriptor();
    plain.label = None;
    let button = Button::new(&plain);
    assert_eq!(*button.label(), None);
    assert_eq!(plain.label_text(), "");
}

#[test]
fn label_text_is_the_label() {
    assert_eq!(descriptor().label_text(), "Start");
}

#[test]
fn label_style_covers_the_button_one_unit_in_front() {
    let style = descriptor().label_style();
    assert!(!style.bold);
    assert!(!style.italic);
    assert_eq!(style.colour, DecimalColour { r: 200, g: 0, b: 200, a: 255 });
    assert_eq!(style.font_family, "Arial");
    assert_eq!(style.font_size, 14_000);
    assert_eq!(style.position, Point::new(0, 0));
    assert_eq!(style.size, Vector::new(100 * UNIT, 50 * UNIT));
    assert_eq!(style.z, 4 * UNIT);
}

#[test]
fn label_depth_stops_at_the_front_of_the_range() {
    let mut front = descriptor();
    front.z_index = i32::MIN + 1;
    assert_eq!(front.label_style().z, i32::MIN);
}

#[test]
fn cursor_enters_and_leaves() {
    let mut button = Button::new(&descriptor());

    assert_eq!(button.consume_event(&cursor(50, 25)), Some(Transition::Entered));
    assert!(button.hovered());
    assert_eq!(*button.overlay_alpha().target(), OVERLAY_STEP);
    assert_eq!(*button.overlay_alpha().target(), 100);

    assert_eq!(button.consume_event(&cursor(200, 200)), Some(Transition::Exited));
    assert!(!button.hovered());
    assert_eq!(*button.overlay_alpha().target(), 0);
}

#[test]
fn press_and_release_while_hovered() {
    let mut button = hovered_button();

    assert_eq!(
        button.consume_event(&left(ElementState::Pressed)),
        Some(Transition::PressBegan)
    );
    assert!(button.pressed());
    assert_eq!(*button.overlay_alpha().target(), 200);

    assert_eq!(
        button.consume_event(&left(ElementState::Released)),
        Some(Transition::PressEnded)
    );
    assert!(!button.pressed());
    assert!(button.hovered());
    assert_eq!(*button.overlay_alpha().target(), 100);
}

#[test]
fn cursor_on_an_edge_is_on_the_button() {
    let corners = [(0, 0), (100, 0), (0, 50), (100, 50), (0, 25), (100, 25), (50, 0), (50, 50)];
    for (x, y) in corners {
        let mut button = Button::new(&descriptor());
        assert_eq!(button.consume_event(&cursor(x, y)), Some(Transition::Entered));
        assert!(button.hovered());
    }
}

#[test]
fn cursor_just_past_an_edge_is_off_the_button() {
    let outside = [
        Point::new(-1, 0),
        Point::new(100 * UNIT + 1, 0),
        Point::new(0, -1),
        Point::new(0, 50 * UNIT + 1),
    ];
    for position in outside {
        let mut button = Button::new(&descriptor());
        assert_eq!(button.consume_event(&Event::CursorMoved { position }), None);
        assert!(!button.hovered());
    }
}

#[test]
fn same_cursor_position_is_consumed_once() {
    let mut button = Button::new(&descriptor());
    assert!(button.consume_event(&cursor(50, 25)).is_some());
    assert!(button.consume_event(&cursor(50, 25)).is_none());
    assert!(button.hovered());
    assert_eq!(*button.overlay_alpha().target(), OVERLAY_STEP);
}

#[test]
fn cursor_moving_on_the_button_is_not_consumed() {
    let mut button = hovered_button();
    assert_eq!(button.consume_event(&cursor(60, 30)), None);
    assert_eq!(button.consume_event(&cursor(0, 0)), None);
    assert!(button.hovered());
    assert_eq!(*button.overlay_alpha().target(), OVERLAY_STEP);
}

#[test]
fn cursor_moving_off_the_button_is_not_consumed() {
    let mut button = Button::new(&descriptor());
    assert_eq!(button.consume_event(&cursor(200, 200)), None);
    assert_eq!(button.consume_event(&cursor(-1, -1)), None);
    assert!(!button.hovered());
    assert_eq!(*button.overlay_alpha().target(), 0);
}

#[test]
fn press_without_hover_is_ignored() {
    let mut button = Button::new(&descriptor());
    assert_eq!(button.consume_event(&left(ElementState::Pressed)), None);
    assert!(!button.pressed());
    assert!(!button.hovered());
    assert_eq!(*button.overlay_alpha().target(), 0);
    assert!(button.overlay_alpha().complete());
}

#[test]
fn release_without_press_is_ignored() {
    let mut button = hovered_button();
    assert_eq!(button.consume_event(&left(ElementState::Released)), None);
    assert!(!button.pressed());
    assert_eq!(*button.overlay_alpha().target(), OVERLAY_STEP);
}

#[test]
fn second_press_is_ignored() {
    let mut button = hovered_button();
    assert!(button.consume_event(&left(ElementState::Pressed)).is_some());
    assert_eq!(button.consume_event(&left(ElementState::Pressed)), None);
    assert!(button.pressed());
    assert_eq!(*button.overlay_alpha().target(), 2 * OVERLAY_STEP);
}

#[test]
fn release_outside_clears_the_press() {
    let mut button = hovered_button();
    assert!(button.consume_event(&left(ElementState::Pressed)).is_some());
    assert_eq!(button.consume_event(&cursor(200, 200)), Some(Transition::Exited));
    assert!(button.pressed());
    assert!(!button.hovered());
    assert_eq!(*button.overlay_alpha().target(), OVERLAY_STEP);

    assert_eq!(
        button.consume_event(&left(ElementState::Released)),
        Some(Transition::PressEnded)
    );
    assert!(!button.pressed());
    assert_eq!(*button.overlay_alpha().target(), 0);
}

#[test]
fn press_outside_while_pressed_is_ignored() {
    let mut button = hovered_button();
    assert!(button.consume_event(&left(ElementState::Pressed)).is_some());
    assert!(button.consume_event(&cursor(200, 200)).is_some());
    assert_eq!(button.consume_event(&left(ElementState::Pressed)), None);
    assert!(button.pressed());
}

#[test]
fn enter_then_press_raises_the_overlay_by_two_steps() {
    let mut button = Button::new(&descriptor());
    let initial = *button.overlay_alpha().target();
    assert!(button.consume_event(&cursor(50, 25)).is_some());
    assert!(button.consume_event(&left(ElementState::Pressed)).is_some());
    assert_eq!(*button.overlay_alpha().target(), initial + 200);
    assert_eq!(*button.overlay_alpha().current(), initial);
}

#[test]
fn other_buttons_are_ignored() {
    let others = [
        MouseButton::Right,
        MouseButton::Middle,
        MouseButton::Back,
        MouseButton::Forward,
        MouseButton::Other(0),
        MouseButton::Other(9),
    ];
    for button_kind in others {
        let mut button = hovered_button();
        let press = Event::MouseInput { state: ElementState::Pressed, button: button_kind };
        assert_eq!(button.consume_event(&press), None);
        assert!(!button.pressed());

        assert!(button.consume_event(&left(ElementState::Pressed)).is_some());
        let release = Event::MouseInput { state: ElementState::Released, button: button_kind };
        assert_eq!(button.consume_event(&release), None);
        assert!(button.pressed());
        assert_eq!(*button.overlay_alpha().target(), 2 * OVERLAY_STEP);
    }
}

#[test]
fn other_events_are_ignored() {
    let mut button = hovered_button();
    assert_eq!(button.consume_event(&Event::Other), None);
    assert_eq!(button.consume_event(&Event::CloseRequested), None);
    assert_eq!(button.consume_event(&Event::RedrawRequested), None);
    assert!(button.hovered());
    assert!(!button.pressed());
    assert_eq!(*button.overlay_alpha().target(), OVERLAY_STEP);
}

#[test]
fn transitions_name_their_callbacks() {
    assert_eq!(Transition::Entered.callback(), Callback::OnEnter);
    assert_eq!(Transition::Exited.callback(), Callback::OnExit);
    assert_eq!(Transition::PressBegan.callback(), Callback::OnRelease);
    assert_eq!(Transition::PressEnded.callback(), Callback::OnPress);
}

#[test]
fn overlay_takes_half_as_long_as_geometry() {
    let mut button = hovered_button();
    button.set_position(Point::new(100 * UNIT, 0));

    button.update(50_000);
    assert_eq!(*button.overlay_alpha().current(), 50);
    assert_eq!(*button.position().current(), Point::new(25 * UNIT, 0));

    button.update(50_000);
    assert_eq!(*button.overlay_alpha().current(), 100);
    assert!(button.overlay_alpha().complete());
    assert_eq!(*button.position().current(), Point::new(50 * UNIT, 0));
    assert!(!button.position().complete());

    button.update(100_000);
    assert_eq!(*button.position().current(), Point::new(100 * UNIT, 0));
    assert!(button.position().complete());
}

#[test]
fn update_says_what_moved() {
    let mut button = Button::new(&descriptor());
    assert_eq!(
        button.update(16_000),
        Refresh { position: false, size: false, overlay_alpha: false }
    );

    button.set_size(Vector::new(10, 10));
    assert_eq!(
        button.update(16_000),
        Refresh { position: false, size: true, overlay_alpha: false }
    );

    button.set_position(Point::new(10, 10));
    assert!(button.consume_event(&Event::CursorMoved { position: Point::new(0, 0) }).is_some());
    assert_eq!(
        button.update(100_000),
        Refresh { position: true, size: true, overlay_alpha: true }
    );
    assert_eq!(
        button.update(90_000),
        Refresh { position: true, size: true, overlay_alpha: false }
    );
    assert_eq!(
        button.update(10_000),
        Refresh { position: true, size: false, overlay_alpha: false }
    );
    assert_eq!(
        button.update(1),
        Refresh { position: false, size: false, overlay_alpha: false }
    );
    assert_eq!(*button.position().current(), Point::new(10, 10));
    assert_eq!(*button.size().current(), Vector::new(10, 10));
}

#[test]
fn update_leaves_the_interaction_state_alone() {
    let mut button = hovered_button();
    assert!(button.consume_event(&left(ElementState::Pressed)).is_some());
    button.update(1_000_000);
    assert!(button.hovered());
    assert!(button.pressed());
    assert_eq!(*button.overlay_alpha().target(), 200);
    assert_eq!(*button.overlay_alpha().current(), 200);
}

#[test]
fn overlay_restarts_from_where_it_stands() {
    let mut button = hovered_button();
    button.update(50_000);
    assert_eq!(*button.overlay_alpha().current(), 50);
    assert!(button.consume_event(&cursor(200, 200)).is_some());
    assert_eq!(*button.overlay_alpha().current(), 50);
    assert_eq!(*button.overlay_alpha().target(), 0);
    button.update(50_000);
    assert_eq!(*button.overlay_alpha().current(), 25);
    button.update(50_000);
    assert_eq!(*button.overlay_alpha().current(), 0);
}

#[test]
fn set_position_moves_the_target_only() {
    let mut button = Button::new(&descriptor());
    button.set_position(Point::new(40, -40));
    assert_eq!(*button.position().target(), Point::new(40, -40));
    assert_eq!(*button.position().current(), Point::new(0, 0));
    assert_eq!(*button.size().target(), Vector::new(100 * UNIT, 50 * UNIT));
}

#[test]
fn position_offsets_add_to_the_target() {
    let mut button = Button::new(&descriptor());
    button.set_position_offset(Vector::new(200, 0));
    button.update(100_000);
    assert_eq!(*button.position().current(), Point::new(100, 0));
    button.set_position_offset(Vector::new(200, 40));
    assert_eq!(*button.position().target(), Point::new(400, 40));
    assert_eq!(*button.position().current(), Point::new(100, 0));
    button.set_position_offset(Vector::new(-400, -40));
    assert_eq!(*button.position().target(), Point::new(0, 0));
}

#[test]
fn position_offsets_stop_at_the_ends_of_the_range() {
    let mut button = Button::new(&descriptor());
    button.set_position(Point::new(i32::MAX - 1, i32::MIN + 1));
    button.set_position_offset(Vector::new(5, -5));
    assert_eq!(*button.position().target(), Point::new(i32::MAX, i32::MIN));
}

#[test]
fn set_size_moves_the_target_only() {
    let mut button = Button::new(&descriptor());
    button.set_size(Vector::new(1, 2));
    assert_eq!(*button.size().target(), Vector::new(1, 2));
    assert_eq!(*button.size().current(), Vector::new(100 * UNIT, 50 * UNIT));
    assert_eq!(*button.position().target(), Point::new(0, 0));
}

#[test]
fn size_offsets_add_to_the_target() {
    let mut button = Button::new(&descriptor());
    button.set_size_offset(Vector::new(-UNIT, UNIT));
    button.update(100_000);
    button.set_size_offset(Vector::new(-UNIT, UNIT));
    assert_eq!(*button.size().target(), Vector::new(98 * UNIT, 52 * UNIT));
    assert_eq!(*button.size().current(), Vector::new(99_500, 50_500));
}

#[test]
fn size_offsets_stop_at_the_ends_of_the_range() {
    let mut button = Button::new(&descriptor());
    button.set_size(Vector::new(i32::MIN + 1, i32::MAX - 1));
    button.set_size_offset(Vector::new(-5, 5));
    assert_eq!(*button.size().target(), Vector::new(i32::MIN, i32::MAX));
}

#[test]
fn set_z_index_changes_the_depth_only() {
    let mut button = hovered_button();
    button.set_z_index(-3 * UNIT);
    assert_eq!(button.z_index(), -3 * UNIT);
    assert!(button.hovered());
    assert_eq!(*button.position().target(), Point::new(0, 0));
    assert_eq!(*button.overlay_alpha().target(), OVERLAY_STEP);
}

#[test]
fn hit_test_follows_the_animated_geometry() {
    let mut button = Button::new(&descriptor());
    button.set_position(Point::new(200 * UNIT, 0));

    // The button has not moved yet: the old rectangle still counts.
    assert_eq!(button.consume_event(&cursor(250, 25)), None);
    assert_eq!(button.consume_event(&cursor(50, 25)), Some(Transition::Entered));

    button.update(200_000);
    // The cursor has not moved, so the button stays hovered until it does.
    assert!(button.hovered());
    assert_eq!(button.consume_event(&cursor(50, 25)), Some(Transition::Exited));
    assert_eq!(button.consume_event(&cursor(250, 25)), Some(Transition::Entered));
}

#[test]
fn geometry_changes_do_not_touch_the_overlay() {
    let mut button = hovered_button();
    button.set_position(Point::new(1, 1));
    button.set_size_offset(Vector::new(1, 1));
    assert_eq!(*button.overlay_alpha().target(), OVERLAY_STEP);
    assert_eq!(*button.overlay_alpha().current(), 0);
    assert!(button.hovered());
}
