use slang_bridge::android::touch_input::{drain, push, touch_event, TouchQueue};
use slang_bridge::renderer::touch::{TouchEvent, TouchState};

fn encoded(touch: &TouchState) -> [f32; 4] {
    let bits = touch.encode();
    [
        f32::from_bits(bits[0]),
        f32::from_bits(bits[1]),
        f32::from_bits(bits[2]),
        f32::from_bits(bits[3]),
    ]
}

fn down(touch: &mut TouchState, x: f32, y: f32) {
    touch.down(x.to_bits(), y.to_bits());
}

fn moved(touch: &mut TouchState, x: f32, y: f32) {
    touch.moved(x.to_bits(), y.to_bits());
}

#[test]
fn starts_at_zero_with_positive_signs() {
    assert_eq!(encoded(&TouchState::default()), [0.0, 0.0, 0.0, 0.0]);
}

#[test]
fn down_sets_current_and_last_down_with_both_signs_negative() {
    let mut touch = TouchState::default();
    down(&mut touch, 10.0, 20.0);
    assert_eq!(encoded(&touch), [10.0, 20.0, -10.0, -20.0]);
}

#[test]
fn move_while_down_updates_current_position_only() {
    let mut touch = TouchState::default();
    down(&mut touch, 10.0, 20.0);
    moved(&mut touch, 30.0, 40.0);
    assert_eq!(encoded(&touch), [30.0, 40.0, -10.0, -20.0]);
}

#[test]
fn move_while_not_down_is_ignored() {
    let mut touch = TouchState::default();
    moved(&mut touch, 30.0, 40.0);
    assert_eq!(encoded(&touch), [0.0, 0.0, 0.0, 0.0]);
}

#[test]
fn up_clears_the_down_sign_but_keeps_the_ever_clicked_sign() {
    let mut touch = TouchState::default();
    down(&mut touch, 10.0, 20.0);
    touch.up();
    assert_eq!(encoded(&touch), [10.0, 20.0, 10.0, -20.0]);
}

#[test]
fn a_second_down_after_up_overwrites_last_down_and_re_negates_z() {
    let mut touch = TouchState::default();
    down(&mut touch, 10.0, 20.0);
    touch.up();
    down(&mut touch, 50.0, 60.0);
    assert_eq!(encoded(&touch), [50.0, 60.0, -50.0, -60.0]);
}

#[test]
fn negating_bits_is_negating_numbers() {
    for x in [0.0f32, 1.5, 1234.25, f32::MAX, f32::MIN_POSITIVE] {
        let mut touch = TouchState::default();
        down(&mut touch, x, x);
        let four = touch.encode();
        assert_eq!(four[2], (-x).to_bits());
        assert_eq!(four[3], (x * -1.0).to_bits());
        touch.up();
        assert_eq!(touch.encode()[2], (x * 1.0).to_bits());
    }
}

#[test]
fn negative_positions_lose_their_sign_when_down() {
    let mut touch = TouchState::default();
    down(&mut touch, -3.0, -4.0);
    assert_eq!(encoded(&touch), [-3.0, -4.0, 3.0, 4.0]);
}

#[test]
fn motion_events_become_touches() {
    let mut queue: TouchQueue = Vec::new();
    let (x, y) = (7.0f32.to_bits(), 8.0f32.to_bits());
    touch_event(&mut queue, 0, x, y);
    touch_event(&mut queue, 2, y, x);
    touch_event(&mut queue, 1, x, y);
    touch_event(&mut queue, 3, x, y);
    touch_event(&mut queue, 5, x, y);
    touch_event(&mut queue, -1, x, y);
    let events = drain(&mut queue);
    assert_eq!(
        events,
        vec![
            TouchEvent::Down { x, y },
            TouchEvent::Move { x: y, y: x },
            TouchEvent::Up,
            TouchEvent::Up,
        ]
    );
    assert!(queue.is_empty());
    assert!(drain(&mut queue).is_empty());
}

fn apply(touch: &mut TouchState, events: Vec<TouchEvent>) {
    for event in events {
        match event {
            TouchEvent::Down { x, y } => touch.down(x, y),
            TouchEvent::Move { x, y } => touch.moved(x, y),
            TouchEvent::Up => touch.up(),
        }
    }
}

#[test]
fn a_tap_between_two_frames_takes_effect_in_full() {
    let mut queue: TouchQueue = Vec::new();
    push(&mut queue, TouchEvent::Down { x: 10.0f32.to_bits(), y: 20.0f32.to_bits() });
    push(&mut queue, TouchEvent::Up);
    let mut touch = TouchState::default();
    apply(&mut touch, drain(&mut queue));
    assert_eq!(encoded(&touch), [10.0, 20.0, 10.0, -20.0]);
    push(&mut queue, TouchEvent::Move { x: 1.0f32.to_bits(), y: 1.0f32.to_bits() });
    apply(&mut touch, drain(&mut queue));
    assert_eq!(encoded(&touch), [10.0, 20.0, 10.0, -20.0]);
}
