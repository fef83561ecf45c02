use fluid_sim::gui::{Gui, Pixels};

#[test]
fn a_new_pointer_is_released_at_the_origin() {
    let gui = Gui::new(640, 480);
    assert!(!gui.mouse_pressed());
    assert_eq!(gui.mouse_pos(), Pixels { x: 0, y: 0 });
    assert_eq!(gui.mouse_vec(), Pixels { x: 0, y: 0 });
    assert_eq!(gui.width(), 640);
    assert_eq!(gui.height(), 480);
}

#[test]
fn pressing_flips_the_vertical_axis() {
    let mut gui = Gui::new(640, 480);
    gui.set_mouse_down(100, 120);
    assert!(gui.mouse_pressed());
    assert_eq!(gui.mouse_pos(), Pixels { x: 100, y: 360 });
    assert_eq!(gui.mouse_vec(), Pixels { x: 0, y: 0 });
    assert_eq!(gui.mouse_pos().x as f32 / gui.width() as f32, 0.15625);
    assert_eq!(gui.mouse_pos().y as f32 / gui.height() as f32, 0.75);
}

#[test]
fn moving_while_pressed_records_the_displacement() {
    let mut gui = Gui::new(640, 480);
    gui.set_mouse_down(100, 120);
    gui.set_mouse_move(110, 100);
    assert_eq!(gui.mouse_pos(), Pixels { x: 110, y: 380 });
    assert_eq!(gui.mouse_vec(), Pixels { x: 10, y: 20 });
    gui.set_mouse_move(105, 130);
    assert_eq!(gui.mouse_pos(), Pixels { x: 105, y: 350 });
    assert_eq!(gui.mouse_vec(), Pixels { x: -5, y: -30 });
    assert!(gui.mouse_pressed());
}

#[test]
fn moving_while_released_changes_nothing() {
    let mut gui = Gui::new(640, 480);
    gui.set_mouse_move(10, 10);
    assert!(!gui.mouse_pressed());
    assert_eq!(gui.mouse_pos(), Pixels { x: 0, y: 0 });
    assert_eq!(gui.mouse_vec(), Pixels { x: 0, y: 0 });
    gui.set_mouse_down(5, 5);
    gui.set_mouse_move(6, 7);
    gui.set_mouse_up();
    gui.set_mouse_move(100, 100);
    assert_eq!(gui.mouse_pos(), Pixels { x: 6, y: 473 });
    assert_eq!(gui.mouse_vec(), Pixels { x: 0, y: 0 });
}

#[test]
fn releasing_zeroes_the_displacement_and_keeps_the_position() {
    let mut gui = Gui::new(640, 480);
    gui.set_mouse_down(100, 120);
    gui.set_mouse_move(110, 100);
    gui.set_mouse_up();
    assert!(!gui.mouse_pressed());
    assert_eq!(gui.mouse_pos(), Pixels { x: 110, y: 380 });
    assert_eq!(gui.mouse_vec(), Pixels { x: 0, y: 0 });
    assert_eq!(gui.width(), 640);
    assert_eq!(gui.height(), 480);
}

#[test]
fn pressing_again_starts_without_displacement() {
    let mut gui = Gui::new(640, 480);
    gui.set_mouse_down(100, 120);
    gui.set_mouse_move(110, 100);
    gui.set_mouse_down(300, 200);
    assert_eq!(gui.mouse_pos(), Pixels { x: 300, y: 280 });
    assert_eq!(gui.mouse_vec(), Pixels { x: 0, y: 0 });
}

#[test]
fn the_extremes_of_the_canvas_do_not_overflow() {
    let mut gui = Gui::new(i32::MAX, i32::MAX);
    gui.set_mouse_down(i32::MIN, i32::MIN);
    assert_eq!(
        gui.mouse_pos(),
        Pixels { x: i32::MIN as i64, y: i32::MAX as i64 - i32::MIN as i64 }
    );
    gui.set_mouse_move(i32::MAX, i32::MAX);
    assert_eq!(gui.mouse_pos(), Pixels { x: i32::MAX as i64, y: 0 });
    assert_eq!(
        gui.mouse_vec(),
        Pixels { x: u32::MAX as i64, y: -(u32::MAX as i64) }
    );
    let mut low = Gui::new(0, i32::MIN);
    low.set_mouse_down(0, i32::MAX);
    assert_eq!(low.mouse_pos(), Pixels { x: 0, y: -(u32::MAX as i64) });
}
