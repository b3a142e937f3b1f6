use cowshmup::drawable::{Circle, Drawable, Graphic, HasCenter, HasSize, HasTopLeft, Line, Ring};
use cowshmup::color::GameColor;
use cowshmup::editor::EditorPreview;
use cowshmup::game_data::{Banner, GameData, Keys};
use cowshmup::retro_camera::{Canvas, RetroCamera};
use cowshmup::state::State;
use cowshmup::{CenterPt, Size, TopLeftPt};

const ALL: [State; 6] =
    [State::Init, State::Step, State::StepAdvance, State::Playing, State::Paused, State::Exit];

fn no_keys() -> Keys {
    Keys {
        step_down: false,
        step_released: false,
        go_pressed: false,
        gizmos_pressed: false,
        editor_pressed: false,
        escape_pressed: false,
        space_pressed: false,
    }
}

fn game_in(state: State) -> GameData {
    GameData { state, ..GameData::default() }
}

#[test]
fn state_starts_at_init() {
    assert_eq!(State::default(), State::Init);
}

#[test]
fn only_exit_is_exit() {
    for s in ALL {
        assert_eq!(s.is_exit(), s == State::Exit);
    }
}

#[test]
fn playing_and_stepping_states_are_playing() {
    for s in ALL {
        assert_eq!(
            s.is_playing(),
            matches!(s, State::Playing | State::Step | State::StepAdvance)
        );
    }
}

#[test]
fn escape_leaves_or_resumes() {
    assert_eq!(State::Playing.press_escape(), State::Exit);
    assert_eq!(State::Paused.press_escape(), State::Playing);
    assert_eq!(State::Step.press_escape(), State::Exit);
    assert_eq!(State::Init.press_escape(), State::Init);
    assert_eq!(State::StepAdvance.press_escape(), State::StepAdvance);
    assert_eq!(State::Exit.press_escape(), State::Exit);
}

#[test]
fn space_pauses_or_plays() {
    assert_eq!(State::Playing.press_space(), State::Paused);
    assert_eq!(State::Step.press_space(), State::Paused);
    assert_eq!(State::StepAdvance.press_space(), State::Paused);
    assert_eq!(State::Paused.press_space(), State::Playing);
    assert_eq!(State::Init.press_space(), State::Playing);
    assert_eq!(State::Exit.press_space(), State::Playing);
}

#[test]
fn stepping_keys_count_while_paused_or_stepping() {
    for s in [State::Paused, State::Step] {
        assert_eq!(s.step(false, false, false), s);
        assert_eq!(s.step(true, false, false), State::Step);
        assert_eq!(s.step(false, true, false), State::Paused);
        assert_eq!(s.step(false, false, true), State::Playing);
        assert_eq!(s.step(true, true, false), State::Paused);
        assert_eq!(s.step(true, false, true), State::Playing);
        assert_eq!(s.step(true, true, true), State::Playing);
    }
    for s in [State::Init, State::StepAdvance, State::Playing, State::Exit] {
        assert_eq!(s.step(true, true, true), s);
    }
}

#[test]
fn new_game_pauses_on_its_first_frame() {
    let mut game = GameData::default();
    assert_eq!(game, GameData { fps: 0, time: 0, state: State::Init, show_gizmos: false, show_editor: false });
    let keys = Keys { space_pressed: true, gizmos_pressed: true, ..no_keys() };
    assert!(!game.update(16, keys));
    assert_eq!(game, game_in(State::Paused));
}

#[test]
fn running_game_counts_time_and_reads_keys() {
    let mut game = game_in(State::Playing);
    assert!(game.update(16, no_keys()));
    assert!(game.update(17, Keys { gizmos_pressed: true, ..no_keys() }));
    assert_eq!(game, GameData { time: 33, show_gizmos: true, ..game_in(State::Playing) });
    assert!(game.update(16, Keys { space_pressed: true, ..no_keys() }));
    assert_eq!(game.state, State::Paused);
    assert_eq!(game.time, 49);
    assert!(!game.update(16, no_keys()));
    assert_eq!(game.time, 49);
}

#[test]
fn paused_game_steps_while_the_step_key_is_held() {
    let mut game = game_in(State::Paused);
    assert!(!game.update(16, Keys { step_down: true, ..no_keys() }));
    assert_eq!(game.state, State::Step);
    assert_eq!(game.time, 0);
    assert!(game.update(16, Keys { step_down: true, ..no_keys() }));
    assert_eq!(game.time, 16);
    assert!(game.update(16, Keys { step_released: true, ..no_keys() }));
    assert_eq!(game.state, State::Paused);
    assert_eq!(game.time, 32);
    assert!(!game.update(16, Keys { go_pressed: true, ..no_keys() }));
    assert_eq!(game.state, State::Playing);
}

#[test]
fn keys_apply_in_order() {
    let mut game = game_in(State::Paused);
    game.handle_common_input(Keys { escape_pressed: true, space_pressed: true, ..no_keys() });
    assert_eq!(game.state, State::Paused);
    let mut game = game_in(State::Paused);
    game.handle_common_input(Keys { go_pressed: true, escape_pressed: true, ..no_keys() });
    assert_eq!(game.state, State::Exit);
    let mut game = game_in(State::Playing);
    game.handle_common_input(Keys { escape_pressed: true, space_pressed: true, ..no_keys() });
    assert_eq!(game.state, State::Playing);
}

#[test]
fn switches_flip() {
    let mut game = game_in(State::Paused);
    assert!(!game.is_editor());
    game.handle_common_input(Keys { editor_pressed: true, gizmos_pressed: true, ..no_keys() });
    assert!(game.is_editor());
    assert!(game.show_gizmos);
    game.handle_common_input(Keys { editor_pressed: true, ..no_keys() });
    assert!(!game.is_editor());
    assert!(game.show_gizmos);
}

#[test]
fn exiting_game_does_nothing() {
    let mut game = game_in(State::Exit);
    let keys = Keys { space_pressed: true, gizmos_pressed: true, go_pressed: true, ..no_keys() };
    assert!(!game.update(16, keys));
    assert_eq!(game, game_in(State::Exit));
}

#[test]
fn clock_saturates() {
    let mut game = GameData { time: i32::MAX - 5, ..game_in(State::Playing) };
    game.update(16, no_keys());
    assert_eq!(game.time, i32::MAX);
}

#[test]
fn scene_per_state() {
    assert_eq!(game_in(State::Init).draw(), (false, None));
    assert_eq!(game_in(State::Playing).draw(), (true, None));
    assert_eq!(game_in(State::Paused).draw(), (true, Some(Banner::Paused)));
    assert_eq!(game_in(State::Step).draw(), (true, Some(Banner::Step)));
    assert_eq!(game_in(State::StepAdvance).draw(), (true, None));
    assert_eq!(game_in(State::Exit).draw(), (true, None));
}

#[test]
fn preview_name() {
    assert_eq!(EditorPreview::Explosion.get_name(), "Explosion Preview");
}

#[test]
fn camera_fits_the_game_at_a_whole_zoom() {
    let mut camera = RetroCamera::new(320_000, 240_000, 800_000, 600_000);
    assert_eq!(camera.zoom, 1000);
    assert_eq!(camera.game_canvas, Canvas { x: 0, y: 0, w: 800_000, h: 600_000 });
    camera.calculate_canvas_position_for_int_scale();
    assert_eq!(camera.zoom, 2000);
    assert_eq!(camera.game_canvas, Canvas { x: 80_000, y: 60_000, w: 800_000, h: 600_000 });
    assert_eq!(camera.dest_size(), Size(640_000, 480_000));
}

#[test]
fn camera_takes_the_smaller_ratio() {
    let mut camera = RetroCamera::new(320_000, 240_000, 0, 0);
    camera.reset_canvas(Canvas { x: 10_000, y: 20_000, w: 1_000_000, h: 600_000 });
    camera.calculate_canvas_position_for_int_scale();
    assert_eq!(camera.zoom, 2000);
    assert_eq!(camera.game_canvas, Canvas { x: 190_000, y: 80_000, w: 1_000_000, h: 600_000 });
    let mut tall = RetroCamera::new(320_000, 240_000, 640_000, 960_000);
    tall.calculate_canvas_position_for_int_scale();
    assert_eq!(tall.zoom, 2000);
    assert_eq!(tall.game_canvas, Canvas { x: 0, y: 240_000, w: 640_000, h: 960_000 });
}

#[test]
fn camera_scales_freely_when_allowed() {
    let mut camera = RetroCamera::new(320_000, 240_000, 800_000, 720_000);
    camera.free_scale();
    assert!(camera.allow_non_int_scaling);
    camera.calculate_canvas_position_for_int_scale();
    assert_eq!(camera.zoom, 2500);
    assert_eq!(camera.game_canvas, Canvas { x: 0, y: 60_000, w: 800_000, h: 720_000 });
}

#[test]
fn camera_that_does_not_fit_has_zoom_zero() {
    let mut camera = RetroCamera::new(320_000, 240_000, 300_000, 600_000);
    camera.calculate_canvas_position_for_int_scale();
    assert_eq!(camera.zoom, 0);
    assert_eq!(camera.game_canvas, Canvas { x: 150_000, y: 300_000, w: 300_000, h: 600_000 });
}

#[test]
fn camera_centre_and_size() {
    let camera = RetroCamera::new(320_000, 240_000, 800_000, 600_000);
    assert_eq!(camera.center(), CenterPt(160_000, 120_000));
    assert_eq!(camera.size(), Size(320_000, 240_000));
    assert_eq!(camera.game_canvas.size(), Size(800_000, 600_000));
    assert_eq!(camera.game_canvas.top_left(), TopLeftPt(0, 0));
}

#[test]
fn shapes_draw_themselves() {
    let white = GameColor::new(1000, 1000, 1000, 1000);
    let line = Line::new(1, 2, 3, 4, white);
    assert_eq!(line.draw(), vec![Graphic::Line(line)]);
    let circle = Circle::new(CenterPt(5, 6), 7, white);
    assert_eq!(circle.draw(), vec![Graphic::Circle(circle)]);
    assert_eq!(circle.center(), CenterPt(5, 6));
    let ring = Ring::new(CenterPt(5, 6), 7, 8, white);
    assert_eq!(Graphic::Ring(ring).draw(), vec![Graphic::Ring(ring)]);
    assert_eq!(Graphic::line(1, 2, 3, 4, white), Graphic::Line(line));
    assert_eq!(Graphic::circle(CenterPt(5, 6), 7, white), Graphic::Circle(circle));
    assert_eq!(Graphic::ring(CenterPt(5, 6), 7, 8, white), Graphic::Ring(ring));
}
