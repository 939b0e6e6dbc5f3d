use pong::entity::{Entity, Visual};
use pong::game_state::{rebound, GameState};
use pong::math::Vec2;
use pong::scene::{
    Input, Verdict, BALL_ACCEL, BALL_SPEED, PADDLE_MARGIN, PADDLE_SPEED, PADDLE_SPIN, SPIN_PIXELS,
};
use pong::units::{FIELD_LIMIT, GRAIN_LIMIT, LIMIT, UNITS_PER_PIXEL};

fn paddle() -> Visual {
    Visual::new(16, 64)
}

fn ball() -> Visual {
    Visual::new(8, 8)
}

fn table() -> GameState {
    GameState::new(640, 480, paddle(), paddle(), ball())
}

/// A table whose paddles are far above the playfield, out of the ball's way.
fn open_table() -> GameState {
    let mut state = table();
    state.player1.position.y = -1_000_000;
    state.player2.position.y = -1_000_000;
    state
}

fn held(player1_up: bool, player1_down: bool, player2_up: bool, player2_down: bool) -> Input {
    Input { player1_up, player1_down, player2_up, player2_down }
}

const NOBODY: Verdict = Verdict { player2_wins: false, player1_wins: false };

#[test]
fn tuning_constants_in_pixels() {
    let unit = UNITS_PER_PIXEL as f64;
    assert_eq!(PADDLE_SPEED as f64 / unit, 8.0);
    assert_eq!(BALL_SPEED as f64 / unit, 5.0);
    assert_eq!(PADDLE_SPIN as f64 / unit, 4.0);
    assert_eq!(BALL_ACCEL as f64 / unit, 0.05);
    assert_eq!(PADDLE_MARGIN as f64 / unit, 16.0);
    assert_eq!(SPIN_PIXELS * UNITS_PER_PIXEL, PADDLE_SPIN);
}

#[test]
fn input_none_holds_no_key() {
    assert_eq!(Input::none(), held(false, false, false, false));
}

#[test]
fn new_places_player1_at_the_left_margin() {
    let state = table();
    assert_eq!(state.player1, Entity::new(paddle(), Vec2::new(16_000, 208_000)));
}

#[test]
fn new_places_player2_at_the_right_margin() {
    let state = table();
    assert_eq!(state.player2, Entity::new(paddle(), Vec2::new(608_000, 208_000)));
}

#[test]
fn new_serves_the_ball_from_the_middle_toward_player1() {
    let state = table();
    assert_eq!(
        state.ball,
        Entity::with_velocity(ball(), Vec2::new(316_000, 236_000), Vec2::new(-5_000, 0))
    );
}

#[test]
fn new_keeps_the_playfield_size() {
    let state = table();
    assert_eq!(state.width, 640_000);
    assert_eq!(state.height, 480_000);
}

#[test]
fn new_centres_images_of_odd_size() {
    let state = GameState::new(641, 481, Visual::new(15, 63), Visual::new(17, 65), Visual::new(7, 9));
    assert_eq!(state.player1.position, Vec2::new(16_000, 209_000));
    assert_eq!(state.player2.position, Vec2::new(608_000, 208_000));
    assert_eq!(state.ball.position, Vec2::new(317_000, 236_000));
}

#[test]
fn new_with_images_larger_than_the_playfield() {
    let state = GameState::new(10, 10, Visual::new(16, 64), Visual::new(16, 64), Visual::new(20, 21));
    assert_eq!(state.player1.position, Vec2::new(16_000, -27_000));
    assert_eq!(state.player2.position, Vec2::new(-22_000, -27_000));
    assert_eq!(state.ball.position, Vec2::new(-5_000, -5_500));
}

#[test]
fn new_state_is_well_formed_and_within_limits() {
    let state = table();
    assert!(state.well_formed());
    assert!(state.within_limits());
    let extreme = GameState::new(i32::MAX, i32::MIN, paddle(), paddle(), ball());
    assert!(extreme.well_formed());
    assert!(extreme.within_limits());
}

#[test]
fn a_state_without_image_size_is_not_well_formed() {
    let state = GameState::new(640, 480, Visual::new(16, 0), paddle(), ball());
    assert!(!state.well_formed());
    let state = GameState::new(640, 480, paddle(), paddle(), Visual::new(-1, 8));
    assert!(!state.well_formed());
}

#[test]
fn a_state_with_a_moving_paddle_is_not_well_formed() {
    let mut state = table();
    state.player2.velocity.y = 1;
    assert!(!state.well_formed());
}

#[test]
fn within_limits_ends_beyond_the_limit() {
    let mut state = table();
    state.ball.position.x = LIMIT;
    assert!(state.within_limits());
    state.ball.position.x = LIMIT + 1;
    assert!(!state.within_limits());
    let mut state = table();
    state.ball.velocity.y = -LIMIT - 1;
    assert!(!state.within_limits());
    let mut state = table();
    state.player1.position.y = -LIMIT;
    assert!(state.within_limits());
    state.player2.position.y = LIMIT + 1;
    assert!(!state.within_limits());
    let mut state = table();
    state.player1.grain = GRAIN_LIMIT;
    state.player2.grain = GRAIN_LIMIT;
    state.ball.grain = GRAIN_LIMIT;
    assert!(state.well_formed() && state.within_limits());
    state.player1.grain = GRAIN_LIMIT + 1;
    state.player2.grain = GRAIN_LIMIT + 1;
    state.ball.grain = GRAIN_LIMIT + 1;
    assert!(state.well_formed() && !state.within_limits());
    let mut state = table();
    state.width = FIELD_LIMIT;
    state.height = -FIELD_LIMIT;
    assert!(state.within_limits());
    state.height = -FIELD_LIMIT - 1;
    assert!(!state.within_limits());
}

#[test]
fn a_state_of_two_grains_is_not_well_formed() {
    let mut state = table();
    state.ball.grain = 64;
    assert!(!state.well_formed());
    state.player1.grain = 64;
    assert!(!state.well_formed());
    state.player2.grain = 64;
    assert!(state.well_formed());
    state.player1.grain = 0;
    state.player2.grain = 0;
    state.ball.grain = 0;
    assert!(!state.well_formed());
}

#[test]
fn ball_moves_by_its_velocity() {
    let mut state = open_table();
    state.ball.position = Vec2::new(300_000, 200_000);
    state.ball.velocity = Vec2::new(1_234, -567);
    let verdict = state.update(Input::none());
    assert_eq!(state.ball.position, Vec2::new(301_234, 199_433));
    assert_eq!(state.ball.velocity, Vec2::new(1_234, -567));
    assert_eq!(verdict, NOBODY);
}

#[test]
fn ball_at_rest_stays() {
    let mut state = open_table();
    state.ball.velocity = Vec2::zero();
    let before = state;
    state.update(Input::none());
    assert_eq!(state, before);
}

#[test]
fn up_key_moves_player1_up() {
    let mut state = table();
    state.player1.position.y = 100_000;
    state.update(held(true, false, false, false));
    assert_eq!(state.player1.position, Vec2::new(16_000, 92_000));
    assert_eq!(state.player2.position, Vec2::new(608_000, 208_000));
}

#[test]
fn down_key_moves_player1_down() {
    let mut state = table();
    state.player1.position.y = 100_000;
    state.update(held(false, true, false, false));
    assert_eq!(state.player1.position, Vec2::new(16_000, 108_000));
    assert_eq!(state.player2.position, Vec2::new(608_000, 208_000));
}

#[test]
fn up_and_down_keys_move_player2() {
    let mut state = table();
    state.update(held(false, false, true, false));
    assert_eq!(state.player2.position, Vec2::new(608_000, 200_000));
    state.update(held(false, false, false, true));
    state.update(held(false, false, false, true));
    assert_eq!(state.player2.position, Vec2::new(608_000, 216_000));
    assert_eq!(state.player1.position, Vec2::new(16_000, 208_000));
}

#[test]
fn both_keys_held_cancel() {
    let mut state = table();
    state.update(held(true, true, true, true));
    assert_eq!(state.player1.position, Vec2::new(16_000, 208_000));
    assert_eq!(state.player2.position, Vec2::new(608_000, 208_000));
}

#[test]
fn no_key_leaves_the_paddles() {
    let mut state = table();
    state.update(Input::none());
    assert_eq!(state.player1, Entity::new(paddle(), Vec2::new(16_000, 208_000)));
    assert_eq!(state.player2, Entity::new(paddle(), Vec2::new(608_000, 208_000)));
}

#[test]
fn paddles_may_leave_the_playfield() {
    let mut state = table();
    state.player1.position.y = 4_000;
    state.player2.position.y = 470_000;
    state.update(held(true, false, false, true));
    assert_eq!(state.player1.position.y, -4_000);
    assert_eq!(state.player2.position.y, 478_000);
    state.update(held(true, false, false, true));
    assert_eq!(state.player1.position.y, -12_000);
    assert_eq!(state.player2.position.y, 486_000);
}

#[test]
fn paddles_stay_at_rest() {
    let mut state = table();
    state.update(held(true, false, false, true));
    assert_eq!(state.player1.velocity, Vec2::zero());
    assert_eq!(state.player2.velocity, Vec2::zero());
}

#[test]
fn player1_returns_the_ball_faster() {
    let mut state = table();
    state.ball.position = Vec2::new(36_000, 236_000);
    state.update(Input::none());
    assert_eq!(state.ball.position, Vec2::new(31_000, 236_000));
    assert_eq!(state.ball.velocity, Vec2::new(5_050, 0));
}

#[test]
fn player2_returns_the_ball_faster() {
    let mut state = table();
    state.ball.position = Vec2::new(596_000, 236_000);
    state.ball.velocity = Vec2::new(5_000, 0);
    state.update(Input::none());
    assert_eq!(state.ball.position, Vec2::new(601_000, 236_000));
    assert_eq!(state.ball.velocity, Vec2::new(-5_050, 0));
}

#[test]
fn each_return_adds_the_same_speed() {
    let mut state = table();
    state.ball.position = Vec2::new(36_000, 236_000);
    state.ball.velocity = Vec2::new(-5_050, 0);
    state.update(Input::none());
    assert_eq!(state.ball.velocity.x, 5_100);
}

#[test]
fn a_ball_without_horizontal_speed_gains_none_at_a_paddle() {
    let mut state = table();
    state.ball.position = Vec2::new(20_000, 250_000);
    state.ball.velocity = Vec2::zero();
    state.update(Input::none());
    assert_eq!(state.ball.velocity, Vec2::new(0, 875));
}

#[test]
fn ball_is_not_returned_before_it_reaches_the_paddle() {
    let mut state = table();
    state.ball.position = Vec2::new(37_000, 236_000);
    state.update(Input::none());
    // The ball's left edge now lies on the paddle's right edge.
    assert_eq!(state.ball.position, Vec2::new(32_000, 236_000));
    assert_eq!(state.ball.velocity, Vec2::new(-5_000, 0));
    state.update(Input::none());
    assert_eq!(state.ball.velocity, Vec2::new(5_050, 0));
}

#[test]
fn ball_passes_a_paddle_that_is_not_at_its_height() {
    let mut state = table();
    state.ball.position = Vec2::new(36_000, 272_000);
    state.update(Input::none());
    assert_eq!(state.ball.velocity, Vec2::new(-5_000, 0));
}

#[test]
fn paddle_is_struck_where_it_has_moved_to() {
    let mut state = table();
    // The ball passes just below the paddle unless the paddle comes down.
    state.ball.position = Vec2::new(36_000, 272_000);
    state.update(held(false, true, false, false));
    assert_eq!(state.player1.position.y, 216_000);
    // Ball centre 276, paddle centre 248, paddle height 64: 4 * 28 / 64.
    assert_eq!(state.ball.velocity, Vec2::new(5_050, 1_750));
}

#[test]
fn ball_below_the_centre_is_sent_down() {
    let mut state = table();
    state.ball.position = Vec2::new(36_000, 250_000);
    state.update(Input::none());
    // Ball centre 254, paddle centre 240, paddle height 64: 4 * 14 / 64.
    assert_eq!(state.ball.velocity, Vec2::new(5_050, 875));
}

#[test]
fn ball_above_the_centre_is_sent_up() {
    let mut state = table();
    state.ball.position = Vec2::new(36_000, 222_000);
    state.update(Input::none());
    assert_eq!(state.ball.velocity, Vec2::new(5_050, -875));
}

#[test]
fn spin_adds_to_the_vertical_velocity() {
    let mut state = table();
    state.ball.position = Vec2::new(36_000, 250_300);
    state.ball.velocity = Vec2::new(-5_000, -300);
    state.update(Input::none());
    assert_eq!(state.ball.position, Vec2::new(31_000, 250_000));
    assert_eq!(state.ball.velocity, Vec2::new(5_050, 575));
}

#[test]
fn a_whole_spin_keeps_the_grain() {
    let mut state = table();
    state.ball.position = Vec2::new(36_000, 250_000);
    state.update(Input::none());
    assert_eq!(state.ball.grain, 1);
    assert_eq!(state.player1.grain, 1);
    assert_eq!(state.player2.grain, 1);
    assert_eq!(state.ball.velocity, Vec2::new(5_050, 875));
    assert_eq!(state.player1.position, Vec2::new(16_000, 208_000));
}

#[test]
fn spin_is_not_rounded() {
    let mut state = table();
    // The ball's centre is one pixel below the paddle's: 4 * 1 / 64 pixels
    // per tick, which is 62.5 thousandths.
    state.ball.position = Vec2::new(36_000, 237_000);
    state.update(Input::none());
    assert_eq!(state.ball.grain, 64);
    assert_eq!(state.ball.velocity, Vec2::new(64 * 5_050, 4_000));
    assert_eq!(2 * state.ball.velocity.y, 125 * state.ball.grain);
    assert_eq!(state.ball.position, Vec2::new(64 * 31_000, 64 * 237_000));
    let mut state = table();
    state.ball.position = Vec2::new(36_000, 235_000);
    state.update(Input::none());
    assert_eq!(state.ball.grain, 64);
    assert_eq!(state.ball.velocity, Vec2::new(64 * 5_050, -4_000));
}

#[test]
fn the_smallest_drop_below_the_centre_gives_spin() {
    let mut state = table();
    state.ball.position = Vec2::new(36_000, 236_001);
    state.update(Input::none());
    assert_eq!(state.ball.grain, 64);
    assert_eq!(state.ball.velocity.y, 4);
    assert!(state.ball.velocity.y > 0);
    let mut state = table();
    state.ball.position = Vec2::new(36_000, 235_999);
    state.update(Input::none());
    assert_eq!(state.ball.velocity.y, -4);
}

#[test]
fn a_finer_grain_changes_no_place_and_no_size() {
    let mut state = table();
    state.ball.position = Vec2::new(36_000, 237_000);
    state.update(held(false, true, true, false));
    // Player one has moved down before the ball struck.
    assert_eq!(state.player1.grain, 64);
    assert_eq!(state.player2.grain, 64);
    assert_eq!(state.player1.position, Vec2::new(64 * 16_000, 64 * 216_000));
    assert_eq!(state.player2.position, Vec2::new(64 * 608_000, 64 * 200_000));
    assert_eq!(state.player1.velocity, Vec2::zero());
    assert_eq!(state.player2.velocity, Vec2::zero());
    assert_eq!(state.player1.visual, paddle());
    assert_eq!(state.ball.visual, ball());
    assert_eq!(state.player1.width(), 64 * 16_000);
    assert_eq!(state.ball.height(), 64 * 8_000);
    assert_eq!(state.width, 640_000);
    assert_eq!(state.height, 480_000);
    assert!(state.well_formed());
    assert!(state.within_limits());
}

#[test]
fn spin_times_paddle_height_is_spin_constant_times_drop() {
    for y in [231_500i128, 235_699, 235_700, 235_701, 236_700, 238_000, 240_199] {
        for height in [1i32, 3, 7, 60, 64, 100] {
            let mut state = GameState::new(640, 480, Visual::new(16, height), paddle(), ball());
            state.player1.position.y = 240_000 - 500 * height as i128;
            state.ball.position = Vec2::new(20_000, y);
            state.ball.velocity = Vec2::new(0, 300);
            let before = state;
            state.update(Input::none());
            let factor = state.ball.grain;
            assert!(factor == 1 || factor == height as i128);
            let added = state.ball.velocity.y - before.ball.velocity.y * factor;
            let below = state.ball.centre().y - state.player1.centre().y;
            assert_eq!(below, factor * (y + 300 + 4_000 - 240_000));
            assert_eq!(added * state.player1.height(), PADDLE_SPIN * state.ball.grain * below);
            let real = 4.0 * (below as f64 / factor as f64) / (1000.0 * height as f64);
            assert!((added as f64 / factor as f64 - 1000.0 * real).abs() < 1e-6);
        }
    }
}

#[test]
fn spin_beyond_the_face_of_the_paddle() {
    let mut state = table();
    // The ball overlaps the paddle by one unit at its lower corner.
    state.ball.position = Vec2::new(36_000, 271_999);
    state.update(Input::none());
    // Ball centre 275.999, paddle centre 240: 4 * 35.999 / 64 pixels per tick.
    assert_eq!(state.ball.grain, 64);
    assert_eq!(state.ball.velocity, Vec2::new(64 * 5_050, 4 * 35_999));
}

#[test]
fn play_goes_on_at_the_finer_grain() {
    let mut state = table();
    state.ball.position = Vec2::new(36_000, 237_000);
    state.update(Input::none());
    assert_eq!(state.ball.grain, 64);
    let verdict = state.update(held(true, false, false, true));
    assert_eq!(verdict, NOBODY);
    assert_eq!(state.ball.grain, 64);
    assert_eq!(state.ball.position, Vec2::new(64 * 31_000 + 64 * 5_050, 64 * 237_000 + 4_000));
    assert_eq!(state.ball.velocity, Vec2::new(64 * 5_050, 4_000));
    assert_eq!(state.player1.position, Vec2::new(64 * 16_000, 64 * 200_000));
    assert_eq!(state.player2.position, Vec2::new(64 * 608_000, 64 * 216_000));
}

#[test]
fn walls_and_edges_are_met_at_the_finer_grain() {
    let mut state = open_table();
    state.player1 = state.player1.refined(64);
    state.player2 = state.player2.refined(64);
    state.ball = state.ball.refined(64);
    state.ball.position = Vec2::new(64 * 300_000, 1);
    state.ball.velocity = Vec2::new(0, -1);
    let verdict = state.update(Input::none());
    assert_eq!(state.ball.position.y, 0);
    assert_eq!(state.ball.velocity.y, 1);
    assert_eq!(verdict, NOBODY);
    state.ball.position = Vec2::new(64 * 632_000, 64 * 472_000 - 2);
    state.ball.velocity = Vec2::new(0, 1);
    let verdict = state.update(Input::none());
    assert_eq!(state.ball.velocity.y, 1);
    assert_eq!(verdict, NOBODY);
    state.ball.velocity = Vec2::new(1, 1);
    let verdict = state.update(Input::none());
    assert_eq!(state.ball.position, Vec2::new(64 * 632_000 + 1, 64 * 472_000));
    assert_eq!(state.ball.velocity, Vec2::new(1, -1));
    assert_eq!(verdict, Verdict { player2_wins: false, player1_wins: true });
    state.ball.position = Vec2::new(0, 64 * 236_000);
    state.ball.velocity = Vec2::new(-1, 0);
    let verdict = state.update(Input::none());
    assert_eq!(verdict, Verdict { player2_wins: true, player1_wins: false });
}

#[test]
fn a_second_paddle_refines_the_grain_again() {
    let mut state = GameState::new(640, 480, Visual::new(16, 64), Visual::new(16, 60), ball());
    state.ball.position = Vec2::new(36_000, 237_000);
    state.update(Input::none());
    assert_eq!(state.ball.grain, 64);
    // Put the ball in front of player two, one pixel below that paddle's centre.
    state.ball.position = Vec2::new(64 * 596_000, 64 * 237_000);
    state.ball.velocity = Vec2::new(64 * 5_000, 1);
    state.update(Input::none());
    // Drop: 64 * 1000 + 1 parts of grain 64; 4 times that is no multiple of 60.
    assert_eq!(state.ball.grain, 64 * 60);
    assert_eq!(state.player1.grain, 64 * 60);
    assert_eq!(state.player2.grain, 64 * 60);
    assert_eq!(state.ball.velocity, Vec2::new(-60 * 64 * 5_050, 60 + 4 * 64_001));
    assert_eq!(state.ball.position, Vec2::new(60 * 64 * 601_000, 60 * (64 * 237_000 + 1)));
}

#[test]
fn coarsened_state_has_grain_one() {
    let mut state = table();
    state.ball.position = Vec2::new(36_000, 237_000);
    state.update(held(false, false, true, false));
    state.update(Input::none());
    assert_eq!(state.ball.grain, 64);
    assert_eq!(state.ball.position, Vec2::new(64 * 36_050, 64 * 237_000 + 4_000));
    let coarse = state.coarsened();
    assert!(coarse.well_formed());
    assert_eq!(coarse.ball.grain, 1);
    assert_eq!(coarse.player1, Entity::new(paddle(), Vec2::new(16_000, 208_000)));
    assert_eq!(coarse.player2, Entity::new(paddle(), Vec2::new(608_000, 200_000)));
    assert_eq!(
        coarse.ball,
        Entity::with_velocity(ball(), Vec2::new(36_050, 237_062), Vec2::new(5_050, 62))
    );
    assert_eq!(coarse.width, 640_000);
    assert_eq!(coarse.height, 480_000);
}

#[test]
fn coarsening_a_state_of_grain_one_changes_nothing() {
    let state = table();
    assert_eq!(state.coarsened(), state);
}

#[test]
fn player1_is_struck_before_player2() {
    let mut state = table();
    state.player2.position = Vec2::new(30_000, 200_000);
    state.ball.position = Vec2::new(36_000, 250_000);
    state.update(Input::none());
    // Against player one 4 * 14 / 64, against player two 4 * 22 / 64.
    assert_eq!(state.ball.velocity, Vec2::new(5_050, 875));
}

#[test]
fn player2_is_struck_where_player1_is_not() {
    let mut state = table();
    state.player1.position.y = -1_000_000;
    state.player2.position = Vec2::new(30_000, 200_000);
    state.ball.position = Vec2::new(36_000, 250_000);
    state.update(Input::none());
    assert_eq!(state.ball.velocity, Vec2::new(5_050, 1_375));
}

#[test]
fn ball_on_the_top_edge_turns_back() {
    for k in [-5_000i128, -1, 0, 1, 5_000, 123_456] {
        let mut state = open_table();
        state.ball.position = Vec2::new(300_000, -k);
        state.ball.velocity = Vec2::new(0, k);
        state.update(Input::none());
        assert_eq!(state.ball.position, Vec2::new(300_000, 0));
        assert_eq!(state.ball.velocity, Vec2::new(0, -k));
    }
}

#[test]
fn ball_on_the_bottom_edge_turns_back() {
    let mut state = open_table();
    state.ball.position = Vec2::new(300_000, 469_000);
    state.ball.velocity = Vec2::new(-2_000, 3_000);
    state.update(Input::none());
    assert_eq!(state.ball.position, Vec2::new(298_000, 472_000));
    assert_eq!(state.ball.velocity, Vec2::new(-2_000, -3_000));
}

#[test]
fn ball_one_unit_from_a_wall_goes_on() {
    let mut state = open_table();
    state.ball.position = Vec2::new(300_000, 1_001);
    state.ball.velocity = Vec2::new(0, -1_000);
    state.update(Input::none());
    assert_eq!(state.ball.position.y, 1);
    assert_eq!(state.ball.velocity.y, -1_000);
    let mut state = open_table();
    state.ball.position = Vec2::new(300_000, 470_999);
    state.ball.velocity = Vec2::new(0, 1_000);
    state.update(Input::none());
    assert_eq!(state.ball.position.y, 471_999);
    assert_eq!(state.ball.velocity.y, 1_000);
}

#[test]
fn ball_beyond_a_wall_is_not_put_back() {
    let mut state = open_table();
    state.ball.position = Vec2::new(300_000, 2_000);
    state.ball.velocity = Vec2::new(0, -5_000);
    state.update(Input::none());
    assert_eq!(state.ball.position.y, -3_000);
    assert_eq!(state.ball.velocity.y, 5_000);
    state.update(Input::none());
    assert_eq!(state.ball.position.y, 2_000);
    assert_eq!(state.ball.velocity.y, 5_000);
}

#[test]
fn ball_far_beyond_a_wall_turns_in_every_tick() {
    let mut state = open_table();
    state.ball.position = Vec2::new(300_000, -20_000);
    state.ball.velocity = Vec2::new(0, -1_000);
    state.update(Input::none());
    assert_eq!(state.ball.position.y, -21_000);
    assert_eq!(state.ball.velocity.y, 1_000);
    state.update(Input::none());
    assert_eq!(state.ball.position.y, -20_000);
    assert_eq!(state.ball.velocity.y, -1_000);
}

#[test]
fn spin_comes_before_the_wall() {
    let mut state = table();
    state.player1.position.y = -10_000;
    state.ball.position = Vec2::new(36_000, 0);
    state.update(Input::none());
    // Ball centre 4, paddle centre 22: spin 4000 * -18000 / 64000 = -1125,
    // which the wall then reverses.
    assert_eq!(state.ball.position, Vec2::new(31_000, 0));
    assert_eq!(state.ball.velocity, Vec2::new(5_050, 1_125));
}

#[test]
fn ball_just_left_of_the_playfield_wins_for_player2() {
    let mut state = open_table();
    state.ball.position = Vec2::new(-10, 236_000);
    state.ball.velocity = Vec2::zero();
    let verdict = state.update(Input::none());
    assert_eq!(verdict, Verdict { player2_wins: true, player1_wins: false });
    assert!(verdict.ends_match());
}

#[test]
fn ball_just_right_of_the_playfield_wins_for_player1() {
    let mut state = open_table();
    state.ball.position = Vec2::new(640_010, 236_000);
    state.ball.velocity = Vec2::zero();
    let verdict = state.update(Input::none());
    assert_eq!(verdict, Verdict { player2_wins: false, player1_wins: true });
    assert!(verdict.ends_match());
}

#[test]
fn ball_on_the_left_edge_wins_for_nobody() {
    let mut state = open_table();
    state.ball.position = Vec2::new(5_000, 236_000);
    let verdict = state.update(Input::none());
    assert_eq!(state.ball.position.x, 0);
    assert_eq!(verdict, NOBODY);
    assert!(!verdict.ends_match());
    let verdict = state.update(Input::none());
    assert_eq!(state.ball.position.x, -5_000);
    assert_eq!(verdict, Verdict { player2_wins: true, player1_wins: false });
}

#[test]
fn ball_wins_for_player1_when_its_right_edge_leaves() {
    let mut state = open_table();
    state.ball.position = Vec2::new(627_000, 236_000);
    state.ball.velocity = Vec2::new(5_000, 0);
    let verdict = state.update(Input::none());
    // The right edge lies on the edge of the playfield.
    assert_eq!(state.ball.position.x, 632_000);
    assert_eq!(verdict, NOBODY);
    state.ball.velocity = Vec2::new(1, 0);
    let verdict = state.update(Input::none());
    assert_eq!(state.ball.position.x, 632_001);
    assert_eq!(verdict, Verdict { player2_wins: false, player1_wins: true });
}

#[test]
fn verdict_is_read_after_the_ball_has_moved() {
    let mut state = open_table();
    state.ball.position = Vec2::new(4_000, 236_000);
    let verdict = state.update(Input::none());
    assert_eq!(state.ball.position.x, -1_000);
    assert_eq!(verdict, Verdict { player2_wins: true, player1_wins: false });
}

#[test]
fn both_players_win_on_a_playfield_narrower_than_the_ball() {
    let mut state = GameState::new(4, 480, paddle(), paddle(), ball());
    state.player1.position.y = -1_000_000;
    state.player2.position.y = -1_000_000;
    assert_eq!(state.ball.position.x, -2_000);
    state.ball.velocity = Vec2::zero();
    let verdict = state.update(Input::none());
    // The ball reaches from -2 to 6 on a playfield from 0 to 4.
    assert_eq!(verdict, Verdict { player2_wins: true, player1_wins: true });
    assert!(verdict.ends_match());
}

#[test]
fn served_ball_runs_left_until_player2_wins() {
    let mut state = table();
    assert_eq!(state.width, 640_000);
    assert_eq!(state.height, 480_000);
    assert_eq!(state.ball.position, Vec2::new(316_000, 236_000));
    assert_eq!(state.ball.velocity, Vec2::new(-5_000, 0));
    state.player1.position.y = -1_000_000;
    let mut ticks: u32 = 0;
    loop {
        let x = state.ball.position.x;
        let verdict = state.update(Input::none());
        ticks += 1;
        assert_eq!(state.ball.position.x, x - 5_000);
        assert_eq!(state.ball.position.y, 236_000);
        assert_eq!(state.ball.velocity, Vec2::new(-5_000, 0));
        if state.ball.position.x < 0 {
            assert_eq!(verdict, Verdict { player2_wins: true, player1_wins: false });
            break;
        }
        assert_eq!(verdict, NOBODY);
    }
    assert_eq!(ticks, 64);
    assert_eq!(state.ball.position.x, -4_000);
}

#[test]
fn served_ball_is_returned_by_player1_in_the_standard_layout() {
    let mut state = table();
    for _ in 0..56 {
        state.update(Input::none());
        assert_eq!(state.ball.velocity, Vec2::new(-5_000, 0));
    }
    assert_eq!(state.ball.position, Vec2::new(36_000, 236_000));
    state.update(Input::none());
    assert_eq!(state.ball.position, Vec2::new(31_000, 236_000));
    assert_eq!(state.ball.velocity, Vec2::new(5_050, 0));
    state.update(Input::none());
    assert_eq!(state.ball.position, Vec2::new(36_050, 236_000));
    assert_eq!(state.ball.velocity, Vec2::new(5_050, 0));
}

#[test]
fn update_keeps_sizes_and_playfield() {
    let mut state = table();
    state.ball.position = Vec2::new(36_000, 250_000);
    state.update(held(true, false, false, true));
    assert_eq!(state.player1.visual, paddle());
    assert_eq!(state.player2.visual, paddle());
    assert_eq!(state.ball.visual, ball());
    assert_eq!(state.width, 640_000);
    assert_eq!(state.height, 480_000);
    assert!(state.well_formed());
}

#[test]
fn rebound_reverses_and_quickens() {
    assert_eq!(rebound(-5_000, 1), 5_050);
    assert_eq!(rebound(5_000, 1), -5_050);
    assert_eq!(rebound(1, 1), -51);
    assert_eq!(rebound(-1, 1), 51);
    assert_eq!(rebound(0, 1), 0);
    assert_eq!(rebound(0, 64), 0);
    assert_eq!(rebound(-320_000, 64), 323_200);
    assert_eq!(rebound(320_000, 64), -323_200);
    assert_eq!(rebound(i128::MAX - 50, 1), -i128::MAX);
    assert_eq!(rebound(-i128::MAX + 50, 1), i128::MAX);
}

#[test]
fn a_tick_at_the_limits_does_not_overflow() {
    let wide = Visual::new(i32::MAX, 1);
    let mut state = GameState::new(640, 480, wide, wide, Visual::new(i32::MAX, i32::MAX));
    state.player1.position = Vec2::new(LIMIT, -LIMIT);
    state.player2.position = Vec2::new(-LIMIT, LIMIT);
    state.ball.position = Vec2::new(0, 0);
    state.ball.velocity = Vec2::new(LIMIT, -LIMIT);
    assert!(state.well_formed() && state.within_limits());
    let verdict = state.update(held(false, false, false, true));
    assert_eq!(state.player1.position, Vec2::new(LIMIT, -LIMIT));
    assert_eq!(state.player2.position, Vec2::new(-LIMIT, LIMIT + 8_000));
    assert_eq!(state.ball.position, Vec2::new(LIMIT, -LIMIT));
    // The ball lies on player one's paddle, corner on corner. Its centre is
    // below the paddle's by half the difference of their heights, and the
    // paddle is one pixel high; the top wall then reverses the ball.
    let below = (i32::MAX as i128 - 1) * 500;
    assert_eq!(state.ball.grain, 1);
    assert_eq!(state.ball.velocity, Vec2::new(-LIMIT - 50, LIMIT - 4 * below));
    assert_eq!(verdict, Verdict { player2_wins: false, player1_wins: true });
    assert!(!state.within_limits());
}

#[test]
fn a_tick_at_the_finest_grain_does_not_overflow() {
    let tall = Visual::new(16, i32::MAX);
    let mut state = GameState::new(640, 480, tall, tall, Visual::new(i32::MAX, i32::MAX));
    state.width = -FIELD_LIMIT;
    state.height = -FIELD_LIMIT;
    state.player1.grain = GRAIN_LIMIT;
    state.player2.grain = GRAIN_LIMIT;
    state.ball.grain = GRAIN_LIMIT;
    state.player1.position = Vec2::new(LIMIT, LIMIT);
    state.player2.position = Vec2::new(-LIMIT, -LIMIT);
    state.ball.position = Vec2::new(1, LIMIT);
    state.ball.velocity = Vec2::new(LIMIT, LIMIT);
    assert!(state.well_formed() && state.within_limits());
    let verdict = state.update(held(false, true, true, false));
    let factor = i32::MAX as i128;
    assert_eq!(state.ball.grain, GRAIN_LIMIT * factor);
    assert_eq!(state.player1.position, Vec2::new(LIMIT * factor, (LIMIT + 8_000 * GRAIN_LIMIT) * factor));
    assert_eq!(state.player2.position, Vec2::new(-LIMIT * factor, (-LIMIT - 8_000 * GRAIN_LIMIT) * factor));
    assert_eq!(state.ball.position, Vec2::new((LIMIT + 1) * factor, 2 * LIMIT * factor));
    // The ball's centre is LIMIT - 8000 GRAIN_LIMIT below the paddle's, as
    // the two images are equally high; the playfield ends above the ball,
    // which therefore turns back and is out on the right.
    let below = LIMIT - 8_000 * GRAIN_LIMIT;
    assert_eq!(
        state.ball.velocity,
        Vec2::new(-(LIMIT + 50 * GRAIN_LIMIT) * factor, -(LIMIT * factor + 4 * below))
    );
    assert_eq!(verdict, Verdict { player2_wins: false, player1_wins: true });
    assert!(!state.within_limits());
}
