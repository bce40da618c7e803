use pong_rs::arena::Arena;
use pong_rs::ball::Ball;
use pong_rs::paddle::Paddle;
use pong_rs::player::Player;
use pong_rs::round::{
    handle_collisions, handle_side_wall_collisions, process_win, restart_round,
};
use pong_rs::units::UNIT;
use pong_rs::vector::Vector2;

fn px(pixels: i64) -> i64 {
    pixels * UNIT
}

fn arena() -> Arena {
    Arena::new(px(800), px(600)).unwrap()
}

fn player_at(x: i64, y: i64) -> Player {
    Player::new(Paddle { position: Vector2::new(x, y) })
}

// Start positions in an arena of 800 by 600 pixels: 300 - 87.5 pixels down.
fn start_one() -> Vector2 {
    Vector2 { x: px(50), y: px(212) + UNIT / 2 }
}

fn start_two() -> Vector2 {
    Vector2 { x: px(735), y: px(212) + UNIT / 2 }
}

fn stray_ball() -> Ball {
    Ball { position: Vector2::new(px(400), px(123)), direction: Vector2::new(-40000, 50000) }
}

#[test]
fn restart_after_player_one_scored() {
    let mut ball = stray_ball();
    let mut one = player_at(px(50), px(17));
    let mut two = player_at(px(735), px(400));
    one.scored = true;
    one.life = 3;
    two.life = 2;
    let mut turn_active = true;
    restart_round(&arena(), &mut ball, &mut one, &mut two, &mut turn_active);
    assert!(!turn_active);
    assert_eq!(one.paddle.position, start_one());
    assert_eq!(two.paddle.position, start_two());
    // 50 + 15 + 12 pixels from the left wall, at mid height, heading right.
    assert_eq!(ball.position, Vector2 { x: px(77), y: px(300) });
    assert_eq!(ball.direction, Vector2 { x: UNIT, y: 0 });
    assert!(!one.scored && !two.scored);
    assert_eq!((one.life, two.life), (3, 2));
}

#[test]
fn restart_after_player_two_scored() {
    let mut ball = stray_ball();
    let mut one = player_at(px(50), px(17));
    let mut two = player_at(px(735), px(400));
    two.scored = true;
    let mut turn_active = true;
    restart_round(&arena(), &mut ball, &mut one, &mut two, &mut turn_active);
    assert!(!turn_active);
    assert_eq!(one.paddle.position, start_one());
    assert_eq!(two.paddle.position, start_two());
    // 50 + 15 + 12 pixels from the right wall, at mid height, heading left.
    assert_eq!(ball.position, Vector2 { x: px(723), y: px(300) });
    assert_eq!(ball.direction, Vector2 { x: -UNIT, y: 0 });
    assert!(!one.scored && !two.scored);
    assert_eq!((one.life, two.life), (5, 5));
}

#[test]
fn restart_with_both_marked_lets_player_two_serve() {
    let mut ball = stray_ball();
    let mut one = player_at(px(50), px(17));
    let mut two = player_at(px(735), px(400));
    one.scored = true;
    two.scored = true;
    let mut turn_active = false;
    restart_round(&arena(), &mut ball, &mut one, &mut two, &mut turn_active);
    assert_eq!(ball.position, Vector2 { x: px(723), y: px(300) });
    assert_eq!(ball.direction, Vector2 { x: -UNIT, y: 0 });
    assert!(!one.scored && !two.scored);
}

#[test]
fn restart_with_nobody_marked_leaves_the_ball() {
    let mut ball = stray_ball();
    let mut one = player_at(px(50), px(17));
    let mut two = player_at(px(735), px(400));
    let mut turn_active = true;
    restart_round(&arena(), &mut ball, &mut one, &mut two, &mut turn_active);
    assert!(!turn_active);
    assert_eq!(ball, stray_ball());
    assert_eq!(one.paddle.position, start_one());
    assert_eq!(two.paddle.position, start_two());
}

#[test]
fn restart_in_an_arena_of_odd_height_rounds_the_mid_height_down() {
    let arena = Arena::new(px(800), px(600) + 1).unwrap();
    let mut ball = stray_ball();
    let mut one = player_at(0, 0);
    let mut two = player_at(0, 0);
    one.scored = true;
    let mut turn_active = true;
    restart_round(&arena, &mut ball, &mut one, &mut two, &mut turn_active);
    assert_eq!(ball.position.y, px(300));
    assert_eq!(one.paddle.position.y, px(212) + UNIT / 2);
}

#[test]
fn restart_again_and_again_changes_nothing_more() {
    let mut ball = stray_ball();
    let mut one = player_at(px(50), px(17));
    let mut two = player_at(px(735), px(400));
    one.scored = true;
    one.life = 4;
    let mut turn_active = true;
    restart_round(&arena(), &mut ball, &mut one, &mut two, &mut turn_active);
    let after_one = (ball, one, two, turn_active);
    for _ in 0..5 {
        restart_round(&arena(), &mut ball, &mut one, &mut two, &mut turn_active);
        assert_eq!((ball, one, two, turn_active), after_one);
        assert_eq!(one.paddle.position, start_one());
        assert_eq!(two.paddle.position, start_two());
        assert!(!one.scored && !two.scored);
    }
}

#[test]
fn win_of_player_one_costs_player_two_a_life() {
    let mut ball = stray_ball();
    let mut one = player_at(px(50), px(17));
    let mut two = player_at(px(735), px(400));
    one.scored = true;
    let (mut turn_active, mut game_over) = (true, false);
    process_win(&mut one, &mut two, &arena(), &mut ball, &mut turn_active, &mut game_over);
    assert_eq!((one.life, two.life), (5, 4));
    assert!(!turn_active && !game_over);
    assert!(!one.scored && !two.scored);
    assert_eq!(ball.position, Vector2 { x: px(77), y: px(300) });
    assert_eq!(ball.direction, Vector2 { x: UNIT, y: 0 });
    assert_eq!(one.paddle.position, start_one());
    assert_eq!(two.paddle.position, start_two());
}

#[test]
fn win_of_player_two_costs_player_one_a_life() {
    let mut ball = stray_ball();
    let mut one = player_at(px(50), px(17));
    let mut two = player_at(px(735), px(400));
    two.scored = true;
    one.life = 2;
    let (mut turn_active, mut game_over) = (true, false);
    process_win(&mut one, &mut two, &arena(), &mut ball, &mut turn_active, &mut game_over);
    assert_eq!((one.life, two.life), (1, 5));
    assert!(!turn_active && !game_over);
    assert!(!one.scored && !two.scored);
    assert_eq!(ball.position, Vector2 { x: px(723), y: px(300) });
    assert_eq!(ball.direction, Vector2 { x: -UNIT, y: 0 });
}

#[test]
fn win_that_takes_the_last_life_ends_the_match() {
    let mut ball = stray_ball();
    let mut one = player_at(px(50), px(17));
    let mut two = player_at(px(735), px(400));
    one.scored = true;
    two.life = 1;
    let (mut turn_active, mut game_over) = (true, false);
    process_win(&mut one, &mut two, &arena(), &mut ball, &mut turn_active, &mut game_over);
    assert_eq!((one.life, two.life), (5, 0));
    assert!(!turn_active && game_over);
    // Nothing is set up for a next round.
    assert_eq!(ball, stray_ball());
    assert_eq!(one.paddle.position, Vector2 { x: px(50), y: px(17) });
    assert_eq!(two.paddle.position, Vector2 { x: px(735), y: px(400) });
    assert!(one.scored && !two.scored);
}

#[test]
fn win_over_a_player_without_a_life_ends_the_match_and_takes_none() {
    let mut ball = stray_ball();
    let mut one = player_at(px(50), px(17));
    let mut two = player_at(px(735), px(400));
    two.scored = true;
    one.life = 0;
    let (mut turn_active, mut game_over) = (true, false);
    process_win(&mut one, &mut two, &arena(), &mut ball, &mut turn_active, &mut game_over);
    assert_eq!((one.life, two.life), (0, 5));
    assert!(!turn_active && game_over);
    assert_eq!(ball, stray_ball());

    let mut two = player_at(px(735), px(400));
    let mut one = player_at(px(50), px(17));
    one.scored = true;
    two.life = -3;
    let (mut turn_active, mut game_over) = (true, false);
    process_win(&mut one, &mut two, &arena(), &mut ball, &mut turn_active, &mut game_over);
    assert_eq!((one.life, two.life), (5, -3));
    assert!(!turn_active && game_over);
}

#[test]
fn win_with_both_marked_goes_to_player_one() {
    let mut ball = stray_ball();
    let mut one = player_at(px(50), px(17));
    let mut two = player_at(px(735), px(400));
    one.scored = true;
    two.scored = true;
    let (mut turn_active, mut game_over) = (true, false);
    process_win(&mut one, &mut two, &arena(), &mut ball, &mut turn_active, &mut game_over);
    assert_eq!((one.life, two.life), (5, 4));
    assert!(!one.scored && !two.scored);
}

#[test]
fn win_with_nobody_marked_changes_nothing() {
    let mut ball = stray_ball();
    let mut one = player_at(px(50), px(17));
    let mut two = player_at(px(735), px(400));
    let (mut turn_active, mut game_over) = (true, false);
    process_win(&mut one, &mut two, &arena(), &mut ball, &mut turn_active, &mut game_over);
    assert_eq!(ball, stray_ball());
    assert_eq!(one, player_at(px(50), px(17)));
    assert_eq!(two, player_at(px(735), px(400)));
    assert!(turn_active && !game_over);
}

#[test]
fn ball_whose_edge_reaches_the_right_wall_scores_for_player_one() {
    let mut ball = Ball { position: Vector2::new(px(788), px(100)), direction: Vector2::new(UNIT, 0) };
    let mut one = player_at(px(50), px(17));
    let mut two = player_at(px(735), px(400));
    let (mut turn_active, mut game_over) = (true, false);
    handle_side_wall_collisions(
        &arena(),
        &mut ball,
        &mut one,
        &mut two,
        &mut turn_active,
        &mut game_over,
    );
    assert_eq!((one.life, two.life), (5, 4));
    assert!(!turn_active && !game_over);
    assert_eq!(ball.position, Vector2 { x: px(77), y: px(300) });
}

#[test]
fn ball_whose_edge_reaches_the_left_wall_scores_for_player_two() {
    let mut ball = Ball { position: Vector2::new(px(12), px(100)), direction: Vector2::new(-UNIT, 0) };
    let mut one = player_at(px(50), px(17));
    let mut two = player_at(px(735), px(400));
    let (mut turn_active, mut game_over) = (true, false);
    handle_side_wall_collisions(
        &arena(),
        &mut ball,
        &mut one,
        &mut two,
        &mut turn_active,
        &mut game_over,
    );
    assert_eq!((one.life, two.life), (4, 5));
    assert!(!turn_active && !game_over);
    assert_eq!(ball.position, Vector2 { x: px(723), y: px(300) });
    assert_eq!(ball.direction, Vector2 { x: -UNIT, y: 0 });
}

#[test]
fn ball_short_of_the_side_walls_scores_for_nobody() {
    for x in [px(12) + 1, px(400), px(788) - 1] {
        let mut ball = Ball { position: Vector2::new(x, px(100)), direction: Vector2::new(UNIT, 0) };
        let mut one = player_at(px(50), px(17));
        let mut two = player_at(px(735), px(400));
        let (mut turn_active, mut game_over) = (true, false);
        handle_side_wall_collisions(
            &arena(),
            &mut ball,
            &mut one,
            &mut two,
            &mut turn_active,
            &mut game_over,
        );
        assert_eq!((one.life, two.life), (5, 5));
        assert!(turn_active && !game_over);
        assert_eq!(ball.position, Vector2 { x, y: px(100) });
        assert!(!one.scored && !two.scored);
    }
}

#[test]
fn collisions_bounce_the_ball_off_player_one() {
    let mut one = player_at(px(50), px(200));
    let mut two = player_at(px(735), px(200));
    // Touching player one's paddle, lower edge on its centre line.
    let mut ball = Ball {
        position: Vector2::new(px(70), px(275) + UNIT / 2),
        direction: Vector2::new(-UNIT, 0),
    };
    let (mut turn_active, mut game_over) = (true, false);
    handle_collisions(&arena(), &mut ball, &mut one, &mut two, &mut turn_active, &mut game_over);
    assert_eq!(ball.direction, Vector2 { x: UNIT, y: 0 });
    assert_eq!(ball.position, Vector2 { x: px(70), y: px(275) + UNIT / 2 });
    assert!(turn_active && !game_over);
    assert_eq!((one.life, two.life), (5, 5));
}

#[test]
fn collisions_bounce_the_ball_off_player_two() {
    let mut one = player_at(px(50), px(200));
    let mut two = player_at(px(735), px(200));
    // Touching player two's paddle at its upper end.
    let mut ball = Ball { position: Vector2::new(px(730), px(188) + 1), direction: Vector2::new(UNIT, 0) };
    let (mut turn_active, mut game_over) = (true, false);
    handle_collisions(&arena(), &mut ball, &mut one, &mut two, &mut turn_active, &mut game_over);
    assert!(ball.direction.x < 0);
    assert!(ball.direction.y < 0);
    assert_eq!(ball.direction.x, -UNIT / 2);
    assert!(turn_active && !game_over);
}

#[test]
fn collisions_let_the_later_paddle_overrule_the_earlier() {
    // Both paddles around the ball: player two's bounce is the one that stays.
    let mut one = player_at(px(400), px(200));
    let mut two = player_at(px(405), px(100));
    let mut ball = Ball { position: Vector2::new(px(410), px(250)), direction: Vector2::new(0, UNIT) };
    let (mut turn_active, mut game_over) = (true, false);
    handle_collisions(&arena(), &mut ball, &mut one, &mut two, &mut turn_active, &mut game_over);
    // Against player two: 187.5 - 250 - 12 = -74.5 pixels, so downward and
    // to the left.
    assert!(ball.direction.x < 0);
    assert!(ball.direction.y > 0);
    let mut alone = Ball { position: Vector2::new(px(410), px(250)), direction: Vector2::new(0, UNIT) };
    pong_rs::collision::handle_paddle_collision(&two.paddle, &mut alone, pong_rs::arena::Side::Right);
    assert_eq!(ball, alone);
}

#[test]
fn collisions_turn_the_ball_at_the_floor_and_then_look_at_the_walls() {
    let mut one = player_at(px(50), px(200));
    let mut two = player_at(px(735), px(200));
    let mut ball = Ball { position: Vector2::new(px(400), px(610)), direction: Vector2::new(30000, 50000) };
    let (mut turn_active, mut game_over) = (true, false);
    handle_collisions(&arena(), &mut ball, &mut one, &mut two, &mut turn_active, &mut game_over);
    assert_eq!(ball.position, Vector2 { x: px(400), y: px(600) });
    assert_eq!(ball.direction, Vector2 { x: 30000, y: -50000 });
    assert!(turn_active && !game_over);

    // In the corner both happen: the serve that follows overrules the turn.
    let mut ball = Ball { position: Vector2::new(px(795), px(610)), direction: Vector2::new(30000, 50000) };
    handle_collisions(&arena(), &mut ball, &mut one, &mut two, &mut turn_active, &mut game_over);
    assert_eq!(ball.position, Vector2 { x: px(77), y: px(300) });
    assert_eq!(ball.direction, Vector2 { x: UNIT, y: 0 });
    assert_eq!((one.life, two.life), (5, 4));
    assert!(!turn_active && !game_over);
}
