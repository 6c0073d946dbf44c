use bomberjack::game::jack::glide_of;
use bomberjack::game::Bomb;
use bomberjack::game::Direction;
use bomberjack::game::Jack;
use bomberjack::game::State;
use bomberjack::game::TextureHelper;
use bomberjack::shapes::Size;
use bomberjack::shapes::Vector2;

fn helper() -> TextureHelper {
    TextureHelper::new(1162, 650)
}

#[test]
fn jack_starts_idle_and_at_rest() {
    let jack = Jack::new(&helper());
    assert_eq!(jack.position, Vector2 { x: 3000, y: 3000 });
    assert_eq!(jack.size, Size { width: 390, height: 450 });
    assert_eq!(jack.thrust, 0);
    assert_eq!(jack.direction, Direction::Idle);
    assert_eq!(jack.texture_map.len(), 7);
}

#[test]
fn jack_sprite_is_its_box_with_the_frame_of_its_pose() {
    let mut jack = Jack::new(&helper());
    let expected = [
        (Direction::Idle, helper().texture_coord(601, 256, 39, 45)),
        (Direction::Up, helper().texture_coord(600, 208, 40, 48)),
        (Direction::Down, helper().texture_coord(636, 64, 40, 48)),
        (Direction::Left, helper().texture_coord(600, 301, 40, 48)),
        (Direction::Right, helper().texture_coord(640, 208, 40, 48)),
        (Direction::UpLeft, helper().texture_coord(636, 112, 40, 48)),
        (Direction::UpRight, helper().texture_coord(676, 64, 40, 48)),
    ];
    jack.position = Vector2 { x: 1230, y: -45 };
    for (direction, texture) in expected {
        jack.direction = direction;
        let sprite = jack.sprite();
        assert_eq!(sprite.position, Vector2 { x: 1230, y: -45 });
        assert_eq!(sprite.size, Size { width: 390, height: 450 });
        assert_eq!(sprite.texture, texture);
    }
}

#[test]
fn jack_next_frame_moves_only_the_animation_of_its_pose() {
    let mut jack = Jack::new(&helper());
    jack.direction = Direction::Left;
    jack.next_frame();
    assert_eq!(jack.sprite().texture, helper().texture_coord(639, 256, 40, 48));
    jack.direction = Direction::Right;
    assert_eq!(jack.sprite().texture, helper().texture_coord(640, 208, 40, 48));
    jack.next_frame();
    assert_eq!(jack.sprite().texture, helper().texture_coord(648, 160, 40, 48));
    jack.direction = Direction::Left;
    assert_eq!(jack.sprite().texture, helper().texture_coord(639, 256, 40, 48));
    jack.next_frame();
    assert_eq!(jack.sprite().texture, helper().texture_coord(600, 301, 40, 48));
}

#[test]
fn jack_next_frame_leaves_position_thrust_and_pose_alone() {
    let mut jack = Jack::new(&helper());
    jack.position = Vector2 { x: 10, y: 20 };
    jack.thrust = 120;
    jack.direction = Direction::UpRight;
    jack.next_frame();
    assert_eq!(jack.position, Vector2 { x: 10, y: 20 });
    assert_eq!(jack.thrust, 120);
    assert_eq!(jack.direction, Direction::UpRight);
    assert_eq!(jack.sprite().texture, helper().texture_coord(676, 64, 40, 48));
}

#[test]
fn direction_index_follows_the_order_of_declaration() {
    assert_eq!(Direction::Idle.index(), 0);
    assert_eq!(Direction::Up.index(), 1);
    assert_eq!(Direction::Down.index(), 2);
    assert_eq!(Direction::Left.index(), 3);
    assert_eq!(Direction::Right.index(), 4);
    assert_eq!(Direction::UpLeft.index(), 5);
    assert_eq!(Direction::UpRight.index(), 6);
}

#[test]
fn state_index_follows_the_order_of_declaration() {
    assert_eq!(State::Live.index(), 0);
    assert_eq!(State::Collected.index(), 1);
}

#[test]
fn bomb_starts_live_where_it_is_put() {
    let bomb = Bomb::new(920, 5310, &helper());
    assert_eq!(bomb.position, Vector2 { x: 920, y: 5310 });
    assert_eq!(bomb.size, Size { width: 360, height: 480 });
    assert!(!bomb.disarmed);
    assert_eq!(bomb.state, State::Live);
    assert_eq!(bomb.update_count, 0);
    assert_eq!(bomb.animations.len(), 2);
}

#[test]
fn bomb_sprite_is_its_box_with_the_frame_of_its_state() {
    let mut bomb = Bomb::new(240, 3360, &helper());
    let sprite = bomb.sprite();
    assert_eq!(sprite.position, Vector2 { x: 240, y: 3360 });
    assert_eq!(sprite.size, Size { width: 360, height: 480 });
    assert_eq!(sprite.texture, helper().texture_coord(601, 112, 35, 47));
    bomb.state = State::Collected;
    bomb.disarmed = true;
    assert_eq!(bomb.sprite().texture, helper().texture_coord(600, 112, 48, 48));
}

#[test]
fn bomb_animation_moves_on_every_second_request() {
    let mut bomb = Bomb::new(0, 0, &helper());
    bomb.state = State::Collected;
    bomb.disarmed = true;
    let frames = [
        helper().texture_coord(600, 112, 48, 48),
        helper().texture_coord(1138, 42, 48, 48),
        helper().texture_coord(677, 112, 48, 48),
        helper().texture_coord(600, 160, 48, 48),
        helper().texture_coord(601, 64, 34, 47),
    ];
    for request in 1..=20u32 {
        bomb.next_frame();
        assert_eq!(bomb.update_count, request);
        let shown = (request / 2) as usize % frames.len();
        assert_eq!(bomb.sprite().texture, frames[shown]);
    }
}

#[test]
fn live_bomb_keeps_its_single_frame() {
    let mut bomb = Bomb::new(0, 0, &helper());
    for _ in 0..6 {
        bomb.next_frame();
        assert_eq!(bomb.sprite().texture, helper().texture_coord(601, 112, 35, 47));
    }
    assert_eq!(bomb.state, State::Live);
    assert!(!bomb.disarmed);
    assert_eq!(bomb.position, Vector2 { x: 0, y: 0 });
}

#[test]
fn bomb_counter_wraps_to_an_even_count() {
    let mut bomb = Bomb::new(0, 0, &helper());
    bomb.state = State::Collected;
    bomb.disarmed = true;
    bomb.update_count = u32::MAX;
    bomb.next_frame();
    assert_eq!(bomb.update_count, 0);
    assert_eq!(bomb.sprite().texture, helper().texture_coord(1138, 42, 48, 48));
    bomb.next_frame();
    assert_eq!(bomb.update_count, 1);
    assert_eq!(bomb.sprite().texture, helper().texture_coord(1138, 42, 48, 48));
}

#[test]
fn glide_is_the_sum_of_thrust_less_gravity() {
    assert_eq!(glide_of(0), 0);
    assert_eq!(glide_of(1), -39);
    assert_eq!(glide_of(4), -36);
    assert_eq!(glide_of(5), -35 - 39);
    assert_eq!(glide_of(36), -180);
    assert_eq!(glide_of(40), -180);
    assert_eq!(glide_of(76), 0);
    assert_eq!(glide_of(200), 3100);
}
