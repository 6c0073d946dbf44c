use bomberjack::game::animation::InvalidConfiguration;
use bomberjack::game::Animation;
use bomberjack::game::TextureHelper;
use bomberjack::shapes::Ratio;
use bomberjack::shapes::Size;
use bomberjack::shapes::UvRect;

fn frame(n: i64) -> UvRect {
    UvRect {
        u0: Ratio { num: n, den: 100 },
        v0: Ratio { num: 0, den: 100 },
        u1: Ratio { num: n + 1, den: 100 },
        v1: Ratio { num: 1, den: 100 },
    }
}

#[test]
fn animation_without_frames_is_rejected() {
    assert!(matches!(Animation::new(vec![]), Err(InvalidConfiguration)));
}

#[test]
fn animation_with_one_frame_is_accepted() {
    let animation = Animation::new(vec![frame(7)]).unwrap();
    assert_eq!(animation.current_frame(), frame(7));
}

#[test]
fn animation_starts_at_the_first_frame() {
    let animation = Animation::new(vec![frame(1), frame(2), frame(3)]).unwrap();
    assert_eq!(animation.current_frame(), frame(1));
}

#[test]
fn next_frame_returns_the_frame_before_the_advance() {
    let mut animation = Animation::new(vec![frame(1), frame(2), frame(3)]).unwrap();
    assert_eq!(animation.next_frame(), frame(1));
    assert_eq!(animation.current_frame(), frame(2));
    assert_eq!(animation.next_frame(), frame(2));
    assert_eq!(animation.current_frame(), frame(3));
}

#[test]
fn next_frame_wraps_after_the_last_frame() {
    let mut animation = Animation::new(vec![frame(1), frame(2), frame(3)]).unwrap();
    animation.next_frame();
    animation.next_frame();
    assert_eq!(animation.next_frame(), frame(3));
    assert_eq!(animation.current_frame(), frame(1));
}

#[test]
fn single_frame_animation_stays_on_its_frame() {
    let mut animation = Animation::new(vec![frame(9)]).unwrap();
    for _ in 0..5 {
        assert_eq!(animation.next_frame(), frame(9));
    }
    assert_eq!(animation.current_frame(), frame(9));
}

#[test]
fn current_frame_does_not_advance() {
    let animation = Animation::new(vec![frame(1), frame(2)]).unwrap();
    assert_eq!(animation.current_frame(), frame(1));
    assert_eq!(animation.current_frame(), frame(1));
}

#[test]
fn a_full_cycle_returns_to_the_starting_frame() {
    for start in 0..4 {
        let frames = vec![frame(0), frame(1), frame(2), frame(3)];
        let mut animation = Animation::new(frames.clone()).unwrap();
        for _ in 0..start {
            animation.next_frame();
        }
        let before = animation.current_frame();
        assert_eq!(before, frame(start));
        for _ in 0..frames.len() {
            animation.next_frame();
        }
        assert_eq!(animation.current_frame(), before);
    }
}

#[test]
fn texture_helper_keeps_the_atlas_size() {
    let helper = TextureHelper::new(1162, 650);
    assert_eq!(helper.size, Size { width: 1162, height: 650 });
}

#[test]
fn texture_coord_divides_pixels_by_the_atlas_size() {
    let helper = TextureHelper::new(1162, 650);
    let coord = helper.texture_coord(601, 256, 39, 45);
    assert_eq!(coord.u0, Ratio { num: 601, den: 1162 });
    assert_eq!(coord.v0, Ratio { num: 256, den: 650 });
    assert_eq!(coord.u1, Ratio { num: 640, den: 1162 });
    assert_eq!(coord.v1, Ratio { num: 301, den: 650 });
}

#[test]
fn texture_coord_of_the_whole_atlas_is_the_unit_square() {
    let helper = TextureHelper::new(1162, 650);
    let coord = helper.texture_coord(0, 0, 1162, 650);
    let as_float = |r: Ratio| r.num as f64 / r.den as f64;
    assert_eq!(as_float(coord.u0), 0.0);
    assert_eq!(as_float(coord.v0), 0.0);
    assert_eq!(as_float(coord.u1), 1.0);
    assert_eq!(as_float(coord.v1), 1.0);
}

#[test]
fn texture_coord_does_not_check_the_atlas_bounds() {
    let helper = TextureHelper::new(100, 50);
    let coord = helper.texture_coord(-10, 40, 200, 20);
    assert_eq!(coord.u0, Ratio { num: -10, den: 100 });
    assert_eq!(coord.v0, Ratio { num: 40, den: 50 });
    assert_eq!(coord.u1, Ratio { num: 190, den: 100 });
    assert_eq!(coord.v1, Ratio { num: 60, den: 50 });
}
