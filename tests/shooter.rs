use shooter::{
    aim, direction_from_keys, handle_movement, move_bullet, spawn_bullet, Bullet, Coord, Cursor,
    FrameInput, Heading, MovementKeys, Point, Viewport, World, BULLET_SPEED,
};

fn no_keys() -> MovementKeys {
    MovementKeys {
        up: false,
        down: false,
        left: false,
        right: false,
        w: false,
        a: false,
        s: false,
        d: false,
    }
}

fn keys_from_bits(bits: u32) -> MovementKeys {
    MovementKeys {
        up: bits & 1 != 0,
        down: bits & 2 != 0,
        left: bits & 4 != 0,
        right: bits & 8 != 0,
        w: bits & 16 != 0,
        a: bits & 32 != 0,
        s: bits & 64 != 0,
        d: bits & 128 != 0,
    }
}

fn whole(x: i64, y: i64) -> Point {
    Point { x: Coord { units: x, halfroots: 0 }, y: Coord { units: y, halfroots: 0 } }
}

fn coord_value(c: Coord) -> f64 {
    c.units as f64 + c.halfroots as f64 * std::f64::consts::FRAC_1_SQRT_2
}

fn frame(keys: MovementKeys, fire_held: bool) -> FrameInput {
    FrameInput {
        keys,
        fire_held,
        cursor: Some(Cursor { x: 150, y: 100 }),
        view: Viewport { width: 200, height: 200 },
    }
}

#[test]
fn no_keys_give_zero_direction() {
    assert_eq!(direction_from_keys(&no_keys()), whole(0, 0));
}

#[test]
fn single_keys_give_unit_axes() {
    assert_eq!(direction_from_keys(&MovementKeys { w: true, ..no_keys() }), whole(0, 1));
    assert_eq!(direction_from_keys(&MovementKeys { up: true, ..no_keys() }), whole(0, 1));
    assert_eq!(direction_from_keys(&MovementKeys { s: true, ..no_keys() }), whole(0, -1));
    assert_eq!(direction_from_keys(&MovementKeys { down: true, ..no_keys() }), whole(0, -1));
    assert_eq!(direction_from_keys(&MovementKeys { left: true, ..no_keys() }), whole(1, 0));
    assert_eq!(direction_from_keys(&MovementKeys { d: true, ..no_keys() }), whole(1, 0));
    assert_eq!(direction_from_keys(&MovementKeys { right: true, ..no_keys() }), whole(-1, 0));
    assert_eq!(direction_from_keys(&MovementKeys { a: true, ..no_keys() }), whole(-1, 0));
}

#[test]
fn diagonal_is_scaled_by_half_root_two() {
    let dir = direction_from_keys(&MovementKeys { w: true, d: true, ..no_keys() });
    assert_eq!(
        dir,
        Point { x: Coord { units: 0, halfroots: 1 }, y: Coord { units: 0, halfroots: 1 } }
    );
    let dir = direction_from_keys(&MovementKeys { down: true, a: true, ..no_keys() });
    assert_eq!(
        dir,
        Point { x: Coord { units: 0, halfroots: -1 }, y: Coord { units: 0, halfroots: -1 } }
    );
}

#[test]
fn every_key_combination_has_length_zero_or_one() {
    for bits in 0..256u32 {
        let keys = keys_from_bits(bits);
        let dir = direction_from_keys(&keys);
        let x = coord_value(dir.x);
        let y = coord_value(dir.y);
        let len = (x * x + y * y).sqrt();
        let raw_x = (keys.left || keys.d) as i32 - (keys.right || keys.a) as i32;
        let raw_y = (keys.up || keys.w) as i32 - (keys.down || keys.s) as i32;
        if raw_x == 0 && raw_y == 0 {
            assert_eq!(dir, whole(0, 0));
        } else {
            assert!((len - 1.0).abs() < 1e-12, "keys {bits}: length {len}");
            assert!(x * raw_x as f64 >= 0.0 && y * raw_y as f64 >= 0.0);
        }
    }
}

#[test]
fn opposing_keys_cancel() {
    let both_horizontal = MovementKeys { left: true, d: true, right: true, a: true, ..no_keys() };
    assert_eq!(direction_from_keys(&both_horizontal), whole(0, 0));
    let arrows = MovementKeys { left: true, right: true, ..no_keys() };
    assert_eq!(direction_from_keys(&arrows), whole(0, 0));
    let vertical_with_w = MovementKeys { w: true, s: true, left: true, ..no_keys() };
    assert_eq!(direction_from_keys(&vertical_with_w), whole(1, 0));
    let all = keys_from_bits(255);
    assert_eq!(direction_from_keys(&all), whole(0, 0));
}

#[test]
fn spawn_at_player_aimed_at_cursor() {
    let player = whole(3, 4);
    let view = Viewport { width: 200, height: 200 };
    let b = spawn_bullet(player, Some(Cursor { x: 100, y: 50 }), view);
    assert_eq!(b.spawn, whole(3, 4));
    assert_eq!(b.heading, Heading { x: 0, y: 100 });
    assert_eq!(b.speed, BULLET_SPEED);
    assert_eq!(b.travelled, 0);
    let angle = (50.0f32 - 100.0).atan2(100.0 - 100.0) + std::f32::consts::PI / 2.0;
    let stored = (b.heading.x as f32).atan2(b.heading.y as f32);
    assert_eq!(stored, angle);
    assert_eq!(-stored, -angle);
    let again = spawn_bullet(player, Some(Cursor { x: 100, y: 50 }), view);
    assert_eq!(again, b);
}

#[test]
fn absent_cursor_aims_straight_up() {
    let view = Viewport { width: 640, height: 480 };
    let h = aim(None, view);
    assert_eq!(h, Heading { x: 0, y: 1 });
    assert_eq!((h.x as f32).atan2(h.y as f32), 0.0);
    let b = spawn_bullet(whole(-2, 7), None, view);
    assert_eq!(b.heading, Heading { x: 0, y: 1 });
    assert_eq!(b.spawn, whole(-2, 7));
}

#[test]
fn aim_follows_cursor_offset() {
    let view = Viewport { width: 200, height: 100 };
    assert_eq!(aim(Some(Cursor { x: 200, y: 50 }), view), Heading { x: 200, y: 0 });
    assert_eq!(aim(Some(Cursor { x: 0, y: 50 }), view), Heading { x: -200, y: 0 });
    assert_eq!(aim(Some(Cursor { x: 100, y: 0 }), view), Heading { x: 0, y: 100 });
    assert_eq!(aim(Some(Cursor { x: 100, y: 100 }), view), Heading { x: 0, y: -100 });
    assert_eq!(aim(Some(Cursor { x: 100, y: 50 }), view), Heading { x: 1, y: 0 });
    let odd = Viewport { width: 101, height: 101 };
    assert_eq!(aim(Some(Cursor { x: 50, y: 50 }), odd), Heading { x: -1, y: 1 });
}

#[test]
fn aim_matches_atan2_angle() {
    let view = Viewport { width: 800, height: 600 };
    let cursor = Cursor { x: 123, y: 456 };
    let h = aim(Some(cursor), view);
    let angle = (cursor.y as f64 - 300.0).atan2(cursor.x as f64 - 400.0)
        + std::f64::consts::PI / 2.0;
    let len = ((h.x * h.x + h.y * h.y) as f64).sqrt();
    assert!((angle.sin() - h.x as f64 / len).abs() < 1e-12);
    assert!((angle.cos() - h.y as f64 / len).abs() < 1e-12);
}

#[test]
fn move_bullet_advances_every_bullet() {
    let mut bullets = vec![
        Bullet { spawn: whole(0, 0), heading: Heading { x: 0, y: 1 }, speed: 1, travelled: 0 },
        Bullet { spawn: whole(5, -5), heading: Heading { x: 3, y: 4 }, speed: 1, travelled: 7 },
    ];
    move_bullet(&mut bullets);
    assert_eq!(bullets.len(), 2);
    assert_eq!(bullets[0].travelled, 1);
    assert_eq!(bullets[1].travelled, 8);
    assert_eq!(bullets[1].spawn, whole(5, -5));
    assert_eq!(bullets[1].heading, Heading { x: 3, y: 4 });
    let mut none: Vec<Bullet> = Vec::new();
    move_bullet(&mut none);
    assert!(none.is_empty());
}

#[test]
fn bullet_travels_in_a_straight_line() {
    let start = spawn_bullet(whole(1, 1), Some(Cursor { x: 30, y: 40 }), Viewport {
        width: 0,
        height: 0,
    });
    let mut bullets = vec![start];
    for _ in 0..10 {
        move_bullet(&mut bullets);
    }
    let b = bullets[0];
    assert_eq!(b.travelled, 10 * b.speed);
    assert_eq!(b.spawn, start.spawn);
    assert_eq!(b.heading, Heading { x: 60, y: -80 });
    let len = 100.0f64;
    let x = 1.0 + b.travelled as f64 * b.heading.x as f64 / len;
    let y = 1.0 + b.travelled as f64 * b.heading.y as f64 / len;
    assert!((x - 7.0).abs() < 1e-12 && (y + 7.0).abs() < 1e-12);
}

#[test]
fn new_world_has_player_at_origin() {
    let w = World::new();
    assert_eq!(w.player(), whole(0, 0));
    assert!(w.bullets().is_empty());
    assert_eq!(w.frames(), 0);
}

#[test]
fn holding_w_for_five_frames_moves_five_up() {
    let mut w = World::new();
    for _ in 0..5 {
        w.update(&frame(MovementKeys { w: true, ..no_keys() }, false));
    }
    assert_eq!(w.player(), whole(0, 5));
    assert_eq!(w.frames(), 5);
}

#[test]
fn diagonal_walk_is_exact() {
    let mut p = whole(0, 0);
    let keys = MovementKeys { up: true, left: true, ..no_keys() };
    for _ in 0..4 {
        p = handle_movement(p, &keys);
    }
    assert_eq!(
        p,
        Point { x: Coord { units: 0, halfroots: 4 }, y: Coord { units: 0, halfroots: 4 } }
    );
    let x = coord_value(p.x);
    assert!((x - 2.0 * std::f64::consts::SQRT_2).abs() < 1e-12);
}

#[test]
fn held_fire_spawns_one_bullet() {
    let mut w = World::new();
    for _ in 0..6 {
        w.update(&frame(no_keys(), true));
    }
    assert_eq!(w.bullets().len(), 1);
    assert_eq!(w.bullets()[0].travelled, 5);
}

#[test]
fn each_press_spawns_one_bullet() {
    let mut w = World::new();
    let pattern = [true, true, false, true, false, false, true, true, true];
    for held in pattern {
        w.update(&frame(no_keys(), held));
    }
    assert_eq!(w.bullets().len(), 3);
}

#[test]
fn update_moves_then_spawns_at_new_position() {
    let mut w = World::new();
    w.update(&frame(MovementKeys { d: true, ..no_keys() }, false));
    w.update(&frame(MovementKeys { d: true, ..no_keys() }, true));
    assert_eq!(w.player(), whole(2, 0));
    assert_eq!(w.bullets().len(), 1);
    let b = w.bullets()[0];
    assert_eq!(b.spawn, whole(2, 0));
    assert_eq!(b.travelled, 0);
    assert_eq!(b.heading, Heading { x: 100, y: 0 });
    w.update(&frame(no_keys(), true));
    assert_eq!(w.bullets()[0].travelled, 1);
    assert_eq!(w.player(), whole(2, 0));
}

#[test]
fn coordinates_add_exactly() {
    let a = Coord { units: 3, halfroots: -2 };
    let b = Coord { units: -1, halfroots: 5 };
    assert_eq!(a.plus(b), Coord { units: 2, halfroots: 3 });
    assert_eq!(Point::origin().plus(whole(4, -4)), whole(4, -4));
}
