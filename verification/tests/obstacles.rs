use flappy_dragon::draw::Color;
use flappy_dragon::draw::DrawCommand;
use flappy_dragon::obstacle::Obstacle;
use flappy_dragon::player::Player;
use flappy_dragon::WALL_GLYPH;

#[test]
fn gap_size_shrinks_with_score_floored_at_two() {
    assert_eq!(Obstacle::with_gap(0, 0, 12).size, 20);
    assert_eq!(Obstacle::with_gap(0, 5, 12).size, 15);
    assert_eq!(Obstacle::with_gap(0, 18, 12).size, 2);
    assert_eq!(Obstacle::with_gap(0, 19, 12).size, 2);
    assert_eq!(Obstacle::with_gap(0, 100, 12).size, 2);
}

#[test]
fn random_obstacle_lands_in_band() {
    for _ in 0..32 {
        let o = Obstacle::new(40, 0);
        assert_eq!(o.x, 40);
        assert_eq!(o.size, 20);
        assert!(5 <= o.gap_y && o.gap_y < 20);
    }
}

#[test]
fn collision_above_gap() {
    // gap centered at 12, size 6, half 3: gap rows are 9..=15 in tenths 90..=150
    let o = Obstacle::with_gap(10, 14, 12);
    assert_eq!(o.size, 6);
    let p = Player::new(10, 8);
    assert!(o.hit_obstacle(&p));
}

#[test]
fn no_collision_on_gap_edge() {
    let o = Obstacle::with_gap(10, 14, 12);
    let p = Player::new(10, 9);
    assert!(!o.hit_obstacle(&p));
}

#[test]
fn no_collision_when_columns_differ() {
    let o = Obstacle::with_gap(10, 14, 12);
    let p = Player::new(9, 0);
    assert!(!o.hit_obstacle(&p));
}

#[test]
fn collision_below_gap() {
    let o = Obstacle::with_gap(10, 14, 12);
    let p = Player::new(10, 16);
    assert!(o.hit_obstacle(&p));
}

#[test]
fn walls_leave_the_gap_untouched() {
    let mut o = Obstacle::with_gap(10, 14, 12);
    let cmds = o.render(5);
    // rows 0..9 above the gap, rows 15..25 below it
    assert_eq!(cmds.len(), 19);
    for c in &cmds {
        match c {
            DrawCommand::Cell { x, y, fg, bg, glyph } => {
                assert_eq!(*x, 5);
                assert!(*y < 9 || *y >= 15);
                assert_eq!(*fg, Color::Gray);
                assert_eq!(*bg, Color::Navy);
                assert_eq!(*glyph, WALL_GLYPH);
            }
            other => panic!("unexpected command {:?}", other),
        }
    }
    assert!(cmds.contains(&DrawCommand::Cell {
        x: 5,
        y: 0,
        fg: Color::Gray,
        bg: Color::Navy,
        glyph: WALL_GLYPH,
    }));
    assert!(cmds.contains(&DrawCommand::Cell {
        x: 5,
        y: 24,
        fg: Color::Gray,
        bg: Color::Navy,
        glyph: WALL_GLYPH,
    }));
}

#[test]
fn render_never_mutates_obstacle() {
    let mut o = Obstacle::with_gap(10, 3, 15);
    let (x, gap_y, size) = (o.x, o.gap_y, o.size);
    let _ = o.render(2);
    assert_eq!(o.x, x);
    assert_eq!(o.gap_y, gap_y);
    assert_eq!(o.size, size);
}
