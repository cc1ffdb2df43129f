use flappy_dragon::draw::Color;
use flappy_dragon::draw::DrawCommand;
use flappy_dragon::draw::Text;
use flappy_dragon::obstacle::Obstacle;
use flappy_dragon::player::Player;
use flappy_dragon::state::render_land;
use flappy_dragon::state::GameMode;
use flappy_dragon::state::Key;
use flappy_dragon::state::State;
use flappy_dragon::GROUND_GLYPH;

fn playing_state(player: Player, frame_time: u32, score: i32, obstacle: Obstacle) -> State {
    State { player, frame_time, mode: GameMode::Playing, score, obstacle }
}

#[test]
fn new_game_sits_at_the_menu() {
    let s = State::new();
    assert_eq!(s.mode, GameMode::Menu);
    assert_eq!(s.score, 0);
    assert_eq!(s.frame_time, 0);
    assert_eq!(s.player.x, 5);
    assert_eq!(s.player.y, 120);
    assert_eq!(s.player.velocity, 0);
    assert_eq!(s.obstacle.x, 40);
    assert_eq!(s.obstacle.size, 20);
    assert!(5 <= s.obstacle.gap_y && s.obstacle.gap_y < 20);
}

#[test]
fn restart_resets_everything() {
    let mut s = State {
        player: Player { x: 50, y: 37, velocity: 7 },
        frame_time: 33,
        mode: GameMode::End,
        score: 9,
        obstacle: Obstacle::with_gap(60, 9, 7),
    };
    s.restart();
    assert_eq!(s.mode, GameMode::Playing);
    assert_eq!(s.score, 0);
    assert_eq!(s.frame_time, 0);
    assert_eq!(s.player.x, 5);
    assert_eq!(s.player.y, 120);
    assert_eq!(s.player.velocity, 0);
    assert_eq!(s.obstacle.x, 40);
    assert_eq!(s.obstacle.size, 20);
    assert!(5 <= s.obstacle.gap_y && s.obstacle.gap_y < 20);
}

#[test]
fn menu_p_starts_a_run() {
    let mut s = State::new();
    let f = s.tick(16, Some(Key::P));
    assert!(!f.quitting);
    assert_eq!(s.mode, GameMode::Playing);
    assert_eq!(s.score, 0);
    assert_eq!(s.frame_time, 0);
}

#[test]
fn menu_q_asks_to_quit() {
    let mut s = State::new();
    let f = s.tick(16, Some(Key::Q));
    assert!(f.quitting);
    assert_eq!(s.mode, GameMode::Menu);
}

#[test]
fn menu_ignores_other_keys() {
    let mut s = State::new();
    let f = s.tick(16, Some(Key::Other));
    assert!(!f.quitting);
    assert_eq!(s.mode, GameMode::Menu);
    let f2 = s.tick(16, None);
    assert!(!f2.quitting);
    assert_eq!(s.mode, GameMode::Menu);
}

#[test]
fn menu_draws_title_and_options() {
    let mut s = State::new();
    let f = s.tick(16, None);
    assert_eq!(f.commands.len(), 4);
    assert_eq!(f.commands[0], DrawCommand::ClearScreen);
    assert_eq!(
        f.commands[1],
        DrawCommand::PrintCentered { y: 5, fg: Color::Yellow, bg: Color::Black, text: Text::Title }
    );
    assert_eq!(
        f.commands[2],
        DrawCommand::PrintCentered {
            y: 8,
            fg: Color::Cyan,
            bg: Color::Black,
            text: Text::PlayOption,
        }
    );
    assert_eq!(
        f.commands[3],
        DrawCommand::PrintCentered {
            y: 9,
            fg: Color::Cyan,
            bg: Color::Black,
            text: Text::QuitOption,
        }
    );
}

#[test]
fn one_step_on_the_tick_that_crosses_the_threshold() {
    let mut s = State::new();
    s.tick(0, Some(Key::P));
    assert_eq!(s.mode, GameMode::Playing);

    // 50 ms accumulate without exceeding the 50 ms frame duration: no step.
    s.tick(50, None);
    assert_eq!(s.frame_time, 50);
    assert_eq!(s.player.x, 5);

    // 10 more ms push the accumulator past the duration: exactly one step.
    s.tick(10, None);
    assert_eq!(s.frame_time, 0);
    assert_eq!(s.player.x, 6);

    // The accumulator was reset, so the next small tick steps nothing.
    s.tick(10, None);
    assert_eq!(s.frame_time, 10);
    assert_eq!(s.player.x, 6);
}

#[test]
fn flap_is_sampled_even_without_a_step() {
    let mut s = State::new();
    s.tick(0, Some(Key::P));
    let f = s.tick(1, Some(Key::Space));
    assert!(!f.quitting);
    assert_eq!(s.player.velocity, -5);
    assert_eq!(s.player.x, 5);
    assert_eq!(s.frame_time, 1);
}

#[test]
fn passing_an_obstacle_scores_and_respawns() {
    let mut s = playing_state(
        Player { x: 40, y: 120, velocity: 0 },
        50,
        3,
        Obstacle::with_gap(40, 3, 12),
    );
    s.tick(1, None);
    assert_eq!(s.player.x, 41);
    assert_eq!(s.score, 4);
    assert_eq!(s.obstacle.x, 81);
    assert_eq!(s.obstacle.size, 16);
    assert!(5 <= s.obstacle.gap_y && s.obstacle.gap_y < 20);
    assert_eq!(s.mode, GameMode::Playing);
}

#[test]
fn hitting_a_wall_ends_the_run() {
    let mut s = playing_state(
        Player { x: 9, y: 0, velocity: 0 },
        50,
        14,
        Obstacle::with_gap(10, 14, 12),
    );
    s.tick(1, None);
    // the step puts the player at the wall's column, above the gap
    assert_eq!(s.player.x, 10);
    assert_eq!(s.player.y, 1);
    assert_eq!(s.mode, GameMode::End);
    assert_eq!(s.score, 14);
}

#[test]
fn reaching_the_ground_ends_the_run() {
    let mut s = playing_state(
        Player { x: 5, y: 245, velocity: 10 },
        50,
        0,
        Obstacle::with_gap(40, 0, 12),
    );
    s.tick(1, None);
    assert_eq!(s.player.y, 255);
    assert_eq!(s.mode, GameMode::End);
}

#[test]
fn playing_frame_draws_hud_and_ground() {
    let mut s = playing_state(
        Player { x: 5, y: 120, velocity: 0 },
        0,
        7,
        Obstacle::with_gap(40, 7, 12),
    );
    let f = s.tick(1, None);
    assert!(!f.quitting);
    assert_eq!(f.commands[0], DrawCommand::ClearBackground(Color::Navy));
    assert_eq!(f.commands[1], DrawCommand::Sprite { y_tenths: 120 });
    assert!(f.commands.contains(&DrawCommand::Print {
        x: 0,
        y: 0,
        fg: Color::Cyan,
        bg: Color::Navy,
        text: Text::FlapHint,
    }));
    assert!(f.commands.contains(&DrawCommand::Print {
        x: 0,
        y: 1,
        fg: Color::Magenta,
        bg: Color::Navy,
        text: Text::Score(7),
    }));
    let ground: Vec<&DrawCommand> = f
        .commands
        .iter()
        .filter(|c| matches!(c, DrawCommand::Cell { glyph, .. } if *glyph == GROUND_GLYPH))
        .collect();
    assert_eq!(ground.len(), 40);
}

#[test]
fn death_screen_reports_the_score_and_restarts() {
    let mut s = playing_state(
        Player { x: 5, y: 120, velocity: 0 },
        0,
        9,
        Obstacle::with_gap(40, 9, 12),
    );
    s.mode = GameMode::End;

    let f = s.tick(16, None);
    assert!(!f.quitting);
    assert_eq!(s.mode, GameMode::End);
    assert!(f.commands.contains(&DrawCommand::PrintCenteredPlain { y: 6, text: Text::Earned(9) }));

    let f2 = s.tick(16, Some(Key::Q));
    assert!(f2.quitting);
    assert_eq!(s.mode, GameMode::End);

    let f3 = s.tick(16, Some(Key::P));
    assert!(!f3.quitting);
    assert_eq!(s.mode, GameMode::Playing);
    assert_eq!(s.score, 0);
}

#[test]
fn ground_strip_covers_the_bottom_row() {
    let cmds = render_land();
    assert_eq!(cmds.len(), 40);
    for (i, c) in cmds.iter().enumerate() {
        assert_eq!(
            *c,
            DrawCommand::Cell {
                x: i as i32,
                y: 24,
                fg: Color::White,
                bg: Color::Navy,
                glyph: GROUND_GLYPH,
            }
        );
    }
}
