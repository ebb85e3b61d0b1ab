use rand::rngs::StdRng;
use rand::SeedableRng;
use ripes::color::palette_color;
use ripes::field::check_config;
use ripes::glyph::{glyph_char, glyph_index, HORIZONTAL, VERTICAL};
use ripes::{Color, FieldError, Direction, Pipe, PipeField, Position};

const ALL_DIRS: [Direction; 4] = [Direction::Up, Direction::Right, Direction::Down, Direction::Left];

fn seeded_pipe(seed: u64, colorset: usize, min: u32, max: u32, cols: u32, rows: u32) -> Pipe {
    Pipe::with_rng(colorset, 0, min, max, cols, rows, StdRng::seed_from_u64(seed))
}

fn place(p: &mut Pipe, x: u32, y: u32, dir: Direction, track_len: u32) {
    p.pos = Position::new(x, y);
    p.dir = dir;
    p.last_dir = dir;
    p.track_len = track_len;
}

fn is_vertical(d: Direction) -> bool {
    d == Direction::Up || d == Direction::Down
}

#[test]
fn straight_glyphs_on_the_diagonal() {
    assert_eq!(glyph_index(Direction::Up, Direction::Up), VERTICAL);
    assert_eq!(glyph_index(Direction::Down, Direction::Down), VERTICAL);
    assert_eq!(glyph_index(Direction::Left, Direction::Left), HORIZONTAL);
    assert_eq!(glyph_index(Direction::Right, Direction::Right), HORIZONTAL);
    assert_eq!(glyph_char(0, VERTICAL), '┃');
    assert_eq!(glyph_char(0, HORIZONTAL), '━');
}

#[test]
fn corner_glyphs_join_entry_and_exit() {
    let corner = |a, b| glyph_char(0, glyph_index(a, b));
    assert_eq!(corner(Direction::Up, Direction::Right), '┏');
    assert_eq!(corner(Direction::Up, Direction::Left), '┓');
    assert_eq!(corner(Direction::Right, Direction::Up), '┛');
    assert_eq!(corner(Direction::Right, Direction::Down), '┓');
    assert_eq!(corner(Direction::Down, Direction::Right), '┗');
    assert_eq!(corner(Direction::Down, Direction::Left), '┛');
    assert_eq!(corner(Direction::Left, Direction::Up), '┗');
    assert_eq!(corner(Direction::Left, Direction::Down), '┏');
    for a in ALL_DIRS {
        for b in ALL_DIRS {
            if is_vertical(a) != is_vertical(b) {
                let g = glyph_index(a, b);
                assert!(2 <= g && g < 6);
            }
        }
    }
}

#[test]
fn field_scenario_three_moves_then_turn() {
    let mut field = PipeField::new(1, 0, 0, 4, 5, 10, 10).unwrap();
    assert_eq!(field.pipes.len(), 1);
    assert_eq!(field.pipes[0].cols, 10);
    assert_eq!(field.pipes[0].track_len, 4);
    place(&mut field.pipes[0], 0, 5, Direction::Right, 4);
    for _ in 0..3 {
        field.advance_all();
    }
    let p = &field.pipes[0];
    assert_eq!(p.pos, Position::new(3, 5));
    assert_eq!(p.dir, Direction::Right);
    assert_eq!(p.last_dir, Direction::Right);
    field.advance_all();
    let p = &field.pipes[0];
    assert_eq!(p.pos, Position::new(3, 5));
    assert!(p.dir == Direction::Up || p.dir == Direction::Down);
    assert_eq!(p.last_dir, Direction::Right);
    assert_eq!(p.track_len, 4);
}

#[test]
fn right_edge_wraps_to_first_column() {
    let mut p = seeded_pipe(7, 0, 4, 5, 10, 10);
    place(&mut p, 9, 5, Direction::Right, 4);
    p.update();
    assert_eq!(p.pos, Position::new(0, 5));
    assert_eq!(p.track_len, 3);
}

#[test]
fn left_edge_wraps_to_last_column() {
    let mut p = seeded_pipe(8, 1, 2, 9, 10, 7);
    place(&mut p, 0, 3, Direction::Left, 5);
    p.update();
    assert_eq!(p.pos, Position::new(9, 3));
}

#[test]
fn top_and_bottom_edges_wrap() {
    let mut p = seeded_pipe(9, 2, 2, 9, 10, 7);
    place(&mut p, 4, 0, Direction::Up, 5);
    p.update();
    assert_eq!(p.pos, Position::new(4, 6));
    place(&mut p, 4, 6, Direction::Down, 5);
    p.update();
    assert_eq!(p.pos, Position::new(4, 0));
}

#[test]
fn inner_moves_step_one_cell() {
    let mut p = seeded_pipe(10, 0, 2, 9, 10, 7);
    place(&mut p, 4, 3, Direction::Up, 5);
    p.update();
    assert_eq!(p.pos, Position::new(4, 2));
    place(&mut p, 4, 3, Direction::Down, 5);
    p.update();
    assert_eq!(p.pos, Position::new(4, 4));
    place(&mut p, 4, 3, Direction::Left, 5);
    p.update();
    assert_eq!(p.pos, Position::new(3, 3));
    place(&mut p, 4, 3, Direction::Right, 5);
    p.update();
    assert_eq!(p.pos, Position::new(5, 3));
}

#[test]
fn long_walk_stays_on_canvas_with_track_ahead() {
    let mut p = seeded_pipe(42, 1, 1, 6, 13, 5);
    for _ in 0..5000 {
        let before = p.track_len;
        let dir = p.dir;
        p.update();
        assert!(p.pos.x < 13 && p.pos.y < 5);
        assert!(p.track_len >= 1);
        if before == 1 {
            assert!(p.track_len >= 1 && p.track_len < 6);
            assert!(is_vertical(p.dir) != is_vertical(dir));
        } else {
            assert_eq!(p.track_len, before - 1);
            assert_eq!(p.dir, dir);
        }
        assert_eq!(p.last_dir, dir);
    }
}

#[test]
fn turns_are_quarter_turns() {
    let mut rng = StdRng::seed_from_u64(3);
    for _ in 0..200 {
        for d in ALL_DIRS {
            let t = d.turn(&mut rng);
            assert!(is_vertical(d) != is_vertical(t));
        }
    }
    assert_eq!(Direction::Up.turned(true), Direction::Left);
    assert_eq!(Direction::Down.turned(false), Direction::Right);
    assert_eq!(Direction::Left.turned(true), Direction::Up);
    assert_eq!(Direction::Right.turned(false), Direction::Down);
}

#[test]
fn turn_pipe_keeps_cell_and_renews_track() {
    let mut p = seeded_pipe(11, 0, 3, 8, 10, 10);
    place(&mut p, 2, 2, Direction::Up, 1);
    p.turn_pipe();
    assert_eq!(p.pos, Position::new(2, 2));
    assert_eq!(p.last_dir, Direction::Up);
    assert!(p.dir == Direction::Left || p.dir == Direction::Right);
    assert!(p.track_len >= 3 && p.track_len < 8);
}

#[test]
fn random_colors_stay_in_palette() {
    let mut p = seeded_pipe(5, 0, 4, 7, 20, 20);
    let allowed = [Color::White, Color::Red, Color::Yellow, Color::Cyan, Color::Magenta];
    for _ in 0..1000 {
        p.set_random_color();
        assert!(allowed.contains(&p.color));
    }
}

#[test]
fn palettes_hold_their_colors() {
    assert_eq!(palette_color(0, 1), Color::Red);
    assert_eq!(palette_color(0, 5), Color::Magenta);
    assert_eq!(palette_color(1, 2), Color::Blue);
    assert_eq!(palette_color(1, 4), Color::Green);
    assert_eq!(palette_color(2, 3), Color::Magenta);
    assert_eq!(palette_color(2, 5), Color::White);
    assert_eq!(Color::White.code(), 7);
    assert_eq!(Color::Magenta.code(), 5);
    assert_eq!(Color::Black.code(), 0);
}

#[test]
fn exact_setters() {
    let mut p = seeded_pipe(12, 1, 4, 7, 10, 8);
    p.set_color_from(8);
    assert_eq!(p.color, Color::Blue);
    p.set_track_len_from(5);
    assert_eq!(p.track_len, 6);
    p.spawn_at(0, 13, Direction::Up);
    assert_eq!(p.pos, Position::new(3, 7));
    p.spawn_at(1, 4, Direction::Down);
    assert_eq!(p.pos, Position::new(4, 0));
    p.spawn_at(2, 10, Direction::Left);
    assert_eq!(p.pos, Position::new(9, 2));
    p.spawn_at(7, 3, Direction::Right);
    assert_eq!(p.pos, Position::new(0, 3));
    assert_eq!(p.dir, Direction::Right);
    assert_eq!(p.last_dir, Direction::Right);
    assert_eq!(Direction::from_index(6), Direction::Left);
}

#[test]
fn spawned_pipes_start_on_an_edge() {
    for seed in 0..200u64 {
        let mut p = seeded_pipe(seed, 2, 2, 5, 17, 9);
        assert!(p.pos.x == 0 || p.pos.x == 16 || p.pos.y == 0 || p.pos.y == 8);
        assert_eq!(p.dir, p.last_dir);
        assert!(p.track_len >= 2 && p.track_len < 5);
        p.reset();
        assert!(p.pos.x == 0 || p.pos.x == 16 || p.pos.y == 0 || p.pos.y == 8);
    }
    let p = Pipe::new(0, 0, 4, 7, 30, 20).unwrap();
    assert!(p.pos.x < 30 && p.pos.y < 20);
    assert!(p.track_len >= 4 && p.track_len < 7);
}

#[test]
fn config_errors_in_order() {
    assert_eq!(check_config(1, 0, 1, 4, 7, 10, 10), Err(FieldError::UnknownCharset));
    assert_eq!(check_config(1, 0, 0, 7, 7, 10, 10), Err(FieldError::TrackLenOrder));
    assert_eq!(check_config(1, 0, 0, 0, 7, 10, 10), Err(FieldError::ZeroTrackLen));
    assert_eq!(check_config(1, 3, 0, 4, 7, 10, 10), Err(FieldError::UnknownColorset));
    assert_eq!(check_config(0, 0, 0, 4, 7, 10, 10), Err(FieldError::NoPipes));
    assert_eq!(check_config(1, 0, 0, 4, 7, 0, 10), Err(FieldError::EmptyCanvas));
    assert_eq!(check_config(2, 2, 0, 1, 2, 1, 1), Ok(()));
    assert!(matches!(PipeField::new(0, 0, 0, 4, 7, 10, 10), Err(FieldError::NoPipes)));
    assert!(matches!(PipeField::new(3, 0, 0, 4, 3, 10, 10), Err(FieldError::TrackLenOrder)));
}

#[test]
fn cells_follow_pipe_order() {
    let mut field = PipeField::new(3, 1, 0, 4, 5, 10, 10).unwrap();
    place(&mut field.pipes[0], 1, 1, Direction::Up, 4);
    place(&mut field.pipes[1], 2, 2, Direction::Right, 4);
    field.pipes[2].last_dir = Direction::Left;
    field.pipes[2].dir = Direction::Down;
    let cells = field.cells();
    assert_eq!(cells.len(), 3);
    assert_eq!((cells[0].col, cells[0].row, cells[0].glyph), (1, 1, '┃'));
    assert_eq!((cells[1].col, cells[1].row, cells[1].glyph), (2, 2, '━'));
    assert_eq!(cells[2].glyph, '┏');
    assert_eq!(cells[1].color, field.pipes[1].color);
    assert_eq!(field.pipes[2].glyph(), '┏');
}
