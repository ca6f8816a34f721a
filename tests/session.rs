use conway_life::cell::Cell;
use conway_life::color::Color;
use conway_life::error::{Error, Parameter};
use conway_life::random::{grid_of_draws, random_grid, Density};
use conway_life::universe::{KeyCode, KeyEvent, KeyEventKind, Marker, Size, Universe};
use conway_life::universe_builder::UniverseBuilder;

fn picture(grid: &[Vec<Cell>]) -> Vec<String> {
    grid.iter()
        .map(|r| r.iter().map(|c| if c.is_alive() { '#' } else { '.' }).collect())
        .collect()
}

fn press(code: KeyCode) -> KeyEvent {
    KeyEvent { code, kind: KeyEventKind::Press }
}

fn blinker_universe() -> Universe {
    let grid: Vec<Vec<Cell>> = ["...", "###", "..."]
        .iter()
        .map(|r| r.chars().map(|c| Cell::new(c == '#')).collect())
        .collect();
    Universe::new(
        Size { width: 3, height: 3 },
        30,
        grid,
        false,
        Marker::Block,
        String::from("255,0,0"),
    )
}

#[test]
fn random_grid_is_deterministic() {
    let d = Density::new(1, 2);
    let a = random_grid(42, d, 17, 9).unwrap();
    let b = random_grid(42, d, 17, 9).unwrap();
    assert_eq!(a, b);
    assert_eq!(a.len(), 9);
    assert!(a.iter().all(|r| r.len() == 17));
    let c = random_grid(43, d, 17, 9).unwrap();
    assert_ne!(a, c);
}

#[test]
fn random_grid_extreme_densities() {
    let dead = random_grid(7, Density::new(0, 5), 8, 4).unwrap();
    assert!(dead.iter().flatten().all(|c| !c.is_alive()));
    let alive = random_grid(7, Density::new(5, 5), 8, 4).unwrap();
    assert!(alive.iter().flatten().all(|c| c.is_alive()));
}

#[test]
fn random_grid_refuses_bad_density() {
    let bad = Err(Error::InvalidParameter(Parameter::Density));
    assert_eq!(random_grid(1, Density::new(3, 2), 4, 4), bad);
    assert_eq!(random_grid(1, Density::new(-1, 2), 4, 4), bad);
    assert_eq!(random_grid(1, Density::new(1, 0), 4, 4), bad);
    assert!(Density::new(1, 2).is_probability());
    assert!(!Density::new(1, -2).is_probability());
}

#[test]
fn quit_key_exits() {
    let mut u = blinker_universe();
    assert!(!u.should_exit());
    u.handle_key_press(KeyEvent { code: KeyCode::Char('q'), kind: KeyEventKind::Release });
    assert!(!u.should_exit());
    u.handle_key_press(press(KeyCode::Char('x')));
    assert!(!u.should_exit());
    u.handle_key_press(press(KeyCode::Char('q')));
    assert!(u.should_exit());
    u.handle_key_press(press(KeyCode::Enter));
    assert!(u.should_exit());
}

#[test]
fn enter_cycles_markers() {
    let mut u = blinker_universe();
    let mut seen = Vec::new();
    for _ in 0..5 {
        u.handle_key_press(press(KeyCode::Enter));
        seen.push(u.marker());
    }
    assert_eq!(
        seen,
        vec![Marker::HalfBlock, Marker::Bar, Marker::Dot, Marker::Braille, Marker::Block]
    );
    u.handle_key_press(KeyEvent { code: KeyCode::Enter, kind: KeyEventKind::Repeat });
    assert_eq!(u.marker(), Marker::Block);
    assert_eq!(Marker::Bar.next(), Marker::Dot);
}

#[test]
fn step_advances_when_the_interval_has_passed() {
    let mut u = blinker_universe();
    assert_eq!(u.tick_interval_micros(), 33_000);
    assert_eq!(u.poll_timeout_micros(10_000), 23_000);
    assert_eq!(u.poll_timeout_micros(40_000), 0);
    assert!(!u.step(None, 32_999));
    assert_eq!(picture(u.grid()), vec!["...", "###", "..."]);
    assert!(u.step(Some(press(KeyCode::Enter)), 33_000));
    assert_eq!(picture(u.grid()), vec![".#.", ".#.", ".#."]);
    assert_eq!(u.marker(), Marker::HalfBlock);
    assert!(u.step(Some(press(KeyCode::Char('q'))), 50_000));
    assert!(u.should_exit());
    assert_eq!(picture(u.grid()), vec!["...", "###", "..."]);
}

#[test]
fn advance_and_compute_next_generation() {
    let mut u = blinker_universe();
    let next = u.compute_next_generation();
    assert_eq!(picture(&next), vec![".#.", ".#.", ".#."]);
    u.advance();
    assert_eq!(picture(u.grid()), vec![".#.", ".#.", ".#."]);
}

#[test]
fn alive_cells_row_by_row() {
    let u = blinker_universe();
    assert_eq!(u.alive_cells(), vec![(1, 0), (1, 1), (1, 2)]);
    let mut u = blinker_universe();
    u.advance();
    assert_eq!(u.alive_cells(), vec![(0, 1), (1, 1), (2, 1)]);
}

#[test]
fn render_color_falls_back_to_white() {
    let u = blinker_universe();
    assert_eq!(u.render_color(), Color::Rgb(255, 0, 0));
    let u = UniverseBuilder::new(Size { width: 2, height: 2 }, None, None, None, None)
        .color(String::from("bad"))
        .build()
        .unwrap();
    assert_eq!(u.render_color(), Color::White);
}

#[test]
fn tick_interval_for_slow_and_fast_speeds() {
    let u = UniverseBuilder::new(Size { width: 1, height: 1 }, Some(1), None, None, None)
        .build()
        .unwrap();
    assert_eq!(u.tick_interval_micros(), 1_000_000);
    let u = UniverseBuilder::new(Size { width: 1, height: 1 }, Some(3000), None, None, None)
        .build()
        .unwrap();
    assert_eq!(u.tick_interval_micros(), 0);
}

#[test]
fn builder_defaults() {
    let u = UniverseBuilder::new(Size { width: 10, height: 4 }, None, None, None, None)
        .build()
        .unwrap();
    assert_eq!(u.size(), Size { width: 10, height: 4 });
    assert_eq!(u.tick_interval_micros(), 33_000);
    assert_eq!(u.render_color(), Color::Rgb(255, 255, 255));
    assert_eq!(u.marker(), Marker::Block);
    assert!(!u.should_exit());
    assert_eq!(u.grid().len(), 4);
    assert!(u.grid().iter().all(|r| r.len() == 10));
    let again = UniverseBuilder::new(Size { width: 10, height: 4 }, None, Some(1), None, None)
        .random(1, Density::new(1, 2))
        .build()
        .unwrap();
    assert_eq!(u.grid(), again.grid());
}

#[test]
fn builder_refuses_zero_speed() {
    let r = UniverseBuilder::new(Size { width: 3, height: 3 }, None, None, None, None)
        .speed(0)
        .build();
    assert!(matches!(r, Err(Error::InvalidParameter(Parameter::Speed))));
}

#[test]
fn builder_refuses_bad_density() {
    let r = UniverseBuilder::new(Size { width: 3, height: 3 }, None, None, None, None)
        .random(5, Density::new(2, 1))
        .build();
    assert!(matches!(r, Err(Error::InvalidParameter(Parameter::Density))));
}

#[test]
fn builder_with_stdin_and_file() {
    let u = UniverseBuilder::new(Size { width: 5, height: 3 }, None, None, None, None)
        .with_stdin(String::from("OO\nO."))
        .build()
        .unwrap();
    assert_eq!(picture(u.grid()), vec![".##..", ".#...", "....."]);
    let u = UniverseBuilder::new(Size { width: 4, height: 1 }, None, None, None, None)
        .with_file(String::from("x = 2, y = 1\nob!"))
        .build()
        .unwrap();
    assert_eq!(picture(u.grid()), vec![".#.."]);
    let r = UniverseBuilder::new(Size { width: 1, height: 1 }, None, None, None, None)
        .with_file(String::from("OO"))
        .build();
    assert!(matches!(r, Err(Error::PatternTooLarge { .. })));
}

#[test]
fn universe_parse_and_init_random() {
    let mut u = blinker_universe();
    assert!(u.parse("O").is_ok());
    assert_eq!(picture(u.grid()), vec!["...", ".#.", "..."]);
    assert!(u.parse("OOOO").is_err());
    assert_eq!(picture(u.grid()), vec!["...", ".#.", "..."]);
    assert_eq!(
        u.init_random(3, Density::new(4, 3)),
        Err(Error::InvalidParameter(Parameter::Density))
    );
    assert_eq!(picture(u.grid()), vec!["...", ".#.", "..."]);
    assert!(u.init_random(3, Density::new(1, 1)).is_ok());
    assert_eq!(picture(u.grid()), vec!["###", "###", "###"]);
}

#[test]
fn draws_are_laid_out_row_after_row() {
    let draws = vec![true, false, false, true, true, false];
    let grid = grid_of_draws(&draws, 3, 2);
    assert_eq!(picture(&grid), vec!["#..", "##."]);
    assert!(grid_of_draws(&Vec::new(), 0, 4).iter().all(|r| r.is_empty()));
}
