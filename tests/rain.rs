use tomatrix2::cell::{Cell, SpawnDraws, StepDraws};
use tomatrix2::policy::{
    pick_char, pick_char_from, pick_color, pick_color_from, pick_speed, pick_speed_from,
    pick_volatility, shade_at, Shade, MAX_SPEED,
};
use tomatrix2::window::{batch_size, frame_pause_nanos, Draw, SetupError, Window};

fn corpus_of(s: &str) -> Vec<char> {
    s.chars().collect()
}

fn spawn_draws(column: usize, speed: usize, volatility: u32) -> SpawnDraws {
    SpawnDraws { column, speed, color: 0, volatility, blank: 1, index: 0 }
}

fn moving(speed: usize) -> StepDraws {
    StepDraws { settle: u32::MAX, mutate: 1, blank: 1, index: 0, speed, color: 2, volatility: 0 }
}

#[test]
fn single_char_corpus_always_gives_it() {
    let corpus = vec!['A'];
    for blank in [1usize, 2, 4, 5, 7, 100, usize::MAX - 1] {
        for index in [0usize, 1, 2, 99, usize::MAX] {
            assert_eq!(pick_char_from(blank, index, &corpus), 'A');
        }
    }
}

#[test]
fn blank_draw_gives_space() {
    let corpus = corpus_of("xyz");
    assert_eq!(pick_char_from(0, 1, &corpus), ' ');
    assert_eq!(pick_char_from(3, 1, &corpus), ' ');
    assert_eq!(pick_char_from(1, 4, &corpus), 'y');
    assert_eq!(pick_char_from(2, 2, &corpus), 'z');
}

#[test]
fn speed_and_shade_from_draws() {
    assert_eq!(pick_speed_from(7), 3);
    assert_eq!(pick_speed_from(8), 0);
    assert_eq!(pick_color_from(7), Shade::Green);
    assert_eq!(pick_color_from(9), Shade::White);
    assert_eq!(shade_at(0), Shade::DarkGrey);
    assert_eq!(shade_at(1), Shade::DarkGreen);
    assert_eq!(shade_at(3), Shade::Grey);
}

#[test]
fn random_picks_stay_in_range() {
    let corpus = corpus_of("qr");
    for _ in 0..200 {
        assert!(pick_speed() < MAX_SPEED);
        let c = pick_char(&corpus);
        assert!(c == ' ' || corpus.contains(&c));
    }
}

#[test]
fn random_color_is_in_palette() {
    let palette = [Shade::DarkGrey, Shade::DarkGreen, Shade::Green, Shade::Grey, Shade::White];
    let mut seen = [false; 5];
    for _ in 0..2000 {
        let s = pick_color();
        let i = palette.iter().position(|p| *p == s).unwrap();
        seen[i] = true;
    }
    assert!(seen.iter().all(|b| *b));
}

#[test]
fn random_volatility_is_a_fraction() {
    let mut low = false;
    let mut high = false;
    for _ in 0..2000 {
        let v = pick_volatility() as f64 / 4294967296.0;
        assert!((0.0..1.0).contains(&v));
        low |= v < 0.5;
        high |= v >= 0.5;
    }
    assert!(low && high);
}

#[test]
fn batch_size_wide_and_narrow() {
    for draw in 0..1000usize {
        assert!(batch_size(100, draw) < 10);
        assert_eq!(batch_size(5, draw), 0);
        assert_eq!(batch_size(9, draw), 0);
    }
    assert_eq!(batch_size(100, 57), 7);
    assert_eq!(batch_size(100, usize::MAX), usize::MAX % 10);
    assert_eq!(batch_size(30, 4), 1);
}

#[test]
fn pause_has_jitter() {
    assert_eq!(frame_pause_nanos(0), 10_000_000);
    assert_eq!(frame_pause_nanos(123_456), 10_023_456);
}

#[test]
fn setup_errors() {
    assert_eq!(Window::new(0, 10, corpus_of("a")).err(), Some(SetupError::EmptyGrid));
    assert_eq!(Window::new(10, 0, corpus_of("a")).err(), Some(SetupError::EmptyGrid));
    assert_eq!(Window::new(10, 10, Vec::new()).err(), Some(SetupError::EmptyCorpus));
    let w = Window::new(20, 10, corpus_of("ab")).unwrap();
    assert_eq!(w.columns(), 20);
    assert_eq!(w.rows(), 10);
    assert_eq!(w.corpus(), &corpus_of("ab"));
    assert!(w.cells().is_empty());
}

#[test]
fn empty_frame_draws_nothing() {
    let mut w = Window::new(100, 10, corpus_of("a")).unwrap();
    let n = batch_size(w.columns(), 0);
    assert_eq!(n, 0);
    let draws = w.frame(&Vec::new(), &Vec::new());
    assert!(draws.is_empty());
    assert!(w.cells().is_empty());
}

#[test]
fn spawn_takes_column_modulo_width() {
    let c = Cell::spawn('q', &spawn_draws(25, 6, 9), 20, 10);
    assert_eq!(c.column(), 5);
    assert_eq!(c.row(), 0);
    assert_eq!(c.speed(), 2);
    assert_eq!(c.volatility(), 9);
    assert_eq!(c.ceiling(), 10);
    assert_eq!(c.glyph(), 'q');
    assert_eq!(c.shade(), Shade::DarkGrey);
}

#[test]
fn one_cell_falls_two_rows() {
    let mut w = Window::new(20, 10, corpus_of("AB ")).unwrap();
    let draws = w.frame(&Vec::new(), &vec![spawn_draws(5, 2, 0)]);
    assert!(draws.is_empty());
    assert_eq!(w.cells().len(), 1);
    let c = w.cells()[0];
    assert_eq!((c.column(), c.row(), c.speed(), c.volatility()), (5, 0, 2, 0));
    assert_eq!(c.glyph(), 'A');

    let mut step = moving(0);
    step.settle = 1;
    let draws = w.frame(&vec![step], &Vec::new());
    assert_eq!(
        draws,
        vec![Draw { column: 5, row: 0, shade: Shade::DarkGrey, glyph: 'A' }]
    );
    assert_eq!(w.cells().len(), 1);
    assert_eq!(w.cells()[0].row(), 2);
    assert_eq!(w.cells()[0].column(), 5);
    assert_eq!(w.cells()[0].shade(), Shade::Green);
}

#[test]
fn cell_reaching_last_row_is_removed() {
    let corpus = corpus_of("a");
    let mut c = Cell::spawn('x', &spawn_draws(0, 2, 0), 4, 10);
    for _ in 0..3 {
        assert!(c.step(&moving(2), &corpus));
    }
    assert_eq!(c.row(), 6);
    assert!(c.step(&moving(2), &corpus));
    assert_eq!(c.row(), 8);
    let before = c;
    assert!(!c.step(&moving(2), &corpus));
    assert_eq!(c.row(), before.row());

    let mut w = Window::new(4, 10, corpus.clone()).unwrap();
    w.frame(&Vec::new(), &vec![spawn_draws(1, 3, 0)]);
    for _ in 0..2 {
        w.frame(&vec![moving(3)], &Vec::new());
    }
    assert_eq!(w.cells()[0].row(), 6);
    let draws = w.frame(&vec![moving(3)], &Vec::new());
    assert_eq!(draws.len(), 1);
    assert!(w.cells().is_empty());
}

#[test]
fn frozen_cell_does_not_change() {
    let corpus = corpus_of("a");
    let mut c = Cell::spawn('x', &spawn_draws(0, 1, 1000), 4, 10);
    let mut d = moving(3);
    d.settle = 1000;
    d.mutate = 0;
    assert!(c.step(&d, &corpus));
    assert_eq!((c.row(), c.speed(), c.volatility(), c.glyph()), (0, 1, 1000, 'x'));
    d.settle = 1001;
    assert!(c.step(&d, &corpus));
    assert_eq!((c.row(), c.speed(), c.volatility()), (1, 3, 0));
}

#[test]
fn mutation_redraws_glyph() {
    let corpus = corpus_of("mn");
    let mut c = Cell::spawn('x', &spawn_draws(0, 1, 0), 4, 10);
    let mut d = moving(1);
    d.mutate = 20;
    d.blank = 2;
    d.index = 3;
    assert!(c.step(&d, &corpus));
    assert_eq!(c.glyph(), 'n');
    d.blank = 6;
    assert!(c.step(&d, &corpus));
    assert_eq!(c.glyph(), ' ');
}

#[test]
fn zero_speed_cell_never_moves() {
    let corpus = corpus_of("a");
    let mut c = Cell::spawn('x', &spawn_draws(0, 0, 0), 4, 2);
    for i in 0..500usize {
        assert!(c.step(&moving(MAX_SPEED * i), &corpus));
        assert_eq!(c.row(), 0);
        assert_eq!(c.speed(), 0);
    }
}

#[test]
fn random_frames_keep_cells_in_grid() {
    let mut w = Window::new(120, 30, corpus_of("rain")).unwrap();
    for _ in 0..300 {
        let before = w.cells().len();
        let draws = w.draw_loop();
        assert_eq!(draws.len(), before);
        assert!(w.cells().len() < before + 12);
        for c in w.cells() {
            assert!(c.column() < 120);
            assert!(c.row() < 30);
            assert_eq!(c.ceiling(), 30);
            assert!(c.speed() < MAX_SPEED);
        }
    }
}

#[test]
fn random_cell_starts_at_top() {
    let w = Window::new(7, 3, corpus_of("z")).unwrap();
    for _ in 0..100 {
        let mut c = Cell::new('z', &w);
        assert_eq!(c.row(), 0);
        assert!(c.column() < 7);
        assert_eq!(c.ceiling(), 3);
        let alive = c.iterate(w.corpus());
        assert!(c.row() < 3);
        assert!(alive || c.row() == 0);
    }
}

#[test]
fn generated_batch_is_bounded() {
    let w = Window::new(50, 8, corpus_of("ab")).unwrap();
    for _ in 0..100 {
        let v = w.generate_cells();
        assert!(v.len() < 5);
        for c in &v {
            assert!(c.column() < 50);
            assert_eq!(c.row(), 0);
        }
    }
}
