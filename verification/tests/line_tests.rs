use matrix_rain::cell::{Cell, Sym, CHARSET, CHARSET_LEN};
use rand::Rng;
use matrix_rain::line::{GeometryError, LineState, Stream, EMIT_MIN, FADE_MIN, MIN_LINE_LEN};

fn glyph(c: char, white: bool) -> Cell {
    Cell::Sym(Sym { value: c.to_string(), white })
}

fn blank() -> Cell {
    Cell::Whitespace
}

fn trail() -> Cell {
    glyph('x', false)
}

fn head() -> Cell {
    glyph('x', true)
}

fn line_of(stream: Stream, cells: Vec<Cell>, chars: usize, whitespace: usize) -> LineState {
    LineState { stream, line: cells, chars, whitespace }
}

/// Draw `i` for cell `i`: cell `i` shows the `i`-th character of the set.
fn draws(n: usize) -> Vec<usize> {
    (0..n).collect()
}

fn drawn(i: usize, white: bool) -> Cell {
    glyph(CHARSET.chars().nth(i).unwrap(), white)
}

fn shape(line: &LineState) -> String {
    line.line
        .iter()
        .map(|c| match c {
            Cell::Whitespace => '.',
            Cell::Sym(s) => {
                if s.white {
                    'H'
                } else {
                    't'
                }
            }
        })
        .collect()
}

fn heads(line: &LineState) -> usize {
    line.line.iter().filter(|c| matches!(c, Cell::Sym(s) if s.white)).count()
}

#[test]
fn charset_has_its_length() {
    assert_eq!(CHARSET.chars().count(), CHARSET_LEN);
    assert!(CHARSET.is_ascii());
    assert_eq!(CHARSET.chars().next(), Some('A'));
    assert_eq!(CHARSET.chars().last(), Some('~'));
}

#[test]
fn glyph_shows_drawn_character() {
    assert_eq!(Cell::glyph(0, true), glyph('A', true));
    assert_eq!(Cell::glyph(26, false), glyph('a', false));
    assert_eq!(Cell::glyph(52, false), glyph('0', false));
    assert_eq!(Cell::glyph(76, true), glyph('~', true));
}

#[test]
fn cell_queries() {
    assert!(head().is_leading());
    assert!(!trail().is_leading());
    assert!(!blank().is_leading());
    assert!(blank().is_blank());
    assert!(!head().is_blank());
}

#[test]
fn fading_head_moves_one_cell() {
    let mut cells = vec![blank(); 10];
    cells[0] = head();
    let mut line = line_of(Stream::Off, cells, 7, 5);
    line.update_line_with(&draws(10), 0);
    assert_eq!(line.line[0], drawn(0, false));
    assert_eq!(line.line[1], drawn(1, true));
    for i in 2..10 {
        assert_eq!(line.line[i], Cell::Whitespace);
    }
    assert_eq!(line.stream, Stream::Off);
    assert_eq!(line.whitespace, 4);
    assert_eq!(line.chars, 7);
    assert_eq!(line.line.len(), 10);
}

#[test]
fn fading_head_moves_one_cell_with_random_glyphs() {
    let mut cells = vec![blank(); 10];
    cells[0] = head();
    let mut line = line_of(Stream::Off, cells, 7, 5);
    assert!(line.can_tick());
    line.update_line();
    assert_eq!(shape(&line), "tH........");
    for cell in line.line.iter().take(2) {
        match cell {
            Cell::Sym(sym) => {
                assert_eq!(sym.value.chars().count(), 1);
                assert!(CHARSET.contains(sym.value.as_str()));
            }
            Cell::Whitespace => panic!("a glyph was expected"),
        }
    }
    assert_eq!(line.whitespace, 4);
}

#[test]
fn fading_erases_first_glyph_of_each_run() {
    let cells = vec![trail(), trail(), head(), blank(), blank(), trail(), trail(), blank()];
    let mut line = line_of(Stream::Off, cells, 3, 9);
    line.update_line_with(&draws(8), 0);
    assert_eq!(shape(&line), ".ttH..t.");
    assert_eq!(line.line[1], trail());
    assert_eq!(line.line[2], drawn(2, false));
    assert_eq!(line.line[3], drawn(3, true));
    assert_eq!(line.line[6], trail());
}

#[test]
fn fading_keeps_a_trail_behind_a_cell_the_head_moved_onto() {
    let cells = vec![trail(), trail(), head(), blank(), trail(), trail(), blank()];
    let mut line = line_of(Stream::Off, cells, 3, 9);
    line.update_line_with(&draws(7), 0);
    assert_eq!(shape(&line), ".ttHtt.");
}

#[test]
fn head_on_last_cell_retires() {
    let cells = vec![blank(), trail(), head()];
    let mut line = line_of(Stream::Off, cells, 3, 9);
    line.update_line_with(&draws(3), 0);
    assert_eq!(shape(&line), "..t");
    assert_eq!(line.line[2], drawn(2, false));
    assert_eq!(heads(&line), 0);
}

#[test]
fn emitting_seeds_first_blank() {
    let mut line = line_of(Stream::On, vec![blank(); 6], 4, 11);
    line.update_line_with(&draws(6), 0);
    assert_eq!(shape(&line), "H.....");
    assert_eq!(line.line[0], drawn(0, true));
    assert_eq!(line.chars, 3);
    line.update_line_with(&draws(6), 0);
    assert_eq!(shape(&line), "tH....");
    line.update_line_with(&draws(6), 0);
    assert_eq!(shape(&line), "ttH...");
    assert_eq!(line.chars, 1);
    assert_eq!(line.stream, Stream::On);
}

#[test]
fn emitting_erases_trail_after_work() {
    let cells = vec![blank(), blank(), trail(), trail(), blank()];
    let mut line = line_of(Stream::On, cells, 4, 11);
    line.update_line_with(&draws(5), 0);
    assert_eq!(shape(&line), "H..tH");
}

#[test]
fn emitting_can_leave_two_heads() {
    let cells = vec![blank(), blank(), trail(), trail(), head(), blank(), blank()];
    let mut line = line_of(Stream::On, cells, 4, 11);
    assert_eq!(heads(&line), 1);
    line.update_line_with(&draws(7), 0);
    assert_eq!(shape(&line), "H..ttH.");
    assert_eq!(heads(&line), 2);
}

#[test]
fn of_two_heads_side_by_side_the_first_moves() {
    let cells = vec![head(), head(), blank(), blank()];
    let mut line = line_of(Stream::Off, cells, 4, 11);
    line.update_line_with(&draws(4), 0);
    assert_eq!(shape(&line), "tH..");
    let cells = vec![head(), head(), head(), blank()];
    let mut line = line_of(Stream::Off, cells, 4, 11);
    line.update_line_with(&draws(4), 0);
    assert_eq!(shape(&line), "tHtH");
}

#[test]
fn fading_never_adds_a_head() {
    let mut cells = vec![blank(); 16];
    cells[3] = trail();
    cells[4] = trail();
    cells[5] = head();
    let mut line = line_of(Stream::Off, cells, 4, 40);
    for _ in 0..30 {
        line.update_line_with(&draws(16), 0);
        assert!(heads(&line) <= 1);
        assert_eq!(line.line.len(), 16);
    }
    assert_eq!(shape(&line), "................");
}

#[test]
fn emitting_countdown_of_one_enters_fading() {
    let mut line = line_of(Stream::On, vec![blank(); 20], 1, 0);
    line.update_line_with(&draws(20), 13);
    assert_eq!(line.stream, Stream::Off);
    assert_eq!(line.whitespace, 13);
    assert_eq!(line.chars, 0);

    for _ in 0..200 {
        let mut line = line_of(Stream::On, vec![blank(); 20], 1, 0);
        assert!(line.can_tick());
        line.update_line();
        assert_eq!(line.stream, Stream::Off);
        assert!(line.whitespace >= FADE_MIN && line.whitespace < 19);
        assert_eq!(line.chars, 0);
    }
}

#[test]
fn fading_countdown_of_one_enters_emitting() {
    let mut line = line_of(Stream::Off, vec![blank(); 20], 0, 1);
    line.update_line_with(&draws(20), 6);
    assert_eq!(line.stream, Stream::On);
    assert_eq!(line.chars, 6);
    assert_eq!(line.whitespace, 0);

    for _ in 0..200 {
        let mut line = line_of(Stream::Off, vec![blank(); 20], 0, 1);
        assert!(line.can_tick());
        line.update_line();
        assert_eq!(line.stream, Stream::On);
        assert!(line.chars >= EMIT_MIN && line.chars < 19);
        assert_eq!(line.whitespace, 0);
    }
}

#[test]
fn countdown_above_one_keeps_phase() {
    let mut line = line_of(Stream::On, vec![blank(); 20], 2, 9);
    line.update_line_with(&draws(20), 13);
    assert_eq!(line.stream, Stream::On);
    assert_eq!(line.chars, 1);
    assert_eq!(line.whitespace, 9);
}

#[test]
fn length_is_constant_over_ticks() {
    for len in [12usize, 13, 24, 80] {
        let mut line = LineState::new(len).unwrap();
        for _ in 0..500 {
            assert!(line.can_tick());
            line.update_line();
            assert_eq!(line.line.len(), len);
        }
    }
}

#[test]
fn new_line_is_blank_with_countdowns_in_range() {
    for _ in 0..200 {
        let line = LineState::new(40).unwrap();
        assert_eq!(line.line.len(), 40);
        assert!(line.line.iter().all(|c| *c == Cell::Whitespace));
        assert!(line.chars >= EMIT_MIN && line.chars < 20);
        assert!(line.whitespace >= FADE_MIN && line.whitespace < 40);
    }
    let line = LineState::new(MIN_LINE_LEN).unwrap();
    assert_eq!(line.chars, 5);
    assert!(line.whitespace == 10 || line.whitespace == 11);
}

#[test]
fn new_line_starts_in_either_phase() {
    let mut on = 0;
    let mut off = 0;
    for _ in 0..5000 {
        match LineState::new(12).unwrap().stream {
            Stream::On => on += 1,
            Stream::Off => off += 1,
        }
    }
    assert!(on > 0);
    assert!(off > on);
}

#[test]
fn short_line_is_refused() {
    assert_eq!(LineState::new(0), Err(GeometryError::LineTooShort));
    assert_eq!(LineState::new(1), Err(GeometryError::LineTooShort));
    assert_eq!(LineState::new(11), Err(GeometryError::LineTooShort));
    assert!(LineState::new(12).is_ok());
}

#[test]
fn can_tick_tells_when_a_tick_is_safe() {
    assert!(!line_of(Stream::On, vec![blank(); 20], 0, 3).can_tick());
    assert!(!line_of(Stream::Off, vec![blank(); 20], 3, 0).can_tick());
    assert!(line_of(Stream::On, vec![blank(); 3], 2, 0).can_tick());
    assert!(!line_of(Stream::On, vec![blank(); 11], 1, 0).can_tick());
    assert!(line_of(Stream::On, vec![blank(); 12], 1, 0).can_tick());
    assert!(!line_of(Stream::Off, vec![blank(); 6], 0, 1).can_tick());
    assert!(line_of(Stream::Off, vec![blank(); 7], 0, 1).can_tick());
}

#[test]
fn empty_line_ticks_to_empty_line() {
    let mut line = line_of(Stream::Off, Vec::new(), 3, 3);
    line.update_line_with(&Vec::new(), 0);
    assert_eq!(line.line.len(), 0);
    assert_eq!(line.whitespace, 2);
}

/// The pass as a walk with one flag: an iterator over the cells, where a head
/// takes the next cell off the iterator.
fn flag_walk(stream: Stream, cells: &mut [Cell], draws: &[usize]) {
    let mut updated = false;
    let mut iter = cells.iter_mut().enumerate();
    while let Some((i, cell)) = iter.next() {
        let leading = matches!(cell, Cell::Sym(sym) if sym.white);
        let is_blank = matches!(cell, Cell::Whitespace);
        if leading {
            *cell = drawn(draws[i], false);
            if let Some((j, next)) = iter.next() {
                *next = drawn(draws[j], true);
            }
            updated = true;
        } else if is_blank {
            match stream {
                Stream::Off => updated = false,
                Stream::On => {
                    if !updated {
                        *cell = drawn(draws[i], true);
                        updated = true;
                    }
                }
            }
        } else {
            match stream {
                Stream::Off => {
                    if !updated {
                        *cell = Cell::Whitespace;
                        updated = true;
                    }
                }
                Stream::On => {
                    if updated {
                        *cell = Cell::Whitespace;
                        updated = false;
                    }
                }
            }
        }
    }
}

#[test]
fn pass_agrees_with_flag_walk() {
    let mut rng = rand::thread_rng();
    for round in 0..3000 {
        let len = rng.gen_range(0..14usize);
        let cells: Vec<Cell> = (0..len)
            .map(|_| match rng.gen_range(0..3u8) {
                0 => blank(),
                1 => trail(),
                _ => head(),
            })
            .collect();
        let picks: Vec<usize> = (0..len).map(|_| rng.gen_range(0..CHARSET_LEN)).collect();
        let stream = if round % 2 == 0 { Stream::On } else { Stream::Off };
        let mut expected = cells.clone();
        flag_walk(stream, &mut expected, &picks);
        let mut line = line_of(stream, cells, 9, 9);
        line.update_line_with(&picks, 0);
        assert_eq!(line.line, expected);
        assert_eq!(line.stream, stream);
    }
}
