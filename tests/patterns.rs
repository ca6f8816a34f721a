use conway_life::cell::Cell;
use conway_life::color::{color_or_default, parse_color, Color};
use conway_life::decode::decode_pattern;
use conway_life::error::{Error, PatternFormatError};
use conway_life::file_parser::FileParser;
use conway_life::parser::{import_pattern, padding_grid, Parser};
use conway_life::pattern::{parse_plaintext, Pattern};
use conway_life::text::is_blank;

fn picture(grid: &[Vec<Cell>]) -> Vec<String> {
    grid.iter()
        .map(|r| r.iter().map(|c| if c.is_alive() { '#' } else { '.' }).collect())
        .collect()
}

#[test]
fn plaintext_pattern_in_five_by_five() {
    let mut parser = Parser::new(5, 5);
    let grid = parser.parse("10\n010").unwrap();
    assert_eq!(
        picture(&grid),
        vec![".....", ".##..", ".###.", ".....", "....."]
    );
}

#[test]
fn plaintext_dots_are_dead_and_rows_padded() {
    let p = parse_plaintext("!Name: glider\n.O\n..O\n\n  OOO  \r\n").unwrap();
    assert_eq!(p.width, 3);
    assert_eq!(p.height, 3);
    assert_eq!(
        p.cells,
        vec![false, true, false, false, false, true, true, true, true]
    );
}

#[test]
fn plaintext_without_rows_is_refused() {
    assert_eq!(
        parse_plaintext("!only a comment\n   \n"),
        Err(Error::PatternFormat(PatternFormatError::NoRows))
    );
    assert_eq!(
        decode_pattern("! comment\n\n"),
        Err(Error::PatternFormat(PatternFormatError::NoRows))
    );
}

#[test]
fn empty_text_has_no_format() {
    assert_eq!(
        decode_pattern(""),
        Err(Error::PatternFormat(PatternFormatError::UnknownFormat))
    );
    assert_eq!(
        decode_pattern("#C only comments\n"),
        Err(Error::PatternFormat(PatternFormatError::UnknownFormat))
    );
}

#[test]
fn run_length_pattern_is_decoded() {
    let p = decode_pattern("#N glider\nx = 3, y = 3, rule = B3/S23\nbob$2bo$3o!").unwrap();
    assert_eq!(p.width, 3);
    assert_eq!(p.height, 3);
    assert_eq!(
        p.cells,
        vec![false, true, false, false, false, true, true, true, true]
    );
}

#[test]
fn run_length_pattern_is_centred() {
    let grid = import_pattern("x = 2, y = 1\n2o!", 6, 3).unwrap();
    assert_eq!(picture(&grid), vec!["......", "..##..", "......"]);
}

#[test]
fn run_length_refusal_carries_message() {
    match decode_pattern("x = 0, y = 0\n!") {
        Err(Error::PatternFormat(PatternFormatError::Rle(message))) => {
            assert!(!message.is_empty())
        }
        other => panic!("unexpected {:?}", other),
    }
}

#[test]
fn run_length_count_gathered_across_spaces_is_refused() {
    assert_eq!(
        decode_pattern("x = 1, y = 1\n9999 9999 9999 9999 999o!"),
        Err(Error::PatternFormat(PatternFormatError::NumberTooLarge))
    );
    assert_eq!(
        decode_pattern("x = 2, y = 1\n1000000000o!"),
        Err(Error::PatternFormat(PatternFormatError::NumberTooLarge))
    );
    assert_eq!(
        decode_pattern("x = 2, y = 2\no1000000000$o!"),
        Err(Error::PatternFormat(PatternFormatError::NumberTooLarge))
    );
}

#[test]
fn run_length_header_too_large_is_refused() {
    assert_eq!(
        decode_pattern("x = 4294967296, y = 4294967296\no!"),
        Err(Error::PatternFormat(PatternFormatError::NumberTooLarge))
    );
}

#[test]
fn run_length_numbers_that_fit_are_read() {
    let p = decode_pattern("x = 99999, y = 1\no!").unwrap();
    assert_eq!((p.width, p.height), (99999, 1));
    assert!(p.cells[0] && !p.cells[1]);
    let p = decode_pattern("x = 2, y = 1\n0000000002o!").unwrap();
    assert_eq!(p.cells, vec![true, true]);
    // after the end marker nothing is read
    let p = decode_pattern("x = 2, y = 1\nob!99999999999999999999o").unwrap();
    assert_eq!(p.cells, vec![true, false]);
}

#[test]
fn run_length_comments_are_not_read_as_numbers() {
    let p = decode_pattern("#C see viewtopic.php?p=123456\nx = 3, y = 1\n3o!").unwrap();
    assert_eq!((p.width, p.height), (3, 1));
    assert_eq!(p.cells, vec![true, true, true]);
    let p = decode_pattern("x = 2, y = 1\n#C 99999999999999999999\n2o!").unwrap();
    assert_eq!(p.cells, vec![true, true]);
}

#[test]
fn centering_puts_odd_spare_at_bottom_right() {
    let p = Pattern { width: 2, height: 2, cells: vec![true, false, false, true] };
    let grid = padding_grid(&p, 5, 5).unwrap();
    assert_eq!(
        picture(&grid),
        vec![".....", ".#...", "..#..", ".....", "....."]
    );
    let grid = padding_grid(&p, 4, 3).unwrap();
    assert_eq!(picture(&grid), vec![".#..", "..#.", "...."]);
}

#[test]
fn centering_exact_fit() {
    let p = Pattern { width: 2, height: 1, cells: vec![true, true] };
    assert_eq!(picture(&padding_grid(&p, 2, 1).unwrap()), vec!["##"]);
}

#[test]
fn short_cells_count_as_dead() {
    let p = Pattern { width: 3, height: 2, cells: vec![true, true, true, true] };
    assert_eq!(picture(&padding_grid(&p, 3, 2).unwrap()), vec!["###", "#.."]);
}

#[test]
fn pattern_too_large_names_both_sizes() {
    let p = Pattern { width: 6, height: 2, cells: vec![true; 12] };
    assert_eq!(
        padding_grid(&p, 5, 5),
        Err(Error::PatternTooLarge {
            pattern_width: 6,
            pattern_height: 2,
            grid_width: 5,
            grid_height: 5
        })
    );
    let mut parser = Parser::new(2, 1);
    assert_eq!(
        parser.parse("O\nO"),
        Err(Error::PatternTooLarge {
            pattern_width: 1,
            pattern_height: 2,
            grid_width: 2,
            grid_height: 1
        })
    );
}

#[test]
fn file_parser_reads_contents() {
    let mut parser = FileParser::new(3, 3);
    let grid = parser.parse_text("!glider\n.O.\n..O\nOOO\n").unwrap();
    assert_eq!(picture(&grid), vec![".#.", "..#", "###"]);
}

#[test]
fn color_red_and_default() {
    assert_eq!(parse_color("255,0,0"), Ok(Color::Rgb(255, 0, 0)));
    assert_eq!(color_or_default("255,0,0"), Color::Rgb(255, 0, 0));
    assert_eq!(parse_color("bad"), Err(Error::InvalidColorFormat));
    assert_eq!(color_or_default("bad"), Color::White);
}

#[test]
fn color_separators_and_components() {
    assert_eq!(parse_color("10 20;30"), Ok(Color::Rgb(10, 20, 30)));
    assert_eq!(parse_color("(007, 000255, 1)"), Ok(Color::Rgb(7, 255, 1)));
    assert_eq!(parse_color("255,255,255"), Ok(Color::Rgb(255, 255, 255)));
    assert_eq!(parse_color("256,0,0"), Err(Error::InvalidColorFormat));
    assert_eq!(parse_color("1,2"), Err(Error::InvalidColorFormat));
    assert_eq!(parse_color("1,2,3,4"), Err(Error::InvalidColorFormat));
    assert_eq!(parse_color("ff,0,0"), Err(Error::InvalidColorFormat));
    assert_eq!(parse_color("0x00FFFFFF"), Err(Error::InvalidColorFormat));
    assert_eq!(parse_color(""), Err(Error::InvalidColorFormat));
}

#[test]
fn blank_text() {
    assert!(is_blank(""));
    assert!(is_blank(" \t\r\n\u{a0}"));
    assert!(!is_blank("  O "));
}
