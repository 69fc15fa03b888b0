use bevy::color::palettes::basic::{BLUE, RED};
use bevy::color::Color;
use bevy_ascii_terminal::{
    Border, ColorFormatter, GridPoint, Pivot, Side, StringFormatter, Terminal, Tile,
    TileFormatter,
};

#[test]
fn put_char() {
    let mut term = Terminal::new([20, 20]);

    term.put_char([5, 5], 'h');

    assert_eq!('h', term.get_char([5, 5]));

    term.put_char([1, 2], 'q'.fg(Color::Srgba(RED)));

    let t = term.get_tile([1, 2]);
    assert_eq!('q', t.glyph);
    assert_eq!(Color::Srgba(RED), t.fg_color);
}

#[test]
fn put_string() {
    let mut term = Terminal::new([20, 20]);

    term.put_string([1, 1], "Hello");
    assert_eq!("He", term.get_string([1, 1], 2));
}

#[test]
fn put_char_keeps_colors_that_are_not_named() {
    let mut term = Terminal::new([10, 10]);
    term.put_char([2, 3], 'a'.fg(Color::Srgba(BLUE)).bg(Color::Srgba(RED)));
    term.put_char([2, 3], 'q');
    let t = term.get_tile([2, 3]);
    assert_eq!('q', t.glyph);
    assert_eq!(Color::Srgba(BLUE), t.fg_color);
    assert_eq!(Color::Srgba(RED), t.bg_color);
}

#[test]
fn put_string_centered() {
    let mut term = Terminal::new([10, 10]);
    term.put_string([0, 0].pivot(Pivot::Center), "Hi");
    assert_eq!('H', term.get_char([4, 5]));
    assert_eq!('i', term.get_char([5, 5]));
    let written = term.iter().iter().filter(|t| t.glyph != ' ').count();
    assert_eq!(2, written);
}

#[test]
fn new_terminal_is_blank() {
    let term = Terminal::new([4, 3]);
    assert_eq!([4, 3], term.size());
    assert_eq!(12, term.slice().len());
    for t in term.slice() {
        assert_eq!(Tile::default(), *t);
    }
    assert_eq!(Color::WHITE, term.clear_tile.fg_color);
    assert_eq!(Color::BLACK, term.clear_tile.bg_color);
    assert_eq!(' ', term.clear_tile.glyph);
}

#[test]
fn clear_resets_every_tile() {
    let clear = Tile { glyph: '.', fg_color: Color::Srgba(RED), bg_color: Color::Srgba(BLUE) };
    let mut term = Terminal::new([5, 4]).with_clear_tile(clear);
    term.put_string([0, 0], "abc\ndef");
    term.put_color([1, 1], Color::WHITE.bg());
    term.clear();
    assert_eq!(20, term.iter().len());
    for t in term.iter() {
        assert_eq!(clear, t);
    }
}

#[test]
fn resize_clears_to_clear_tile() {
    let clear = Tile { glyph: '#', fg_color: Color::Srgba(RED), bg_color: Color::BLACK };
    let mut term = Terminal::new([5, 4]).with_clear_tile(clear);
    term.put_char([1, 1], 'x');
    term.resize([3, 7]);
    assert_eq!([3, 7], term.size());
    assert_eq!(3, term.width());
    assert_eq!(7, term.height());
    assert_eq!(21, term.slice().len());
    for t in term.slice() {
        assert_eq!(clear, *t);
    }
    term.resize([2, 2]);
    assert_eq!(4, term.slice().len());
}

#[test]
fn border_adds_two_to_each_side() {
    let mut term = Terminal::new([10, 6]);
    assert!(!term.has_border());
    assert_eq!([10, 6], term.size_with_border());
    assert_eq!(10, term.width_with_border());
    assert_eq!(6, term.height_with_border());
    term.set_border(Border::single_line());
    assert!(term.has_border());
    assert_eq!(Some(&Border::SingleLine), term.border());
    assert_eq!([12, 8], term.size_with_border());
    assert_eq!(12, term.width_with_border());
    assert_eq!(8, term.height_with_border());
    assert_eq!([10, 6], term.size());
    assert_eq!([12, 8], term.bounds_with_border().size);
    assert_eq!([10, 6], term.bounds().size);
    assert_eq!([0, 0], term.bounds().center);
    term.remove_border();
    assert_eq!([10, 6], term.size_with_border());
    let term = term.with_border(Border::double_line());
    assert_eq!([12, 8], term.size_with_border());
}

#[test]
fn put_tile_and_put_color() {
    let mut term = Terminal::new([4, 4]);
    let tile = Tile { glyph: 'z', fg_color: Color::Srgba(RED), bg_color: Color::Srgba(BLUE) };
    term.put_tile([3, 2], tile);
    assert_eq!(tile, *term.get_tile([3, 2]));
    assert_eq!(tile, term.slice()[2 * 4 + 3]);
    term.put_color([3, 2], Color::BLACK.fg());
    assert_eq!(Color::BLACK, term.get_tile([3, 2]).fg_color);
    assert_eq!(Color::Srgba(BLUE), term.get_tile([3, 2]).bg_color);
    term.put_color([3, 2], Color::WHITE.bg());
    assert_eq!(Color::BLACK, term.get_tile([3, 2]).fg_color);
    assert_eq!(Color::WHITE, term.get_tile([3, 2]).bg_color);
    assert_eq!('z', term.get_char([3, 2]));
    assert_eq!(Tile::default(), *term.get_tile([2, 2]));
}

#[test]
fn get_tile_mut_writes_through() {
    let mut term = Terminal::new([3, 3]);
    term.get_tile_mut([1, 1]).glyph = 'm';
    assert_eq!('m', term.get_char([1, 1]));
    term.slice_mut()[0].glyph = 's';
    assert_eq!('s', term.get_char([0, 0]));
}

#[test]
fn index_transforms() {
    let term = Terminal::new([7, 5]);
    assert_eq!(0, term.transform_lti([0, 0]));
    assert_eq!(7 * 3 + 2, term.transform_lti([2, 3]));
    assert_eq!(34, term.transform_lti([6, 4]));
    assert_eq!([2, 3], term.transform_itl(7 * 3 + 2));
    assert_eq!([0, 0], term.transform_itl(0));
    assert_eq!([6, 4], term.transform_itl(34));
    assert_eq!(34, term.transform_lti([0, 0].pivot(Pivot::TopRight)));
    assert_eq!(7 * 4, term.transform_lti([0, 0].pivot(Pivot::TopLeft)));
    assert_eq!(6, term.transform_lti([0, 0].pivot(Pivot::BottomRight)));
    assert_eq!(0, term.transform_lti([0, 0].pivot(Pivot::BottomLeft)));
    assert_eq!(7 * 2 + 3, term.transform_lti([0, 0].pivot(Pivot::Center)));
}

#[test]
fn pivoted_points() {
    let term = Terminal::new([10, 10]);
    assert_eq!([8, 8], term.pivoted_point([1, 1].pivot(Pivot::TopRight)));
    assert_eq!([9, 9], term.pivoted_point([0, 0].pivot(Pivot::TopRight)));
    assert_eq!([1, 8], term.pivoted_point([1, 1].pivot(Pivot::TopLeft)));
    assert_eq!([1, 1], term.pivoted_point([1, 1].pivot(Pivot::BottomLeft)));
    assert_eq!([8, 1], term.pivoted_point([1, 1].pivot(Pivot::BottomRight)));
    assert_eq!([5, 5], term.pivoted_point([0, 0].pivot(Pivot::Center)));
    assert_eq!([3, 4], term.pivoted_point([3, 4]));
    let odd = Terminal::new([9, 5]);
    assert_eq!([4, 2], odd.pivoted_point([0, 0].pivot(Pivot::Center)));
    assert_eq!([3, 3], odd.pivoted_point([-1, 1].pivot(Pivot::Center)));
}

#[test]
fn pivots_on_the_edges() {
    let term = Terminal::new([10, 7]);
    assert_eq!([5, 6], term.pivoted_point([0, 0].pivot(Pivot::TopCenter)));
    assert_eq!([6, 5], term.pivoted_point([1, 1].pivot(Pivot::TopCenter)));
    assert_eq!([5, 0], term.pivoted_point([0, 0].pivot(Pivot::BottomCenter)));
    assert_eq!([6, 1], term.pivoted_point([1, 1].pivot(Pivot::BottomCenter)));
    assert_eq!([0, 3], term.pivoted_point([0, 0].pivot(Pivot::LeftCenter)));
    assert_eq!([1, 4], term.pivoted_point([1, 1].pivot(Pivot::LeftCenter)));
    assert_eq!([9, 3], term.pivoted_point([0, 0].pivot(Pivot::RightCenter)));
    assert_eq!([8, 4], term.pivoted_point([1, 1].pivot(Pivot::RightCenter)));
}

#[test]
fn pivoted_points_agree_with_the_grid_crate() {
    let pairs = [
        (Pivot::TopLeft, sark_grids::Pivot::TopLeft),
        (Pivot::TopRight, sark_grids::Pivot::TopRight),
        (Pivot::Center, sark_grids::Pivot::Center),
        (Pivot::BottomLeft, sark_grids::Pivot::BottomLeft),
        (Pivot::BottomRight, sark_grids::Pivot::BottomRight),
    ];
    for (w, h) in [(1u32, 1u32), (2, 3), (9, 5), (10, 10), (11, 4), (80, 25), (1, 1000)] {
        let term = Terminal::new([w, h]);
        let grid = sark_grids::Grid::<char>::new([w, h]);
        for (ours, theirs) in pairs {
            for x in -3..4 {
                for y in -3..4 {
                    let expected = grid.pivoted_point(sark_grids::GridPoint::pivot(&[x, y], theirs));
                    assert_eq!(
                        expected.to_array(),
                        term.pivoted_point([x, y].pivot(ours)),
                        "{ours:?} on {w} by {h} at {x}, {y}"
                    );
                }
            }
        }
        assert_eq!(grid.bounds().min_i().to_array(), [0, 0]);
        assert_eq!(grid.bounds().max_i().to_array(), [w as i32 - 1, h as i32 - 1]);
    }
}

#[test]
fn put_string_on_edge_pivots() {
    let mut term = Terminal::new([9, 3]);
    term.put_string([0, 0].pivot(Pivot::TopCenter), "abc
d");
    assert_eq!("abc", term.get_string([3, 2], 3));
    assert_eq!("d", term.get_string([4, 1], 1));
    term.clear();
    term.put_string([0, 0].pivot(Pivot::BottomCenter), "abc
d");
    assert_eq!("abc", term.get_string([3, 1], 3));
    assert_eq!("d", term.get_string([4, 0], 1));
    term.clear();
    term.put_string([0, 0].pivot(Pivot::RightCenter), "abc
de
f");
    assert_eq!("abc", term.get_string([6, 2], 3));
    assert_eq!("de", term.get_string([7, 1], 2));
    assert_eq!("f", term.get_string([8, 0], 1));
    term.clear();
    term.put_string([0, 0].pivot(Pivot::LeftCenter), "abc
de
f");
    assert_eq!("abc", term.get_string([0, 2], 3));
    assert_eq!("de", term.get_string([0, 1], 2));
    assert_eq!("f", term.get_string([0, 0], 1));
}

#[test]
fn in_bounds_checks_plain_coordinates() {
    let term = Terminal::new([4, 3]);
    assert!(term.in_bounds([0, 0]));
    assert!(term.in_bounds([3, 2]));
    assert!(!term.in_bounds([4, 2]));
    assert!(!term.in_bounds([3, 3]));
    assert!(!term.in_bounds([-1, 0]));
    assert!(!term.in_bounds([0, -1]));
}

#[test]
fn put_string_without_pivot_stacks_lines_upwards_from_anchor() {
    let mut term = Terminal::new([10, 6]);
    term.put_string([2, 1], "ab\ncd\nef");
    assert_eq!("ab", term.get_string([2, 3], 2));
    assert_eq!("cd", term.get_string([2, 2], 2));
    assert_eq!("ef", term.get_string([2, 1], 2));
    assert_eq!(6, term.iter().iter().filter(|t| t.glyph != ' ').count());
}

#[test]
fn put_string_top_left_pivot() {
    let mut term = Terminal::new([10, 6]);
    term.put_string([0, 0].pivot(Pivot::TopLeft), "Hello\nHow are you?");
    assert_eq!("Hello", term.get_string([0, 5], 5));
    assert_eq!("How are yo", term.get_string([0, 4], 10));
    assert_eq!(' ', term.get_char([0, 3]));
}

#[test]
fn put_string_top_right_pivot_ends_at_the_right_edge() {
    let mut term = Terminal::new([10, 6]);
    term.put_string([0, 0].pivot(Pivot::TopRight), "abc");
    assert_eq!("abc", term.get_string([7, 5], 3));
    assert_eq!(' ', term.get_char([6, 5]));
}

#[test]
fn put_string_centered_lines() {
    let mut term = Terminal::new([11, 5]);
    term.put_string([0, 0].pivot(Pivot::Center), "abc\nde\nf");
    // Three lines around row 2: the first one row up.
    assert_eq!("abc", term.get_string([4, 3], 3));
    assert_eq!("de", term.get_string([4, 2], 2));
    assert_eq!("f", term.get_string([5, 1], 1));
    assert_eq!(6, term.iter().iter().filter(|t| t.glyph != ' ').count());
}

#[test]
fn put_string_stops_at_the_first_line_off_the_grid() {
    let mut term = Terminal::new([5, 2]);
    term.put_string([0, 1].pivot(Pivot::BottomLeft), "ab\ncd\nef");
    // The first line would go to row 3, which is not there: nothing is written.
    assert_eq!(0, term.iter().iter().filter(|t| t.glyph != ' ').count());
    term.put_string([0, 0].pivot(Pivot::TopLeft), "ab\ncd\nef");
    assert_eq!("ab", term.get_string([0, 1], 2));
    assert_eq!("cd", term.get_string([0, 0], 2));
    assert_eq!(4, term.iter().iter().filter(|t| t.glyph != ' ').count());
}

#[test]
fn put_string_empty_writes_nothing() {
    let mut term = Terminal::new([5, 2]);
    term.put_string([0, 0], "");
    assert_eq!(0, term.iter().iter().filter(|t| t.glyph != ' ').count());
    term.put_string([0, 0].pivot(Pivot::Center), String::new());
    assert_eq!(0, term.iter().iter().filter(|t| t.glyph != ' ').count());
}

#[test]
fn put_string_cuts_lines_at_the_width() {
    let mut term = Terminal::new([4, 3]);
    term.put_string([0, 0], "abcdefgh");
    assert_eq!("abcd", term.get_string([0, 0], 4));
    assert_eq!(' ', term.get_char([0, 1]));
    // A line that starts past the left edge goes on in the next row.
    term.clear();
    term.put_string([2, 0], "abcd");
    assert_eq!("ab", term.get_string([2, 0], 2));
    assert_eq!("cd", term.get_string([0, 1], 2));
}

#[test]
fn put_string_strips_carriage_returns_before_line_feeds() {
    let mut term = Terminal::new([6, 3]);
    term.put_string([0, 0], "ab\r\ncd\n");
    assert_eq!("ab", term.get_string([0, 1], 2));
    assert_eq!(' ', term.get_char([2, 1]));
    assert_eq!("cd", term.get_string([0, 0], 2));
    assert_eq!(4, term.iter().iter().filter(|t| t.glyph != ' ').count());
}

#[test]
fn put_string_with_colors() {
    let mut term = Terminal::new([6, 3]);
    term.put_color([1, 0], Color::Srgba(RED).bg());
    term.put_string([0, 0], "ab".fg(Color::Srgba(BLUE)));
    assert_eq!(Color::Srgba(BLUE), term.get_tile([0, 0]).fg_color);
    assert_eq!(Tile::default_bg_color(), term.get_tile([0, 0]).bg_color);
    assert_eq!(Color::Srgba(BLUE), term.get_tile([1, 0]).fg_color);
    assert_eq!(Color::Srgba(RED), term.get_tile([1, 0]).bg_color);
    assert_eq!(Tile::default_fg_color(), term.get_tile([2, 0]).fg_color);
    term.put_string([0, 1], "x".fg(Color::Srgba(RED)).bg(Color::Srgba(BLUE)));
    assert_eq!(
        Tile { glyph: 'x', fg_color: Color::Srgba(RED), bg_color: Color::Srgba(BLUE) },
        *term.get_tile([0, 1])
    );
}

#[test]
fn get_string_stops_at_the_last_tile() {
    let mut term = Terminal::new([3, 2]);
    term.put_string([0, 1], "xyz");
    assert_eq!("xyz", term.get_string([0, 1], 10));
    assert_eq!("   xyz", term.get_string([0, 0], 10));
    assert_eq!("", term.get_string([1, 1], 0));
}

#[test]
fn clear_string_clears_a_run() {
    let clear = Tile { glyph: '.', fg_color: Color::WHITE, bg_color: Color::BLACK };
    let mut term = Terminal::new([4, 2]).with_clear_tile(clear);
    term.put_string([0, 0], "abcd");
    term.put_string([0, 1], "efgh");
    term.clear_string([1, 0], 2);
    assert_eq!("a..defgh", term.get_string([0, 0], 8));
    term.clear_string([2, 1], 10);
    assert_eq!("a..def..", term.get_string([0, 0], 8));
}

#[test]
fn clear_box_and_clear_line() {
    let clear = Tile { glyph: '.', fg_color: Color::WHITE, bg_color: Color::BLACK };
    let mut term = Terminal::new([4, 3]).with_clear_tile(clear);
    term.put_string([0, 0].pivot(Pivot::TopLeft), "abcd\nefgh\nijkl");
    term.clear_box([1, 1], [2, 2]);
    assert_eq!("a..d", term.get_string([0, 2], 4));
    assert_eq!("e..h", term.get_string([0, 1], 4));
    assert_eq!("ijkl", term.get_string([0, 0], 4));
    term.clear_line(0);
    assert_eq!("....", term.get_string([0, 0], 4));
    assert_eq!("e..h", term.get_string([0, 1], 4));
    term.clear_box([0, 0], [0, 0]);
    assert_eq!("e..h", term.get_string([0, 1], 4));
}

#[test]
fn rows_and_columns() {
    let mut term = Terminal::new([3, 3]);
    term.put_string([0, 0].pivot(Pivot::TopLeft), "abc\ndef\nghi");
    let glyphs = |tiles: &Vec<Tile>| tiles.iter().map(|t| t.glyph).collect::<String>();
    assert_eq!("ghi", glyphs(&term.iter_row(0)));
    assert_eq!("abc", glyphs(&term.iter_row(2)));
    assert_eq!("gda", glyphs(&term.iter_column(0)));
    assert_eq!("ifc", glyphs(&term.iter_column(2)));
    let rows = term.iter_rows(1, 3);
    assert_eq!(2, rows.len());
    assert_eq!("def", glyphs(&rows[0]));
    assert_eq!("abc", glyphs(&rows[1]));
    assert_eq!("ghidefabc", glyphs(&term.iter()));
}

#[test]
fn side_indices() {
    let term = Terminal::new([7, 4]);
    assert_eq!(0, term.side_index(Side::Left));
    assert_eq!(0, term.side_index(Side::Bottom));
    assert_eq!(6, term.side_index(Side::Right));
    assert_eq!(3, term.side_index(Side::Top));
    let grid = sark_grids::Grid::<char>::new([7, 4]);
    assert_eq!(grid.side_index(sark_grids::grid::Side::Right), term.side_index(Side::Right));
    assert_eq!(grid.side_index(sark_grids::grid::Side::Top), term.side_index(Side::Top));
}

#[test]
fn world_and_local_positions() {
    let term = Terminal::new([10, 5]);
    assert_eq!([-4, -2], term.transform_ltw([0, 0]));
    assert_eq!([5, 2], term.transform_ltw([9, 4]));
    assert_eq!([5, 2], term.transform_wtl([0, 0]));
    assert_eq!([0, 0], term.transform_wtl([-5, -2]));
}

#[test]
fn clone_and_default() {
    let mut term = Terminal::new([3, 2]).with_border(Border::double_line());
    term.put_char([1, 1], 'c');
    let copy = term.clone();
    term.put_char([1, 1], 'd');
    assert_eq!('c', copy.get_char([1, 1]));
    assert_eq!([3, 2], copy.size());
    assert_eq!(Some(&Border::DoubleLine), copy.border());
    let empty = Terminal::default();
    assert_eq!([0, 0], empty.size());
    assert_eq!(0, empty.slice().len());
    assert!(!empty.has_border());
}

#[test]
fn border_mut_changes_the_border() {
    let mut term = Terminal::new([3, 2]);
    assert!(term.border_mut().is_none());
    term.set_border(Border::single_line());
    if let Some(b) = term.border_mut() {
        *b = Border::Custom { corners: ['1', '2', '3', '4'], edges: ['-', '|', '|', '-'] };
    }
    assert_eq!(['1', '2', '3', '4'], term.border().unwrap().corners());
    assert_eq!(['-', '|', '|', '-'], term.border().unwrap().edges());
    assert_eq!(['\u{250c}', '\u{2510}', '\u{2514}', '\u{2518}'], Border::single_line().corners());
    assert_eq!(['\u{2550}', '\u{2551}', '\u{2551}', '\u{2550}'], Border::double_line().edges());
}

#[test]
fn transparent_tile() {
    let t = Tile::transparent();
    assert_eq!(' ', t.glyph);
    assert_eq!(Color::srgba_u8(0, 0, 0, 0), t.fg_color);
    assert_eq!(Color::srgba_u8(0, 0, 0, 0), t.bg_color);
    assert_ne!(Tile::default_fg_color(), t.fg_color);
    let white = Color::WHITE;
    let black = Color::BLACK;
    assert_eq!(Tile { glyph: 'k', fg_color: white, bg_color: black }, Tile::from('k'));
    assert_eq!(Tile { glyph: ' ', fg_color: white, bg_color: black }, Tile::default());
    assert_eq!(white, Tile::default_fg_color());
    assert_eq!(black, Tile::default_bg_color());
    assert_ne!(Color::srgba_u8(255, 255, 255, 255), Tile::default_fg_color());
    assert_ne!(Tile::default(), Tile::transparent());
}

#[test]
fn rows_for_writing() {
    let mut term = Terminal::new([3, 3]);
    term.put_string([0, 0].pivot(Pivot::TopLeft), "abc\ndef\nghi");
    {
        let row = term.iter_row_mut(1);
        assert_eq!(3, row.len());
        assert_eq!('d', row[0].glyph);
        for t in row.iter_mut() {
            t.glyph = t.glyph.to_ascii_uppercase();
        }
    }
    assert_eq!("ghiDEFabc", term.get_string([0, 0], 9));
    for t in term.iter_mut() {
        t.glyph = '.';
    }
    assert_eq!(".........", term.get_string([0, 0], 9));
    assert_eq!(9, term.iter_mut().len());
}

#[test]
fn sizes_that_a_terminal_can_have() {
    assert!(Terminal::fits([1, 1]));
    assert!(Terminal::fits([46340, 46340]));
    assert!(Terminal::fits([1, 2147483647]));
    assert!(!Terminal::fits([46341, 46341]));
    assert!(!Terminal::fits([65536, 65536]));
    assert!(!Terminal::fits([0, 5]));
    assert!(!Terminal::fits([5, 0]));
    assert!(!Terminal::fits([4294967295, 4294967295]));
}

#[test]
fn try_resize_resizes_or_leaves_the_terminal() {
    let clear = Tile { glyph: '.', fg_color: Color::Srgba(RED), bg_color: Color::BLACK };
    let mut term = Terminal::new([3, 2]).with_clear_tile(clear).with_border(Border::single_line());
    term.put_string([0, 0], "abc");
    assert!(!term.try_resize([65536, 65536]));
    assert!(!term.try_resize([0, 4]));
    assert_eq!([3, 2], term.size());
    assert_eq!("abc...", term.get_string([0, 0], 6));
    assert!(term.try_resize([4, 5]));
    assert_eq!([4, 5], term.size());
    assert_eq!(20, term.slice().len());
    for t in term.slice() {
        assert_eq!(clear, *t);
    }
    assert_eq!(clear, term.clear_tile());
    assert_eq!(Some(&Border::SingleLine), term.border());
    assert!(term.try_resize([2, 1]));
    assert_eq!(2, term.slice().len());
    assert_eq!(clear, term.slice()[1]);
}

#[test]
fn clear_tile_is_read_and_set() {
    let mut term = Terminal::new([2, 2]);
    assert_eq!(Tile::default(), term.clear_tile());
    term.put_char([0, 0], 'x');
    let dot = Tile { glyph: '.', fg_color: Color::Srgba(BLUE), bg_color: Color::Srgba(RED) };
    term.set_clear_tile(dot);
    assert_eq!(dot, term.clear_tile());
    assert_eq!(dot, term.clear_tile);
    assert_eq!("x   ", term.get_string([0, 0], 4));
    assert_eq!([2, 2], term.size());
    term.clear_string([1, 0], 2);
    assert_eq!("x.. ", term.get_string([0, 0], 4));
}

#[test]
fn positions_that_stand_for_a_tile() {
    let term = Terminal::new([4, 3]);
    assert!(term.has_tile([0, 0]));
    assert!(term.has_tile([3, 2]));
    assert!(!term.has_tile([4, 2]));
    assert!(!term.has_tile([0, -1]));
    assert!(term.has_tile([0, 0].pivot(Pivot::TopRight)));
    assert!(term.has_tile([3, 2].pivot(Pivot::TopRight)));
    assert!(!term.has_tile([4, 0].pivot(Pivot::TopRight)));
    assert!(!term.has_tile([-1, 0].pivot(Pivot::TopRight)));
    assert!(term.has_tile([-2, -1].pivot(Pivot::Center)));
    assert!(!term.has_tile([2, 0].pivot(Pivot::Center)));
    assert!(!term.has_tile([i32::MIN, 0].pivot(Pivot::TopRight)));
    assert!(!term.has_tile([i32::MAX, i32::MAX].pivot(Pivot::Center)));
    assert_eq!(Some([3, 2]), term.try_pivoted_point([0, 0].pivot(Pivot::TopRight)));
    assert_eq!(Some([7, -5]), term.try_pivoted_point([7, -5]));
    assert_eq!(None, term.try_pivoted_point([i32::MIN, 0].pivot(Pivot::TopRight)));
    assert_eq!(None, term.try_pivoted_point([0, i32::MAX].pivot(Pivot::Center)));
    assert_eq!(
        Some([i32::MAX, -i32::MAX + 2]),
        term.try_pivoted_point([i32::MAX, i32::MAX].pivot(Pivot::TopLeft))
    );
    assert!(term.has_box([0, 0], [4, 3]));
    assert!(term.has_box([1, 1], [3, 2]));
    assert!(term.has_box([4, 3], [0, 0]));
    assert!(!term.has_box([1, 1], [4, 2]));
    assert!(!term.has_box([-1, 0], [1, 1]));
    assert!(!term.has_box([0, 0], [4294967295, 1]));
}
