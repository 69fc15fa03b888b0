use bevy_ascii_terminal::code_page_437::{cp_437_chars, index_to_glyph};
use bevy_ascii_terminal::entity::{clear_after_render, ClearAfterRender};
use bevy_ascii_terminal::layout::{chars_of, line_spans, share};
use bevy_ascii_terminal::point::halves_of;
use bevy_ascii_terminal::to_world::{choose_camera, resolve_viewport, world_unit};
use bevy_ascii_terminal::{
    GridUvs, MappingId, MeshData, MissingGlyphError, Pivot, Terminal, TileScaling, UvMapping,
    UvMappingPlugin,
};

#[test]
fn first_glyph_of_the_page_has_the_cell_at_the_origin() {
    let map = UvMapping::code_page_437();
    let uvs = map.uvs_from_index(0).unwrap();
    assert_eq!([16, 16], uvs.tile_count);
    assert_eq!([[0, 0], [0, 1], [1, 0], [1, 1]], uvs.corners);
    let origin = [
        uvs.corners[0][0] as f32 / uvs.tile_count[0] as f32,
        uvs.corners[0][1] as f32 / uvs.tile_count[1] as f32,
    ];
    let opposite = [
        uvs.corners[3][0] as f32 / uvs.tile_count[0] as f32,
        uvs.corners[3][1] as f32 / uvs.tile_count[1] as f32,
    ];
    assert_eq!([0.0, 0.0], origin);
    assert_eq!([1.0 / 16.0, 1.0 / 16.0], opposite);
}

#[test]
fn glyphs_of_the_page_lie_row_by_row() {
    let map = UvMapping::default();
    let a = map.uvs_from_glyph('a').unwrap();
    // 'a' is code 97: column 1 of row 6.
    assert_eq!([[1, 6], [1, 7], [2, 6], [2, 7]], a.corners);
    let last = map.uvs_from_index(255).unwrap();
    assert_eq!([[15, 15], [15, 16], [16, 15], [16, 16]], last.corners);
    assert_eq!(Ok(a), map.uvs_from_index(97));
    let block = map.uvs_from_glyph('\u{2588}').unwrap();
    assert_eq!([11, 13], block.corners[0]);
    assert_eq!(map.uvs_from_glyph('\u{263a}'), map.uvs_from_index(1));
    let plugin = UvMappingPlugin;
    assert_eq!(Ok(a), plugin.initial_mapping().uvs_from_glyph('a'));
}

#[test]
fn missing_glyph_is_an_error() {
    let map = UvMapping::from_grid([2, 2], &['a', 'b', 'c']);
    assert_eq!(Err(MissingGlyphError { glyph: 'z' }), map.uvs_from_glyph('z'));
    assert_eq!(Err(MissingGlyphError { glyph: '\0' }), map.uvs_from_index(0));
    let cjk = UvMapping::code_page_437().uvs_from_glyph('\u{4e2d}');
    assert_eq!(Err(MissingGlyphError { glyph: '\u{4e2d}' }), cjk);
    let copy = map.clone();
    assert!(copy.uvs_from_glyph('c').is_ok());
    assert!(copy.uvs_from_glyph('d').is_err());
}

#[test]
fn from_grid_places_glyphs_by_their_index() {
    let map = UvMapping::from_grid([3, 2], &['a', 'b', 'c', 'd', 'e']);
    assert_eq!(
        Ok(GridUvs { corners: [[0, 0], [0, 1], [1, 0], [1, 1]], tile_count: [3, 2] }),
        map.uvs_from_glyph('a')
    );
    assert_eq!([[2, 0], [2, 1], [3, 0], [3, 1]], map.uvs_from_glyph('c').unwrap().corners);
    assert_eq!([[0, 1], [0, 2], [1, 1], [1, 2]], map.uvs_from_glyph('d').unwrap().corners);
    assert_eq!([[1, 1], [1, 2], [2, 1], [2, 2]], map.uvs_from_glyph('e').unwrap().corners);
}

#[test]
fn from_grid_last_place_of_a_repeated_glyph_counts() {
    let map = UvMapping::from_grid([2, 2], &['a', 'b', 'a']);
    assert_eq!([0, 1], map.uvs_from_glyph('a').unwrap().corners[0]);
    assert_eq!([1, 0], map.uvs_from_glyph('b').unwrap().corners[0]);
    let none = UvMapping::from_grid([2, 2], &[]);
    assert!(none.uvs_from_glyph('a').is_err());
}

#[test]
fn grid_uvs_corner_order() {
    let uvs = UvMapping::get_grid_uvs([3, 5], [8, 8]);
    assert_eq!([3, 5], uvs.corners[0]);
    assert_eq!([3, 6], uvs.corners[1]);
    assert_eq!([4, 5], uvs.corners[2]);
    assert_eq!([4, 6], uvs.corners[3]);
    assert_eq!([8, 8], uvs.tile_count);
}

#[test]
fn code_page_glyphs() {
    assert_eq!('\0', index_to_glyph(0));
    assert_eq!('\u{263a}', index_to_glyph(1));
    assert_eq!('\u{25bc}', index_to_glyph(31));
    assert_eq!(' ', index_to_glyph(32));
    assert_eq!('A', index_to_glyph(65));
    assert_eq!('~', index_to_glyph(126));
    assert_eq!('\u{2302}', index_to_glyph(127));
    assert_eq!('\u{00c7}', index_to_glyph(128));
    assert_eq!('\u{2591}', index_to_glyph(176));
    assert_eq!('\u{25a0}', index_to_glyph(254));
    assert_eq!('\u{00a0}', index_to_glyph(255));
    let all = cp_437_chars();
    assert_eq!(256, all.len());
    for (i, c) in all.iter().enumerate() {
        assert_eq!(index_to_glyph(i as u8), *c);
    }
    let mut sorted = all.clone();
    sorted.sort();
    sorted.dedup();
    assert_eq!(256, sorted.len());
}

#[test]
fn lines_of_a_text() {
    let spans = |s: &str| {
        let chars = chars_of(s);
        line_spans(&chars)
            .iter()
            .map(|(a, b)| chars[*a..*b].iter().collect::<String>())
            .collect::<Vec<String>>()
    };
    assert_eq!(Vec::<String>::new(), spans(""));
    assert_eq!(vec!["a"], spans("a"));
    assert_eq!(vec!["a"], spans("a\n"));
    assert_eq!(vec!["a", "", "b"], spans("a\n\nb"));
    assert_eq!(vec![""], spans("\n"));
    assert_eq!(vec!["a", "b"], spans("a\r\nb"));
    assert_eq!(vec!["a\r"], spans("a\r"));
    assert_eq!(vec!["a\rb", "c"], spans("a\rb\nc"));
    assert_eq!(vec!["", "x"], spans("\r\nx"));
    for s in ["", "a", "a\n", "a\n\nb", "\n", "a\r\nb", "a\r", "a\rb\nc", "\r\nx", "\r\r\n\n"] {
        assert_eq!(s.lines().map(String::from).collect::<Vec<String>>(), spans(s));
    }
    assert_eq!(vec!['h', '\u{e9}', '\n'], chars_of("h\u{e9}\n"));
}

#[test]
fn shares_round_half_away_from_zero() {
    assert_eq!(0, share(7, 0));
    assert_eq!(7, share(7, 2));
    assert_eq!(4, share(7, 1));
    assert_eq!(3, share(6, 1));
    assert_eq!(1, share(1, 1));
    assert_eq!(0, share(0, 1));
    assert_eq!([1, 1], halves_of(Pivot::Center));
    assert_eq!([0, 2], halves_of(Pivot::TopLeft));
    assert_eq!([2, 2], halves_of(Pivot::TopRight));
    assert_eq!([0, 0], halves_of(Pivot::BottomLeft));
    assert_eq!([2, 0], halves_of(Pivot::BottomRight));
    assert_eq!([1, 2], halves_of(Pivot::TopCenter));
    assert_eq!([1, 0], halves_of(Pivot::BottomCenter));
    assert_eq!([0, 1], halves_of(Pivot::LeftCenter));
    assert_eq!([2, 1], halves_of(Pivot::RightCenter));
}

#[test]
fn clearing_after_a_frame() {
    let mut term = Terminal::new([3, 1]);
    term.put_string([0, 0], "abc");
    clear_after_render(&mut term, true, None);
    assert_eq!("abc", term.get_string([0, 0], 3));
    clear_after_render(&mut term, false, Some(ClearAfterRender));
    assert_eq!("abc", term.get_string([0, 0], 3));
    clear_after_render(&mut term, true, Some(ClearAfterRender));
    assert_eq!("   ", term.get_string([0, 0], 3));
}

#[test]
fn camera_and_viewport_choices() {
    assert_eq!(Some(7), choose_camera(Some(7), &[1, 2]));
    assert_eq!(Some(7), choose_camera(Some(7), &[]));
    assert_eq!(Some(1), choose_camera(None, &[1, 2]));
    assert_eq!(None, choose_camera(None, &[]));
    assert_eq!(([3.0, 4.0], Some([5.0, 6.0])), resolve_viewport(Some(([3.0, 4.0], [5.0, 6.0])), [0.0, 0.0], Some([9.0, 9.0])));
    assert_eq!(([0.0, 0.0], Some([9.0, 9.0])), resolve_viewport(None, [0.0, 0.0], Some([9.0, 9.0])));
    assert_eq!(([0.0, 0.0], None), resolve_viewport(None, [0.0, 0.0], None::<[f32; 2]>));
    assert_eq!([1, 1], world_unit(TileScaling::World, [8, 12]));
    assert_eq!([8, 12], world_unit(TileScaling::Pixels, [8, 12]));
}

#[test]
fn mesh_data_of_a_terminal() {
    let mut term = Terminal::new([3, 2]);
    term.put_string([0, 0], "ab");
    term.put_char([2, 1], 'c');
    let mapping = UvMapping::code_page_437();
    let mesh = MeshData::build(&term, &mapping).unwrap();
    assert_eq!(6, mesh.positions.len());
    assert_eq!(6, mesh.uvs.len());
    assert_eq!(6, mesh.fg_colors.len());
    assert_eq!(6, mesh.bg_colors.len());
    assert_eq!(vec![[0, 0], [1, 0], [2, 0], [0, 1], [1, 1], [2, 1]], mesh.positions);
    assert_eq!(mapping.uvs_from_glyph('a').unwrap(), mesh.uvs[0]);
    assert_eq!(mapping.uvs_from_glyph('b').unwrap(), mesh.uvs[1]);
    assert_eq!(mapping.uvs_from_glyph(' ').unwrap(), mesh.uvs[2]);
    assert_eq!(mapping.uvs_from_glyph('c').unwrap(), mesh.uvs[5]);
    assert_eq!([[0, 2], [0, 3], [1, 2], [1, 3]], mesh.uvs[3].corners);
    for i in 0..6 {
        assert_eq!(term.slice()[i].fg_color, mesh.fg_colors[i]);
        assert_eq!(term.slice()[i].bg_color, mesh.bg_colors[i]);
    }
}

#[test]
fn mesh_data_are_built_for_all_tiles_or_not_at_all() {
    let mut term = Terminal::new([3, 1]);
    term.put_string([0, 0], "abc");
    let mapping = UvMapping::code_page_437();
    let mut mesh = MeshData::new();
    assert_eq!(Ok(false), mesh.rebuild(false, &term, &mapping));
    assert_eq!(0, mesh.positions.len());
    assert_eq!(Ok(true), mesh.rebuild(true, &term, &mapping));
    assert_eq!(3, mesh.positions.len());
    let first = mesh.uvs.clone();

    term.put_string([0, 0], "x\u{4e2d}\u{6587}");
    assert_eq!(Ok(false), mesh.rebuild(false, &term, &mapping));
    assert_eq!(first, mesh.uvs);
    assert_eq!(
        Err(MissingGlyphError { glyph: '\u{4e2d}' }),
        mesh.rebuild(true, &term, &mapping)
    );
    assert_eq!(first, mesh.uvs);
    assert_eq!(3, mesh.positions.len());
    assert!(MeshData::build(&term, &mapping).is_err());

    term.put_string([0, 0], "xyz");
    assert_eq!(Ok(true), mesh.rebuild(true, &term, &mapping));
    assert_eq!(mapping.uvs_from_glyph('x').unwrap(), mesh.uvs[0]);
}

#[test]
fn terminals_of_a_changed_mapping_are_stale() {
    let plugin = UvMappingPlugin;
    let changed = [MappingId::Index(3), MappingId::Uuid(7)];
    let used = [
        MappingId::Index(1),
        MappingId::Index(3),
        MappingId::Uuid(3),
        MappingId::Uuid(7),
        MappingId::Index(7),
        MappingId::Index(3),
    ];
    assert_eq!(
        vec![false, true, false, true, false, true],
        plugin.uv_mapping_loaded(&changed, &used)
    );
    assert_eq!(vec![false; 6], plugin.uv_mapping_loaded(&[], &used));
    assert_eq!(Vec::<bool>::new(), plugin.uv_mapping_loaded(&changed, &[]));
}
