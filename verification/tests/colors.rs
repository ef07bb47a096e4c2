use tetris_engine::utils::colors::{get_cell_colors, Color};

#[test]
fn palette_is_exact() {
    let expected = [
        (26, 31, 40),
        (47, 230, 23),
        (232, 18, 18),
        (226, 116, 17),
        (237, 234, 4),
        (166, 0, 247),
        (21, 204, 209),
        (13, 64, 216),
        (59, 85, 162),
        (44, 44, 127),
    ];
    let colors = get_cell_colors();
    assert_eq!(colors.len(), 10);
    for (color, (r, g, b)) in colors.iter().zip(expected) {
        assert_eq!(*color, Color { r, g, b, a: 255 });
    }
}

#[test]
fn every_cell_number_has_its_own_colour() {
    let colors = get_cell_colors();
    for i in 0..8 {
        for j in 0..i {
            assert_ne!(colors[i], colors[j]);
        }
    }
}
