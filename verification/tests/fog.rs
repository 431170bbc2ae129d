use platformer::fog::grid_line;
use platformer::level::GridCoords;

fn c(x: i32, y: i32) -> GridCoords {
    GridCoords::new(x, y)
}

#[test]
fn grid_line_single_point() {
    assert_eq!(grid_line(c(0, 0), c(0, 0)), vec![c(0, 0)]);
}

#[test]
fn grid_line_horizontal() {
    assert_eq!(
        grid_line(c(0, 0), c(3, 0)),
        vec![c(0, 0), c(1, 0), c(2, 0), c(3, 0)]
    );
}

#[test]
fn grid_line_vertical() {
    assert_eq!(
        grid_line(c(0, 0), c(0, 3)),
        vec![c(0, 0), c(0, 1), c(0, 2), c(0, 3)]
    );
}

#[test]
fn grid_line_diagonal() {
    assert_eq!(
        grid_line(c(0, 0), c(2, 2)),
        vec![c(0, 0), c(0, 1), c(1, 1), c(1, 2), c(2, 2)]
    );
}

#[test]
fn grid_line_shallow() {
    assert_eq!(
        grid_line(c(1, 2), c(4, 3)),
        vec![c(1, 2), c(2, 2), c(2, 3), c(3, 3), c(4, 3)]
    );
}

#[test]
fn grid_line_negative_direction() {
    let line = grid_line(c(3, 0), c(0, 0));
    assert_eq!(line, vec![c(3, 0), c(2, 0), c(1, 0), c(0, 0)]);
    let down = grid_line(c(0, 0), c(-2, -2));
    assert_eq!(down.len(), 5);
    assert_eq!(down[0], c(0, 0));
    assert_eq!(down[4], c(-2, -2));
}
