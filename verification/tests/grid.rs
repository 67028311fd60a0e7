use gridrules::field::{Field, BLANK};

fn blank_grid(w: usize, h: usize) -> Field {
    Field::new(w, h)
}

#[test]
fn new_grid_is_blank() {
    let f = blank_grid(5, 4);
    assert_eq!(f.w, 5);
    assert_eq!(f.h, 4);
    for x in 0..5 {
        for y in 0..4 {
            assert_eq!(f.get(x as isize, y as isize), BLANK);
        }
    }
}

#[test]
fn set_then_get() {
    let mut f = blank_grid(3, 3);
    f.set(1, 2, b'x');
    assert_eq!(f.get(1, 2), b'x');
    assert_eq!(f.get(2, 1), BLANK);
    f.set(1, 2, b'y');
    assert_eq!(f.get(1, 2), b'y');
}

#[test]
fn get_out_of_bounds_is_blank() {
    let mut f = blank_grid(3, 3);
    for x in 0..3 {
        for y in 0..3 {
            f.set(x, y, b'a');
        }
    }
    assert_eq!(f.get(-1, 0), b' ');
    assert_eq!(f.get(0, -1), b' ');
    assert_eq!(f.get(-1, -1), b' ');
    assert_eq!(f.get(3, 0), b' ');
    assert_eq!(f.get(0, 3), b' ');
    assert_eq!(f.get(100, 100), b' ');
    assert_eq!(f.get(0, 0), b'a');
}

#[test]
fn neighborhood_is_row_major() {
    let mut f = blank_grid(3, 3);
    let syms = [b'1', b'2', b'3', b'4', b'5', b'6', b'7', b'8', b'9'];
    for y in 0..3 {
        for x in 0..3 {
            f.set(x, y, syms[y * 3 + x]);
        }
    }
    let nb = f.neighborhood(1, 1);
    assert_eq!(nb, syms.to_vec());
}

#[test]
fn edge_blank_fill_at_origin() {
    // Positions whose coordinates go negative read as blank at (0, 0).
    let mut f = blank_grid(4, 4);
    for x in 0..4 {
        for y in 0..4 {
            f.set(x, y, b'a');
        }
    }
    let nb = f.neighborhood(0, 0);
    assert_eq!(nb[0], BLANK);
    assert_eq!(nb[1], BLANK);
    assert_eq!(nb[2], BLANK);
    assert_eq!(nb[3], BLANK);
    assert_eq!(nb[6], BLANK);
    assert_eq!(nb[4], b'a');
    assert_eq!(nb[5], b'a');
    assert_eq!(nb[7], b'a');
    assert_eq!(nb[8], b'a');
}

#[test]
fn coords_enumerates_every_cell_once() {
    let f = blank_grid(3, 2);
    let cs = f.coords();
    assert_eq!(
        cs,
        vec![(0, 0), (0, 1), (1, 0), (1, 1), (2, 0), (2, 1)]
    );
}

#[test]
fn grid_equality_is_pointwise() {
    let mut a = blank_grid(3, 3);
    let mut b = blank_grid(3, 3);
    assert!(a == b);
    a.set(2, 2, b'q');
    assert!(a != b);
    b.set(2, 2, b'q');
    assert!(a == b);
    let c = blank_grid(3, 4);
    let d = blank_grid(3, 3);
    assert!(c != d);
}

#[test]
fn to_string_draws_frame_and_rows() {
    let mut f = blank_grid(2, 2);
    f.set(0, 0, b'a');
    f.set(1, 0, b'b');
    f.set(0, 1, b'c');
    f.set(1, 1, b'd');
    assert_eq!(f.to_string(), "/--\\\n|ab|\n|cd|\n\\--/");
}

#[test]
fn to_string_blank_row() {
    let f = blank_grid(3, 1);
    assert_eq!(f.to_string(), "/---\\\n|   |\n\\---/");
}
