use arcade_core::components::Velocity;
use arcade_core::player::resolve_velocity;

/// The full movement table: all sixteen key combinations, including the
/// four pure-axis cases, the four diagonals, and the canceling cases.
#[test]
fn movement_table_all_sixteen() {
    let cases: [((bool, bool, bool, bool), (i8, i8)); 16] = [
        ((false, false, false, false), (0, 0)),
        ((true, false, false, false), (-1, 0)),
        ((false, true, false, false), (1, 0)),
        ((false, false, true, false), (0, 1)),
        ((false, false, false, true), (0, -1)),
        ((true, false, true, false), (-1, 1)),
        ((true, false, false, true), (-1, -1)),
        ((false, true, true, false), (1, 1)),
        ((false, true, false, true), (1, -1)),
        ((true, true, false, false), (0, 0)),
        ((false, false, true, true), (0, 0)),
        ((true, true, true, false), (0, 0)),
        ((true, true, false, true), (0, 0)),
        ((true, false, true, true), (0, 0)),
        ((false, true, true, true), (0, 0)),
        ((true, true, true, true), (0, 0)),
    ];
    for ((left, right, up, down), (x, y)) in cases {
        let got = resolve_velocity(left, right, up, down);
        assert_eq!(got, Velocity { x, y }, "keys ({left},{right},{up},{down})");
    }
}

/// Diagonals keep both axis components at full magnitude; the 1/√2
/// scaling of the rendered vector is the collaborator's concern.
#[test]
fn movement_diagonal_components() {
    let v = resolve_velocity(true, false, true, false);
    assert_eq!((v.x, v.y), (-1, 1));
}
