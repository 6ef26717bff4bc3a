use cliffy::bivec2::Bivector2;
use cliffy::bivec3::Bivector3;
use cliffy::bivector::Bivector;
use cliffy::fixed::SCALE;
use cliffy::mat2::Mat2;
use cliffy::rotor::Rotor;
use cliffy::rotor2::Rotor2;
use cliffy::rotor3::Rotor3;
use cliffy::vec2::Vector2;
use cliffy::vec3::Vector3;
use cliffy::vector::Vector;

#[test]
fn it_works() {
    assert_eq!(2 + 2, 4);
}

fn close(a: i64, b: i64, tol: i64) -> bool {
    (a - b).abs() <= tol
}

// Half a turn in the plane sends the unit x vector to its negation.
#[test]
fn half_turn_negates_x() {
    // cos(pi/2) = 0, sin(pi/2) = 1
    let r = Rotor2::from_angle_parts(0, SCALE);
    let mut v = Vector2::right();
    r.rotate_vec(&mut v);
    assert_eq!(v, Vector2::new(-SCALE, 0));
}

// A rotor built from an exact unit encoding has unit squared magnitude.
#[test]
fn from_angle_unit_mag_sq() {
    let r = Rotor2::from_angle_parts(0, SCALE);
    assert_eq!(r.mag_sq(), SCALE);
    let r2 = Rotor2::from_angle_parts(SCALE, 0);
    assert_eq!(r2.mag_sq(), SCALE);
    // 3D: components (1/2, 1/2, 1/2, 1/2) of a unit make an exactly unit rotor
    let h = SCALE / 2;
    let r3 = Rotor3::new(h, Bivector3::new(h, h, h));
    assert_eq!(r3.mag_sq(), SCALE);
}

// Rotating by a rotor and then by its reverse returns the vector.
#[test]
fn round_trip_2d() {
    let r = Rotor2::from_angle_parts(0, SCALE);
    let mut v = Vector2::new(3 * SCALE, -7 * SCALE);
    let orig = v;
    r.rotate_vec(&mut v);
    r.reversed().rotate_vec(&mut v);
    assert_eq!(v, orig);
}

#[test]
fn round_trip_3d() {
    let h = SCALE / 2;
    let r = Rotor3::new(h, Bivector3::new(h, h, h));
    let mut v = Vector3::new(SCALE, 2 * SCALE, -5 * SCALE);
    let orig = v;
    r.rotate_vec(&mut v);
    r.reversed().rotate_vec(&mut v);
    assert!(close(v.x, orig.x, 4));
    assert!(close(v.y, orig.y, 4));
    assert!(close(v.z, orig.z, 4));
}

// Composition is associative within rounding.
#[test]
fn composition_associative() {
    let a = Rotor2::from_angle_parts(56756, 32768);
    let b = Rotor2::from_angle_parts(46341, 46341);
    let c = Rotor2::from_angle_parts(0, SCALE);
    let left = a.mul(b).mul(c);
    let right = a.mul(b.mul(c));
    assert!(close(left.s, right.s, 2));
    assert!(close(left.bv.xy, right.bv.xy, 2));

    let h = SCALE / 2;
    let a3 = Rotor3::new(h, Bivector3::new(h, h, h));
    let b3 = Rotor3::new(46341, Bivector3::new(-46341, 0, 0));
    let c3 = Rotor3::new(46341, Bivector3::new(0, -46341, 0));
    let l3 = a3.mul(b3).mul(c3);
    let r3 = a3.mul(b3.mul(c3));
    assert!(close(l3.s, r3.s, 2));
    assert!(close(l3.bv.xy, r3.bv.xy, 2));
    assert!(close(l3.bv.xz, r3.bv.xz, 2));
    assert!(close(l3.bv.yz, r3.bv.yz, 2));
}

// The matrix of a rotor moves vectors as the rotor does.
#[test]
fn matrix_matches_rotor_2d() {
    let r = Rotor2::from_angle_parts(0, SCALE);
    let m: Mat2 = r.into_matrix();
    let mut v = Vector2::new(3 * SCALE, 4 * SCALE);
    let w = m.apply(v);
    r.rotate_vec(&mut v);
    assert!(close(w.x, v.x, 2));
    assert!(close(w.y, v.y, 2));
}

#[test]
fn matrix_matches_rotor_3d() {
    let h = SCALE / 2;
    let r = Rotor3::new(h, Bivector3::new(h, h, h));
    let m = r.into_matrix();
    let mut v = Vector3::new(SCALE, 0, 0);
    let w = m.apply(v);
    r.rotate_vec(&mut v);
    assert!(close(w.x, v.x, 2));
    assert!(close(w.y, v.y, 2));
    assert!(close(w.z, v.z, 2));
}

// rotate_by agrees with the written-out triple product.
#[test]
fn rotate_by_matches_triple_product() {
    let h = SCALE / 2;
    let a = Rotor3::new(h, Bivector3::new(h, h, h));
    let b = Rotor3::new(46341, Bivector3::new(-46341, 0, 0));
    let direct = b.rotated_by(a);
    let naive = a.mul(b).mul(a.reversed());
    assert!(close(direct.s, naive.s, 4));
    assert!(close(direct.bv.xy, naive.bv.xy, 4));
    assert!(close(direct.bv.xz, naive.bv.xz, 4));
    assert!(close(direct.bv.yz, naive.bv.yz, 4));
}

// The identity rotor leaves every vector unchanged, exactly.
#[test]
fn identity_leaves_vectors() {
    let mut v = Vector2::new(12345, -98765);
    Rotor2::identity().rotate_vec(&mut v);
    assert_eq!(v, Vector2::new(12345, -98765));
    let mut u = Vector3::new(-777, 31415, 27182);
    Rotor3::identity().rotate_vec(&mut u);
    assert_eq!(u, Vector3::new(-777, 31415, 27182));
}

// Bivector3::new(3, 4, 12).normalized() == (3/13, 4/13, 12/13).
#[test]
fn bivector3_normalized_exact() {
    let b = Bivector3::new(3 * SCALE, 4 * SCALE, 12 * SCALE);
    let n = b.normalized();
    assert_eq!(n, Bivector3::new(3 * SCALE / 13, 4 * SCALE / 13, 12 * SCALE / 13));
}

// Two quarter turns about orthogonal axes carry the x axis to the z axis.
#[test]
fn two_quarter_turns_move_x_to_z() {
    // cos(pi/4) and sin(pi/4) in fixed point
    let c = 46341;
    // quarter turn in the xy plane, then a quarter turn in the yz plane
    let r1 = Rotor3::from_angle_plane_parts(c, c, Bivector3::new(SCALE, 0, 0));
    let r2 = Rotor3::from_angle_plane_parts(c, c, Bivector3::new(0, 0, SCALE));
    let combined = r2.mul(r1);
    let mut v = Vector3::new(SCALE, 0, 0);
    combined.rotate_vec(&mut v);
    assert!(close(v.x, 0, 16));
    assert!(close(v.y, 0, 16));
    assert!(close(v.z, SCALE, 16));
}

#[test]
fn bivector2_basics() {
    assert_eq!(Bivector2::new(8 * SCALE), Bivector2 { xy: 8 * SCALE });
    assert_eq!(Bivector2::one(), Bivector2 { xy: SCALE });
    assert_eq!(Bivector2::zero(), Bivector2 { xy: 0 });
    let b1 = Bivector2::new(-SCALE);
    let b2 = Bivector2::new(SCALE);
    assert_eq!(b1.add(b2), Bivector2::zero());
    assert_eq!(b1.sub(b2), Bivector2::new(-2 * SCALE));
    assert_eq!(b1.neg(), b2);
    assert_eq!(b2.mag(), SCALE);
    assert_eq!(Bivector2::new(3 * SCALE).mag_sq(), 9 * SCALE);
    assert_eq!(Bivector2::new(3 * SCALE).dot(Bivector2::new(2 * SCALE)), 6 * SCALE);
    assert_eq!(Bivector2::new(-5 * SCALE).normalized(), Bivector2::new(-SCALE));
    assert_eq!(Bivector2::new(-SCALE).scale(5 * SCALE), Bivector2::new(-5 * SCALE));
}

#[test]
fn vector2_basics() {
    assert_eq!(Vector2::new(SCALE, 3 * SCALE), Vector2 { x: SCALE, y: 3 * SCALE });
    assert_eq!(Vector2::uni(8), Vector2 { x: 8, y: 8 });
    assert_eq!(Vector2::up(), Vector2 { x: 0, y: SCALE });
    assert_eq!(Vector2::down(), Vector2 { x: 0, y: -SCALE });
    assert_eq!(Vector2::right(), Vector2 { x: SCALE, y: 0 });
    assert_eq!(Vector2::left(), Vector2 { x: -SCALE, y: 0 });
    let v1 = Vector2::new(-SCALE, SCALE);
    let v2 = Vector2::new(SCALE, 2 * SCALE);
    assert_eq!(v1.add(v2), Vector2::new(0, 3 * SCALE));
    assert_eq!(v1.sub(v2), Vector2::new(-2 * SCALE, -SCALE));
    assert_eq!(v1.at(0), -SCALE);
    assert_eq!(v1.at(1), SCALE);
    // dot of (1,2) and (3,4) is 11
    assert_eq!(Vector2::new(SCALE, 2 * SCALE).dot(Vector2::new(3 * SCALE, 4 * SCALE)), 11 * SCALE);
    // wedge of (1,0) and (0,1) is the unit plane
    assert_eq!(Vector2::right().wedge(Vector2::up()), Bivector2::one());
    // mag of (3,4) is 5
    assert_eq!(Vector2::new(3 * SCALE, 4 * SCALE).mag(), 5 * SCALE);
    assert_eq!(Vector2::new(3 * SCALE, 4 * SCALE).mag_sq(), 25 * SCALE);
    assert_eq!(
        Vector2::new(3 * SCALE, 4 * SCALE).normalized(),
        Vector2::new(3 * SCALE / 5, 4 * SCALE / 5)
    );
}

#[test]
fn vector3_basics() {
    let v = Vector3::new(SCALE, 2 * SCALE, 3 * SCALE);
    assert_eq!(v.at(2), 3 * SCALE);
    assert_eq!(v.dot(Vector3::new(4 * SCALE, 5 * SCALE, 6 * SCALE)), 32 * SCALE);
    let w = Vector3::new(SCALE, 0, 0).wedge(Vector3::new(0, SCALE, 0));
    assert_eq!(w, Bivector3::new(SCALE, 0, 0));
    // geom packs dot and wedge
    let g = Vector3::new(SCALE, 0, 0).geom(Vector3::new(0, SCALE, 0));
    assert_eq!(g.s, 0);
    assert_eq!(g.bv, Bivector3::new(SCALE, 0, 0));
}

// The geometric product of two unit vectors is a rotor that turns the
// first toward the second, twice.
#[test]
fn geom_product_rotates() {
    let a = Vector2::right();
    let b = Vector2::up();
    // b * a encodes a rotation from a toward b by twice their angle
    let r = b.geom(a);
    let mut v = Vector2::right();
    r.rotate_vec(&mut v);
    assert!(close(v.x, -SCALE, 2));
    assert!(close(v.y, 0, 2));
}

// Normalization restores a drifted rotor to unit magnitude.
#[test]
fn normalize_restores_unit() {
    let mut r = Rotor2::new(3 * SCALE / 2, Bivector2::new(2 * SCALE));
    r.normalize();
    let m = r.mag_sq();
    assert!(close(m, SCALE, 3));
}

// Scalar scaling and division are inverses up to rounding.
#[test]
fn scale_and_div_scale() {
    let r = Rotor2::new(SCALE, Bivector2::new(-SCALE / 2));
    let s = r.scale(3 * SCALE).div_scale(3 * SCALE);
    assert!(close(s.s, r.s, 2));
    assert!(close(s.bv.xy, r.bv.xy, 2));
}
