use cgmath::{Matrix4, SquareMatrix, Vector4};

#[test]
fn identity_chain_keeps_line_positions() {
    let identity = Matrix4::<f32>::identity();
    let positions = [[-0.5f32, -0.5, 0.0], [0.5, -0.5, 0.0], [0.0, 0.5, 0.0]];
    for p in positions.iter() {
        let v = Vector4::new(p[0], p[1], p[2], 1.0);
        let out = identity * identity * identity * v;
        assert_eq!(out, v);
    }
}

#[test]
fn identity_as_array_is_the_unit_matrix() {
    let m: [[f32; 4]; 4] = Matrix4::<f32>::identity().into();
    for i in 0..4 {
        for j in 0..4 {
            assert_eq!(m[i][j], if i == j { 1.0 } else { 0.0 });
        }
    }
}
