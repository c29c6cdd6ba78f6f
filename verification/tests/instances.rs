use camera_scene::instances::{
    instance_grid, instance_layout, AttributeFormat, AttributeSlot, GridInstance, RotationAxis,
    StepMode,
};

#[test]
fn grid_has_a_hundred_instances_row_by_row() {
    let g = instance_grid();
    assert_eq!(g.len(), 100);
    assert_eq!(
        g[0],
        GridInstance { x: -15, z: -15, axis: RotationAxis::Position, angle_degrees: 45 }
    );
    assert_eq!(
        g[1],
        GridInstance { x: -12, z: -15, axis: RotationAxis::Position, angle_degrees: 45 }
    );
    assert_eq!(
        g[10],
        GridInstance { x: -15, z: -12, axis: RotationAxis::Position, angle_degrees: 45 }
    );
    assert_eq!(
        g[99],
        GridInstance { x: 12, z: 12, axis: RotationAxis::Position, angle_degrees: 45 }
    );
}

#[test]
fn only_the_origin_is_unrotated() {
    let g = instance_grid();
    for (i, inst) in g.iter().enumerate() {
        let at_origin = inst.x == 0 && inst.z == 0;
        assert_eq!(at_origin, i == 55);
        if at_origin {
            assert_eq!((inst.axis, inst.angle_degrees), (RotationAxis::UnitZ, 0));
        } else {
            assert_eq!((inst.axis, inst.angle_degrees), (RotationAxis::Position, 45));
        }
    }
}

#[test]
fn grid_positions_are_distinct() {
    let g = instance_grid();
    for i in 0..g.len() {
        for j in 0..g.len() {
            if i != j {
                assert!(g[i].x != g[j].x || g[i].z != g[j].z);
            }
        }
    }
}

#[test]
fn instance_layout_columns() {
    let l = instance_layout();
    assert_eq!(l.array_stride, 64);
    assert_eq!(l.step_mode, StepMode::Instance);
    assert_eq!(
        l.attributes,
        vec![
            AttributeSlot {
                offset: 0,
                shader_location: 5,
                format: AttributeFormat::Float32x4,
            },
            AttributeSlot {
                offset: 16,
                shader_location: 6,
                format: AttributeFormat::Float32x4,
            },
            AttributeSlot {
                offset: 32,
                shader_location: 7,
                format: AttributeFormat::Float32x4,
            },
            AttributeSlot {
                offset: 48,
                shader_location: 8,
                format: AttributeFormat::Float32x4,
            },
        ]
    );
}
