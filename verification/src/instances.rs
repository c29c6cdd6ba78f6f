use vstd::prelude::*;

verus! {

/// The number of instances along each side of the square grid.
pub const NUM_INSTANCES_PER_ROW: u32 = 10;

/// The distance between neighbouring instances.
pub const SPACE_BETWEEN: i32 = 3;

/// The axis that an instance is rotated about.
#[derive(Clone, Copy, Debug, PartialEq, Eq, Structural)]
pub enum RotationAxis {
    /// The unit z axis.
    UnitZ,
    /// The instance's own position, normalized.
    Position,
}

/// One instance of the grid: its position on the ground plane (y is 0) and
/// its rotation, an angle in degrees about an axis.
#[derive(Clone, Copy, Debug, PartialEq, Eq, Structural)]
pub struct GridInstance {
    pub x: i32,
    pub z: i32,
    pub axis: RotationAxis,
    pub angle_degrees: u32,
}

/// The coordinate of grid column or row `k`: rows and columns are
/// `SPACE_BETWEEN` apart and the grid is centred on the origin.
pub open spec fn grid_coord(k: int) -> int {
    SPACE_BETWEEN * k - SPACE_BETWEEN * NUM_INSTANCES_PER_ROW / 2
}

/// Whether `g` is the `i`-th instance: rows run along z and, within a row,
/// instances run along x. The instance at the origin is not rotated (0
/// degrees about z); every other one is turned 45 degrees about its own
/// position.
pub open spec fn is_grid_instance(g: GridInstance, i: int) -> bool {
    let x = grid_coord(i % NUM_INSTANCES_PER_ROW as int);
    let z = grid_coord(i / NUM_INSTANCES_PER_ROW as int);
    &&& g.x == x
    &&& g.z == z
    &&& if x == 0 && z == 0 {
        g.axis == RotationAxis::UnitZ && g.angle_degrees == 0
    } else {
        g.axis == RotationAxis::Position && g.angle_degrees == 45
    }
}

/// The instance at grid column `col` and row `row`.
fn grid_cell(col: u32, row: u32) -> (g: GridInstance)
    requires
        col < NUM_INSTANCES_PER_ROW,
        row < NUM_INSTANCES_PER_ROW,
    ensures
        is_grid_instance(g, row * NUM_INSTANCES_PER_ROW + col),
{
    let ghost i: int = row * NUM_INSTANCES_PER_ROW + col;
    assert(i % 10 == col && i / 10 == row) by (nonlinear_arith)
        requires
            i == row * 10 + col,
            col < 10,
            row < 10,
    ;
    let half: i32 = (SPACE_BETWEEN * (NUM_INSTANCES_PER_ROW as i32)) / 2;
    let x: i32 = SPACE_BETWEEN * (col as i32) - half;
    let z: i32 = SPACE_BETWEEN * (row as i32) - half;
    if x == 0 && z == 0 {
        GridInstance { x, z, axis: RotationAxis::UnitZ, angle_degrees: 0 }
    } else {
        GridInstance { x, z, axis: RotationAxis::Position, angle_degrees: 45 }
    }
}

/// The instances of the scene: a `NUM_INSTANCES_PER_ROW` by
/// `NUM_INSTANCES_PER_ROW` grid, row by row.
pub fn instance_grid() -> (v: Vec<GridInstance>)
    ensures
        v.len() == NUM_INSTANCES_PER_ROW * NUM_INSTANCES_PER_ROW,
        forall|i: int| 0 <= i < v.len() ==> is_grid_instance(v[i], i),
{
    let mut v: Vec<GridInstance> = Vec::new();
    let mut row: u32 = 0;
    while row < NUM_INSTANCES_PER_ROW
        invariant
            row <= NUM_INSTANCES_PER_ROW,
            v.len() == row * NUM_INSTANCES_PER_ROW,
            forall|i: int| 0 <= i < v.len() ==> is_grid_instance(v[i], i),
        decreases NUM_INSTANCES_PER_ROW - row,
    {
        let mut col: u32 = 0;
        while col < NUM_INSTANCES_PER_ROW
            invariant
                row < NUM_INSTANCES_PER_ROW,
                col <= NUM_INSTANCES_PER_ROW,
                v.len() == row * NUM_INSTANCES_PER_ROW + col,
                forall|i: int| 0 <= i < v.len() ==> is_grid_instance(v[i], i),
            decreases NUM_INSTANCES_PER_ROW - col,
        {
            v.push(grid_cell(col, row));
            col = col + 1;
        }
        row = row + 1;
    }
    v
}

/// The index of the instance in the middle row and the middle column.
pub open spec fn middle_index() -> int {
    (NUM_INSTANCES_PER_ROW / 2) * NUM_INSTANCES_PER_ROW + NUM_INSTANCES_PER_ROW / 2
}

/// Exactly one instance stands at the origin, the middle one, and it is the
/// only one that is not rotated.
pub proof fn lemma_only_origin_unrotated(g: GridInstance, i: int)
    requires
        0 <= i < NUM_INSTANCES_PER_ROW * NUM_INSTANCES_PER_ROW,
        is_grid_instance(g, i),
    ensures
        (g.x == 0 && g.z == 0) <==> i == middle_index(),
        (g.angle_degrees == 0) <==> i == middle_index(),
{
}

/// No two instances share a position.
pub proof fn lemma_grid_positions_distinct(g: GridInstance, i: int, h: GridInstance, j: int)
    requires
        0 <= i < NUM_INSTANCES_PER_ROW * NUM_INSTANCES_PER_ROW,
        0 <= j < NUM_INSTANCES_PER_ROW * NUM_INSTANCES_PER_ROW,
        i != j,
        is_grid_instance(g, i),
        is_grid_instance(h, j),
    ensures
        g.x != h.x || g.z != h.z,
{
}

/// Bytes in one 32-bit float.
pub const BYTES_PER_FLOAT: u64 = 4;

/// Floats in one column of an instance's 4x4 model matrix; each column is
/// handed to the vertex shader as one attribute.
pub const FLOATS_PER_COLUMN: u64 = 4;

/// Columns of an instance's model matrix.
pub const MATRIX_COLUMNS: u32 = 4;

/// The shader location of the model matrix's first column; the vertex
/// attributes of the mesh take the locations below it.
pub const FIRST_SHADER_LOCATION: u32 = 5;

/// How often the vertex shader steps to the next element of a buffer.
#[derive(Clone, Copy, Debug, PartialEq, Eq, Structural)]
pub enum StepMode {
    /// Once per vertex.
    Vertex,
    /// Once per instance.
    Instance,
}

/// The type of one vertex attribute.
#[derive(Clone, Copy, Debug, PartialEq, Eq, Structural)]
pub enum AttributeFormat {
    /// Four 32-bit floats.
    Float32x4,
}

/// Where one column of the model matrix lies in an instance's raw data and
/// which shader location reads it; every column is four 32-bit floats.
#[derive(Clone, Copy, Debug, PartialEq, Eq, Structural)]
pub struct AttributeSlot {
    pub offset: u64,
    pub shader_location: u32,
    pub format: AttributeFormat,
}

/// The layout of the per-instance buffer: the distance from one instance's
/// raw data to the next, how often the shader steps through it, and one
/// attribute per matrix column.
pub struct InstanceLayout {
    pub array_stride: u64,
    pub step_mode: StepMode,
    pub attributes: Vec<AttributeSlot>,
}

/// The bytes of one matrix column.
pub open spec fn column_bytes() -> int {
    BYTES_PER_FLOAT * FLOATS_PER_COLUMN
}

/// The layout of the instance buffer: the shader steps once per instance,
/// one instance is a whole 4x4 float matrix, and column `i`, four floats, is
/// read by shader location `FIRST_SHADER_LOCATION + i` at offset `i`
/// columns into it.
pub fn instance_layout() -> (l: InstanceLayout)
    ensures
        l.array_stride == MATRIX_COLUMNS * column_bytes(),
        l.step_mode == StepMode::Instance,
        l.attributes.len() == MATRIX_COLUMNS,
        forall|i: int|
            0 <= i < l.attributes.len() ==> l.attributes[i] == (AttributeSlot {
                offset: (i * column_bytes()) as u64,
                shader_location: (FIRST_SHADER_LOCATION + i) as u32,
                format: AttributeFormat::Float32x4,
            }),
        // the columns tile an instance's data, the first at its start and the
        // last ending at the stride, each beginning where the one before ends
        l.attributes[0].offset == 0,
        forall|i: int|
            0 <= i < l.attributes.len() - 1 ==> l.attributes[i].offset + column_bytes()
                == #[trigger] l.attributes[i + 1].offset,
        l.attributes[MATRIX_COLUMNS - 1].offset + column_bytes() == l.array_stride,
{
    let column: u64 = BYTES_PER_FLOAT * FLOATS_PER_COLUMN;
    let mut attributes: Vec<AttributeSlot> = Vec::new();
    let mut i: u32 = 0;
    while i < MATRIX_COLUMNS
        invariant
            i <= MATRIX_COLUMNS,
            column == column_bytes(),
            attributes.len() == i,
            forall|j: int|
                0 <= j < i ==> attributes[j] == (AttributeSlot {
                    offset: (j * column_bytes()) as u64,
                    shader_location: (FIRST_SHADER_LOCATION + j) as u32,
                    format: AttributeFormat::Float32x4,
                }),
        decreases MATRIX_COLUMNS - i,
    {
        attributes.push(
            AttributeSlot {
                offset: (i as u64) * column,
                shader_location: FIRST_SHADER_LOCATION + i,
                format: AttributeFormat::Float32x4,
            },
        );
        i = i + 1;
    }
    let columns: u64 = MATRIX_COLUMNS as u64;
    assert(columns * column == 64) by (nonlinear_arith)
        requires
            columns == 4,
            column == 16,
    ;
    InstanceLayout {
        array_stride: columns * column,
        step_mode: StepMode::Instance,
        attributes,
    }
}

} // verus!
