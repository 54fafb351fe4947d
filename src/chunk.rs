use vstd::prelude::*;

verus! {

/// Number of cells along each horizontal side of a chunk.
pub const CHUNK_SIZE: usize = 16;

/// World-space coordinate of the cell at offset `local` inside chunk `chunk`,
/// along one horizontal axis.
pub open spec fn world_of(chunk: int, local: int) -> int {
    chunk * 16 + local
}

/// World-space coordinate of local cell `local` of chunk `chunk` along one
/// axis. Computed in 64 bits, so it is exact for every chunk coordinate.
pub fn world_coord(chunk: i32, local: usize) -> (r: i64)
    requires
        local < CHUNK_SIZE,
    ensures
        r == world_of(chunk as int, local as int),
{
    chunk as i64 * 16 + local as i64
}

/// `grid` is the height field of chunk `(x, z)` under the sampler `elevation`:
/// 16 rows of 16 samples, where the sample at `[i][j]` is a result of
/// `elevation` at world point `(16 * x + i, 16 * z + j)`.
pub open spec fn is_height_field<F: Fn(i64, i64) -> i32>(
    grid: Seq<Seq<i32>>,
    x: int,
    z: int,
    elevation: F,
) -> bool {
    &&& grid.len() == 16
    &&& forall|i: int| 0 <= i < 16 ==> (#[trigger] grid[i]).len() == 16
    &&& forall|i: int, j: int|
        0 <= i < 16 && 0 <= j < 16 ==> elevation.ensures(
            (world_of(x, i) as i64, world_of(z, j) as i64),
            #[trigger] grid[i][j],
        )
}

/// The rows of a grid, each as a sequence of samples.
pub open spec fn grid_view(grid: &Vec<Vec<i32>>) -> Seq<Seq<i32>> {
    grid@.map_values(|row: Vec<i32>| row@)
}

/// The sampler accepts every world point.
pub open spec fn is_total<F: Fn(i64, i64) -> i32>(elevation: F) -> bool {
    forall|wx: i64, wz: i64| elevation.requires((wx, wz))
}

/// The sampler gives at most one elevation for each world point.
pub open spec fn is_single_valued<F: Fn(i64, i64) -> i32>(elevation: F) -> bool {
    forall|wx: i64, wz: i64, a: i32, b: i32|
        elevation.ensures((wx, wz), a) && elevation.ensures((wx, wz), b) ==> a == b
}

/// Height field of chunk `(x, z)`: a 16 by 16 grid indexed `[local_x][local_z]`
/// whose cell `[i][j]` holds the elevation that `elevation` gives at world point
/// `(16 * x + i, 16 * z + j)`.
pub fn generate<F: Fn(i64, i64) -> i32>(x: i32, z: i32, elevation: F) -> (r: Vec<Vec<i32>>)
    requires
        is_total(elevation),
    ensures
        r@.len() == 16,
        forall|i: int| 0 <= i < 16 ==> (#[trigger] r@[i])@.len() == 16,
        is_height_field(grid_view(&r), x as int, z as int, elevation),
{
    let mut rows: Vec<Vec<i32>> = Vec::with_capacity(CHUNK_SIZE);
    let mut sub_x: usize = 0;
    while sub_x < CHUNK_SIZE
        invariant
            sub_x <= CHUNK_SIZE,
            is_total(elevation),
            rows@.len() == sub_x,
            forall|i: int| 0 <= i < sub_x ==> (#[trigger] rows@[i])@.len() == 16,
            forall|i: int, j: int|
                0 <= i < sub_x && 0 <= j < 16 ==> elevation.ensures(
                    (world_of(x as int, i) as i64, world_of(z as int, j) as i64),
                    #[trigger] rows@[i]@[j],
                ),
        decreases CHUNK_SIZE - sub_x,
    {
        let world_x = world_coord(x, sub_x);
        let mut row: Vec<i32> = Vec::with_capacity(CHUNK_SIZE);
        let mut sub_z: usize = 0;
        while sub_z < CHUNK_SIZE
            invariant
                sub_x < CHUNK_SIZE,
                sub_z <= CHUNK_SIZE,
                is_total(elevation),
                world_x == world_of(x as int, sub_x as int),
                row@.len() == sub_z,
                forall|j: int|
                    0 <= j < sub_z ==> elevation.ensures(
                        (world_x, world_of(z as int, j) as i64),
                        #[trigger] row@[j],
                    ),
            decreases CHUNK_SIZE - sub_z,
        {
            let world_z = world_coord(z, sub_z);
            let y = elevation(world_x, world_z);
            row.push(y);
            sub_z += 1;
        }
        rows.push(row);
        sub_x += 1;
    }
    rows
}

/// Two cells sample the same world coordinate along an axis exactly when they
/// are the same offset of the same chunk: chunks tile the world without gaps
/// or overlaps.
pub proof fn lemma_world_of_unique(chunk_a: int, local_a: int, chunk_b: int, local_b: int)
    requires
        0 <= local_a < 16,
        0 <= local_b < 16,
    ensures
        world_of(chunk_a, local_a) == world_of(chunk_b, local_b) <==> (chunk_a == chunk_b
            && local_a == local_b),
{
    if world_of(chunk_a, local_a) == world_of(chunk_b, local_b) {
        assert(chunk_a == chunk_b) by (nonlinear_arith)
            requires
                chunk_a * 16 + local_a == chunk_b * 16 + local_b,
                0 <= local_a < 16,
                0 <= local_b < 16,
        ;
    }
}

/// With a sampler that gives one elevation per world point, two height fields
/// of the same chunk are the same grid.
pub proof fn lemma_generate_deterministic<F: Fn(i64, i64) -> i32>(
    x: int,
    z: int,
    elevation: F,
    a: Seq<Seq<i32>>,
    b: Seq<Seq<i32>>,
)
    requires
        is_single_valued(elevation),
        is_height_field(a, x, z, elevation),
        is_height_field(b, x, z, elevation),
    ensures
        a == b,
{
    assert forall|i: int| 0 <= i < 16 implies a[i] == b[i] by {
        assert forall|j: int| 0 <= j < 16 implies a[i][j] == b[i][j] by {
            let p = (world_of(x, i) as i64, world_of(z, j) as i64);
            assert(elevation.ensures(p, a[i][j]));
            assert(elevation.ensures(p, b[i][j]));
        }
        assert(a[i] =~= b[i]);
    }
    assert(a =~= b);
}

/// Seam between chunk `(x, z)` and its neighbour `(x + 1, z)`: both use the one
/// world-x formula, so the last column of the first and the first column of the
/// second are the field's samples at the neighbouring world x-coordinates
/// `16 * x + 15` and `16 * x + 16`, on the same world z.
pub proof fn lemma_seam_x<F: Fn(i64, i64) -> i32>(
    x: int,
    z: int,
    elevation: F,
    a: Seq<Seq<i32>>,
    b: Seq<Seq<i32>>,
    j: int,
)
    requires
        is_height_field(a, x, z, elevation),
        is_height_field(b, x + 1, z, elevation),
        0 <= j < 16,
    ensures
        world_of(x + 1, 0) == world_of(x, 15) + 1,
        elevation.ensures((world_of(x, 15) as i64, world_of(z, j) as i64), a[15][j]),
        elevation.ensures(((world_of(x, 15) + 1) as i64, world_of(z, j) as i64), b[0][j]),
{
}

/// Cells of two height fields that sample the same world point hold the same
/// elevation, under a sampler that gives one elevation per world point.
pub proof fn lemma_same_point_same_elevation<F: Fn(i64, i64) -> i32>(
    elevation: F,
    a: Seq<Seq<i32>>,
    xa: int,
    za: int,
    ia: int,
    ja: int,
    b: Seq<Seq<i32>>,
    xb: int,
    zb: int,
    ib: int,
    jb: int,
)
    requires
        is_single_valued(elevation),
        is_height_field(a, xa, za, elevation),
        is_height_field(b, xb, zb, elevation),
        0 <= ia < 16 && 0 <= ja < 16,
        0 <= ib < 16 && 0 <= jb < 16,
        world_of(xa, ia) == world_of(xb, ib),
        world_of(za, ja) == world_of(zb, jb),
    ensures
        a[ia][ja] == b[ib][jb],
{
    assert(elevation.ensures((world_of(xa, ia) as i64, world_of(za, ja) as i64), a[ia][ja]));
    assert(elevation.ensures((world_of(xb, ib) as i64, world_of(zb, jb) as i64), b[ib][jb]));
}

} // verus!
