//! Infinite parallax scroll engine.
//!
//! Each background layer pre-spawns a small, fixed number of tile
//! instances and recycles them instead of spawning new ones. Per tile
//! and per tick the engine measures how far the tile's scaled centre
//! lies from the player along the horizontal axis; only when that
//! distance leaves the transition band (a configured fraction of the
//! viewport width) does the tile jump by the layer's scroll increment.
//! A tile inside the band never moves, which keeps the scheme cheap
//! and free of per-frame drift. Both band checks use strict
//! inequality, so a tile exactly on the boundary stays put.

use vstd::prelude::*;

use crate::state::GameState;
use crate::units::{
    coord_in_range, factor_in_range, scale_milli, spec_scale_milli, MAX_COORD, MAX_FACTOR,
    MAX_SCALED, MILLI,
};

verus! {

/// Magnitude bound on live world positions fed to the engine, in
/// milli-units; one recycle step stays within `i64` range from here.
pub const MAX_POS: i64 = 0x8_0000_0000_0000;

/// Most tile instances a layer may pre-spawn.
pub const MAX_TILE_COUNT: u32 = 1024;

/// The shared, read-only record of one background layer. Many tile
/// instances reference one layer.
#[derive(Debug)]
pub struct LayerData {
    /// Horizontal and vertical scroll ratio relative to the world
    /// speed, per-mille; layers closer to the camera carry larger
    /// magnitudes.
    pub speed_x: i64,
    /// Vertical counterpart of `speed_x`, per-mille.
    pub speed_y: i64,
    /// Source image path, opaque to the engine.
    pub path: String,
    /// Tile width before scaling, milli-units.
    pub tile_size_x: i64,
    /// Tile height before scaling, milli-units.
    pub tile_size_y: i64,
    /// Render scale, per-mille.
    pub scale: i64,
    /// Draw-order depth, per-mille.
    pub z: i64,
    /// Origin of the layer's first tile, milli-units.
    pub position_x: i64,
    /// Vertical origin of the layer's tiles, milli-units.
    pub position_y: i64,
    /// Fraction of the viewport width that sets the recycle trigger
    /// distance, per-mille.
    pub transition_factor: i64,
}

impl LayerData {
    /// A well-formed layer: non-negative sizes, scale and transition
    /// factor, and every field inside the fixed-point ranges.
    pub open spec fn valid(&self) -> bool {
        &&& 0 <= self.tile_size_x <= MAX_COORD
        &&& 0 <= self.tile_size_y <= MAX_COORD
        &&& 0 <= self.scale <= MAX_FACTOR
        &&& 0 <= self.transition_factor <= MAX_FACTOR
        &&& factor_in_range(self.speed_x as int)
        &&& factor_in_range(self.speed_y as int)
        &&& factor_in_range(self.z as int)
        &&& coord_in_range(self.position_x as int)
        &&& coord_in_range(self.position_y as int)
    }
}

impl Clone for LayerData {
    /// A field-by-field copy.
    fn clone(&self) -> (r: Self)
        ensures
            r.speed_x == self.speed_x,
            r.speed_y == self.speed_y,
            r.path@ == self.path@,
            r.tile_size_x == self.tile_size_x,
            r.tile_size_y == self.tile_size_y,
            r.scale == self.scale,
            r.z == self.z,
            r.position_x == self.position_x,
            r.position_y == self.position_y,
            r.transition_factor == self.transition_factor,
    {
        LayerData {
            speed_x: self.speed_x,
            speed_y: self.speed_y,
            path: self.path.clone(),
            tile_size_x: self.tile_size_x,
            tile_size_y: self.tile_size_y,
            scale: self.scale,
            z: self.z,
            position_x: self.position_x,
            position_y: self.position_y,
            transition_factor: self.transition_factor,
        }
    }
}

impl Default for LayerData {
    /// A unit layer: full scroll ratio, unscaled empty tile at the
    /// origin, recycle band at 1.2 viewport widths.
    fn default() -> (r: Self)
        ensures
            r.speed_x == MILLI,
            r.speed_y == 0,
            r.path@ == Seq::<char>::empty(),
            r.tile_size_x == 0,
            r.tile_size_y == 0,
            r.scale == MILLI,
            r.z == 0,
            r.position_x == 0,
            r.position_y == 0,
            r.transition_factor == 1200,
            r.valid(),
    {
        LayerData {
            speed_x: MILLI,
            speed_y: 0,
            path: String::new(),
            tile_size_x: 0,
            tile_size_y: 0,
            scale: MILLI,
            z: 0,
            position_x: 0,
            position_y: 0,
            transition_factor: 1200,
        }
    }
}

/// One rendered tile instance: the index of its owning layer and its
/// own current position, the only per-instance mutable state.
#[derive(Clone, Copy, Debug, PartialEq, Eq, Structural)]
pub struct ParallaxItem {
    /// Index of the owning layer in the parallax resource.
    pub layer_index: usize,
    /// Current horizontal world position, milli-units.
    pub x: i64,
    /// Current vertical world position, milli-units.
    pub y: i64,
}

/// The aggregated parallax state: the layer records, how many tile
/// instances each layer pre-spawns, and the global speed scalar tied
/// to the player's forward speed.
#[derive(Debug)]
pub struct ParallaxResource {
    /// The layer records, ordered by depth.
    pub layers: Vec<LayerData>,
    /// Tile instances pre-spawned per layer.
    pub count: u32,
    /// Global scroll speed scalar, milli-units per tick.
    pub initial_speed: i64,
}

/// Half of the tile's rendered width: the scaled tile size over two.
pub open spec fn spec_half_extent(l: LayerData) -> int {
    spec_scale_milli(l.tile_size_x as int, l.scale as int) / 2
}

/// The signed distance the recycle test measures: how far the player
/// stands ahead of the tile, plus half the tile's rendered width.
pub open spec fn spec_edge(l: LayerData, player_x: int, tile_x: int) -> int {
    player_x - tile_x + spec_half_extent(l)
}

/// The recycle trigger distance: the configured fraction of the
/// viewport width.
pub open spec fn spec_band(l: LayerData, viewport_width: int) -> int {
    spec_scale_milli(viewport_width, l.transition_factor as int)
}

/// The increment a recycled tile jumps by: the layer's scroll ratio
/// applied to the global speed scalar.
pub open spec fn spec_shift(l: LayerData, initial_speed: int) -> int {
    spec_scale_milli(initial_speed, l.speed_x as int)
}

/// Where one tile stands after one tick: shifted backward when it has
/// fallen out of the band behind the player, forward when it has run
/// out ahead, untouched inside the band. Both checks are strict, so a
/// tile exactly on the boundary stays put.
pub open spec fn spec_recycle(
    l: LayerData,
    player_x: int,
    tile_x: int,
    viewport_width: int,
    initial_speed: int,
) -> int {
    let edge = spec_edge(l, player_x, tile_x);
    let band = spec_band(l, viewport_width);
    if edge < -band {
        tile_x - spec_shift(l, initial_speed)
    } else if edge > band {
        tile_x + spec_shift(l, initial_speed)
    } else {
        tile_x
    }
}

/// The recycle test for one tile of one layer.
pub fn recycle_tile(
    l: &LayerData,
    player_x: i64,
    tile_x: i64,
    viewport_width: i64,
    initial_speed: i64,
) -> (r: i64)
    requires
        l.valid(),
        -MAX_POS <= player_x <= MAX_POS,
        -MAX_POS <= tile_x <= MAX_POS,
        0 <= viewport_width <= MAX_COORD,
        coord_in_range(initial_speed as int),
    ensures
        r == spec_recycle(*l, player_x as int, tile_x as int, viewport_width as int,
            initial_speed as int),
        -MAX_POS - MAX_SCALED <= r <= MAX_POS + MAX_SCALED,
{
    let scaled = scale_milli(l.tile_size_x, l.scale);
    proof {
        crate::units::lemma_scale_milli_nonneg(l.tile_size_x as int, l.scale as int);
        vstd::arithmetic::div_mod::lemma_div_pos_is_pos(scaled as int, 2);
        vstd::arithmetic::div_mod::lemma_div_nonincreasing(scaled as int, 2);
    }
    let half: i64 = ((scaled as u64) / 2) as i64;
    let band = scale_milli(viewport_width, l.transition_factor);
    proof {
        crate::units::lemma_scale_milli_nonneg(viewport_width as int, l.transition_factor as int);
    }
    let shift = scale_milli(initial_speed, l.speed_x);
    let edge: i64 = player_x - tile_x + half;
    if edge < -band {
        tile_x - shift
    } else if edge > band {
        tile_x + shift
    } else {
        tile_x
    }
}

/// Recycling only triggers when the player-to-tile distance plus the
/// half tile extent crosses the transition band: a tile whose total
/// offset still fits in the band never moves, and a tile that did move
/// had left it.
pub proof fn lemma_recycle_band(
    l: LayerData,
    player_x: int,
    tile_x: int,
    viewport_width: int,
    initial_speed: int,
)
    requires
        l.valid(),
        0 <= viewport_width,
    ensures
        abs_of(player_x - tile_x) + spec_half_extent(l) <= spec_band(l, viewport_width)
            ==> spec_recycle(l, player_x, tile_x, viewport_width, initial_speed) == tile_x,
        spec_recycle(l, player_x, tile_x, viewport_width, initial_speed) != tile_x ==> abs_of(
            player_x - tile_x,
        ) + spec_half_extent(l) > spec_band(l, viewport_width),
{
    crate::units::lemma_scale_milli_nonneg(l.tile_size_x as int, l.scale as int);
    vstd::arithmetic::div_mod::lemma_div_pos_is_pos(
        spec_scale_milli(l.tile_size_x as int, l.scale as int),
        2,
    );
}

/// A tile inside the band is a fixed point of the recycle step: with a
/// stationary player, ticking it any number of times changes nothing.
pub proof fn lemma_recycle_idempotent(
    l: LayerData,
    player_x: int,
    tile_x: int,
    viewport_width: int,
    initial_speed: int,
)
    requires
        l.valid(),
        0 <= viewport_width,
        -spec_band(l, viewport_width) <= spec_edge(l, player_x, tile_x) <= spec_band(
            l,
            viewport_width,
        ),
    ensures
        spec_recycle(l, player_x, tile_x, viewport_width, initial_speed) == tile_x,
        spec_recycle(
            l,
            player_x,
            spec_recycle(l, player_x, tile_x, viewport_width, initial_speed),
            viewport_width,
            initial_speed,
        ) == tile_x,
{
}

/// What stops a parallax setup from being accepted.
#[derive(Clone, Copy, Debug, PartialEq, Eq, Structural)]
pub enum SetupError {
    /// The resource holds no layer at all.
    NoLayers,
    /// The per-layer tile count is zero or beyond the supported bound.
    BadTileCount,
    /// The global speed scalar is outside the coordinate range.
    SpeedOutOfRange,
    /// The named layer breaks the layer invariant.
    InvalidLayer(usize),
    /// The named layer's pre-spawned tiles cannot cover the viewport.
    ViewportNotCovered(usize),
}

/// A resource fit to run: at least one layer, a usable tile count and
/// speed scalar, every layer well formed, and per layer enough tiles
/// that their combined rendered width spans the viewport.
pub open spec fn spec_setup_ok(res: ParallaxResource, viewport_width: int) -> bool {
    &&& res.layers@.len() > 0
    &&& 1 <= res.count <= MAX_TILE_COUNT
    &&& coord_in_range(res.initial_speed as int)
    &&& forall|j: int| 0 <= j < res.layers@.len() ==> (#[trigger] res.layers@[j]).valid()
    &&& forall|j: int|
        0 <= j < res.layers@.len() ==> res.count * spec_scale_milli(
            (#[trigger] res.layers@[j]).tile_size_x as int,
            res.layers@[j].scale as int,
        ) >= viewport_width
}

/// Layer `j` of the resource passes its own setup checks: it is well
/// formed and its pre-spawned tiles span the viewport.
pub open spec fn spec_layer_setup_ok(res: ParallaxResource, j: int, viewport_width: int) -> bool {
    &&& res.layers@[j].valid()
    &&& res.count * spec_scale_milli(
        res.layers@[j].tile_size_x as int,
        res.layers@[j].scale as int,
    ) >= viewport_width
}

impl ParallaxResource {
    /// The setup-time gate: checks the runtime invariants of the
    /// recycling scheme once, before the first frame, and names what
    /// is wrong instead of failing at the first tick. Succeeds exactly
    /// on resources that satisfy [`spec_setup_ok`]; a per-layer error
    /// names the first offending layer.
    pub fn validate_setup(&self, viewport_width: i64) -> (r: Result<(), SetupError>)
        requires
            0 <= viewport_width <= MAX_COORD,
        ensures
            r is Ok <==> spec_setup_ok(*self, viewport_width as int),
            r == Err::<(), SetupError>(SetupError::NoLayers) <==> self.layers@.len() == 0,
            r == Err::<(), SetupError>(SetupError::BadTileCount) <==> self.layers@.len() > 0 && !(1
                <= self.count <= MAX_TILE_COUNT),
            r == Err::<(), SetupError>(SetupError::SpeedOutOfRange) <==> self.layers@.len() > 0 && 1
                <= self.count <= MAX_TILE_COUNT && !coord_in_range(self.initial_speed as int),
            r matches Err(SetupError::InvalidLayer(j)) ==> j < self.layers@.len()
                && !self.layers@[j as int].valid() && forall|k: int|
                0 <= k < j ==> spec_layer_setup_ok(*self, k, viewport_width as int),
            r matches Err(SetupError::ViewportNotCovered(j)) ==> j < self.layers@.len()
                && self.layers@[j as int].valid() && self.count * spec_scale_milli(
                self.layers@[j as int].tile_size_x as int,
                self.layers@[j as int].scale as int,
            ) < viewport_width && forall|k: int|
                0 <= k < j ==> spec_layer_setup_ok(*self, k, viewport_width as int),
    {
        if self.layers.len() == 0 {
            return Err(SetupError::NoLayers);
        }
        if self.count < 1 || self.count > MAX_TILE_COUNT {
            return Err(SetupError::BadTileCount);
        }
        if self.initial_speed < -MAX_COORD || self.initial_speed > MAX_COORD {
            return Err(SetupError::SpeedOutOfRange);
        }
        let n = self.layers.len();
        let mut j: usize = 0;
        while j < n
            invariant
                n == self.layers@.len(),
                n > 0,
                j <= n,
                1 <= self.count <= MAX_TILE_COUNT,
                coord_in_range(self.initial_speed as int),
                0 <= viewport_width <= MAX_COORD,
                forall|k: int| 0 <= k < j ==> (#[trigger] self.layers@[k]).valid(),
                forall|k: int|
                    0 <= k < j ==> self.count * spec_scale_milli(
                        (#[trigger] self.layers@[k]).tile_size_x as int,
                        self.layers@[k].scale as int,
                    ) >= viewport_width,
            decreases n - j,
        {
            let layer = &self.layers[j];
            if !(0 <= layer.tile_size_x && layer.tile_size_x <= MAX_COORD && 0 <= layer.tile_size_y
                && layer.tile_size_y <= MAX_COORD && 0 <= layer.scale && layer.scale <= MAX_FACTOR
                && 0 <= layer.transition_factor && layer.transition_factor <= MAX_FACTOR
                && -MAX_FACTOR <= layer.speed_x && layer.speed_x <= MAX_FACTOR && -MAX_FACTOR
                <= layer.speed_y && layer.speed_y <= MAX_FACTOR && -MAX_FACTOR <= layer.z
                && layer.z <= MAX_FACTOR && -MAX_COORD <= layer.position_x && layer.position_x
                <= MAX_COORD && -MAX_COORD <= layer.position_y && layer.position_y <= MAX_COORD) {
                return Err(SetupError::InvalidLayer(j));
            }
            let scaled = scale_milli(layer.tile_size_x, layer.scale);
            proof {
                crate::units::lemma_scale_milli_nonneg(
                    layer.tile_size_x as int,
                    layer.scale as int,
                );
                assert((self.count as int) * (scaled as int) <= (MAX_TILE_COUNT as int) * (
                MAX_SCALED as int)) by (nonlinear_arith)
                    requires
                        0 <= scaled as int <= MAX_SCALED,
                        1 <= self.count <= MAX_TILE_COUNT,
                ;
                assert((self.count as int) * (scaled as int) >= 0) by (nonlinear_arith)
                    requires
                        0 <= scaled as int,
                        1 <= self.count,
                ;
            }
            if (self.count as i64) * scaled < viewport_width {
                return Err(SetupError::ViewportNotCovered(j));
            }
            j = j + 1;
        }
        Ok(())
    }
}

/// The tile instance the setup pre-spawns at slot `i` of a layer: the
/// layer origin pushed right by `i` tile widths.
pub open spec fn spec_layer_tile(l: LayerData, layer_index: int, i: int) -> ParallaxItem {
    ParallaxItem {
        layer_index: layer_index as usize,
        x: (l.position_x + i * l.tile_size_x) as i64,
        y: l.position_y,
    }
}

/// Pre-spawns the tile instances of one layer: `count` copies laid out
/// side by side from the layer origin, each one tile width apart.
pub fn spawn_layer_tiles(l: &LayerData, layer_index: usize, count: u32) -> (v: Vec<ParallaxItem>)
    requires
        l.valid(),
        count <= MAX_TILE_COUNT,
    ensures
        v@.len() == count,
        forall|i: int|
            0 <= i < count ==> #[trigger] v@[i] == spec_layer_tile(*l, layer_index as int, i),
{
    let mut v: Vec<ParallaxItem> = Vec::new();
    let mut i: u32 = 0;
    while i < count
        invariant
            i <= count,
            count <= MAX_TILE_COUNT,
            l.valid(),
            v@.len() == i,
            forall|k: int|
                0 <= k < i ==> #[trigger] v@[k] == spec_layer_tile(*l, layer_index as int, k),
        decreases count - i,
    {
        proof {
            assert(0 <= (i as int) * (l.tile_size_x as int)
                <= (MAX_TILE_COUNT as int) * (MAX_COORD as int)) by (nonlinear_arith)
                requires
                    0 <= i as int <= MAX_TILE_COUNT as int,
                    0 <= l.tile_size_x <= MAX_COORD,
            ;
        }
        let x: i64 = l.position_x + (i as i64) * l.tile_size_x;
        v.push(ParallaxItem { layer_index, x, y: l.position_y });
        i = i + 1;
    }
    v
}

/// Pre-spawns every tile instance of a validated resource: layer by
/// layer in depth order, `count` tiles each, so the tile of layer `j`
/// at slot `i` lands at index `j * count + i`.
pub fn spawn_all_tiles(res: &ParallaxResource, viewport_width: i64) -> (r: Result<
    Vec<ParallaxItem>,
    SetupError,
>)
    requires
        0 <= viewport_width <= MAX_COORD,
    ensures
        r is Ok <==> spec_setup_ok(*res, viewport_width as int),
        r matches Ok(v) ==> v@.len() == res.layers@.len() * res.count,
        r matches Ok(v) ==> forall|j: int, i: int|
            0 <= j < res.layers@.len() && 0 <= i < res.count ==> v@[j * res.count + i]
                == spec_layer_tile(res.layers@[j], j, i),
{
    if let Err(e) = res.validate_setup(viewport_width) {
        return Err(e);
    }
    let n = res.layers.len();
    let mut v: Vec<ParallaxItem> = Vec::new();
    let mut j: usize = 0;
    while j < n
        invariant
            n == res.layers@.len(),
            j <= n,
            spec_setup_ok(*res, viewport_width as int),
            v@.len() == j * res.count,
            forall|jj: int, ii: int|
                0 <= jj < j && 0 <= ii < res.count ==> v@[jj * res.count + ii] == spec_layer_tile(
                    res.layers@[jj],
                    jj,
                    ii,
                ),
        decreases n - j,
    {
        proof {
            vstd::arithmetic::mul::lemma_mul_is_distributive_add_other_way(
                res.count as int,
                j as int,
                1,
            );
        }
        let layer = &res.layers[j];
        let mut tiles = spawn_layer_tiles(layer, j, res.count);
        let ghost before = v@;
        v.append(&mut tiles);
        proof {
            assert forall|jj: int, ii: int|
                0 <= jj < j + 1 && 0 <= ii < res.count implies v@[jj * res.count + ii]
                == spec_layer_tile(res.layers@[jj], jj, ii) by {
                if jj < j {
                    vstd::arithmetic::mul::lemma_mul_inequality(
                        jj + 1,
                        j as int,
                        res.count as int,
                    );
                }
                vstd::arithmetic::mul::lemma_mul_is_distributive_add_other_way(
                    res.count as int,
                    jj,
                    1,
                );
                vstd::arithmetic::mul::lemma_mul_nonnegative(jj, res.count as int);
            }
        }
        j = j + 1;
    }
    Ok(v)
}

/// The absolute value of `a`.
pub open spec fn abs_of(a: int) -> int {
    if a >= 0 {
        a
    } else {
        -a
    }
}

/// A tile list is consistent with a resource: every tile names an
/// existing layer and stands inside the live position bound.
pub open spec fn tiles_wf(tiles: Seq<ParallaxItem>, res: ParallaxResource) -> bool {
    forall|i: int|
        0 <= i < tiles.len() ==> (#[trigger] tiles[i]).layer_index < res.layers@.len()
            && -MAX_POS <= tiles[i].x <= MAX_POS
}

/// Every layer of the resource is well formed.
pub open spec fn layers_wf(res: ParallaxResource) -> bool {
    forall|j: int| 0 <= j < res.layers@.len() ==> (#[trigger] res.layers@[j]).valid()
}

/// One tick of the scroll engine over every tile instance. The engine
/// runs only while the game shows the menu or plays; in any other
/// state the tiles stay untouched. While it runs, each tile's
/// horizontal position takes one recycle step against its own layer,
/// and nothing else about any tile changes.
pub fn move_parallax_system(
    res: &ParallaxResource,
    tiles: &mut Vec<ParallaxItem>,
    state: GameState,
    player_x: i64,
    viewport_width: i64,
)
    requires
        layers_wf(*res),
        tiles_wf(old(tiles)@, *res),
        -MAX_POS <= player_x <= MAX_POS,
        0 <= viewport_width <= MAX_COORD,
        coord_in_range(res.initial_speed as int),
    ensures
        final(tiles)@.len() == old(tiles)@.len(),
        state != GameState::MainMenu && state != GameState::InGame ==> final(tiles)@ == old(
            tiles,
        )@,
        state == GameState::MainMenu || state == GameState::InGame ==> forall|i: int|
            0 <= i < old(tiles)@.len() ==> #[trigger] final(tiles)@[i] == (ParallaxItem {
                x: spec_recycle(
                    res.layers@[old(tiles)@[i].layer_index as int],
                    player_x as int,
                    old(tiles)@[i].x as int,
                    viewport_width as int,
                    res.initial_speed as int,
                ) as i64,
                ..old(tiles)@[i]
            }),
{
    match state {
        GameState::MainMenu | GameState::InGame => {},
        _ => {
            return ;
        },
    }
    let ghost orig = tiles@;
    let n = tiles.len();
    let mut i: usize = 0;
    while i < n
        invariant
            n == orig.len(),
            tiles@.len() == orig.len(),
            i <= n,
            layers_wf(*res),
            tiles_wf(orig, *res),
            -MAX_POS <= player_x <= MAX_POS,
            0 <= viewport_width <= MAX_COORD,
            coord_in_range(res.initial_speed as int),
            forall|k: int| i <= k < n ==> #[trigger] tiles@[k] == orig[k],
            forall|k: int|
                0 <= k < i ==> #[trigger] tiles@[k] == (ParallaxItem {
                    x: spec_recycle(
                        res.layers@[orig[k].layer_index as int],
                        player_x as int,
                        orig[k].x as int,
                        viewport_width as int,
                        res.initial_speed as int,
                    ) as i64,
                    ..orig[k]
                }),
        decreases n - i,
    {
        let tile = tiles[i];
        let layer = &res.layers[tile.layer_index];
        let new_x = recycle_tile(layer, player_x, tile.x, viewport_width, res.initial_speed);
        tiles[i].x = new_x;
        i = i + 1;
    }
}

} // verus!
