//! Tiles of the canvas, redrawn only when dirty.
//!
//! A tile covers a rectangle of the screen and holds the vertices that fall
//! in it. Its world bounds `B`, vertex type `V` and clock readings `T` are
//! the renderer's; the bookkeeping here does not look inside them.

use vstd::prelude::*;

verus! {

/// A screen tile.
#[derive(Debug, Clone)]
pub struct Tile<B, V, T> {
    /// The world rectangle the tile shows.
    pub bounds: B,
    pub screen_x: u32,
    pub screen_y: u32,
    pub screen_width: u32,
    pub screen_height: u32,
    /// The vertices drawn in the tile.
    pub vertices: Vec<V>,
    /// Whether the tile must be drawn again.
    pub dirty: bool,
    /// When the tile last changed.
    pub last_update: Option<T>,
}

impl<B, V: Copy, T> Tile<B, V, T> {
    /// A dirty tile without vertices, changed now.
    pub fn new(
        bounds: B,
        screen_x: u32,
        screen_y: u32,
        screen_width: u32,
        screen_height: u32,
        now: T,
    ) -> (t: Self)
        ensures
            t.bounds == bounds,
            t.screen_x == screen_x,
            t.screen_y == screen_y,
            t.screen_width == screen_width,
            t.screen_height == screen_height,
            t.vertices@ == Seq::<V>::empty(),
            t.dirty,
            t.last_update == Some(now),
    {
        Tile {
            bounds,
            screen_x,
            screen_y,
            screen_width,
            screen_height,
            vertices: Vec::new(),
            dirty: true,
            last_update: Some(now),
        }
    }

    /// Drops the vertices; the tile must be drawn again.
    pub fn clear(&mut self)
        ensures
            final(self).vertices@ == Seq::<V>::empty(),
            final(self).dirty,
            final(self).bounds == old(self).bounds,
            final(self).last_update == old(self).last_update,
            final(self).screen_x == old(self).screen_x,
            final(self).screen_y == old(self).screen_y,
            final(self).screen_width == old(self).screen_width,
            final(self).screen_height == old(self).screen_height,
    {
        self.vertices.clear();
        self.dirty = true;
    }

    /// Appends vertices; the tile must be drawn again and changed now.
    pub fn add_vertices(&mut self, vertices: &[V], now: T)
        ensures
            final(self).vertices@ == old(self).vertices@ + vertices@,
            final(self).dirty,
            final(self).last_update == Some(now),
            final(self).bounds == old(self).bounds,
            final(self).screen_x == old(self).screen_x,
            final(self).screen_y == old(self).screen_y,
            final(self).screen_width == old(self).screen_width,
            final(self).screen_height == old(self).screen_height,
    {
        let ghost start = self.vertices@;
        let mut i: usize = 0;
        while i < vertices.len()
            invariant
                i <= vertices@.len(),
                self.vertices@ == start + vertices@.take(i as int),
                self.bounds == old(self).bounds,
                self.screen_x == old(self).screen_x,
                self.screen_y == old(self).screen_y,
                self.screen_width == old(self).screen_width,
                self.screen_height == old(self).screen_height,
            decreases vertices@.len() - i,
        {
            self.vertices.push(vertices[i]);
            assert(start + vertices@.take(i as int).push(vertices@[i as int]) =~= start
                + vertices@.take(i + 1));
            i = i + 1;
        }
        assert(vertices@.take(vertices@.len() as int) =~= vertices@);
        self.dirty = true;
        self.last_update = Some(now);
    }

    pub fn vertex_count(&self) -> (n: usize)
        ensures
            n == self.vertices@.len(),
    {
        self.vertices.len()
    }

    /// Marks the tile as drawn.
    pub fn mark_clean(&mut self)
        ensures
            !final(self).dirty,
            final(self).vertices@ == old(self).vertices@,
            final(self).bounds == old(self).bounds,
            final(self).last_update == old(self).last_update,
            final(self).screen_x == old(self).screen_x,
            final(self).screen_y == old(self).screen_y,
            final(self).screen_width == old(self).screen_width,
            final(self).screen_height == old(self).screen_height,
    {
        self.dirty = false;
    }
}

/// A screen rectangle to redraw and the tiles it covers.
#[derive(Debug, Clone)]
pub struct TileRegion {
    pub min_x: u32,
    pub min_y: u32,
    pub max_x: u32,
    pub max_y: u32,
    pub tiles: Vec<u64>,
}

impl TileRegion {
    pub fn width(&self) -> (w: u32)
        requires
            self.min_x <= self.max_x,
        ensures
            w == self.max_x - self.min_x,
    {
        self.max_x - self.min_x
    }

    pub fn height(&self) -> (h: u32)
        requires
            self.min_y <= self.max_y,
        ensures
            h == self.max_y - self.min_y,
    {
        self.max_y - self.min_y
    }
}

/// The key of a tile: its column in the high 32 bits, its row in the low
/// 32 bits, both in two's complement.
pub open spec fn spec_tile_key(x: i32, y: i32) -> u64 {
    ((x as u64) << 32u64) | ((y as u64) & 0xFFFF_FFFFu64)
}

pub fn tile_key(tile_x: i32, tile_y: i32) -> (k: u64)
    ensures
        k == spec_tile_key(tile_x, tile_y),
{
    ((tile_x as u64) << 32u64) | ((tile_y as u64) & 0xFFFF_FFFFu64)
}

/// The column and row a key stands for.
pub fn decode_tile_key(key: u64) -> (r: (i32, i32))
    ensures
        r == ((key >> 32u64) as i32, (key & 0xFFFF_FFFFu64) as i32),
{
    let x = (key >> 32u64) as i32;
    let y = (key & 0xFFFF_FFFFu64) as i32;
    (x, y)
}

/// Decoding the key of a tile gives its column and row back.
pub proof fn lemma_tile_key_roundtrip(x: i32, y: i32)
    ensures
        (spec_tile_key(x, y) >> 32u64) as i32 == x,
        (spec_tile_key(x, y) & 0xFFFF_FFFFu64) as i32 == y,
{
    assert((((x as u64) << 32u64) | ((y as u64) & 0xFFFF_FFFFu64)) >> 32u64 == (x as u64) >> 0u64
        & 0xFFFF_FFFFu64) by (bit_vector);
    assert(((((x as u64) << 32u64) | ((y as u64) & 0xFFFF_FFFFu64)) >> 32u64) as i32 == x)
        by (bit_vector);
    assert(((((x as u64) << 32u64) | ((y as u64) & 0xFFFF_FFFFu64)) & 0xFFFF_FFFFu64) as i32 == y)
        by (bit_vector);
}

/// Different tiles have different keys.
pub proof fn lemma_tile_key_injective(x1: i32, y1: i32, x2: i32, y2: i32)
    requires
        spec_tile_key(x1, y1) == spec_tile_key(x2, y2),
    ensures
        x1 == x2,
        y1 == y2,
{
    lemma_tile_key_roundtrip(x1, y1);
    lemma_tile_key_roundtrip(x2, y2);
}

/// Whether a key occurs among the first `n` entries.
pub open spec fn key_among<B, V, T>(tiles: Seq<(u64, Tile<B, V, T>)>, n: int, key: u64) -> bool {
    exists|j: int| 0 <= j < n && #[trigger] tiles[j].0 == key
}

/// The regions to redraw: one per dirty tile, in order, a key counted once,
/// each spanning its tile's screen rectangle.
pub open spec fn dirty_regions_of<B, V, T>(tiles: Seq<(u64, Tile<B, V, T>)>) -> Seq<(u64, u32, u32, u32, u32)>
    decreases tiles.len(),
{
    if tiles.len() == 0 {
        Seq::empty()
    } else {
        let prev = dirty_regions_of(tiles.drop_last());
        let (key, t) = tiles.last();
        if t.dirty && !(exists|j: int| 0 <= j < prev.len() && #[trigger] prev[j].0 == key) {
            prev.push(
                (
                    key,
                    t.screen_x,
                    t.screen_y,
                    (t.screen_x + t.screen_width) as u32,
                    (t.screen_y + t.screen_height) as u32,
                ),
            )
        } else {
            prev
        }
    }
}

/// The values of a region with one tile.
pub open spec fn region_view(r: TileRegion) -> (u64, u32, u32, u32, u32) {
    (if r.tiles@.len() > 0 { r.tiles@[0] } else { 0 }, r.min_x, r.min_y, r.max_x, r.max_y)
}

/// No tile reaches past the screen's 32-bit coordinates.
pub open spec fn fits_screen<B, V, T>(tiles: Seq<(u64, Tile<B, V, T>)>) -> bool {
    forall|i: int|
        0 <= i < tiles.len() ==> (#[trigger] tiles[i]).1.screen_x + tiles[i].1.screen_width
            <= u32::MAX && tiles[i].1.screen_y + tiles[i].1.screen_height <= u32::MAX
}

/// The regions to redraw for the dirty tiles, one tile each.
pub fn optimize_dirty_regions<B, V, T>(tiles: &[(u64, Tile<B, V, T>)]) -> (r: Vec<TileRegion>)
    requires
        fits_screen(tiles@),
    ensures
        r@.len() == dirty_regions_of(tiles@).len(),
        forall|i: int|
            0 <= i < r@.len() ==> (#[trigger] r@[i]).tiles@.len() == 1 && region_view(r@[i])
                == dirty_regions_of(tiles@)[i],
{
    let mut regions: Vec<TileRegion> = Vec::new();
    let mut i: usize = 0;
    while i < tiles.len()
        invariant
            i <= tiles@.len(),
            fits_screen(tiles@),
            regions@.len() == dirty_regions_of(tiles@.take(i as int)).len(),
            forall|k: int|
                0 <= k < regions@.len() ==> (#[trigger] regions@[k]).tiles@.len() == 1
                    && region_view(regions@[k]) == dirty_regions_of(tiles@.take(i as int))[k],
        decreases tiles@.len() - i,
    {
        let key = tiles[i].0;
        let ghost prev = dirty_regions_of(tiles@.take(i as int));
        let ghost next = tiles@.take(i + 1);
        proof {
            assert(next.drop_last() =~= tiles@.take(i as int));
            assert(next.last() == tiles@[i as int]);
        }
        let t = &tiles[i].1;
        if t.dirty {
            let mut seen = false;
            let mut k: usize = 0;
            while k < regions.len()
                invariant
                    k <= regions@.len(),
                    regions@.len() == prev.len(),
                    forall|m: int|
                        0 <= m < regions@.len() ==> (#[trigger] regions@[m]).tiles@.len() == 1
                            && region_view(regions@[m]) == prev[m],
                    seen == exists|j: int| 0 <= j < k && #[trigger] prev[j].0 == key,
                decreases regions@.len() - k,
            {
                proof {
                    assert(region_view(regions@[k as int]) == prev[k as int]);
                    assert(regions@[k as int].tiles@[0] == prev[k as int].0);
                }
                let ghost was = seen;
                if regions[k].tiles[0] == key {
                    seen = true;
                }
                proof {
                    if seen && !was {
                        assert(prev[k as int].0 == key);
                    }
                    if !seen {
                        assert forall|j: int| 0 <= j < k + 1 implies #[trigger] prev[j].0 != key by {
                            if j == k {
                                assert(prev[k as int].0 != key);
                            }
                        }
                    }
                }
                k = k + 1;
            }
            if !seen {
                let mut ks: Vec<u64> = Vec::new();
                ks.push(key);
                let region = TileRegion {
                    min_x: t.screen_x,
                    min_y: t.screen_y,
                    max_x: t.screen_x + t.screen_width,
                    max_y: t.screen_y + t.screen_height,
                    tiles: ks,
                };
                proof {
                    assert(tiles@[i as int].1.screen_x + tiles@[i as int].1.screen_width <= u32::MAX);
                }
                regions.push(region);
            }
        }
        i = i + 1;
    }
    assert(tiles@.take(tiles@.len() as int) =~= tiles@);
    regions
}

} // verus!
