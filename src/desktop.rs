//! The virtual-desktop model: the displays and the coordinate space that spans them.
use vstd::prelude::*;
use crate::geometry::{area_rect, rects_overlap};

verus! {

/// One display as reported when a session starts; the scale is in thousandths.
#[derive(Debug, Clone)]
pub struct DisplayInfo {
    pub id: u32,
    pub name: String,
    pub is_primary: bool,
    pub x: i32,
    pub y: i32,
    pub width: u32,
    pub height: u32,
    pub scale_milli: u32,
}

/// A display's rectangle in physical pixels, with its scale in thousandths.
#[derive(Debug, Clone, Copy, PartialEq, Eq, Structural)]
pub struct MonitorLayout {
    pub x: i32,
    pub y: i32,
    pub width: u32,
    pub height: u32,
    pub scale_milli: u32,
}

/// The bounding box of all displays.
#[derive(Debug, Clone, Copy, PartialEq, Eq, Structural)]
pub struct VirtualBounds {
    pub min_x: i32,
    pub min_y: i32,
    pub max_x: i32,
    pub max_y: i32,
    pub width: u32,
    pub height: u32,
}

/// Why a virtual desktop cannot be built.
#[derive(Debug, Clone, Copy, PartialEq, Eq, Structural)]
pub enum DesktopError {
    /// No display was reported.
    NoDisplays,
}

/// The displays and their bounding box.
#[derive(Debug, Clone)]
pub struct VirtualDesktop {
    pub displays: Vec<DisplayInfo>,
    pub total_bounds: VirtualBounds,
}

/// A display's right edge.
pub open spec fn right_of(d: DisplayInfo) -> int {
    d.x + d.width
}

/// A display's bottom edge.
pub open spec fn bottom_of(d: DisplayInfo) -> int {
    d.y + d.height
}

/// Every display's right and bottom edges fit in `i32`.
pub open spec fn edges_fit(ds: Seq<DisplayInfo>) -> bool {
    forall|i: int| 0 <= i < ds.len() ==> right_of(#[trigger] ds[i]) <= i32::MAX && bottom_of(ds[i]) <= i32::MAX
}

/// `b` is the tight bounding box of the displays: each edge is reached by some
/// display and passed by none, and the size is the distance between the edges.
pub open spec fn is_tight_bounds(b: VirtualBounds, ds: Seq<DisplayInfo>) -> bool {
    &&& forall|i: int|
        0 <= i < ds.len() ==> b.min_x <= (#[trigger] ds[i]).x && b.min_y <= ds[i].y && right_of(ds[i])
            <= b.max_x && bottom_of(ds[i]) <= b.max_y
    &&& exists|i: int| 0 <= i < ds.len() && (#[trigger] ds[i]).x == b.min_x
    &&& exists|i: int| 0 <= i < ds.len() && (#[trigger] ds[i]).y == b.min_y
    &&& exists|i: int| 0 <= i < ds.len() && right_of(#[trigger] ds[i]) == b.max_x
    &&& exists|i: int| 0 <= i < ds.len() && bottom_of(#[trigger] ds[i]) == b.max_y
    &&& b.width == b.max_x - b.min_x
    &&& b.height == b.max_y - b.min_y
}

/// Whether the point lies in the display's rectangle (right and bottom edges excluded).
pub open spec fn display_contains(d: DisplayInfo, x: int, y: int) -> bool {
    d.x <= x < right_of(d) && d.y <= y < bottom_of(d)
}

/// Whether the display's rectangle overlaps the area at `(x, y)` of the given size.
pub open spec fn display_overlaps(d: DisplayInfo, x: int, y: int, w: int, h: int) -> bool {
    rects_overlap(area_rect(x, y, w, h), area_rect(d.x as int, d.y as int, d.width as int, d.height as int))
}

/// The physical layout of a display: its rectangle scaled by its own factor,
/// rounded to the nearest pixel (halves away from zero).
pub open spec fn scaled_coord(v: int, scale_milli: int) -> int {
    if v >= 0 {
        (v * scale_milli + 500) / 1000
    } else {
        -(((-v) * scale_milli + 500) / 1000)
    }
}

impl VirtualDesktop {
    /// Builds the desktop from the reported displays, with the tight bounding box
    /// of their rectangles; an empty list cannot make a desktop.
    pub fn from_displays(displays: Vec<DisplayInfo>) -> (r: Result<VirtualDesktop, DesktopError>)
        requires
            edges_fit(displays@),
        ensures
            displays@.len() == 0 <==> r == Err::<VirtualDesktop, DesktopError>(DesktopError::NoDisplays),
            r is Ok ==> r->Ok_0.displays@ == displays@ && is_tight_bounds(r->Ok_0.total_bounds, displays@),
    {
        if displays.len() == 0 {
            return Err(DesktopError::NoDisplays);
        }
        let mut min_x: i32 = displays[0].x;
        let mut min_y: i32 = displays[0].y;
        let mut max_x: i32 = (displays[0].x as i64 + displays[0].width as i64) as i32;
        let mut max_y: i32 = (displays[0].y as i64 + displays[0].height as i64) as i32;
        let ghost mut wx: int = 0;
        let ghost mut wy: int = 0;
        let ghost mut wr: int = 0;
        let ghost mut wb: int = 0;
        let mut i: usize = 1;
        while i < displays.len()
            invariant
                1 <= i <= displays@.len(),
                edges_fit(displays@),
                0 <= wx < i && displays@[wx].x == min_x,
                0 <= wy < i && displays@[wy].y == min_y,
                0 <= wr < i && right_of(displays@[wr]) == max_x,
                0 <= wb < i && bottom_of(displays@[wb]) == max_y,
                forall|j: int|
                    0 <= j < i ==> min_x <= (#[trigger] displays@[j]).x && min_y <= displays@[j].y
                        && right_of(displays@[j]) <= max_x && bottom_of(displays@[j]) <= max_y,
            decreases displays@.len() - i,
        {
            let d = &displays[i];
            let r = (d.x as i64 + d.width as i64) as i32;
            let b = (d.y as i64 + d.height as i64) as i32;
            if d.x < min_x {
                min_x = d.x;
                proof { wx = i as int; }
            }
            if d.y < min_y {
                min_y = d.y;
                proof { wy = i as int; }
            }
            if r > max_x {
                max_x = r;
                proof { wr = i as int; }
            }
            if b > max_y {
                max_y = b;
                proof { wb = i as int; }
            }
            i = i + 1;
        }
        let total_bounds = VirtualBounds {
            min_x,
            min_y,
            max_x,
            max_y,
            width: (max_x as i64 - min_x as i64) as u32,
            height: (max_y as i64 - min_y as i64) as u32,
        };
        proof {
            assert(displays@[0].x >= min_x && right_of(displays@[0]) <= max_x);
            assert(displays@[0].y >= min_y && bottom_of(displays@[0]) <= max_y);
        }
        Ok(VirtualDesktop { displays, total_bounds })
    }

    /// The first display marked primary.
    pub fn primary_display(&self) -> (r: Option<&DisplayInfo>)
        ensures
            r is None <==> forall|i: int| 0 <= i < self.displays@.len() ==> !(#[trigger] self.displays@[i]).is_primary,
            r is Some ==> exists|i: int|
                0 <= i < self.displays@.len() && *r->Some_0 == self.displays@[i] && self.displays@[i].is_primary
                    && forall|j: int| 0 <= j < i ==> !(#[trigger] self.displays@[j]).is_primary,
    {
        let mut i: usize = 0;
        while i < self.displays.len()
            invariant
                0 <= i <= self.displays@.len(),
                forall|j: int| 0 <= j < i ==> !(#[trigger] self.displays@[j]).is_primary,
            decreases self.displays@.len() - i,
        {
            if self.displays[i].is_primary {
                return Some(&self.displays[i]);
            }
            i = i + 1;
        }
        None
    }

    /// The first display whose rectangle contains the point.
    pub fn find_display_at(&self, x: i32, y: i32) -> (r: Option<&DisplayInfo>)
        ensures
            r is None <==> forall|i: int|
                0 <= i < self.displays@.len() ==> !display_contains(#[trigger] self.displays@[i], x as int, y as int),
            r is Some ==> exists|i: int|
                0 <= i < self.displays@.len() && *r->Some_0 == self.displays@[i] && display_contains(
                    self.displays@[i],
                    x as int,
                    y as int,
                ) && forall|j: int| 0 <= j < i ==> !display_contains(#[trigger] self.displays@[j], x as int, y as int),
    {
        let mut i: usize = 0;
        while i < self.displays.len()
            invariant
                0 <= i <= self.displays@.len(),
                forall|j: int| 0 <= j < i ==> !display_contains(#[trigger] self.displays@[j], x as int, y as int),
            decreases self.displays@.len() - i,
        {
            let d = &self.displays[i];
            let right = d.x as i64 + d.width as i64;
            let bottom = d.y as i64 + d.height as i64;
            if d.x as i64 <= x as i64 && (x as i64) < right && d.y as i64 <= y as i64 && (y as i64) < bottom {
                return Some(d);
            }
            i = i + 1;
        }
        None
    }

    /// Every display whose rectangle overlaps the area at `(x, y)` of the given
    /// size, in display order.
    pub fn displays_in_region(&self, x: i32, y: i32, width: u32, height: u32) -> (r: Vec<&DisplayInfo>)
        ensures
            r@.map_values(|d: &DisplayInfo| *d) == self.displays@.filter(
                |d: DisplayInfo| display_overlaps(d, x as int, y as int, width as int, height as int),
            ),
    {
        let ghost pred = |d: DisplayInfo| display_overlaps(d, x as int, y as int, width as int, height as int);
        let mut out: Vec<&DisplayInfo> = Vec::new();
        let mut i: usize = 0;
        while i < self.displays.len()
            invariant
                0 <= i <= self.displays@.len(),
                pred == (|d: DisplayInfo| display_overlaps(d, x as int, y as int, width as int, height as int)),
                out@.map_values(|d: &DisplayInfo| *d) == self.displays@.take(i as int).filter(pred),
            decreases self.displays@.len() - i,
        {
            let d = &self.displays[i];
            let x2 = x as i64 + width as i64;
            let y2 = y as i64 + height as i64;
            let dx2 = d.x as i64 + d.width as i64;
            let dy2 = d.y as i64 + d.height as i64;
            let hit = !(x2 <= d.x as i64 || x as i64 >= dx2 || y2 <= d.y as i64 || y as i64 >= dy2);
            proof {
                assert(self.displays@.take(i as int + 1) =~= self.displays@.take(i as int).push(self.displays@[i as int]));
                self.displays@.take(i as int).lemma_filter_push(self.displays@[i as int], pred);
            }
            if hit {
                out.push(d);
            }
            assert(out@.map_values(|d: &DisplayInfo| *d) =~= self.displays@.take(i as int + 1).filter(pred));
            i = i + 1;
        }
        assert(self.displays@.take(self.displays@.len() as int) =~= self.displays@);
        out
    }

    /// A virtual-desktop point relative to the display's top-left corner.
    pub fn virtual_to_display_coords(&self, display: &DisplayInfo, vx: i32, vy: i32) -> (r: (i64, i64))
        ensures
            r == ((vx - display.x) as i64, (vy - display.y) as i64),
    {
        (vx as i64 - display.x as i64, vy as i64 - display.y as i64)
    }

    /// A display-relative point in virtual-desktop coordinates.
    pub fn display_to_virtual_coords(&self, display: &DisplayInfo, dx: i32, dy: i32) -> (r: (i64, i64))
        ensures
            r == ((dx + display.x) as i64, (dy + display.y) as i64),
    {
        (dx as i64 + display.x as i64, dy as i64 + display.y as i64)
    }

    /// The physical layout of every display, in display order.
    pub fn monitor_layouts(&self) -> (r: Vec<MonitorLayout>)
        ensures
            r@.len() == self.displays@.len(),
            forall|i: int| 0 <= i < r@.len() ==> #[trigger] r@[i] == layout_of(self.displays@[i]),
    {
        let mut out: Vec<MonitorLayout> = Vec::new();
        let mut i: usize = 0;
        while i < self.displays.len()
            invariant
                0 <= i <= self.displays@.len(),
                out@.len() == i,
                forall|j: int| 0 <= j < i ==> #[trigger] out@[j] == layout_of(self.displays@[j]),
            decreases self.displays@.len() - i,
        {
            out.push(physical_layout(&self.displays[i]));
            i = i + 1;
        }
        out
    }
}

/// A display's physical layout; coordinates that do not fit their type saturate.
pub open spec fn layout_of(d: DisplayInfo) -> MonitorLayout {
    MonitorLayout {
        x: sat_i32(scaled_coord(d.x as int, d.scale_milli as int)),
        y: sat_i32(scaled_coord(d.y as int, d.scale_milli as int)),
        width: sat_u32(scaled_coord(d.width as int, d.scale_milli as int)),
        height: sat_u32(scaled_coord(d.height as int, d.scale_milli as int)),
        scale_milli: d.scale_milli,
    }
}

/// `v` saturated into `i32`.
pub open spec fn sat_i32(v: int) -> i32 {
    if v < i32::MIN {
        i32::MIN
    } else if v > i32::MAX {
        i32::MAX
    } else {
        v as i32
    }
}

/// `v` saturated into `u32`.
pub open spec fn sat_u32(v: int) -> u32 {
    if v < 0 {
        0
    } else if v > u32::MAX {
        u32::MAX
    } else {
        v as u32
    }
}

fn scale_coord(v: i64, scale_milli: u32) -> (r: i128)
    requires
        -0x1_0000_0000 <= v <= 0x1_0000_0000,
    ensures
        r == scaled_coord(v as int, scale_milli as int),
{
    let m: i128 = if v >= 0 {
        v as i128
    } else {
        -(v as i128)
    };
    assert(0 <= m * (scale_milli as i128) <= 0x1_0000_0000 * 0x1_0000_0000) by (nonlinear_arith)
        requires
            0 <= m <= 0x1_0000_0000,
            0 <= scale_milli <= 0xffff_ffff,
    ;
    let q: i128 = (m * scale_milli as i128 + 500) / 1000;
    if v >= 0 {
        q
    } else {
        -q
    }
}

fn sat_to_i32(v: i128) -> (r: i32)
    ensures
        r == sat_i32(v as int),
{
    if v < i32::MIN as i128 {
        i32::MIN
    } else if v > i32::MAX as i128 {
        i32::MAX
    } else {
        v as i32
    }
}

fn sat_to_u32(v: i128) -> (r: u32)
    ensures
        r == sat_u32(v as int),
{
    if v < 0 {
        0
    } else if v > u32::MAX as i128 {
        u32::MAX
    } else {
        v as u32
    }
}

/// A display's rectangle scaled by its own factor, in physical pixels.
pub fn physical_layout(d: &DisplayInfo) -> (r: MonitorLayout)
    ensures
        r == layout_of(*d),
{
    MonitorLayout {
        x: sat_to_i32(scale_coord(d.x as i64, d.scale_milli)),
        y: sat_to_i32(scale_coord(d.y as i64, d.scale_milli)),
        width: sat_to_u32(scale_coord(d.width as i64, d.scale_milli)),
        height: sat_to_u32(scale_coord(d.height as i64, d.scale_milli)),
        scale_milli: d.scale_milli,
    }
}

/// Whether two display-sized areas overlap does not depend on which is asked about.
pub proof fn lemma_region_overlap_symmetric(d: DisplayInfo, x: int, y: int, w: int, h: int)
    ensures
        display_overlaps(d, x, y, w, h) == rects_overlap(
            area_rect(d.x as int, d.y as int, d.width as int, d.height as int),
            area_rect(x, y, w, h),
        ),
{
}

} // verus!
