use vstd::prelude::*;
use crate::graphics::flats::FlatNumber;
use crate::number::RealNumber;
use crate::rendering::RENDER_WIDTH;

verus! {

/// Size of the visplane pool.
pub const MAX_VISPLANES: usize = 128;

/// The top of a visplane column that holds nothing.
pub const EMPTY_COLUMN: u8 = 0xff;

/// A floor or ceiling region of one height, flat and light, column by column.
#[derive(Clone, Debug)]
pub struct VisPlane {
    pub height: RealNumber,
    pub picnum: FlatNumber,
    pub light_level: i16,
    pub min_x: i32,
    pub max_x: i32,
    pub top: Vec<u8>,
    pub bottom: Vec<u8>,
}

impl VisPlane {
    /// Its columns cover the screen, each column is empty or runs downwards, and the
    /// columns outside `min_x..=max_x` are empty.
    pub open spec fn wf(&self) -> bool {
        &&& self.top@.len() == RENDER_WIDTH
        &&& self.bottom@.len() == RENDER_WIDTH
        &&& forall|x: int|
            0 <= x < RENDER_WIDTH ==> #[trigger] self.top@[x] == EMPTY_COLUMN || (self.top@[x]
                <= self.bottom@[x] && self.min_x <= x <= self.max_x)
    }

    /// Whether the plane is for this height, flat and light.
    pub open spec fn has_key(&self, height: RealNumber, picnum: FlatNumber, light_level: i16) -> bool {
        self.height@ == height@ && self.picnum == picnum && self.light_level == light_level
    }

    /// A plane with no columns yet.
    pub fn empty(height: RealNumber, picnum: FlatNumber, light_level: i16, min_x: i32, max_x: i32) -> (r: Self)
        ensures
            r.wf(),
            r.has_key(height, picnum, light_level),
            r.min_x == min_x,
            r.max_x == max_x,
            forall|x: int| 0 <= x < RENDER_WIDTH ==> #[trigger] r.top@[x] == EMPTY_COLUMN,
    {
        let mut top: Vec<u8> = Vec::new();
        let mut bottom: Vec<u8> = Vec::new();
        let mut x: usize = 0;
        while x < RENDER_WIDTH
            invariant
                x <= RENDER_WIDTH,
                top@.len() == x,
                bottom@.len() == x,
                forall|k: int| 0 <= k < x ==> #[trigger] top@[k] == EMPTY_COLUMN,
            decreases RENDER_WIDTH - x,
        {
            top.push(EMPTY_COLUMN);
            bottom.push(0u8);
            x = x + 1;
        }
        VisPlane { height, picnum, light_level, min_x, max_x, top, bottom }
    }
}

/// The per-frame clip arrays and the visplane pool.
pub struct Planes {
    pub view_height: usize,
    pub floor_clip: Vec<i16>,
    pub ceiling_clip: Vec<i16>,
    pub visible_planes: Vec<VisPlane>,
    pub last_visible_plane: usize,
}

impl Planes {
    /// The clip arrays span the screen with values in `[-1, view_height]`, and the pool
    /// holds at most `MAX_VISPLANES` well-formed planes.
    pub open spec fn wf(&self) -> bool {
        let view_height = self.view_height as int;
        &&& view_height <= 200
        &&& self.floor_clip@.len() == RENDER_WIDTH
        &&& self.ceiling_clip@.len() == RENDER_WIDTH
        &&& forall|x: int|
            0 <= x < RENDER_WIDTH ==> -1 <= #[trigger] self.floor_clip@[x] <= view_height && -1
                <= self.ceiling_clip@[x] <= view_height
        &&& self.last_visible_plane == self.visible_planes@.len()
        &&& self.visible_planes@.len() <= MAX_VISPLANES
        &&& forall|p: int| 0 <= p < self.visible_planes@.len() ==> (#[trigger] self.visible_planes@[p]).wf()
    }

    /// Fresh clip arrays (floor at the view's bottom, ceiling above its top) and an empty
    /// pool.
    pub fn new(view_height: usize) -> (r: Self)
        requires
            view_height <= 200,
        ensures
            r.wf(),
            r.view_height == view_height,
            r.visible_planes@.len() == 0,
            forall|x: int|
                0 <= x < RENDER_WIDTH ==> #[trigger] r.floor_clip@[x] == view_height
                    && r.ceiling_clip@[x] == -1,
    {
        let mut floor_clip: Vec<i16> = Vec::new();
        let mut ceiling_clip: Vec<i16> = Vec::new();
        let mut x: usize = 0;
        while x < RENDER_WIDTH
            invariant
                x <= RENDER_WIDTH,
                view_height <= 200,
                floor_clip@.len() == x,
                ceiling_clip@.len() == x,
                forall|k: int|
                    0 <= k < x ==> #[trigger] floor_clip@[k] == view_height && ceiling_clip@[k] == -1,
            decreases RENDER_WIDTH - x,
        {
            floor_clip.push(view_height as i16);
            ceiling_clip.push(-1);
            x = x + 1;
        }
        Planes { view_height, floor_clip, ceiling_clip, visible_planes: Vec::new(), last_visible_plane: 0 }
    }
}

/// The key a plane is looked up by: sky planes share height 0 and light 0.
pub open spec fn plane_key(sky: FlatNumber, height: RealNumber, picnum: FlatNumber, light_level: i16) -> (int, i16) {
    if picnum == sky { (0, 0) } else { (height@ as int, light_level) }
}

/// Finds the first visplane of this height, flat and light (sky planes all share one),
/// or starts a new one; `None` when none matches and the pool is full.
pub fn find_plane_index(
    sky_flat: FlatNumber,
    height: RealNumber,
    picnum: FlatNumber,
    light_level: i16,
    planes: &mut Planes,
) -> (r: Option<usize>)
    requires
        old(planes).wf(),
    ensures
        final(planes).wf(),
        final(planes).floor_clip == old(planes).floor_clip,
        final(planes).view_height == old(planes).view_height,
        final(planes).ceiling_clip == old(planes).ceiling_clip,
        forall|p: int| 0 <= p < old(planes).visible_planes@.len() ==> #[trigger] final(planes).visible_planes@[p]
            == old(planes).visible_planes@[p],
        final(planes).visible_planes@.len() >= old(planes).visible_planes@.len(),
        r matches Some(i) ==> i < final(planes).visible_planes@.len()
            && final(planes).visible_planes@[i as int].height@ == plane_key(sky_flat, height, picnum, light_level).0
            && final(planes).visible_planes@[i as int].light_level == plane_key(sky_flat, height, picnum, light_level).1
            && final(planes).visible_planes@[i as int].picnum == picnum,
        r matches Some(i) ==> forall|p: int|
            0 <= p < i && p < old(planes).visible_planes@.len() ==> !(
            (#[trigger] old(planes).visible_planes@[p]).height@ == plane_key(sky_flat, height, picnum, light_level).0
                && old(planes).visible_planes@[p].light_level == plane_key(sky_flat, height, picnum, light_level).1
                && old(planes).visible_planes@[p].picnum == picnum),
        r == Some(old(planes).visible_planes@.len() as usize) ==> {
            let i = old(planes).visible_planes@.len() as int;
            &&& final(planes).visible_planes@.len() == i + 1
            &&& final(planes).visible_planes@[i].min_x == RENDER_WIDTH
            &&& final(planes).visible_planes@[i].max_x == -1
            &&& forall|x: int| 0 <= x < RENDER_WIDTH ==> #[trigger] final(planes).visible_planes@[i].top@[x] == EMPTY_COLUMN
        },
        r matches Some(i) ==> (i < old(planes).visible_planes@.len() ==> final(planes).visible_planes@.len()
            == old(planes).visible_planes@.len()),
        r is None ==> old(planes).visible_planes@.len() == MAX_VISPLANES && *final(planes) == *old(planes),
        r is None ==> forall|p: int|
            0 <= p < old(planes).visible_planes@.len() ==> !(
            (#[trigger] old(planes).visible_planes@[p]).height@ == plane_key(sky_flat, height, picnum, light_level).0
                && old(planes).visible_planes@[p].light_level == plane_key(sky_flat, height, picnum, light_level).1
                && old(planes).visible_planes@[p].picnum == picnum),
        r matches Some(i) ==> i <= old(planes).visible_planes@.len(),
{
    let (key_height, key_light) = if picnum == sky_flat {
        (RealNumber::new_from_bits(0), 0i16)
    } else {
        (height, light_level)
    };
    let mut i: usize = 0;
    while i < planes.last_visible_plane
        invariant
            planes.wf(),
            *planes == *old(planes),
            i <= planes.visible_planes@.len(),
            key_height@ == plane_key(sky_flat, height, picnum, light_level).0,
            key_light == plane_key(sky_flat, height, picnum, light_level).1,
            forall|p: int|
                0 <= p < i ==> !((#[trigger] planes.visible_planes@[p]).height@ == key_height@
                    && planes.visible_planes@[p].light_level == key_light
                    && planes.visible_planes@[p].picnum == picnum),
        decreases planes.visible_planes@.len() - i,
    {
        let plane = &planes.visible_planes[i];
        if plane.height.to_bits() == key_height.to_bits() && plane.picnum == picnum && plane.light_level
            == key_light {
            return Some(i);
        }
        i = i + 1;
    }
    if planes.last_visible_plane >= MAX_VISPLANES {
        return None;
    }
    let plane = VisPlane::empty(key_height, picnum, key_light, RENDER_WIDTH as i32, -1);
    let ghost before = planes.visible_planes@;
    planes.visible_planes.push(plane);
    planes.last_visible_plane = planes.last_visible_plane + 1;
    proof {
        assert forall|p: int| 0 <= p < planes.visible_planes@.len() implies (#[trigger] planes.visible_planes@[p]).wf() by {
            if p < before.len() {
                assert(planes.visible_planes@[p] == before[p]);
            }
        }
    }
    Some(i)
}

/// The columns `lo..=hi` of a plane are all empty.
pub open spec fn columns_empty(plane: VisPlane, lo: int, hi: int) -> bool {
    forall|x: int| lo <= x <= hi ==> #[trigger] plane.top@[x] == EMPTY_COLUMN
}

/// Makes plane `index` cover the columns `start..=stop`: the same plane, widened, when the
/// columns it already spans within that range are empty; else a new plane of the same
/// height, flat and light for exactly that range (`None` when the pool is full). Either
/// way the columns `start..=stop` of the plane returned are empty, so none is written
/// twice.
pub fn check_plane(planes: &mut Planes, index: usize, start: i32, stop: i32) -> (r: Option<usize>)
    requires
        old(planes).wf(),
        index < old(planes).visible_planes@.len(),
        0 <= start <= stop < RENDER_WIDTH,
    ensures
        final(planes).wf(),
        final(planes).floor_clip == old(planes).floor_clip,
        final(planes).view_height == old(planes).view_height,
        final(planes).ceiling_clip == old(planes).ceiling_clip,
        final(planes).visible_planes@.len() >= old(planes).visible_planes@.len(),
        forall|p: int| 0 <= p < old(planes).visible_planes@.len() && p != index ==> #[trigger] final(planes).visible_planes@[p]
            == old(planes).visible_planes@[p],
        ({
            let old_plane = old(planes).visible_planes@[index as int];
            let lo = if start > old_plane.min_x { start as int } else { old_plane.min_x as int };
            let hi = if stop < old_plane.max_x { stop as int } else { old_plane.max_x as int };
            if columns_empty(old_plane, lo, hi) {
                &&& r == Some(index)
                &&& final(planes).visible_planes@.len() == old(planes).visible_planes@.len()
                &&& final(planes).visible_planes@[index as int].min_x == (if start < old_plane.min_x { start } else { old_plane.min_x })
                &&& final(planes).visible_planes@[index as int].max_x == (if stop > old_plane.max_x { stop } else { old_plane.max_x })
                &&& final(planes).visible_planes@[index as int].top == old_plane.top
                &&& final(planes).visible_planes@[index as int].bottom == old_plane.bottom
                &&& final(planes).visible_planes@[index as int].has_key(old_plane.height, old_plane.picnum, old_plane.light_level)
            } else if old(planes).visible_planes@.len() < MAX_VISPLANES {
                &&& r == Some(old(planes).visible_planes@.len() as usize)
                &&& final(planes).visible_planes@.len() == old(planes).visible_planes@.len() + 1
                &&& final(planes).visible_planes@[index as int] == old_plane
                &&& final(planes).visible_planes@[r->0 as int].min_x == start
                &&& final(planes).visible_planes@[r->0 as int].max_x == stop
                &&& final(planes).visible_planes@[r->0 as int].has_key(old_plane.height, old_plane.picnum, old_plane.light_level)
                &&& columns_empty(final(planes).visible_planes@[r->0 as int], 0, RENDER_WIDTH - 1)
            } else {
                r is None && *final(planes) == *old(planes)
            }
        }),
        r matches Some(i) ==> i < final(planes).visible_planes@.len() && columns_empty(
            final(planes).visible_planes@[i as int],
            start as int,
            stop as int,
        ),
{
    let min_x = planes.visible_planes[index].min_x;
    let max_x = planes.visible_planes[index].max_x;
    let (intrl, unionl) = if start < min_x { (min_x, start) } else { (start, min_x) };
    let (intrh, unionh) = if stop > max_x { (max_x, stop) } else { (stop, max_x) };
    let mut x: i32 = intrl;
    let mut all_empty = true;
    while x <= intrh && all_empty
        invariant
            planes.wf(),
            index < planes.visible_planes@.len(),
            0 <= start <= intrl,
            intrh <= stop < RENDER_WIDTH,
            intrl <= x,
            x <= intrh + 1 || x == intrl,
            all_empty ==> columns_empty(planes.visible_planes@[index as int], intrl as int, x - 1),
            !all_empty ==> x <= intrh && planes.visible_planes@[index as int].top@[x as int] != EMPTY_COLUMN,
        decreases intrh + 1 - x + (if all_empty { 1int } else { 0 }),
    {
        if planes.visible_planes[index].top[x as usize] != EMPTY_COLUMN {
            all_empty = false;
        } else {
            x = x + 1;
        }
    }
    if all_empty {
        planes.visible_planes[index].min_x = unionl;
        planes.visible_planes[index].max_x = unionh;
        return Some(index);
    }
    if planes.last_visible_plane >= MAX_VISPLANES {
        return None;
    }
    let height = planes.visible_planes[index].height;
    let picnum = planes.visible_planes[index].picnum;
    let light_level = planes.visible_planes[index].light_level;
    let plane = VisPlane::empty(height, picnum, light_level, start, stop);
    let ghost before = planes.visible_planes@;
    let new_index = planes.last_visible_plane;
    planes.visible_planes.push(plane);
    planes.last_visible_plane = planes.last_visible_plane + 1;
    proof {
        assert forall|p: int| 0 <= p < planes.visible_planes@.len() implies (#[trigger] planes.visible_planes@[p]).wf() by {
            if p < before.len() {
                assert(planes.visible_planes@[p] == before[p]);
            }
        }
    }
    Some(new_index)
}


/// A range that starts right after a plane's last column overlaps none of its columns,
/// so `check_plane` widens that plane rather than starting another.
pub proof fn lemma_check_plane_adjacent(plane: VisPlane, start: int, stop: int)
    requires
        start == plane.max_x + 1,
        start <= stop,
    ensures
        columns_empty(
            plane,
            if start > plane.min_x { start } else { plane.min_x as int },
            if stop < plane.max_x { stop } else { plane.max_x as int },
        ),
{
}

} // verus!
