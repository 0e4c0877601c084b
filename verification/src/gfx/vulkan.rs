//! The choices the renderer makes when it sets up a device, a swapchain and
//! its per-frame buffers, taken on the plain values that the Vulkan queries
//! return.
use crate::shapes::Extent;
use vstd::prelude::*;

verus! {

/// The number of swapchain images the renderer asks for when the surface
/// leaves the choice open.
pub const PREFERRED_SWAPCHAIN_LENGTH: u32 = 2;

/// The smallest per-frame vertex and index buffer, in bytes.
pub const DEFAULT_VERTEX_BUFFER_SIZE: usize = 8192;

/// The number of frames the renderer records ahead.
pub const FRAMES_IN_FLIGHT: usize = 2;

/// The most swapchain images the renderer keeps.
pub const MAX_SWAPCHAIN_DEPTH: usize = 8;

/// A surface format: the raw values of a Vulkan format and color space.
#[derive(Clone, Copy, Debug, PartialEq, Eq, Structural)]
pub struct SurfaceFormat {
    pub format: i32,
    pub color_space: i32,
}

/// A two-dimensional size in device pixels.
#[derive(Clone, Copy, Debug, PartialEq, Eq, Structural)]
pub struct Extent2D {
    pub width: u32,
    pub height: u32,
}

/// The index of the first format of `formats` equal to `preferred`, or
/// `formats.len()` if there is none.
pub open spec fn first_match<T>(formats: Seq<T>, preferred: T) -> int
    decreases formats.len(),
{
    if formats.len() == 0 {
        0
    } else if formats[0] == preferred {
        0
    } else {
        1 + first_match(formats.drop_first(), preferred)
    }
}

proof fn lemma_first_match<T>(s: Seq<T>, x: T)
    ensures
        0 <= first_match(s, x) <= s.len(),
        first_match(s, x) < s.len() ==> s[first_match(s, x)] == x,
        forall|i: int| 0 <= i < first_match(s, x) ==> s[i] != x,
    decreases s.len(),
{
    if s.len() > 0 && s[0] != x {
        lemma_first_match(s.drop_first(), x);
        assert forall|i: int| 0 <= i < first_match(s, x) implies s[i] != x by {
            if i > 0 {
                assert(s[i] == s.drop_first()[i - 1]);
            }
        }
    }
}

/// The surface format to render in: `preferred` if the surface offers it,
/// the first one offered otherwise. The surface must offer at least one.
pub fn choose_surface_format(formats: &[SurfaceFormat], preferred: SurfaceFormat) -> (r: SurfaceFormat)
    requires
        formats@.len() > 0,
    ensures
        r == if first_match(formats@, preferred) < formats@.len() {
            preferred
        } else {
            formats@[0]
        },
{
    proof {
        lemma_first_match(formats@, preferred);
    }
    let mut i: usize = 0;
    while i < formats.len()
        invariant
            0 <= i <= formats@.len(),
            forall|j: int| 0 <= j < i ==> formats@[j] != preferred,
        decreases formats@.len() - i,
    {
        let f = formats[i];
        if f.format == preferred.format && f.color_space == preferred.color_space {
            proof {
                lemma_first_match(formats@, preferred);
                assert(formats@[i as int] == preferred);
                let fm = first_match(formats@, preferred);
                if fm > i {
                    assert(formats@[i as int] != preferred);
                }
            }
            return f;
        }
        i = i + 1;
    }
    proof {
        let fm = first_match(formats@, preferred);
        if fm < formats@.len() {
            assert(formats@[fm] == preferred);
        }
    }
    formats[0]
}

/// The present mode to use: `preferred` if the surface offers it,
/// `fallback` otherwise.
pub fn choose_present_mode(modes: &[i32], preferred: i32, fallback: i32) -> (r: i32)
    ensures
        r == if modes@.contains(preferred) {
            preferred
        } else {
            fallback
        },
{
    let mut i: usize = 0;
    while i < modes.len()
        invariant
            0 <= i <= modes@.len(),
            forall|j: int| 0 <= j < i ==> modes@[j] != preferred,
        decreases modes@.len() - i,
    {
        if modes[i] == preferred {
            return preferred;
        }
        i = i + 1;
    }
    proof {
        preferred_absent(modes@, preferred);
    }
    fallback
}

proof fn preferred_absent(modes: Seq<i32>, preferred: i32)
    requires
        forall|j: int| 0 <= j < modes.len() ==> modes[j] != preferred,
    ensures
        !modes.contains(preferred),
{
    if modes.contains(preferred) {
        let j = choose|j: int| 0 <= j < modes.len() && modes[j] == preferred;
        assert(modes[j] != preferred);
    }
}

/// `v` limited to the range `[lo, hi]`.
pub open spec fn clamp(v: u32, lo: u32, hi: u32) -> u32 {
    if v < lo {
        lo
    } else if v > hi {
        hi
    } else {
        v
    }
}

fn clamp_exec(v: u32, lo: u32, hi: u32) -> (r: u32)
    requires
        lo <= hi,
    ensures
        r == clamp(v, lo, hi),
{
    if v < lo {
        lo
    } else if v > hi {
        hi
    } else {
        v
    }
}

/// The size of the swapchain images: the surface's current size, or, when
/// the surface leaves it open (a current width of `u32::MAX`), the window's
/// size limited to the surface's bounds, which must be ordered.
pub fn choose_image_extent(current: Extent2D, min: Extent2D, max: Extent2D, window: Extent2D) -> (r: Extent2D)
    requires
        current.width == u32::MAX ==> min.width <= max.width && min.height <= max.height,
    ensures
        r == if current.width == u32::MAX {
            Extent2D {
                width: clamp(window.width, min.width, max.width),
                height: clamp(window.height, min.height, max.height),
            }
        } else {
            current
        },
{
    if current.width == u32::MAX {
        Extent2D {
            width: clamp_exec(window.width, min.width, max.width),
            height: clamp_exec(window.height, min.height, max.height),
        }
    } else {
        current
    }
}

/// The number of swapchain images to ask for: `preferred` within the
/// surface's bounds. A `max_count` of 0 means there is no upper bound; a
/// nonzero one must not be below `min_count`.
pub fn choose_image_count(preferred: u32, min_count: u32, max_count: u32) -> (r: u32)
    requires
        max_count != 0 ==> min_count <= max_count,
    ensures
        r == if max_count == 0 {
            if preferred > min_count {
                preferred
            } else {
                min_count
            }
        } else {
            clamp(preferred, min_count, max_count)
        },
{
    if max_count == 0 {
        if preferred > min_count {
            preferred
        } else {
            min_count
        }
    } else {
        clamp_exec(preferred, min_count, max_count)
    }
}

/// How swapchain images are shared between the queues.
#[derive(Clone, Copy, Debug, PartialEq, Eq, Structural)]
pub enum SharingMode {
    /// One queue family uses the images.
    Exclusive,
    /// Both queue families use the images.
    Concurrent,
}

/// Images are shared only when graphics and presentation use different
/// queue families.
pub fn sharing_mode(graphics_queue_index: u32, present_queue_index: u32) -> (r: SharingMode)
    ensures
        r == if graphics_queue_index == present_queue_index {
            SharingMode::Exclusive
        } else {
            SharingMode::Concurrent
        },
{
    if graphics_queue_index == present_queue_index {
        SharingMode::Exclusive
    } else {
        SharingMode::Concurrent
    }
}

/// The outcome of asking the swapchain for an image to render to.
#[derive(Clone, Copy, Debug, PartialEq, Eq, Structural)]
pub enum AcquireResult {
    /// An image was acquired; it may no longer match the surface exactly.
    Acquired { index: u32, suboptimal: bool },
    /// The swapchain no longer matches the surface.
    OutOfDate,
}

/// The image to render to, if any: none when the swapchain is out of date or
/// no longer matches the surface exactly.
pub fn acquired_image(result: AcquireResult) -> (r: Option<u32>)
    ensures
        r == match result {
            AcquireResult::Acquired { index, suboptimal } => if suboptimal {
                None
            } else {
                Some(index)
            },
            AcquireResult::OutOfDate => None::<u32>,
        },
{
    match result {
        AcquireResult::Acquired { index, suboptimal } => if suboptimal {
            None
        } else {
            Some(index)
        },
        AcquireResult::OutOfDate => None,
    }
}

/// The index of the first memory type that `type_filter` allows and that has
/// every property of `needed`, if any.
pub open spec fn memory_type_ok(type_filter: u32, flags: Seq<u32>, needed: u32, i: int) -> bool {
    type_filter & (1u32 << (i as u32)) != 0 && flags[i] & needed == needed
}

/// The first memory type, among `memory_type_flags` (the property flags of
/// each memory type), that `type_filter` allows and that has every property
/// in `needed`. A device has at most 32 memory types.
pub fn find_memory_type(type_filter: u32, memory_type_flags: &[u32], needed: u32) -> (r: Option<u32>)
    requires
        memory_type_flags@.len() <= 32,
    ensures
        match r {
            Some(i) => i < memory_type_flags@.len() && memory_type_ok(
                type_filter,
                memory_type_flags@,
                needed,
                i as int,
            ) && forall|j: int|
                0 <= j < i ==> !memory_type_ok(type_filter, memory_type_flags@, needed, j),
            None => forall|j: int|
                0 <= j < memory_type_flags@.len() ==> !memory_type_ok(
                    type_filter,
                    memory_type_flags@,
                    needed,
                    j,
                ),
        },
{
    let mut i: u32 = 0;
    while (i as usize) < memory_type_flags.len()
        invariant
            memory_type_flags@.len() <= 32,
            i <= memory_type_flags@.len(),
            forall|j: int| 0 <= j < i ==> !memory_type_ok(type_filter, memory_type_flags@, needed, j),
        decreases memory_type_flags@.len() - i,
    {
        if (type_filter & (1u32 << i)) != 0 && (memory_type_flags[i as usize] & needed) == needed {
            return Some(i);
        }
        i = i + 1;
    }
    None
}

/// What a queue family of a device offers.
#[derive(Clone, Copy, Debug, PartialEq, Eq, Structural)]
pub struct QueueFamily {
    pub graphics: bool,
    pub present: bool,
}

/// The most recent index before `k` of a family with `pick`, if any.
pub open spec fn last_with(families: Seq<QueueFamily>, k: int, graphics: bool) -> Option<int>
    decreases k,
{
    if k <= 0 {
        None
    } else if (if graphics {
        families[k - 1].graphics
    } else {
        families[k - 1].present
    }) {
        Some(k - 1)
    } else {
        last_with(families, k - 1, graphics)
    }
}

/// The queue families to use on a device, scanning its families in order:
/// at the first family by which both a graphics family and a presenting
/// family have been seen, the most recent of each.
pub open spec fn spec_select_queues(families: Seq<QueueFamily>, k: int) -> Option<(u32, u32)>
    decreases families.len() - k,
{
    if k >= families.len() || k < 0 {
        None
    } else {
        match (last_with(families, k + 1, true), last_with(families, k + 1, false)) {
            (Some(g), Some(p)) => Some((g as u32, p as u32)),
            _ => spec_select_queues(families, k + 1),
        }
    }
}

/// The graphics and presentation queue family indices to use on a device
/// with `families`, if it has both kinds.
pub fn select_queues(families: &[QueueFamily]) -> (r: Option<(u32, u32)>)
    requires
        families@.len() <= u32::MAX,
    ensures
        r == spec_select_queues(families@, 0),
{
    let mut graphics: Option<u32> = None;
    let mut present: Option<u32> = None;
    let mut i: usize = 0;
    while i < families.len()
        invariant
            families@.len() <= u32::MAX,
            0 <= i <= families@.len(),
            graphics == match last_with(families@, i as int, true) {
                Some(g) => Some(g as u32),
                None => None::<u32>,
            },
            present == match last_with(families@, i as int, false) {
                Some(p) => Some(p as u32),
                None => None::<u32>,
            },
            forall|k: int| 0 <= k < i ==> spec_select_queues(families@, k) == spec_select_queues(families@, i as int),
            i > 0 ==> graphics is None || present is None,
        decreases families@.len() - i,
    {
        if families[i].graphics {
            graphics = Some(i as u32);
        }
        if families[i].present {
            present = Some(i as u32);
        }
        match (graphics, present) {
            (Some(g), Some(p)) => {
                return Some((g, p));
            },
            _ => {},
        }
        i = i + 1;
    }
    None
}

/// Whether `family` has the kind that `graphics` picks.
pub open spec fn has_kind(family: QueueFamily, graphics: bool) -> bool {
    if graphics {
        family.graphics
    } else {
        family.present
    }
}

/// The most recent family before `k` of a kind has that kind, and one is
/// found whenever a family of that kind comes before `k`.
proof fn lemma_last_with(families: Seq<QueueFamily>, k: int, graphics: bool)
    requires
        0 <= k <= families.len(),
    ensures
        last_with(families, k, graphics) matches Some(j) ==> 0 <= j < k && has_kind(families[j], graphics),
        forall|j: int| 0 <= j < k && has_kind(#[trigger] families[j], graphics) ==> last_with(families, k, graphics) is Some,
    decreases k,
{
    if k > 0 {
        lemma_last_with(families, k - 1, graphics);
    }
}

/// The choice made from position `k` on names families of the right kinds,
/// and is made whenever, at some position from `k` on, both kinds have
/// been seen.
proof fn lemma_select_from(families: Seq<QueueFamily>, k: int)
    requires
        0 <= k <= families.len(),
        families.len() <= u32::MAX,
    ensures
        spec_select_queues(families, k) matches Some((g, p)) ==> g < families.len() && p < families.len()
            && families[g as int].graphics && families[p as int].present,
        forall|m: int|
            k <= m < families.len() && (#[trigger] last_with(families, m + 1, true)) is Some && last_with(
                families,
                m + 1,
                false,
            ) is Some ==> spec_select_queues(families, k) is Some,
    decreases families.len() - k,
{
    if k < families.len() {
        lemma_last_with(families, k + 1, true);
        lemma_last_with(families, k + 1, false);
        lemma_select_from(families, k + 1);
    }
}

/// A device is accepted exactly when it has a family that draws and a
/// family that presents, in whatever order they come; the families chosen
/// are of those kinds.
pub proof fn lemma_select_queues(families: Seq<QueueFamily>)
    requires
        families.len() <= u32::MAX,
    ensures
        spec_select_queues(families, 0) matches Some((g, p)) ==> g < families.len() && p < families.len()
            && families[g as int].graphics && families[p as int].present,
        spec_select_queues(families, 0) is Some <==> (exists|g: int| 0 <= g < families.len() && #[trigger] families[g].graphics)
            && (exists|p: int| 0 <= p < families.len() && #[trigger] families[p].present),
{
    lemma_select_from(families, 0);
    if (exists|g: int| 0 <= g < families.len() && #[trigger] families[g].graphics) && (exists|p: int|
        0 <= p < families.len() && #[trigger] families[p].present) {
        let g = choose|g: int| 0 <= g < families.len() && #[trigger] families[g].graphics;
        let p = choose|p: int| 0 <= p < families.len() && #[trigger] families[p].present;
        let m = if g >= p {
            g
        } else {
            p
        };
        lemma_last_with(families, m + 1, true);
        lemma_last_with(families, m + 1, false);
        assert(has_kind(families[g], true));
        assert(has_kind(families[p], false));
        assert(last_with(families, m + 1, true) is Some);
    }
}

/// A device chosen for rendering: its position and its queue families.
#[derive(Clone, Copy, Debug, PartialEq, Eq, Structural)]
pub struct Gpu {
    pub device: usize,
    pub graphics_queue_index: u32,
    pub present_queue_index: u32,
}

/// The first device, in order, that has both a graphics and a presenting
/// queue family.
pub open spec fn spec_select_device(devices: Seq<Seq<QueueFamily>>, k: int) -> Option<Gpu>
    decreases devices.len() - k,
{
    if k >= devices.len() || k < 0 {
        None
    } else {
        match spec_select_queues(devices[k], 0) {
            Some((g, p)) => Some(Gpu { device: k as usize, graphics_queue_index: g, present_queue_index: p }),
            None => spec_select_device(devices, k + 1),
        }
    }
}

/// Whether a device with `families` can both draw and present.
pub open spec fn can_render(families: Seq<QueueFamily>) -> bool {
    &&& exists|g: int| 0 <= g < families.len() && #[trigger] families[g].graphics
    &&& exists|p: int| 0 <= p < families.len() && #[trigger] families[p].present
}

proof fn lemma_select_device_from(devices: Seq<Seq<QueueFamily>>, k: int)
    requires
        0 <= k <= devices.len(),
        devices.len() <= usize::MAX,
        forall|d: int| 0 <= d < devices.len() ==> (#[trigger] devices[d]).len() <= u32::MAX,
    ensures
        spec_select_device(devices, k) matches Some(gpu) ==> {
            &&& k <= gpu.device < devices.len()
            &&& can_render(devices[gpu.device as int])
            &&& forall|d: int| k <= d < gpu.device ==> !can_render(#[trigger] devices[d])
            &&& gpu.graphics_queue_index < devices[gpu.device as int].len()
            &&& gpu.present_queue_index < devices[gpu.device as int].len()
            &&& devices[gpu.device as int][gpu.graphics_queue_index as int].graphics
            &&& devices[gpu.device as int][gpu.present_queue_index as int].present
        },
        spec_select_device(devices, k) is None ==> forall|d: int| k <= d < devices.len() ==> !can_render(
            #[trigger] devices[d],
        ),
    decreases devices.len() - k,
{
    if k < devices.len() {
        lemma_select_queues(devices[k]);
        lemma_select_device_from(devices, k + 1);
    }
}

/// The device chosen is the first that has a family that draws and a
/// family that presents, with families of those kinds; no device is chosen
/// only when none has both.
pub proof fn lemma_select_device(devices: Seq<Seq<QueueFamily>>)
    requires
        devices.len() <= usize::MAX,
        forall|d: int| 0 <= d < devices.len() ==> (#[trigger] devices[d]).len() <= u32::MAX,
    ensures
        spec_select_device(devices, 0) matches Some(gpu) ==> {
            &&& gpu.device < devices.len()
            &&& can_render(devices[gpu.device as int])
            &&& forall|d: int| 0 <= d < gpu.device ==> !can_render(#[trigger] devices[d])
            &&& devices[gpu.device as int][gpu.graphics_queue_index as int].graphics
            &&& devices[gpu.device as int][gpu.present_queue_index as int].present
        },
        spec_select_device(devices, 0) is None <==> forall|d: int| 0 <= d < devices.len() ==> !can_render(
            #[trigger] devices[d],
        ),
{
    lemma_select_device_from(devices, 0);
}

/// The device to render on, given the queue families of each device: the
/// first that can both draw and present.
pub fn select_physical_device(devices: &[Vec<QueueFamily>]) -> (r: Option<Gpu>)
    requires
        forall|d: int| 0 <= d < devices@.len() ==> (#[trigger] devices@[d])@.len() <= u32::MAX,
    ensures
        r == spec_select_device(devices@.map_values(|v: Vec<QueueFamily>| v@), 0),
{
    let ghost all = devices@.map_values(|v: Vec<QueueFamily>| v@);
    let mut d: usize = 0;
    while d < devices.len()
        invariant
            all == devices@.map_values(|v: Vec<QueueFamily>| v@),
            forall|e: int| 0 <= e < devices@.len() ==> (#[trigger] devices@[e])@.len() <= u32::MAX,
            0 <= d <= devices@.len(),
            spec_select_device(all, 0) == spec_select_device(all, d as int),
        decreases devices@.len() - d,
    {
        assert(all[d as int] == devices@[d as int]@);
        match select_queues(devices[d].as_slice()) {
            Some((g, p)) => {
                return Some(Gpu { device: d, graphics_queue_index: g, present_queue_index: p });
            },
            None => {},
        }
        d = d + 1;
    }
    None
}

/// Where the index data starts in a frame's buffer: the vertex data's size
/// rounded up to a multiple of `alignment`.
pub open spec fn index_offset(vertex_bytes: int, alignment: int) -> int {
    ((vertex_bytes + alignment - 1) / alignment) * alignment
}

/// The size of a frame's buffer layout: where the index data starts, and the
/// smallest buffer that holds both vertex and index data, never below
/// [`DEFAULT_VERTEX_BUFFER_SIZE`].
pub fn buffer_layout(vertex_bytes: usize, index_bytes: usize, alignment: usize) -> (r: (usize, u64))
    requires
        alignment > 0,
        vertex_bytes + alignment <= usize::MAX,
        index_offset(vertex_bytes as int, alignment as int) + index_bytes <= usize::MAX,
    ensures
        r.0 == index_offset(vertex_bytes as int, alignment as int),
        r.1 == if r.0 + index_bytes >= DEFAULT_VERTEX_BUFFER_SIZE {
            r.0 + index_bytes
        } else {
            DEFAULT_VERTEX_BUFFER_SIZE as int
        },
{
    let rounded = (vertex_bytes + alignment - 1) / alignment;
    proof {
        let n = (vertex_bytes + alignment - 1) as int;
        let a = alignment as int;
        assert((n / a) * a <= n) by (nonlinear_arith)
            requires
                a > 0,
                n >= 0,
        ;
    }
    let vertex_buffer_size = rounded * alignment;
    let total = vertex_buffer_size + index_bytes;
    let min_capacity = if total >= DEFAULT_VERTEX_BUFFER_SIZE {
        total
    } else {
        DEFAULT_VERTEX_BUFFER_SIZE
    };
    (vertex_buffer_size, min_capacity as u64)
}

/// The size of a window in device pixels. Each side is the pixel size taken
/// as a `u32`, as Rust's `as` does: a negative size wraps around.
pub fn to_extent(size: Extent) -> (r: Extent2D)
    ensures
        r.width == size.width.0 as u32,
        r.height == size.height.0 as u32,
{
    Extent2D { width: size.width.0 as u32, height: size.height.0 as u32 }
}

} // verus!
