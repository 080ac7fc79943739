//! Adapter enumeration data and the deterministic device selector.
//!
//! The driver enumerates the machine's adapters and hands the selector one
//! `Adapter` record per candidate, all as plain values: queue family flags,
//! supported extension codes, surface formats, present modes, surface
//! capabilities and per-format feature masks. The selector filters out
//! candidates missing a hard constraint and ranks the survivors by device
//! class, exactly as stated in the contracts below.
use crate::error::EngineError;
use crate::types::{Extent2D, Handle};
use vstd::prelude::*;

verus! {

/// Vulkan numeric code of the `R8G8B8A8_SRGB` image format.
pub const FORMAT_R8G8B8A8_SRGB: u32 = 43;
/// Vulkan numeric code of the `B8G8R8A8_SRGB` image format.
pub const FORMAT_B8G8R8A8_SRGB: u32 = 50;
/// Vulkan numeric code of the `D32_SFLOAT` depth format.
pub const FORMAT_D32_SFLOAT: u32 = 126;
/// Vulkan numeric code of the `D24_UNORM_S8_UINT` depth/stencil format.
pub const FORMAT_D24_UNORM_S8_UINT: u32 = 129;
/// Vulkan numeric code of the `D32_SFLOAT_S8_UINT` depth/stencil format.
pub const FORMAT_D32_SFLOAT_S8_UINT: u32 = 130;
/// Vulkan numeric code of the nonlinear sRGB color space.
pub const COLOR_SPACE_SRGB_NONLINEAR: u32 = 0;
/// Vulkan numeric code of the low-latency mailbox present mode.
pub const PRESENT_MODE_MAILBOX: u32 = 1;
/// Vulkan numeric code of the always-available FIFO present mode.
pub const PRESENT_MODE_FIFO: u32 = 2;
/// Format feature bit: usable as a depth/stencil attachment.
pub const FORMAT_FEATURE_DEPTH_STENCIL_ATTACHMENT: u32 = 0x200;

/// What one queue family of an adapter supports.
#[derive(Clone, Copy, PartialEq, Eq, Structural, Debug)]
pub struct QueueFamily {
    pub graphics: bool,
    pub present: bool,
}

/// A surface format offered by an adapter for the target surface.
#[derive(Clone, Copy, PartialEq, Eq, Structural, Debug)]
pub struct SurfaceFormat {
    pub format: u32,
    pub color_space: u32,
}

/// Surface capabilities reported by an adapter.
///
/// `max_image_count == 0` means the image count is unbounded above; a
/// `current_extent` of `(u32::MAX, u32::MAX)` is the sentinel for "any
/// extent", in which case the window size decides.
#[derive(Clone, Copy, PartialEq, Eq, Structural, Debug)]
pub struct SurfaceCapabilities {
    pub min_image_count: u32,
    pub max_image_count: u32,
    pub current_extent: Extent2D,
}

/// Feature masks an adapter reports for one image format.
#[derive(Clone, Copy, PartialEq, Eq, Structural, Debug)]
pub struct FormatProperties {
    pub format: u32,
    pub linear_tiling_features: u32,
    pub optimal_tiling_features: u32,
}

/// How an image's texels are laid out in memory.
#[derive(Clone, Copy, PartialEq, Eq, Structural, Debug)]
pub enum ImageTiling {
    Linear,
    Optimal,
}

/// The class of an adapter, used to rank otherwise suitable candidates.
#[derive(Clone, Copy, PartialEq, Eq, Structural, Debug)]
pub enum DeviceType {
    Discrete,
    Integrated,
    Other,
}

/// Everything the selector reads about one enumerated adapter.
pub struct Adapter {
    pub queue_families: Vec<QueueFamily>,
    /// Supported device extensions, by registry code.
    pub extensions: Vec<u64>,
    pub sampler_anisotropy: bool,
    pub formats: Vec<SurfaceFormat>,
    pub present_modes: Vec<u32>,
    pub device_type: DeviceType,
    pub capabilities: SurfaceCapabilities,
    /// Property flags of each memory type, indexed by memory type index.
    pub memory_types: Vec<u32>,
    pub format_properties: Vec<FormatProperties>,
}

/// The queue family indices recorded for the selected adapter.
#[derive(Clone, Copy, PartialEq, Eq, Structural, Debug)]
pub struct QueueFamilies {
    pub graphics: u32,
}

/// The surface-related facts recorded for the selected adapter.
#[derive(Clone, Copy, PartialEq, Eq, Structural, Debug)]
pub struct SurfaceProperties {
    pub capabilities: SurfaceCapabilities,
    pub format: SurfaceFormat,
    pub present_mode: u32,
}

/// The selected adapter and its recorded capabilities.
#[derive(Clone)]
pub struct PhysicalDevice {
    /// Position of the adapter in the enumeration it was selected from.
    pub handle: Handle,
    pub queue_families: QueueFamilies,
    pub device_type: DeviceType,
    pub sampler_anisotropy: bool,
    pub surface_capabilities: SurfaceCapabilities,
    pub surface_format: SurfaceFormat,
    pub present_mode: u32,
    pub depth_format: u32,
    /// Property flags of each memory type, indexed by memory type index.
    pub memory_types: Vec<u32>,
}

/// A queue family satisfies the hard constraint: graphics and presentation.
pub open spec fn family_suitable(f: QueueFamily) -> bool {
    f.graphics && f.present
}

/// Some queue family supports both graphics and presentation.
pub open spec fn has_suitable_family(qs: Seq<QueueFamily>) -> bool {
    exists|i: int| 0 <= i < qs.len() && family_suitable(qs[i])
}

/// `g` is the first suitable queue family index.
pub open spec fn is_first_suitable_family(qs: Seq<QueueFamily>, g: int) -> bool {
    &&& 0 <= g < qs.len()
    &&& family_suitable(qs[g])
    &&& forall|j: int| 0 <= j < g ==> !family_suitable(qs[j])
}

/// Every required extension code occurs among the supported ones.
pub open spec fn supports_extensions(supported: Seq<u64>, required: Seq<u64>) -> bool {
    forall|i: int| 0 <= i < required.len() ==> supported.contains(required[i])
}

/// An 8-bit sRGB format from the preferred list, in the sRGB color space.
pub open spec fn is_preferred_format(f: SurfaceFormat) -> bool {
    &&& f.format == FORMAT_B8G8R8A8_SRGB || f.format == FORMAT_R8G8B8A8_SRGB
    &&& f.color_space == COLOR_SPACE_SRGB_NONLINEAR
}

/// The first preferred format of the list, if the list offers one.
pub open spec fn first_preferred_format(formats: Seq<SurfaceFormat>) -> Option<SurfaceFormat>
    decreases formats.len(),
{
    if formats.len() == 0 {
        None
    } else if is_preferred_format(formats[0]) {
        Some(formats[0])
    } else {
        first_preferred_format(formats.skip(1))
    }
}

/// The surface format the selector records: the first preferred format,
/// falling back to the first available one.
pub open spec fn chosen_format(formats: Seq<SurfaceFormat>) -> Option<SurfaceFormat> {
    match first_preferred_format(formats) {
        Some(f) => Some(f),
        None => if formats.len() > 0 {
            Some(formats[0])
        } else {
            None
        },
    }
}

/// Mailbox when offered, otherwise the guaranteed-available FIFO mode.
pub open spec fn chosen_present_mode(modes: Seq<u32>) -> u32 {
    if modes.contains(PRESENT_MODE_MAILBOX) {
        PRESENT_MODE_MAILBOX
    } else {
        PRESENT_MODE_FIFO
    }
}

/// The feature mask of `p` for the given tiling.
pub open spec fn tiling_features(p: FormatProperties, tiling: ImageTiling) -> u32 {
    match tiling {
        ImageTiling::Linear => p.linear_tiling_features,
        ImageTiling::Optimal => p.optimal_tiling_features,
    }
}

/// The feature mask the adapter reports for `format` under `tiling`;
/// a format absent from the table supports nothing.
pub open spec fn format_features(
    props: Seq<FormatProperties>,
    format: u32,
    tiling: ImageTiling,
) -> u32
    decreases props.len(),
{
    if props.len() == 0 {
        0
    } else if props[0].format == format {
        tiling_features(props[0], tiling)
    } else {
        format_features(props.skip(1), format, tiling)
    }
}

/// `format` supports every feature bit of `features` under `tiling`.
pub open spec fn format_supports(
    props: Seq<FormatProperties>,
    format: u32,
    tiling: ImageTiling,
    features: u32,
) -> bool {
    format_features(props, format, tiling) & features == features
}

/// The first candidate format supporting the requested features.
pub open spec fn spec_find_supported_format(
    props: Seq<FormatProperties>,
    candidates: Seq<u32>,
    tiling: ImageTiling,
    features: u32,
) -> Option<u32>
    decreases candidates.len(),
{
    if candidates.len() == 0 {
        None
    } else if format_supports(props, candidates[0], tiling, features) {
        Some(candidates[0])
    } else {
        spec_find_supported_format(props, candidates.skip(1), tiling, features)
    }
}

/// The depth formats the engine accepts, in preference order.
pub open spec fn depth_format_candidates() -> Seq<u32> {
    seq![FORMAT_D32_SFLOAT, FORMAT_D32_SFLOAT_S8_UINT, FORMAT_D24_UNORM_S8_UINT]
}

/// The depth format the selector records for an adapter.
pub open spec fn spec_find_depth_format(props: Seq<FormatProperties>) -> Option<u32> {
    spec_find_supported_format(
        props,
        depth_format_candidates(),
        ImageTiling::Optimal,
        FORMAT_FEATURE_DEPTH_STENCIL_ATTACHMENT,
    )
}

/// The machine-limit bound the selector relies on: queue family indices are
/// recorded as 32-bit values.
pub open spec fn adapter_wf(a: Adapter) -> bool {
    a.queue_families@.len() <= u32::MAX
}

/// The hard constraints of device selection: a graphics+present queue
/// family, at least one surface format, every required extension,
/// anisotropic sampling, and a usable depth format.
pub open spec fn adapter_suitable(a: Adapter, required: Seq<u64>) -> bool {
    &&& has_suitable_family(a.queue_families@)
    &&& a.formats@.len() > 0
    &&& supports_extensions(a.extensions@, required)
    &&& a.sampler_anisotropy
    &&& spec_find_depth_format(a.format_properties@) is Some
}

/// Rank of an adapter class: discrete over integrated over anything else.
pub open spec fn device_score(t: DeviceType) -> int {
    match t {
        DeviceType::Discrete => 2,
        DeviceType::Integrated => 1,
        DeviceType::Other => 0,
    }
}

impl PhysicalDevice {
    /// The recorded capabilities are exactly what the selection algorithm
    /// derives from adapter `a`.
    pub open spec fn matches_adapter(self, a: Adapter) -> bool {
        &&& is_first_suitable_family(a.queue_families@, self.queue_families.graphics as int)
        &&& Some(self.surface_format) == chosen_format(a.formats@)
        &&& self.present_mode == chosen_present_mode(a.present_modes@)
        &&& Some(self.depth_format) == spec_find_depth_format(a.format_properties@)
        &&& self.surface_capabilities == a.capabilities
        &&& self.memory_types@ == a.memory_types@
        &&& self.device_type == a.device_type
        &&& self.sampler_anisotropy == a.sampler_anisotropy
    }

    /// `self` is a correct selection from `adapters` under `required`:
    /// it was derived from a suitable adapter of maximal rank, and no
    /// later adapter has the same rank (the selection is deterministic).
    pub open spec fn selected_from(self, adapters: Seq<Adapter>, required: Seq<u64>) -> bool {
        let i = self.handle as int;
        &&& 0 <= i < adapters.len()
        &&& adapter_suitable(adapters[i], required)
        &&& self.matches_adapter(adapters[i])
        &&& forall|j: int|
            0 <= j < adapters.len() && adapter_suitable(adapters[j], required)
                ==> device_score(adapters[j].device_type) <= device_score(adapters[i].device_type)
        &&& forall|j: int|
            i < j < adapters.len() && adapter_suitable(adapters[j], required)
                ==> device_score(adapters[j].device_type) < device_score(adapters[i].device_type)
    }

    /// Deterministically picks the best adapter satisfying the hard
    /// constraints, or fails fatally when none does: a non-recoverable
    /// startup error.
    pub fn new(adapters: &Vec<Adapter>, required_extensions: &Vec<u64>) -> (r: Result<
        PhysicalDevice,
        EngineError,
    >)
        requires
            forall|i: int| 0 <= i < adapters@.len() ==> adapter_wf(#[trigger] adapters@[i]),
        ensures
            r is Ok <==> exists|i: int|
                0 <= i < adapters@.len() && adapter_suitable(#[trigger] adapters@[i], required_extensions@),
            r matches Ok(pd) ==> pd.selected_from(adapters@, required_extensions@),
            r matches Err(e) ==> e == EngineError::NoSuitableAdapter,
    {
        let mut best: Option<PhysicalDevice> = None;
        let mut best_score: u32 = 0;
        let mut idx: usize = 0;
        while idx < adapters.len()
            invariant
                0 <= idx <= adapters@.len(),
                forall|i: int| 0 <= i < adapters@.len() ==> adapter_wf(#[trigger] adapters@[i]),
                best is None ==> forall|i: int|
                    0 <= i < idx ==> !adapter_suitable(#[trigger] adapters@[i], required_extensions@),
                best matches Some(pd) ==> {
                    let i = pd.handle as int;
                    &&& 0 <= i < idx
                    &&& adapter_suitable(adapters@[i], required_extensions@)
                    &&& pd.matches_adapter(adapters@[i])
                    &&& best_score == device_score(adapters@[i].device_type)
                    &&& forall|j: int|
                        0 <= j < idx && adapter_suitable(adapters@[j], required_extensions@)
                            ==> device_score(adapters@[j].device_type) <= best_score
                    &&& forall|j: int|
                        i < j < idx && adapter_suitable(adapters@[j], required_extensions@)
                            ==> device_score(adapters@[j].device_type) < best_score
                },
            decreases adapters@.len() - idx,
        {
            let a = &adapters[idx];
            let maybe_candidate = Self::candidate_from(a, idx, required_extensions);
            match maybe_candidate {
                Some(candidate) => {
                    let score = device_score_of(a.device_type);
                    match best {
                        None => {
                            best = Some(candidate);
                            best_score = score;
                        },
                        Some(prev) => {
                            if score >= best_score {
                                best = Some(candidate);
                                best_score = score;
                            } else {
                                best = Some(prev);
                            }
                        },
                    }
                },
                None => {},
            }
            idx += 1;
        }
        match best {
            Some(pd) => Ok(pd),
            None => Err(EngineError::NoSuitableAdapter),
        }
    }

    /// Derives the recorded capabilities from one adapter, or reports that
    /// it misses a hard constraint.
    fn candidate_from(a: &Adapter, index: usize, required_extensions: &Vec<u64>) -> (r: Option<
        PhysicalDevice,
    >)
        requires
            adapter_wf(*a),
        ensures
            r is Some <==> adapter_suitable(*a, required_extensions@),
            r matches Some(pd) ==> pd.matches_adapter(*a) && pd.handle == index,
    {
        let graphics = match find_graphics_family(&a.queue_families) {
            Some(g) => g,
            None => {
                return None;
            },
        };
        if !supports_all_extensions(&a.extensions, required_extensions) {
            return None;
        }
        if !a.sampler_anisotropy {
            return None;
        }
        let surface_format = match choose_surface_format(&a.formats) {
            Some(f) => f,
            None => {
                return None;
            },
        };
        let depth_format = match find_depth_format(&a.format_properties) {
            Some(f) => f,
            None => {
                return None;
            },
        };
        let present_mode = choose_present_mode(&a.present_modes);
        Some(
            PhysicalDevice {
                handle: index,
                queue_families: QueueFamilies { graphics },
                device_type: a.device_type,
                sampler_anisotropy: a.sampler_anisotropy,
                surface_capabilities: a.capabilities,
                surface_format,
                present_mode,
                depth_format,
                memory_types: copy_flags(&a.memory_types),
            },
        )
    }
}

/// Rank of an adapter class, as an executable value.
pub fn device_score_of(t: DeviceType) -> (r: u32)
    ensures
        r as int == device_score(t),
{
    match t {
        DeviceType::Discrete => 2,
        DeviceType::Integrated => 1,
        DeviceType::Other => 0,
    }
}

/// Index of the first queue family supporting graphics and presentation.
fn find_graphics_family(qs: &Vec<QueueFamily>) -> (r: Option<u32>)
    requires
        qs@.len() <= u32::MAX,
    ensures
        r is Some <==> has_suitable_family(qs@),
        r matches Some(g) ==> is_first_suitable_family(qs@, g as int),
{
    let mut i: usize = 0;
    while i < qs.len()
        invariant
            0 <= i <= qs@.len(),
            qs@.len() <= u32::MAX,
            forall|j: int| 0 <= j < i ==> !family_suitable(qs@[j]),
        decreases qs@.len() - i,
    {
        let f = qs[i];
        if f.graphics && f.present {
            return Some(i as u32);
        }
        i += 1;
    }
    None
}

/// Whether `v` holds `x`.
fn contains_u64(v: &Vec<u64>, x: u64) -> (r: bool)
    ensures
        r == v@.contains(x),
{
    let mut i: usize = 0;
    while i < v.len()
        invariant
            0 <= i <= v@.len(),
            forall|j: int| 0 <= j < i ==> v@[j] != x,
        decreases v@.len() - i,
    {
        if v[i] == x {
            return true;
        }
        i += 1;
    }
    false
}

/// Whether every required extension is supported.
fn supports_all_extensions(supported: &Vec<u64>, required: &Vec<u64>) -> (r: bool)
    ensures
        r == supports_extensions(supported@, required@),
{
    let mut i: usize = 0;
    while i < required.len()
        invariant
            0 <= i <= required@.len(),
            forall|j: int| 0 <= j < i ==> supported@.contains(#[trigger] required@[j]),
        decreases required@.len() - i,
    {
        if !contains_u64(supported, required[i]) {
            return false;
        }
        i += 1;
    }
    true
}

/// The surface format the selector records: first preferred, else first.
pub fn choose_surface_format(formats: &Vec<SurfaceFormat>) -> (r: Option<SurfaceFormat>)
    ensures
        r == chosen_format(formats@),
        r is Some <==> formats@.len() > 0,
{
    let mut i: usize = 0;
    proof {
        assert(formats@.skip(0) =~= formats@);
    }
    while i < formats.len()
        invariant
            0 <= i <= formats@.len(),
            forall|j: int| 0 <= j < i ==> !is_preferred_format(#[trigger] formats@[j]),
            first_preferred_format(formats@) == first_preferred_format(formats@.skip(i as int)),
        decreases formats@.len() - i,
    {
        let f = formats[i];
        if (f.format == FORMAT_B8G8R8A8_SRGB || f.format == FORMAT_R8G8B8A8_SRGB)
            && f.color_space == COLOR_SPACE_SRGB_NONLINEAR {
            assert(formats@.skip(i as int)[0] == f);
            return Some(f);
        }
        proof {
            assert(formats@.skip(i as int).skip(1) =~= formats@.skip(i as int + 1));
        }
        i += 1;
    }
    proof {
        assert(formats@.skip(formats@.len() as int).len() == 0);
    }
    if formats.len() > 0 {
        Some(formats[0])
    } else {
        None
    }
}

/// Mailbox when offered, otherwise FIFO.
pub fn choose_present_mode(modes: &Vec<u32>) -> (r: u32)
    ensures
        r == chosen_present_mode(modes@),
{
    let mut i: usize = 0;
    while i < modes.len()
        invariant
            0 <= i <= modes@.len(),
            forall|j: int| 0 <= j < i ==> modes@[j] != PRESENT_MODE_MAILBOX,
        decreases modes@.len() - i,
    {
        if modes[i] == PRESENT_MODE_MAILBOX {
            assert(modes@.contains(PRESENT_MODE_MAILBOX));
            return PRESENT_MODE_MAILBOX;
        }
        i += 1;
    }
    assert(!modes@.contains(PRESENT_MODE_MAILBOX));
    PRESENT_MODE_FIFO
}

/// The feature mask reported for `format` under `tiling`.
fn lookup_format_features(
    props: &Vec<FormatProperties>,
    format: u32,
    tiling: ImageTiling,
) -> (r: u32)
    ensures
        r == format_features(props@, format, tiling),
{
    let mut i: usize = 0;
    proof {
        assert(props@.skip(0) =~= props@);
    }
    while i < props.len()
        invariant
            0 <= i <= props@.len(),
            format_features(props@, format, tiling) == format_features(
                props@.skip(i as int),
                format,
                tiling,
            ),
        decreases props@.len() - i,
    {
        let p = props[i];
        if p.format == format {
            assert(props@.skip(i as int)[0] == p);
            return match tiling {
                ImageTiling::Linear => p.linear_tiling_features,
                ImageTiling::Optimal => p.optimal_tiling_features,
            };
        }
        proof {
            assert(props@.skip(i as int).skip(1) =~= props@.skip(i as int + 1));
        }
        i += 1;
    }
    proof {
        assert(props@.skip(props@.len() as int).len() == 0);
    }
    0
}

/// First format of `candidates` whose reported features contain `features`
/// under `tiling`.
pub fn find_supported_format(
    props: &Vec<FormatProperties>,
    candidates: &Vec<u32>,
    tiling: ImageTiling,
    features: u32,
) -> (r: Option<u32>)
    ensures
        r == spec_find_supported_format(props@, candidates@, tiling, features),
{
    let mut i: usize = 0;
    proof {
        assert(candidates@.skip(0) =~= candidates@);
    }
    while i < candidates.len()
        invariant
            0 <= i <= candidates@.len(),
            spec_find_supported_format(props@, candidates@, tiling, features)
                == spec_find_supported_format(props@, candidates@.skip(i as int), tiling, features),
        decreases candidates@.len() - i,
    {
        let c = candidates[i];
        let fs = lookup_format_features(props, c, tiling);
        assert(candidates@.skip(i as int)[0] == c);
        if fs & features == features {
            return Some(c);
        }
        proof {
            assert(candidates@.skip(i as int).skip(1) =~= candidates@.skip(i as int + 1));
        }
        i += 1;
    }
    proof {
        assert(candidates@.skip(candidates@.len() as int).len() == 0);
    }
    None
}

/// The first depth format of the preference list the adapter supports for
/// optimal tiling.
pub fn find_depth_format(props: &Vec<FormatProperties>) -> (r: Option<u32>)
    ensures
        r == spec_find_depth_format(props@),
{
    let mut candidates: Vec<u32> = Vec::new();
    candidates.push(FORMAT_D32_SFLOAT);
    candidates.push(FORMAT_D32_SFLOAT_S8_UINT);
    candidates.push(FORMAT_D24_UNORM_S8_UINT);
    proof {
        assert(candidates@ =~= depth_format_candidates());
    }
    find_supported_format(
        props,
        &candidates,
        ImageTiling::Optimal,
        FORMAT_FEATURE_DEPTH_STENCIL_ATTACHMENT,
    )
}

/// Whether the depth format carries a stencil aspect.
pub fn has_stencil_component(format: u32) -> (r: bool)
    ensures
        r == (format == FORMAT_D32_SFLOAT_S8_UINT),
{
    format == FORMAT_D32_SFLOAT_S8_UINT
}

/// A copy of a memory-type flag table.
fn copy_flags(v: &Vec<u32>) -> (r: Vec<u32>)
    ensures
        r@ == v@,
{
    let mut r: Vec<u32> = Vec::new();
    let mut i: usize = 0;
    while i < v.len()
        invariant
            0 <= i <= v@.len(),
            r@ == v@.take(i as int),
        decreases v@.len() - i,
    {
        r.push(v[i]);
        proof {
            assert(r@ =~= v@.take(i as int + 1));
        }
        i += 1;
    }
    proof {
        assert(v@.take(v@.len() as int) =~= v@);
    }
    r
}

/// The first preferred format, when one exists, is itself preferred; and
/// one exists exactly when the list offers a preferred format.
pub proof fn lemma_first_preferred_format(formats: Seq<SurfaceFormat>)
    ensures
        first_preferred_format(formats) is Some <==> exists|i: int|
            0 <= i < formats.len() && is_preferred_format(#[trigger] formats[i]),
        first_preferred_format(formats) matches Some(f) ==> is_preferred_format(f),
    decreases formats.len(),
{
    if formats.len() == 0 {
    } else if is_preferred_format(formats[0]) {
    } else {
        lemma_first_preferred_format(formats.skip(1));
        if first_preferred_format(formats.skip(1)) is Some {
            let i = choose|i: int|
                0 <= i < formats.skip(1).len() && is_preferred_format(#[trigger] formats.skip(1)[i]);
            assert(formats[i + 1] == formats.skip(1)[i]);
        }
        if exists|i: int| 0 <= i < formats.len() && is_preferred_format(#[trigger] formats[i]) {
            let i = choose|i: int| 0 <= i < formats.len() && is_preferred_format(#[trigger] formats[i]);
            assert(i >= 1);
            assert(formats.skip(1)[i - 1] == formats[i]);
        }
    }
}

/// Selection is a function of its inputs: two correct selections from the
/// same adapter list name the same adapter and record the same facts.
pub proof fn lemma_selection_unique(
    adapters: Seq<Adapter>,
    required: Seq<u64>,
    a: PhysicalDevice,
    b: PhysicalDevice,
)
    requires
        a.selected_from(adapters, required),
        b.selected_from(adapters, required),
    ensures
        a.handle == b.handle,
        a.memory_types@ == b.memory_types@,
        a.surface_format == b.surface_format,
        a.present_mode == b.present_mode,
        a.depth_format == b.depth_format,
        a.surface_capabilities == b.surface_capabilities,
        a.device_type == b.device_type,
{
    let i = a.handle as int;
    let j = b.handle as int;
    if i < j {
        assert(device_score(adapters[j].device_type) < device_score(adapters[i].device_type));
        assert(device_score(adapters[i].device_type) <= device_score(adapters[j].device_type));
    } else if j < i {
        assert(device_score(adapters[i].device_type) < device_score(adapters[j].device_type));
        assert(device_score(adapters[j].device_type) <= device_score(adapters[i].device_type));
    }
    assert(i == j);
}

/// The format-preference law: whenever the candidate offers any preferred
/// sRGB format, the recorded format is such a format; otherwise it is the
/// first available one.
pub proof fn lemma_format_preference(formats: Seq<SurfaceFormat>)
    requires
        formats.len() > 0,
    ensures
        (exists|i: int| 0 <= i < formats.len() && is_preferred_format(#[trigger] formats[i]))
            ==> (chosen_format(formats) matches Some(f) && is_preferred_format(f)),
        !(exists|i: int| 0 <= i < formats.len() && is_preferred_format(#[trigger] formats[i]))
            ==> chosen_format(formats) == Some(formats[0]),
{
    lemma_first_preferred_format(formats);
}

} // verus!
