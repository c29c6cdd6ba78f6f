use vstd::prelude::*;

verus! {

/// The width, height and configuration flag of the window surface.
#[derive(Clone, Copy, Debug, PartialEq, Eq, Structural)]
pub struct SurfaceModel {
    pub width: u32,
    pub height: u32,
    pub configured: bool,
}

/// The surface after a resize request: a size with a zero side is ignored;
/// any other becomes the surface's size, and the surface is configured.
pub open spec fn resized(s: SurfaceModel, width: u32, height: u32) -> SurfaceModel {
    if width > 0 && height > 0 {
        SurfaceModel { width, height, configured: true }
    } else {
        s
    }
}

/// The size that the window surface is configured with, and whether it has
/// been configured yet. Nothing is drawn before it is; once it is, its size
/// has no zero side.
pub struct SurfaceState {
    width: u32,
    height: u32,
    configured: bool,
}

impl SurfaceState {
    #[verifier::type_invariant]
    spec fn configured_has_area(self) -> bool {
        self.configured ==> self.width > 0 && self.height > 0
    }
}

impl View for SurfaceState {
    type V = SurfaceModel;

    closed spec fn view(&self) -> SurfaceModel {
        SurfaceModel { width: self.width, height: self.height, configured: self.configured }
    }
}

impl SurfaceState {
    /// The state of a surface sized to a new window, not configured yet.
    pub fn new(width: u32, height: u32) -> (s: Self)
        ensures
            s@ == (SurfaceModel { width, height, configured: false }),
    {
        SurfaceState { width, height, configured: false }
    }

    pub fn width(&self) -> (w: u32)
        ensures
            w == self@.width,
    {
        self.width
    }

    pub fn height(&self) -> (h: u32)
        ensures
            h == self@.height,
    {
        self.height
    }

    /// Whether the surface has been configured, and so may be drawn to.
    pub fn is_configured(&self) -> (c: bool)
        ensures
            c == self@.configured,
            c ==> self@.width > 0 && self@.height > 0,
    {
        proof {
            use_type_invariant(self);
        }
        self.configured
    }

    /// Takes a new window size. Returns whether the surface must be
    /// configured again (and its depth texture made again) at that size:
    /// exactly when neither side is zero. A size with a zero side leaves the
    /// state as it was.
    pub fn resize(&mut self, width: u32, height: u32) -> (reconfigure: bool)
        ensures
            reconfigure == (width > 0 && height > 0),
            final(self)@ == resized(old(self)@, width, height),
            // a size with no zero side becomes the surface's size, whatever
            // the surface was before; any other size changes nothing
            width > 0 && height > 0 ==> final(self)@.width == width && final(self)@.height == height
                && final(self)@.configured,
            !(width > 0 && height > 0) ==> final(self)@ == old(self)@,
    {
        if width > 0 && height > 0 {
            *self = SurfaceState { width, height, configured: true };
            true
        } else {
            false
        }
    }
}

/// A resize to a size with no zero side gives the surface exactly that size
/// and marks it configured, whether or not it was configured before and
/// whatever size it had: two surfaces resized alike end alike.
pub proof fn lemma_resize_takes_new_size(s: SurfaceModel, t: SurfaceModel, width: u32, height: u32)
    requires
        width > 0,
        height > 0,
    ensures
        resized(s, width, height).width == width,
        resized(s, width, height).height == height,
        resized(s, width, height).configured,
        resized(s, width, height) == resized(t, width, height),
{
}

/// A resize to a size with a zero side leaves the surface unchanged.
pub proof fn lemma_zero_side_resize_ignored(s: SurfaceModel, width: u32, height: u32)
    requires
        width == 0 || height == 0,
    ensures
        resized(s, width, height) == s,
{
}

/// Once configured, a surface stays configured whatever size it is given.
pub proof fn lemma_resize_keeps_configured(s: SurfaceModel, width: u32, height: u32)
    ensures
        s.configured ==> resized(s, width, height).configured,
{
}

/// What asking the surface for its next texture gave back.
#[derive(Clone, Copy, Debug, PartialEq, Eq, Structural)]
pub enum SurfaceStatus {
    /// A texture that matches the surface.
    Success,
    /// A texture that no longer matches the surface.
    Suboptimal,
    /// No texture before the timeout.
    Timeout,
    /// The window is hidden.
    Occluded,
    /// The surface changed and its configuration is out of date.
    Outdated,
    /// The surface is gone.
    Lost,
    /// A validation error was raised.
    Validation,
}

/// What to do with a frame, given what the surface gave back.
#[derive(Clone, Copy, Debug, PartialEq, Eq, Structural)]
pub enum FrameAction {
    /// Draw to the texture, configuring the surface again first if asked.
    Draw { reconfigure: bool },
    /// Draw nothing this frame, configuring the surface again first if asked.
    Skip { reconfigure: bool },
    /// Stop: the surface cannot be drawn to any more.
    Fail,
}

/// Decides what to do with a frame: a texture is drawn to (after configuring
/// the surface again where it no longer matches it), a timeout, a hidden
/// window or a validation error skips the frame, an outdated surface is
/// configured again and the frame skipped, and a lost surface is a failure.
pub fn frame_action(status: SurfaceStatus) -> (a: FrameAction)
    ensures
        (a is Draw) <==> (status == SurfaceStatus::Success || status == SurfaceStatus::Suboptimal),
        (a is Fail) <==> status == SurfaceStatus::Lost,
        a matches FrameAction::Draw { reconfigure } ==> reconfigure == (status
            == SurfaceStatus::Suboptimal),
        a matches FrameAction::Skip { reconfigure } ==> reconfigure == (status
            == SurfaceStatus::Outdated),
{
    match status {
        SurfaceStatus::Success => FrameAction::Draw { reconfigure: false },
        SurfaceStatus::Suboptimal => FrameAction::Draw { reconfigure: true },
        SurfaceStatus::Timeout | SurfaceStatus::Occluded | SurfaceStatus::Validation => {
            FrameAction::Skip { reconfigure: false }
        },
        SurfaceStatus::Outdated => FrameAction::Skip { reconfigure: true },
        SurfaceStatus::Lost => FrameAction::Fail,
    }
}

/// Whether some flag is set.
pub open spec fn some_set(flags: Seq<bool>) -> bool {
    exists|j: int| 0 <= j < flags.len() && flags[j]
}

/// The index of the first set flag, or 0 where none is set.
pub fn first_srgb_index(flags: &Vec<bool>) -> (i: usize)
    requires
        flags.len() > 0,
    ensures
        i < flags.len(),
        some_set(flags@) ==> flags@[i as int] && forall|j: int| 0 <= j < i ==> !flags@[j],
        !some_set(flags@) ==> i == 0,
{
    let mut k: usize = 0;
    while k < flags.len()
        invariant
            k <= flags.len(),
            forall|j: int| 0 <= j < k ==> !flags@[j],
        decreases flags.len() - k,
    {
        if flags[k] {
            return k;
        }
        k = k + 1;
    }
    0
}

#[verifier::external_type_specification]
#[verifier::external_body]
pub struct ExTextureFormat(wgpu::TextureFormat);

/// Whether a texture format's colour channels are sRGB-encoded, as
/// `wgpu::TextureFormat::is_srgb` says: a function of the format alone.
pub uninterp spec fn srgb_format(format: wgpu::TextureFormat) -> bool;

/// Calls `wgpu::TextureFormat::is_srgb`, which is true for the formats whose
/// colour channels are sRGB-encoded (those that differ from themselves with
/// the sRGB suffix removed); its result is named `srgb_format`.
#[verifier::external_body]
fn format_is_srgb(format: &wgpu::TextureFormat) -> (b: bool)
    ensures
        b == srgb_format(*format),
{
    format.is_srgb()
}

/// Whether the surface supports some sRGB format.
pub open spec fn some_srgb(formats: Seq<wgpu::TextureFormat>) -> bool {
    exists|j: int| 0 <= j < formats.len() && srgb_format(formats[j])
}

/// Picks the surface format: the first sRGB one the surface supports, else
/// the first one. Returns its index in `formats`.
pub fn choose_surface_format(formats: &Vec<wgpu::TextureFormat>) -> (i: usize)
    requires
        formats.len() > 0,
    ensures
        i < formats.len(),
        some_srgb(formats@) ==> srgb_format(formats@[i as int]) && forall|j: int|
            0 <= j < i ==> !srgb_format(#[trigger] formats@[j]),
        !some_srgb(formats@) ==> i == 0,
{
    let mut flags: Vec<bool> = Vec::new();
    let mut k: usize = 0;
    while k < formats.len()
        invariant
            k <= formats.len(),
            flags.len() == k,
            forall|j: int| 0 <= j < k ==> flags@[j] == srgb_format(#[trigger] formats@[j]),
        decreases formats.len() - k,
    {
        flags.push(format_is_srgb(&formats[k]));
        k = k + 1;
    }
    let r = first_srgb_index(&flags);
    proof {
        if some_srgb(formats@) {
            let j = choose|j: int| 0 <= j < formats.len() && srgb_format(formats@[j]);
            assert(flags@[j]);
            assert(some_set(flags@));
            assert(flags@[r as int]);
            assert forall|m: int| 0 <= m < r implies !srgb_format(#[trigger] formats@[m]) by {
                assert(!flags@[m]);
            }
        } else {
            assert forall|j: int| 0 <= j < flags.len() implies !flags@[j] by {
                assert(!srgb_format(formats@[j]));
            }
        }
    }
    r
}

} // verus!
