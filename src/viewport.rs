use vstd::prelude::*;
use wgpu::{CompositeAlphaMode, PresentMode, TextureFormat};

use crate::event_loop::WindowEvent;
use crate::format::{is_preferred_index, select_surface_format, srgb_marks};
use crate::frame::{
    frame_plan, lemma_one_pass_per_frame, opens_one_pass, FrameOp, RenderPassDresser, Renderer,
    SurfaceError,
};
use crate::size::Size;

verus! {

/// How the presentable surface is configured.
#[derive(Clone, Copy, Debug)]
pub struct SurfaceConfig {
    pub format: TextureFormat,
    pub width: u32,
    pub height: u32,
    pub present_mode: PresentMode,
    pub alpha_mode: CompositeAlphaMode,
}

/// The size the surface is configured at, once applied.
pub open spec fn resized(current: Size, requested: Size) -> Size {
    if requested.is_drawable() {
        requested
    } else {
        current
    }
}

/// The size after a sequence of resize requests, applied oldest first.
pub open spec fn after_resizes(start: Size, requests: Seq<Size>) -> Size
    decreases requests.len(),
{
    if requests.len() == 0 {
        start
    } else {
        resized(after_resizes(start, requests.drop_last()), requests.last())
    }
}

/// After any sequence of resize requests that holds a drawable size, the
/// surface is configured at the last drawable size requested: requests with
/// a zero dimension change nothing.
pub proof fn lemma_last_drawable_size_wins(start: Size, requests: Seq<Size>, k: int)
    requires
        0 <= k < requests.len(),
        requests[k].is_drawable(),
        forall|j: int| k < j < requests.len() ==> !(#[trigger] requests[j]).is_drawable(),
    ensures
        after_resizes(start, requests) == requests[k],
    decreases requests.len(),
{
    if k < requests.len() - 1 {
        let rest = requests.drop_last();
        assert forall|j: int| k < j < rest.len() implies !(#[trigger] rest[j]).is_drawable() by {
            assert(rest[j] == requests[j]);
        }
        lemma_last_drawable_size_wins(start, rest, k);
    }
}

/// A sequence of resize requests none of which is drawable leaves the
/// surface as it was.
pub proof fn lemma_undrawable_sizes_change_nothing(start: Size, requests: Seq<Size>)
    requires
        forall|j: int| 0 <= j < requests.len() ==> !(#[trigger] requests[j]).is_drawable(),
    ensures
        after_resizes(start, requests) == start,
    decreases requests.len(),
{
    if requests.len() > 0 {
        let rest = requests.drop_last();
        assert forall|j: int| 0 <= j < rest.len() implies !(#[trigger] rest[j]).is_drawable() by {
            assert(rest[j] == requests[j]);
        }
        lemma_undrawable_sizes_change_nothing(start, rest);
    }
}

/// The binding between a window and its presentable surface: the size, the
/// surface's configuration and format, and how many frames were presented.
pub struct Viewport {
    size: Size,
    config: SurfaceConfig,
    surface_format: TextureFormat,
    frames: u64,
}

impl Viewport {
    pub closed spec fn current_size(&self) -> Size {
        self.size
    }

    pub closed spec fn configuration(&self) -> SurfaceConfig {
        self.config
    }

    pub closed spec fn format(&self) -> TextureFormat {
        self.surface_format
    }

    pub closed spec fn frames_presented(&self) -> u64 {
        self.frames
    }

    /// The surface is configured at the current size, which is drawable, and
    /// in the chosen format.
    pub open spec fn wf(&self) -> bool {
        &&& self.current_size().is_drawable()
        &&& self.configuration().width == self.current_size().width
        &&& self.configuration().height == self.current_size().height
        &&& self.configuration().format == self.format()
    }

    /// Sets up a viewport of the given size on a surface with the given
    /// capabilities: the surface format is chosen as `select_surface_format`
    /// does, the presentation and alpha modes are the first offered. `None`
    /// when the size has a zero dimension or a capability list is empty.
    pub fn new(
        size: Size,
        formats: &Vec<TextureFormat>,
        present_modes: &Vec<PresentMode>,
        alpha_modes: &Vec<CompositeAlphaMode>,
    ) -> (r: Option<Viewport>)
        ensures
            r is None <==> !size.is_drawable() || formats.len() == 0 || present_modes.len() == 0
                || alpha_modes.len() == 0,
            r is Some ==> {
                let v = r->Some_0;
                &&& v.wf()
                &&& v.current_size() == size
                &&& v.frames_presented() == 0
                &&& exists|k: int|
                    is_preferred_index(srgb_marks(formats@), k) && v.format() == formats@[k]
                &&& v.configuration().present_mode == present_modes@[0]
                &&& v.configuration().alpha_mode == alpha_modes@[0]
            },
    {
        if !size.drawable() || present_modes.len() == 0 || alpha_modes.len() == 0 {
            return None;
        }
        match select_surface_format(formats) {
            None => None,
            Some(surface_format) => {
                let config = SurfaceConfig {
                    format: surface_format,
                    width: size.width,
                    height: size.height,
                    present_mode: present_modes[0],
                    alpha_mode: alpha_modes[0],
                };
                Some(Viewport { size, config, surface_format, frames: 0 })
            },
        }
    }

    /// Takes a new window size. A drawable size becomes the current size and
    /// the configuration to apply to the surface is returned; a size with a
    /// zero dimension changes nothing.
    pub fn resize(&mut self, new_size: Size) -> (r: Option<SurfaceConfig>)
        requires
            old(self).wf(),
        ensures
            final(self).wf(),
            final(self).current_size() == resized(old(self).current_size(), new_size),
            final(self).format() == old(self).format(),
            final(self).frames_presented() == old(self).frames_presented(),
            final(self).configuration().present_mode == old(self).configuration().present_mode,
            final(self).configuration().alpha_mode == old(self).configuration().alpha_mode,
            new_size.is_drawable() ==> r == Some(final(self).configuration()),
            !new_size.is_drawable() ==> r is None && *final(self) == *old(self),
            new_size == old(self).current_size() ==> *final(self) == *old(self),
    {
        if new_size.drawable() {
            self.size = new_size;
            self.config.width = new_size.width;
            self.config.height = new_size.height;
            Some(self.config)
        } else {
            None
        }
    }

    /// Offers a window event for the viewport's own handling; it takes none.
    pub fn input(&mut self, event: &WindowEvent) -> (r: bool)
        ensures
            !r,
            *final(self) == *old(self),
    {
        false
    }

    /// The per-frame hook called before each frame is drawn; it changes
    /// nothing.
    pub fn update(&mut self)
        ensures
            *final(self) == *old(self),
    {
    }

    /// Lays out one frame on the outcome of acquiring its image. When the
    /// acquisition failed, its error comes back and nothing is done: no pass,
    /// no submission, no presentation. Otherwise the frame opens one pass,
    /// lets `dresser` issue its commands into it, closes it, submits and
    /// presents.
    pub fn render<Dresser: RenderPassDresser>(
        &mut self,
        acquired: Result<(), SurfaceError>,
        dresser: &Dresser,
    ) -> (r: Result<Vec<FrameOp>, SurfaceError>)
        requires
            old(self).wf(),
        ensures
            acquired is Err ==> r == Err::<Vec<FrameOp>, SurfaceError>(acquired->Err_0),
            acquired is Err ==> *final(self) == *old(self),
            acquired is Ok ==> {
                &&& r is Ok
                &&& r->Ok_0@ == frame_plan(dresser.issues())
                &&& opens_one_pass(r->Ok_0@)
                &&& final(self).current_size() == old(self).current_size()
                &&& final(self).configuration() == old(self).configuration()
                &&& final(self).format() == old(self).format()
                &&& final(self).frames_presented() == old(self).frames_presented().wrapping_add(
                    1,
                )
            },
            final(self).wf(),
    {
        match Renderer::new(self.frames, acquired) {
            Err(e) => Err(e),
            Ok(renderer) => {
                let mut renderer = renderer;
                let mut pass = renderer.render_pass();
                dresser.dress(&mut pass);
                let ops = renderer.render(pass);
                proof {
                    lemma_one_pass_per_frame(dresser.issues());
                    assert(ops@ =~= frame_plan(dresser.issues()));
                }
                self.frames = self.frames.wrapping_add(1);
                Ok(ops)
            },
        }
    }

    pub fn size(&self) -> (r: Size)
        ensures
            r == self.current_size(),
    {
        self.size
    }

    pub fn surface_format(&self) -> (r: TextureFormat)
        ensures
            r == self.format(),
    {
        self.surface_format
    }

    pub fn config(&self) -> (r: SurfaceConfig)
        ensures
            r == self.configuration(),
    {
        self.config
    }

    pub fn frames(&self) -> (r: u64)
        ensures
            r == self.frames_presented(),
    {
        self.frames
    }
}

} // verus!
