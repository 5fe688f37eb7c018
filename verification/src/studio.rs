//! The studio: the GPU context, per-frame drawings (render surfaces), and
//! the frame publisher that hands each drawing to the external sharing
//! session.
//!
//! The native device, surface memory and sharing protocol live outside this
//! library; here each is modelled by the state the pipeline's decisions
//! depend on — dimensions, flush state, the session's one-shot stop flag and
//! its publish count — and every operation's effect on that state is proved.

use vstd::prelude::*;

use crate::geometry::Rect;

verus! {

/// Why a studio operation failed.
#[derive(Clone, Copy, Debug, PartialEq, Eq, Structural)]
pub enum StudioError {
    /// No GPU device is available; the pipeline cannot start.
    DeviceUnavailable,
    /// The device yielded no command queue; the pipeline cannot start.
    QueueUnavailable,
    /// The frame-sharing service could not be reached; the pipeline cannot
    /// start.
    SessionUnavailable,
    /// A publish was attempted after the session was stopped.
    SessionStopped,
    /// The session was asked to stop a second time.
    AlreadyStopped,
    /// An export was requested with a quality outside `0..=100`.
    InvalidQuality,
}

/// How a backend texture is extracted from a drawing: flushed so the
/// producer may keep writing, or flushed so a separate consumer may read.
#[derive(Clone, Copy, Debug, PartialEq, Eq, Structural)]
pub enum TextureAccess {
    FlushWrite,
    FlushRead,
}

/// A non-owning view of a drawing's GPU memory, recorded here as the
/// dimensions the consumer will see.
#[derive(Clone, Copy, Debug, PartialEq, Eq, Structural)]
pub struct BackendTexture {
    pub width: i32,
    pub height: i32,
}

/// A command buffer drawn fresh from the context's queue; committing it
/// submits the work it references, asynchronously.
#[derive(Clone, Copy, Debug, PartialEq, Eq, Structural)]
pub struct CommandBuffer {
    committed: bool,
}

impl CommandBuffer {
    /// Whether the buffer has been committed to the queue.
    pub closed spec fn committed_spec(&self) -> bool {
        self.committed
    }

    /// Commit the buffer to the queue. Does not block on GPU completion.
    pub fn commit(&mut self)
        ensures
            final(self).committed_spec(),
    {
        self.committed = true;
    }
}

/// What one publish call handed to the external sharing session: the
/// texture's dimensions, the origin rectangle built from them, the command
/// buffer that was committed after the handoff, and the vertical-flip flag
/// the protocol expects.
#[derive(Clone, Copy, Debug, PartialEq, Eq, Structural)]
pub struct PublishedFrame {
    pub tex_width: i32,
    pub tex_height: i32,
    pub origin: Rect,
    pub buffer: CommandBuffer,
    pub flip: bool,
}

/// The encoding a drawing is exported in.
#[derive(Clone, Copy, Debug, PartialEq, Eq, Structural)]
pub enum ImageFormat {
    /// Lossless raster.
    Png,
}

/// A request to encode a drawing's pixels and write them to storage,
/// handed to the unverified I/O layer.
#[derive(Clone, Copy, Debug, PartialEq, Eq, Structural)]
pub struct ExportRequest {
    pub width: i32,
    pub height: i32,
    pub format: ImageFormat,
    /// Encoding quality, `0..=100`.
    pub quality: u8,
}

/// An offscreen render surface of fixed pixel dimensions, created per frame.
#[derive(Debug)]
pub struct Drawing {
    width: i32,
    height: i32,
    last_fill: Option<Rect>,
    flushed: bool,
}

impl Drawing {
    /// Pixel width fixed at creation.
    pub closed spec fn width_spec(&self) -> i32 {
        self.width
    }

    /// Pixel height fixed at creation.
    pub closed spec fn height_spec(&self) -> i32 {
        self.height
    }

    /// The bounds of the most recent fill, if any draw command has touched
    /// the surface.
    pub closed spec fn last_fill_spec(&self) -> Option<Rect> {
        self.last_fill
    }

    /// Whether any draw command has touched the surface.
    pub open spec fn drawn_spec(&self) -> bool {
        self.last_fill_spec() is Some
    }

    /// Whether pending draw commands have been flushed to the queue.
    pub closed spec fn flushed_spec(&self) -> bool {
        self.flushed
    }

    /// Positive dimensions, as every drawing is created with.
    pub open spec fn wf(&self) -> bool {
        self.width_spec() > 0 && self.height_spec() > 0
    }

    /// The pixel width the surface reports.
    pub fn width(&self) -> (w: i32)
        ensures
            w == self.width_spec(),
    {
        self.width
    }

    /// The pixel height the surface reports.
    pub fn height(&self) -> (h: i32)
        ensures
            h == self.height_spec(),
    {
        self.height
    }

    /// Fill a rectangle of the surface with a solid colour. The only draw
    /// command the pipeline needs; out-of-bounds parts are clipped by the
    /// rasteriser, so any rectangle is accepted. Marks the surface drawn
    /// and its pending commands unflushed.
    pub fn fill_rect(&mut self, r: Rect)
        ensures
            final(self).width_spec() == old(self).width_spec(),
            final(self).height_spec() == old(self).height_spec(),
            final(self).last_fill_spec() == Some(r),
            final(self).drawn_spec(),
            !final(self).flushed_spec(),
    {
        self.last_fill = Some(r);
        self.flushed = false;
    }

    /// Flush pending draw commands to the queue and return the backend
    /// texture view of this surface. A surface that was never drawn to
    /// still yields a valid (blank) texture. The texture's dimensions are
    /// the surface's own.
    pub fn get_texture(&mut self, access: TextureAccess) -> (t: BackendTexture)
        ensures
            t.width == old(self).width_spec(),
            t.height == old(self).height_spec(),
            final(self).width_spec() == old(self).width_spec(),
            final(self).height_spec() == old(self).height_spec(),
            final(self).last_fill_spec() == old(self).last_fill_spec(),
            final(self).flushed_spec(),
    {
        let _ = access;
        self.flushed = true;
        BackendTexture { width: self.width, height: self.height }
    }

    /// The bounds of the most recent fill, or `None` for an undrawn
    /// surface.
    pub fn last_fill(&self) -> (r: Option<Rect>)
        ensures
            r == self.last_fill_spec(),
    {
        self.last_fill
    }

    /// Whether any draw command has touched the surface.
    pub fn was_drawn(&self) -> (b: bool)
        ensures
            b == self.drawn_spec(),
    {
        self.last_fill.is_some()
    }

    /// Whether pending draw commands have been flushed to the queue.
    pub fn is_flushed(&self) -> (b: bool)
        ensures
            b == self.flushed_spec(),
    {
        self.flushed
    }

    /// Build the request that the unverified I/O layer needs to snapshot
    /// this surface, encode it and write it to storage. Succeeds for every
    /// surface, drawn or not, whenever the quality is within `0..=100`.
    pub fn export_request(&self, format: ImageFormat, quality: u8) -> (r: Result<
        ExportRequest,
        StudioError,
    >)
        ensures
            quality <= 100 ==> (r matches Ok(q) && q.width == self.width_spec()
                && q.height == self.height_spec() && q.format == format && q.quality == quality),
            quality > 100 ==> r == Err::<ExportRequest, StudioError>(StudioError::InvalidQuality),
    {
        if quality > 100 {
            Err(StudioError::InvalidQuality)
        } else {
            Ok(ExportRequest { width: self.width, height: self.height, format, quality })
        }
    }
}

/// The GPU context: the device and command-queue pair through which all GPU
/// work is issued. A value of this type witnesses a successful acquisition;
/// it exists once per process, and every other component borrows it.
#[derive(Debug)]
pub struct GpuContext {}

impl GpuContext {
    /// Acquire the default device and one command queue. The two probe
    /// results come from the native layer; acquisition succeeds exactly
    /// when both are positive, and each failure is fatal and named.
    pub fn acquire(device_available: bool, queue_available: bool) -> (r: Result<
        GpuContext,
        StudioError,
    >)
        ensures
            device_available && queue_available ==> r is Ok,
            !device_available ==> r == Err::<GpuContext, StudioError>(
                StudioError::DeviceUnavailable,
            ),
            device_available && !queue_available ==> r == Err::<GpuContext, StudioError>(
                StudioError::QueueUnavailable,
            ),
    {
        if !device_available {
            Err(StudioError::DeviceUnavailable)
        } else if !queue_available {
            Err(StudioError::QueueUnavailable)
        } else {
            Ok(GpuContext {})
        }
    }

    /// A fresh, uncommitted command buffer bound to the context's queue.
    pub fn new_command_buffer(&self) -> (b: CommandBuffer)
        ensures
            !b.committed_spec(),
    {
        CommandBuffer { committed: false }
    }
}

/// The studio owns the GPU context and the named frame-sharing session, and
/// carries the pipeline's publish bookkeeping: how many frames were handed
/// to the session and whether the session has been stopped.
#[derive(Debug)]
pub struct Studio {
    context: GpuContext,
    session_stopped: bool,
    frames_published: u64,
}

impl Studio {
    /// Whether the sharing session has been stopped.
    pub closed spec fn stopped_spec(&self) -> bool {
        self.session_stopped
    }

    /// How many frames have been handed to the sharing session.
    pub closed spec fn frames_published_spec(&self) -> u64 {
        self.frames_published
    }

    /// Whether the sharing session has been stopped.
    pub fn is_stopped(&self) -> (b: bool)
        ensures
            b == self.stopped_spec(),
    {
        self.session_stopped
    }

    /// How many frames have been handed to the sharing session.
    pub fn frames_published(&self) -> (n: u64)
        ensures
            n == self.frames_published_spec(),
    {
        self.frames_published
    }

    /// Build a studio: acquire the GPU context and bind the named sharing
    /// session to its device. The probe results come from the native
    /// layer; creation succeeds exactly when all three are positive. A new
    /// studio has published nothing and its session is running.
    pub fn new(device_available: bool, queue_available: bool, session_available: bool) -> (r:
        Result<Studio, StudioError>)
        ensures
            device_available && queue_available && session_available ==> (r matches Ok(s)
                && !s.stopped_spec() && s.frames_published_spec() == 0),
            !device_available ==> r == Err::<Studio, StudioError>(StudioError::DeviceUnavailable),
            device_available && !queue_available ==> r == Err::<Studio, StudioError>(
                StudioError::QueueUnavailable,
            ),
            device_available && queue_available && !session_available ==> r == Err::<
                Studio,
                StudioError,
            >(StudioError::SessionUnavailable),
    {
        let context = match GpuContext::acquire(device_available, queue_available) {
            Ok(c) => c,
            Err(e) => {
                return Err(e);
            },
        };
        if !session_available {
            return Err(StudioError::SessionUnavailable);
        }
        Ok(Studio { context, session_stopped: false, frames_published: 0 })
    }

    /// Allocate an offscreen GPU-backed surface of exactly the requested
    /// pixel dimensions, fresh and undrawn.
    pub fn create_drawing(&self, width: i32, height: i32) -> (d: Drawing)
        requires
            width > 0,
            height > 0,
        ensures
            d.width_spec() == width,
            d.height_spec() == height,
            !d.drawn_spec(),
            !d.flushed_spec(),
            d.wf(),
    {
        Drawing { width, height, last_fill: None, flushed: false }
    }

    /// Publish one frame: obtain a fresh command buffer, extract the
    /// drawing's texture with a read flush, build the origin rectangle from
    /// the texture's own dimensions, hand texture, buffer, rectangle and
    /// flip flag to the sharing session, then commit the buffer.
    ///
    /// Succeeds exactly when the session has not been stopped; then the
    /// published origin rectangle is `(0, 0, width, height)` of the
    /// drawing, the publish count rises by one, and the drawing's pending
    /// commands are flushed. After a stop nothing is published and nothing
    /// changes.
    pub fn publish_drawing(&mut self, drawing: &mut Drawing) -> (r: Result<
        PublishedFrame,
        StudioError,
    >)
        requires
            old(self).frames_published_spec() < u64::MAX,
        ensures
            old(self).stopped_spec() ==> {
                &&& r == Err::<PublishedFrame, StudioError>(StudioError::SessionStopped)
                &&& *final(self) == *old(self)
                &&& *final(drawing) == *old(drawing)
            },
            !old(self).stopped_spec() ==> {
                &&& r matches Ok(f)
                &&& f.tex_width == old(drawing).width_spec()
                &&& f.tex_height == old(drawing).height_spec()
                &&& f.origin == (Rect {
                    left: 0,
                    top: 0,
                    right: old(drawing).width_spec(),
                    bottom: old(drawing).height_spec(),
                })
                &&& f.flip
                &&& f.buffer.committed_spec()
                &&& final(self).frames_published_spec() == old(self).frames_published_spec() + 1
                &&& !final(self).stopped_spec()
                &&& final(drawing).flushed_spec()
                &&& final(drawing).width_spec() == old(drawing).width_spec()
                &&& final(drawing).height_spec() == old(drawing).height_spec()
                &&& final(drawing).last_fill_spec() == old(drawing).last_fill_spec()
            },
    {
        if self.session_stopped {
            return Err(StudioError::SessionStopped);
        }
        let mut buffer = self.context.new_command_buffer();
        let texture = drawing.get_texture(TextureAccess::FlushRead);
        let origin = Rect { left: 0, top: 0, right: texture.width, bottom: texture.height };
        self.frames_published = self.frames_published + 1;
        buffer.commit();
        let frame = PublishedFrame {
            tex_width: texture.width,
            tex_height: texture.height,
            origin,
            buffer,
            flip: true,
        };
        Ok(frame)
    }

    /// Stop the sharing session. The first call succeeds and stops it; any
    /// further call is refused and changes nothing, so a double stop is a
    /// detected error rather than undefined behaviour. Either way the
    /// session is stopped afterwards.
    pub fn stop(&mut self) -> (r: Result<(), StudioError>)
        ensures
            !old(self).stopped_spec() ==> (r is Ok && final(self).frames_published_spec() == old(
                self,
            ).frames_published_spec()),
            old(self).stopped_spec() ==> (r == Err::<(), StudioError>(StudioError::AlreadyStopped)
                && *final(self) == *old(self)),
            final(self).stopped_spec(),
    {
        if self.session_stopped {
            Err(StudioError::AlreadyStopped)
        } else {
            self.session_stopped = true;
            Ok(())
        }
    }
}

/// For every published frame, the origin rectangle's width and height equal
/// the extracted texture's dimensions, which equal the drawing's dimensions
/// at extraction time.
pub proof fn lemma_published_frame_matches_surface(
    d: Drawing,
    t: BackendTexture,
    f: PublishedFrame,
)
    requires
        t.width == d.width_spec(),
        t.height == d.height_spec(),
        f.tex_width == t.width,
        f.tex_height == t.height,
        f.origin == (Rect { left: 0, top: 0, right: t.width, bottom: t.height }),
    ensures
        f.origin.width() == t.width == d.width_spec(),
        f.origin.height() == t.height == d.height_spec(),
{
}

/// Two surfaces created from identical requested dimensions report
/// identical dimensions, whatever was drawn on either.
pub proof fn lemma_identical_requests_identical_dimensions(
    d1: Drawing,
    d2: Drawing,
    width: i32,
    height: i32,
)
    requires
        d1.width_spec() == width,
        d1.height_spec() == height,
        d2.width_spec() == width,
        d2.height_spec() == height,
    ensures
        d1.width_spec() == d2.width_spec(),
        d1.height_spec() == d2.height_spec(),
{
}

} // verus!
