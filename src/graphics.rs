//! The rendering-context side of initialization: which native display and
//! surface a context is bound to, and with which attributes and pixel format.
//! The context itself is created by the host from the request made here.
use vstd::prelude::*;

use crate::input::InputHandler;
use crate::winit::WinitInputBackend;

verus! {

/// How a context reacts to a GPU reset.
#[derive(Debug, Clone, Copy, PartialEq, Eq, Hash)]
pub enum Robustness {
    NotRobust,
    NoError,
    RobustNoResetNotification,
    TryRobustNoResetNotification,
    RobustLoseContextOnReset,
    TryRobustLoseContextOnReset,
}

/// Which OpenGL profile a context asks for.
#[derive(Debug, Clone, Copy, PartialEq, Eq, Hash)]
pub enum GlProfile {
    Compatibility,
    Core,
}

/// The attributes a context is created with.
#[derive(Debug, Clone, Copy, PartialEq, Eq, Hash)]
pub struct GlAttributes {
    /// The API version, as major and minor; `None` for the newest available.
    pub version: Option<(u8, u8)>,
    pub profile: Option<GlProfile>,
    pub debug: bool,
    pub robustness: Robustness,
    pub vsync: bool,
}

/// What a pixel format must offer; `None` leaves a property open.
#[derive(Debug, Clone, Copy, PartialEq, Eq, Hash)]
pub struct PixelFormatRequirements {
    pub hardware_accelerated: Option<bool>,
    pub color_bits: Option<u8>,
    pub float_color_buffer: bool,
    pub alpha_bits: Option<u8>,
    pub depth_bits: Option<u8>,
    pub stencil_bits: Option<u8>,
    pub double_buffer: Option<bool>,
    pub multisampling: Option<u16>,
    pub stereoscopy: bool,
}

/// The native display and drawing target a context is bound to, as the
/// window system's handles: addresses of the display connections and surface,
/// and the X11 window id.
#[derive(Debug, Clone, Copy, PartialEq, Eq, Hash)]
pub enum NativeDisplay {
    X11 { display: usize, window: u64 },
    Wayland { display: usize, surface: usize },
}

/// Why the window or its context could not be set up.
#[derive(Debug, Clone, PartialEq, Eq, Hash)]
pub enum CreationError {
    /// The operating system refused, with its own diagnostic.
    OsError(String),
    /// No usable native display and surface could be resolved from the window.
    NotSupported,
    /// Negotiating the context or its pixel format failed, with the lower
    /// layer's own message.
    ContextFailed(String),
}

/// Everything the host needs to create the rendering context for a window.
#[derive(Debug, Clone, Copy, PartialEq, Eq, Hash)]
pub struct ContextRequest {
    pub native: NativeDisplay,
    pub attributes: GlAttributes,
    pub pixel_format: PixelFormatRequirements,
    /// On Wayland, the size of the auxiliary drawing surface to create, which
    /// is the window's inner size; `None` on X11, where none is needed.
    pub surface_size: Option<(u32, u32)>,
}

/// The fixed pixel-format requirements: hardware acceleration, at least 24
/// color bits and 8 alpha bits, everything else left open.
pub open spec fn required_pixel_format() -> PixelFormatRequirements {
    PixelFormatRequirements {
        hardware_accelerated: Some(true),
        color_bits: Some(24),
        float_color_buffer: false,
        alpha_bits: Some(8),
        depth_bits: None,
        stencil_bits: None,
        double_buffer: None,
        multisampling: None,
        stereoscopy: false,
    }
}

/// The default attributes: newest version, any profile, not robust, vsync on.
pub open spec fn default_attributes(debug: bool) -> GlAttributes {
    GlAttributes {
        version: None,
        profile: None,
        debug,
        robustness: Robustness::NotRobust,
        vsync: true,
    }
}

/// The pairing chosen from the handles that the window offers: X11 first,
/// then Wayland.
pub open spec fn native_of(x11: Option<(usize, u64)>, wayland: Option<(usize, usize)>) -> Option<
    NativeDisplay,
> {
    match (x11, wayland) {
        (Some((display, window)), _) => Some(NativeDisplay::X11 { display, window }),
        (None, Some((display, surface))) => Some(NativeDisplay::Wayland { display, surface }),
        (None, None) => None,
    }
}

pub fn pixel_format_requirements() -> (r: PixelFormatRequirements)
    ensures
        r == required_pixel_format(),
{
    PixelFormatRequirements {
        hardware_accelerated: Some(true),
        color_bits: Some(24),
        float_color_buffer: false,
        alpha_bits: Some(8),
        depth_bits: None,
        stencil_bits: None,
        double_buffer: None,
        multisampling: None,
        stereoscopy: false,
    }
}

impl GlAttributes {
    /// The default attributes, with the debug flag given.
    pub fn default_for(debug: bool) -> (r: GlAttributes)
        ensures
            r == default_attributes(debug),
    {
        GlAttributes {
            version: None,
            profile: None,
            debug,
            robustness: Robustness::NotRobust,
            vsync: true,
        }
    }
}

/// Resolves the native display and surface from the X11 display and window,
/// or else the Wayland display and client surface, that the window offers.
pub fn resolve_native(x11: Option<(usize, u64)>, wayland: Option<(usize, usize)>) -> (r: Result<
    NativeDisplay,
    CreationError,
>)
    ensures
        r == match native_of(x11, wayland) {
            Some(n) => Ok::<NativeDisplay, CreationError>(n),
            None => Err(CreationError::NotSupported),
        },
{
    match (x11, wayland) {
        (Some((display, window)), _) => Ok(NativeDisplay::X11 { display, window }),
        (None, Some((display, surface))) => Ok(NativeDisplay::Wayland { display, surface }),
        (None, None) => Err(CreationError::NotSupported),
    }
}

/// Sets up a window of inner size `inner_size` offering the given handles:
/// the request for its rendering context, with the given attributes, and its
/// event source adapter. Fails with `NotSupported` when neither an X11 nor a
/// Wayland pairing is offered.
pub fn init_from_builder_with_gl_attr<H: InputHandler>(
    x11: Option<(usize, u64)>,
    wayland: Option<(usize, usize)>,
    inner_size: (u32, u32),
    attributes: GlAttributes,
) -> (r: Result<(ContextRequest, WinitInputBackend<H>), CreationError>)
    ensures
        r is Err <==> native_of(x11, wayland) is None,
        r is Err ==> r == Err::<(ContextRequest, WinitInputBackend<H>), CreationError>(
            CreationError::NotSupported,
        ),
        r matches Ok((req, backend)) ==> {
            &&& native_of(x11, wayland) == Some(req.native)
            &&& req.attributes == attributes
            &&& req.pixel_format == required_pixel_format()
            &&& req.surface_size == if x11 is Some {
                None
            } else {
                Some(inner_size)
            }
            &&& backend.wf()
            &&& backend.spec_time() == 0
            &&& backend.spec_keys() == 0
            &&& backend.spec_window_size() == Some(inner_size)
            &&& backend.spec_handler() is None
        },
{
    let native = match resolve_native(x11, wayland) {
        Ok(n) => n,
        Err(e) => {
            return Err(e);
        },
    };
    let surface_size = match native {
        NativeDisplay::X11 { .. } => None,
        NativeDisplay::Wayland { .. } => Some(inner_size),
    };
    let request = ContextRequest {
        native,
        attributes,
        pixel_format: pixel_format_requirements(),
        surface_size,
    };
    Ok((request, WinitInputBackend::new(Some(inner_size))))
}

/// As `init_from_builder_with_gl_attr`, with the default attributes.
pub fn init_from_builder<H: InputHandler>(
    x11: Option<(usize, u64)>,
    wayland: Option<(usize, usize)>,
    inner_size: (u32, u32),
    debug: bool,
) -> (r: Result<(ContextRequest, WinitInputBackend<H>), CreationError>)
    ensures
        r is Err <==> native_of(x11, wayland) is None,
        r is Err ==> r == Err::<(ContextRequest, WinitInputBackend<H>), CreationError>(
            CreationError::NotSupported,
        ),
        r matches Ok((req, backend)) ==> {
            &&& native_of(x11, wayland) == Some(req.native)
            &&& req.attributes == default_attributes(debug)
            &&& req.pixel_format == required_pixel_format()
            &&& req.surface_size == if x11 is Some {
                None
            } else {
                Some(inner_size)
            }
            &&& backend.wf()
            &&& backend.spec_time() == 0
            &&& backend.spec_keys() == 0
            &&& backend.spec_window_size() == Some(inner_size)
            &&& backend.spec_handler() is None
        },
{
    init_from_builder_with_gl_attr(x11, wayland, inner_size, GlAttributes::default_for(debug))
}

} // verus!
