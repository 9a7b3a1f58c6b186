//! How a window is created.

use crate::geometry::Size;
use vstd::prelude::*;

verus! {

/// The command line options that a window depends on.
#[derive(Debug, PartialEq)]
pub struct Opts {
    /// Run without a window.
    pub headless: bool,
    /// A file to write the page to.
    pub output_file: Option<String>,
    /// Leave out the native title bar and borders.
    pub no_native_titlebar: bool,
    /// Wait for the vertical retrace.
    pub enable_vsync: bool,
    /// Use multisample antialiasing.
    pub use_msaa: bool,
}

/// The samples per pixel of multisample antialiasing.
pub const MULTISAMPLES: u16 = 16;

/// A version of OpenGL or of OpenGL ES.
#[derive(Clone, Copy, Debug, PartialEq, Eq, Structural)]
pub enum GlVersion {
    OpenGl(u8, u8),
    OpenGlEs(u8, u8),
}

pub open spec fn spec_gl_version(is_arm: bool) -> GlVersion {
    if is_arm {
        GlVersion::OpenGlEs(3, 0)
    } else {
        GlVersion::OpenGl(3, 2)
    }
}

/// The version of OpenGL to ask for, on an ARM processor or on another one.
#[verifier::when_used_as_spec(spec_gl_version)]
pub fn gl_version(is_arm: bool) -> (version: GlVersion)
    ensures
        version == gl_version(is_arm),
{
    if is_arm {
        GlVersion::OpenGlEs(3, 0)
    } else {
        GlVersion::OpenGl(3, 2)
    }
}

/// The names that the attributes of an off-screen context go by.
#[derive(Clone, Copy, Debug, PartialEq, Eq, Structural)]
pub struct AttributeNames {
    pub profile: i32,
    pub core_profile: i32,
    pub major_version: i32,
    pub minor_version: i32,
}

/// What a headless window draws to.
#[derive(Debug, PartialEq)]
pub struct HeadlessContext {
    pub width: u32,
    pub height: u32,
    /// The pixels, row by row.
    pub buffer: Vec<u32>,
}

impl HeadlessContext {
    /// A cleared buffer with a place for each pixel.
    pub fn new(width: u32, height: u32) -> (context: HeadlessContext)
        requires
            width * height <= u32::MAX,
        ensures
            context.width == width,
            context.height == height,
            context.buffer@ == Seq::new((width * height) as nat, |i: int| 0u32),
    {
        let pixels: u32 = width * height;
        let buffer: Vec<u32> = vec![0; pixels as usize];
        assert(buffer@ =~= Seq::new((width * height) as nat, |i: int| 0u32));
        HeadlessContext { width, height, buffer }
    }

    /// A context without a buffer, for systems on which nothing can be drawn off-screen.
    pub fn without_buffer(width: u32, height: u32) -> (context: HeadlessContext)
        ensures
            context.width == width,
            context.height == height,
            context.buffer@ == Seq::<u32>::empty(),
    {
        HeadlessContext { width, height, buffer: Vec::new() }
    }

    /// The list of attributes to create the off-screen context with: core profile, version 3.3.
    /// Each name is followed by its value, and the list ends with a zero.
    pub fn attributes(names: AttributeNames) -> (attributes: Vec<i32>)
        ensures
            attributes@ == seq![
                names.profile,
                names.core_profile,
                names.major_version,
                3i32,
                names.minor_version,
                3i32,
                0i32,
            ],
    {
        let mut attributes: Vec<i32> = Vec::new();
        attributes.push(names.profile);
        attributes.push(names.core_profile);
        attributes.push(names.major_version);
        attributes.push(3);
        attributes.push(names.minor_version);
        attributes.push(3);
        attributes.push(0);
        attributes
    }

    /// The width and the height of the buffer.
    pub open spec fn spec_size(self) -> Size {
        Size { width: self.width, height: self.height }
    }
}

/// Whether a window is created visible. If there is no title bar it is not, since an empty window
/// would flash.
pub open spec fn starts_visible(is_foreground: bool, no_native_titlebar: bool) -> bool {
    is_foreground && !no_native_titlebar
}

/// Whether a window is shown as soon as it is created. If there is no title bar it is not: it is
/// shown when its page has loaded.
pub open spec fn shown_when_created(no_native_titlebar: bool) -> bool {
    !no_native_titlebar
}

/// How to create a native window.
#[derive(Debug, PartialEq)]
pub struct NativePlan {
    pub title: String,
    pub decorations: bool,
    pub transparency: bool,
    pub size: Size,
    pub visible: bool,
    /// Show the window as soon as it is created.
    pub shown: bool,
    pub multitouch: bool,
    /// Where there is a dock, keep the window out of it.
    pub hidden_from_dock: bool,
    pub gl: GlVersion,
    pub vsync: bool,
    pub multisampling: Option<u16>,
}

/// How to create a window.
#[derive(Debug, PartialEq)]
pub enum WindowPlan {
    Headless(Size),
    Native(NativePlan),
}

impl WindowPlan {
    /// The way to create a window of a size in device pixels.
    pub fn new(is_foreground: bool, opts: &Opts, size: Size, is_arm: bool) -> (plan: WindowPlan)
        ensures
            opts.headless ==> plan == WindowPlan::Headless(size),
            !opts.headless ==> plan is Native,
            plan matches WindowPlan::Native(native) ==> {
                &&& native.title@ == "Servo"@
                &&& native.decorations == !opts.no_native_titlebar
                &&& native.transparency == opts.no_native_titlebar
                &&& native.size == size
                &&& native.visible == starts_visible(is_foreground, opts.no_native_titlebar)
                &&& native.shown == shown_when_created(opts.no_native_titlebar)
                &&& native.multitouch
                &&& native.hidden_from_dock == (opts.headless || opts.output_file is Some)
                &&& native.gl == gl_version(is_arm)
                &&& native.vsync == opts.enable_vsync
                &&& native.multisampling == if opts.use_msaa {
                    Some(MULTISAMPLES)
                } else {
                    None
                }
            },
    {
        if opts.headless {
            WindowPlan::Headless(size)
        } else {
            WindowPlan::Native(
                NativePlan {
                    title: "Servo".to_owned(),
                    decorations: !opts.no_native_titlebar,
                    transparency: opts.no_native_titlebar,
                    size,
                    // If there's no chrome, start off with the window invisible. It will be set to
                    // visible when the page has loaded.
                    visible: is_foreground && !opts.no_native_titlebar,
                    shown: !opts.no_native_titlebar,
                    multitouch: true,
                    hidden_from_dock: opts.headless || opts.output_file.is_some(),
                    gl: gl_version(is_arm),
                    vsync: opts.enable_vsync,
                    multisampling: if opts.use_msaa {
                        Some(MULTISAMPLES)
                    } else {
                        None
                    },
                },
            )
        }
    }
}

} // verus!
