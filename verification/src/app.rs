//! Window options and the engine's event type.

use vstd::prelude::*;
use vstd::string::StringExecFns;

verus! {

/// What one call of the frame step reports to the game.
#[derive(Clone, Copy, Debug, PartialEq, Eq, Structural)]
pub enum Event {
    Idle,
    Close,
    Input,
    Update,
    Render,
}

/// A width and a height, in pixels.
#[derive(Clone, Copy, Debug, PartialEq, Eq, Structural)]
pub struct Size {
    pub width: u32,
    pub height: u32,
}

/// The mathematical content of an [`AppBuilder`].
pub struct AppBuilderView {
    pub title: Seq<char>,
    pub size: Option<Size>,
    pub min_size: Option<Size>,
    pub max_size: Option<Size>,
    pub vsync: bool,
}

/// Collects the options a window is opened with. An option that was never
/// set stays `None`, and the windowing system's own default applies to it.
#[derive(Clone, Debug)]
pub struct AppBuilder {
    title: String,
    size: Option<Size>,
    min_size: Option<Size>,
    max_size: Option<Size>,
    vsync: bool,
}

impl View for AppBuilder {
    type V = AppBuilderView;

    closed spec fn view(&self) -> AppBuilderView {
        AppBuilderView {
            title: self.title@,
            size: self.size,
            min_size: self.min_size,
            max_size: self.max_size,
            vsync: self.vsync,
        }
    }
}

/// The title of a window whose builder was given none.
pub open spec fn default_title() -> Seq<char> {
    "Sunlite"@
}

impl AppBuilder {
    /// A builder with the default title, no size, no bounds and vsync off.
    pub fn new() -> (builder: Self)
        ensures
            builder@ == (AppBuilderView {
                title: default_title(),
                size: None,
                min_size: None,
                max_size: None,
                vsync: false,
            }),
    {
        AppBuilder {
            title: String::from_str("Sunlite"),
            size: None,
            max_size: None,
            min_size: None,
            vsync: false,
        }
    }

    /// Sets the window's title. Returns the builder, so that calls chain.
    pub fn title(&mut self, title: &str) -> (builder: &mut AppBuilder)
        ensures
            builder@ == (AppBuilderView { title: title@, ..old(self)@ }),
            *final(self) == *final(builder),
    {
        self.title = String::from_str(title);
        self
    }

    /// Sets the size the window opens with.
    pub fn size(&mut self, width: u32, height: u32) -> (builder: &mut AppBuilder)
        ensures
            builder@ == (AppBuilderView { size: Some(Size { width, height }), ..old(self)@ }),
            *final(self) == *final(builder),
    {
        self.size = Some(Size { width, height });
        self
    }

    /// Sets the smallest size the window may be resized to.
    pub fn min_size(&mut self, width: u32, height: u32) -> (builder: &mut AppBuilder)
        ensures
            builder@ == (AppBuilderView { min_size: Some(Size { width, height }), ..old(self)@ }),
            *final(self) == *final(builder),
    {
        self.min_size = Some(Size { width, height });
        self
    }

    /// Sets the largest size the window may be resized to.
    pub fn max_size(&mut self, width: u32, height: u32) -> (builder: &mut AppBuilder)
        ensures
            builder@ == (AppBuilderView { max_size: Some(Size { width, height }), ..old(self)@ }),
            *final(self) == *final(builder),
    {
        self.max_size = Some(Size { width, height });
        self
    }

    /// Sets whether buffer swaps wait for the display's vertical refresh.
    pub fn vsync(&mut self, vsync: bool) -> (builder: &mut AppBuilder)
        ensures
            builder@ == (AppBuilderView { vsync, ..old(self)@ }),
            *final(self) == *final(builder),
    {
        self.vsync = vsync;
        self
    }

    /// The title the window opens with.
    pub fn get_title(&self) -> (title: &str)
        ensures
            title@ == self@.title,
    {
        self.title.as_str()
    }

    /// The size the window opens with, if one was set.
    pub fn get_size(&self) -> (size: Option<Size>)
        ensures
            size == self@.size,
    {
        self.size
    }

    /// The smallest size the window may be resized to, if one was set.
    pub fn get_min_size(&self) -> (size: Option<Size>)
        ensures
            size == self@.min_size,
    {
        self.min_size
    }

    /// The largest size the window may be resized to, if one was set.
    pub fn get_max_size(&self) -> (size: Option<Size>)
        ensures
            size == self@.max_size,
    {
        self.max_size
    }

    /// Whether buffer swaps wait for the display's vertical refresh.
    pub fn get_vsync(&self) -> (vsync: bool)
        ensures
            vsync == self@.vsync,
    {
        self.vsync
    }
}

} // verus!
