//! The application state: the fetched descriptors and the cursor of the image
//! on show, with the transitions that user commands and outside results cause.
use vstd::prelude::*;
use crate::descriptor::{DescriptorModel, FetchError, ImageDescriptor, WallpaperError};

verus! {

/// An input to the state machine: a user command or the result of outside work.
#[derive(Debug)]
pub enum Message {
    /// Fetch the list of descriptors (at start-up, or to reload).
    Load,
    /// The fetch is over.
    Loaded(Result<Vec<ImageDescriptor>, FetchError>),
    /// Show the following image.
    Next,
    /// Show the preceding image.
    Previous,
    /// Make the image on show the desktop background.
    SetCurrentAsWallpaper,
    /// Setting the background is over.
    WallpaperSet(Result<(), WallpaperError>),
}

/// The outside work that a transition asks for.
#[derive(Debug)]
pub enum Effect {
    /// Nothing.
    Idle,
    /// Fetch the list of descriptors and answer with `Message::Loaded`.
    Fetch,
    /// Tell the user that loading failed.
    ReportLoadError(FetchError),
    /// Bring this image into the cache, set it as the background, and answer
    /// with `Message::WallpaperSet`.
    SetWallpaper(ImageDescriptor),
    /// Tell the user that setting the background failed.
    ReportSetError(WallpaperError),
}

/// The cursor after `Next` in a collection of `len` images.
pub open spec fn next_cursor(len: nat, c: nat) -> nat {
    if c + 1 < len {
        (c + 1) as nat
    } else {
        c
    }
}

/// The cursor after `Previous`.
pub open spec fn previous_cursor(c: nat) -> nat {
    if c > 0 {
        (c - 1) as nat
    } else {
        c
    }
}

/// The cursor after a navigation message; other messages leave it alone.
pub open spec fn cursor_step(len: nat, c: nat, m: Message) -> nat {
    match m {
        Message::Next => next_cursor(len, c),
        Message::Previous => previous_cursor(c),
        _ => c,
    }
}

/// The cursor after a sequence of navigation messages.
pub open spec fn cursor_after(len: nat, c: nat, ms: Seq<Message>) -> nat
    decreases ms.len(),
{
    if ms.len() == 0 {
        c
    } else {
        cursor_after(len, cursor_step(len, c, ms[0]), ms.drop_first())
    }
}

/// The images in order, newest first, and the position of the one on show.
/// With no images the state is empty and the cursor is zero.
pub struct TrayMat {
    images: Vec<ImageDescriptor>,
    position: usize,
}

impl TrayMat {
    /// The contents of the descriptors, in order.
    pub closed spec fn images_view(&self) -> Seq<DescriptorModel> {
        self.images@.map_values(|d: ImageDescriptor| d@)
    }

    /// The position of the image on show.
    pub closed spec fn cursor_view(&self) -> nat {
        self.position as nat
    }

    /// Whether a collection is loaded.
    pub open spec fn is_ready(&self) -> bool {
        self.images_view().len() > 0
    }

    /// The cursor stays on an image; an empty state has cursor zero.
    pub open spec fn wf(&self) -> bool {
        if self.is_ready() {
            self.cursor_view() < self.images_view().len()
        } else {
            self.cursor_view() == 0
        }
    }

    /// The state at start-up: nothing loaded.
    pub fn new() -> (r: TrayMat)
        ensures
            r.wf(),
            !r.is_ready(),
    {
        TrayMat { images: Vec::new(), position: 0 }
    }

    /// The number of images loaded.
    pub fn len(&self) -> (r: usize)
        ensures
            r == self.images_view().len(),
    {
        self.images.len()
    }

    /// The position of the image on show.
    pub fn position(&self) -> (r: usize)
        ensures
            r == self.cursor_view(),
    {
        self.position
    }

    /// The image on show, if a collection is loaded.
    pub fn current(&self) -> (r: Option<&ImageDescriptor>)
        requires
            self.wf(),
        ensures
            self.is_ready() <==> r is Some,
            r matches Some(d) ==> d@ == self.images_view()[self.cursor_view() as int],
    {
        if self.position < self.images.len() {
            Some(&self.images[self.position])
        } else {
            None
        }
    }

    /// Applies one message and returns the new state with the work it asks for.
    pub fn update(self, msg: Message) -> (r: (TrayMat, Effect))
        requires
            self.wf(),
        ensures
            r.0.wf(),
            match msg {
                Message::Load => {
                    &&& r.0.images_view() == self.images_view()
                    &&& r.0.cursor_view() == self.cursor_view()
                    &&& r.1 is Fetch
                },
                Message::Loaded(Ok(v)) => {
                    &&& r.0.images_view() == v@.map_values(|d: ImageDescriptor| d@)
                    &&& r.0.cursor_view() == 0
                    &&& r.1 is Idle
                },
                Message::Loaded(Err(e)) => {
                    &&& r.0.images_view() == self.images_view()
                    &&& r.0.cursor_view() == self.cursor_view()
                    &&& r.1 == Effect::ReportLoadError(e)
                },
                Message::Next | Message::Previous => {
                    &&& r.0.images_view() == self.images_view()
                    &&& r.0.cursor_view() == cursor_step(
                        self.images_view().len(),
                        self.cursor_view(),
                        msg,
                    )
                    &&& r.1 is Idle
                },
                Message::SetCurrentAsWallpaper => {
                    &&& r.0.images_view() == self.images_view()
                    &&& r.0.cursor_view() == self.cursor_view()
                    &&& if self.is_ready() {
                        r.1 matches Effect::SetWallpaper(d) && d@ == self.images_view()[self.cursor_view() as int]
                    } else {
                        r.1 is Idle
                    }
                },
                Message::WallpaperSet(outcome) => {
                    &&& r.0.images_view() == self.images_view()
                    &&& r.0.cursor_view() == self.cursor_view()
                    &&& match outcome {
                        Ok(()) => r.1 is Idle,
                        Err(e) => r.1 == Effect::ReportSetError(e),
                    }
                },
            },
    {
        let TrayMat { images, position } = self;
        match msg {
            Message::Load => (TrayMat { images, position }, Effect::Fetch),
            Message::Loaded(Ok(v)) => (TrayMat { images: v, position: 0 }, Effect::Idle),
            Message::Loaded(Err(e)) => (TrayMat { images, position }, Effect::ReportLoadError(e)),
            Message::Next => {
                let position = if position < images.len() && images.len() - position > 1 {
                    position + 1
                } else {
                    position
                };
                (TrayMat { images, position }, Effect::Idle)
            },
            Message::Previous => {
                let position = if position > 0 {
                    position - 1
                } else {
                    position
                };
                (TrayMat { images, position }, Effect::Idle)
            },
            Message::SetCurrentAsWallpaper => {
                if position < images.len() {
                    let d = images[position].duplicate();
                    (TrayMat { images, position }, Effect::SetWallpaper(d))
                } else {
                    (TrayMat { images, position }, Effect::Idle)
                }
            },
            Message::WallpaperSet(Ok(())) => (TrayMat { images, position }, Effect::Idle),
            Message::WallpaperSet(Err(e)) => (TrayMat { images, position }, Effect::ReportSetError(e)),
        }
    }
}

/// Navigation never takes a valid cursor out of the collection.
pub proof fn lemma_navigation_stays_in_bounds(len: nat, c: nat, ms: Seq<Message>)
    requires
        c < len,
    ensures
        cursor_after(len, c, ms) < len,
    decreases ms.len(),
{
    if ms.len() > 0 {
        lemma_navigation_stays_in_bounds(len, cursor_step(len, c, ms[0]), ms.drop_first());
    }
}

/// `Next` on the last image and `Previous` on the first change nothing.
pub proof fn lemma_navigation_clamps(len: nat)
    requires
        len > 0,
    ensures
        cursor_step(len, (len - 1) as nat, Message::Next) == len - 1,
        cursor_step(len, 0, Message::Previous) == 0,
{
}

} // verus!
