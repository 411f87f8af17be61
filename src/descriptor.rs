//! Image descriptors and the error kinds of the library.
use vstd::prelude::*;

verus! {

/// One remote image: where to download it and the date that keys its cache entry.
#[derive(Debug, Clone)]
pub struct ImageDescriptor {
    pub url: String,
    pub date: String,
}

/// The mathematical content of a descriptor.
pub struct DescriptorModel {
    pub url: Seq<char>,
    pub date: Seq<char>,
}

impl View for ImageDescriptor {
    type V = DescriptorModel;

    open spec fn view(&self) -> DescriptorModel {
        DescriptorModel { url: self.url@, date: self.date@ }
    }
}

impl ImageDescriptor {
    /// Builds a descriptor from its two fields.
    pub fn new(url: String, date: String) -> (r: ImageDescriptor)
        ensures
            r.url@ == url@,
            r.date@ == date@,
    {
        ImageDescriptor { url, date }
    }

    /// An independent copy with the same contents.
    pub fn duplicate(&self) -> (r: ImageDescriptor)
        ensures
            r@ == self@,
    {
        ImageDescriptor { url: self.url.clone(), date: self.date.clone() }
    }
}

/// Why fetching the list of descriptors failed.
#[derive(Debug, Clone, Copy, PartialEq, Eq, Structural)]
pub enum FetchError {
    /// The transport failed.
    Network,
    /// The response did not have the expected shape.
    Decode,
}

/// Why resolving an image to a local file failed.
#[derive(Debug, Clone, Copy, PartialEq, Eq, Structural)]
pub enum CacheError {
    /// The download failed.
    Network,
    /// Creating the directory or writing the file failed.
    Storage,
}

/// Why setting the desktop background failed.
#[derive(Debug, Clone, Copy, PartialEq, Eq, Structural)]
pub enum WallpaperError {
    /// The image could not be brought into the cache.
    Cache(CacheError),
    /// The operating system refused the new background.
    Setter,
}

} // verus!
