//! Opening files: what the files read so far add up to, and when to stop reading.
//!
//! The application reads and decodes one file at a time and hands each result to a
//! [`PathLoader`]; the loader says whether to read on and finally builds the outcome the
//! workspace applies.

use vstd::prelude::*;

use crate::document::{raster_views, string_views};
use crate::raster::{Raster, RasterView};
use crate::ui_message::{ErrorKind, UiMessage};
use crate::workspace_state::{InfoMessage, WorkspaceOutcome};

verus! {

/// What reading and decoding one file gave.
pub enum LoadItem {
    /// A decoded image, its file name, its file stem and the bytes it was read from.
    Decoded { image: Raster, file_name: String, stem: String, bytes: Vec<u8> },
    /// The file could not be read or decoded.
    Failed { kind: ErrorKind, detail: String },
}

/// The files read so far.
pub struct PathLoader {
    single: bool,
    images: Vec<Raster>,
    names: Vec<String>,
    first_bytes: Option<Vec<u8>>,
    first_name: Option<String>,
    failures: usize,
    last_failure: Option<(ErrorKind, String)>,
}

/// The model of a loader.
pub struct PathLoaderView {
    pub single: bool,
    pub images: Seq<RasterView>,
    pub names: Seq<Seq<char>>,
    pub first_bytes: Option<Seq<u8>>,
    pub first_name: Option<Seq<char>>,
    pub failures: nat,
    pub last_failure: Option<(ErrorKind, Seq<char>)>,
}

impl View for PathLoader {
    type V = PathLoaderView;

    closed spec fn view(&self) -> PathLoaderView {
        PathLoaderView {
            single: self.single,
            images: raster_views(self.images@),
            names: string_views(self.names@),
            first_bytes: match self.first_bytes {
                Some(b) => Some(b@),
                None => None,
            },
            first_name: match self.first_name {
                Some(n) => Some(n@),
                None => None,
            },
            failures: self.failures as nat,
            last_failure: match self.last_failure {
                Some((k, d)) => Some((k, d@)),
                None => None,
            },
        }
    }
}

impl PathLoader {
    /// Images and names stay paired; the first image's name and bytes are kept once one
    /// image was read.
    pub closed spec fn wf(&self) -> bool {
        &&& self.images.len() == self.names.len()
        &&& (self.images.len() > 0 <==> self.first_name is Some)
        &&& (self.images.len() > 0 <==> self.first_bytes is Some)
        &&& forall|i: int| 0 <= i < self.images.len() ==> (#[trigger] self.images@[i]).wf()
    }

    /// Nothing read yet; `single` keeps only the first image that decodes.
    pub fn new(single: bool) -> (loader: PathLoader)
        ensures
            loader.wf(),
            loader@.single == single,
            loader@.images.len() == 0,
            loader@.names.len() == 0,
            loader@.failures == 0,
            loader@.last_failure is None,
    {
        PathLoader {
            single,
            images: Vec::new(),
            names: Vec::new(),
            first_bytes: None,
            first_name: None,
            failures: 0,
            last_failure: None,
        }
    }

    /// Records one file. A decoded image is kept under its file name (one document) or
    /// its stem (input images); the first one's name and bytes are remembered. A failure
    /// is counted and becomes the last failure. Returns whether to read on: a single
    /// document stops at its first image.
    pub fn accept(&mut self, item: LoadItem) -> (go_on: bool)
        requires
            old(self).wf(),
            old(self)@.failures < usize::MAX,
            item matches LoadItem::Decoded { image, .. } ==> image.wf(),
        ensures
            final(self).wf(),
            final(self)@.single == old(self)@.single,
            match item {
                LoadItem::Decoded { image, file_name, stem, bytes } => {
                    &&& final(self)@.images == old(self)@.images.push(image@)
                    &&& final(self)@.names == old(self)@.names.push(
                        if old(self)@.single {
                            file_name@
                        } else {
                            stem@
                        },
                    )
                    &&& final(self)@.first_name == if old(self)@.images.len() == 0 {
                        Some(file_name@)
                    } else {
                        old(self)@.first_name
                    }
                    &&& final(self)@.first_bytes == if old(self)@.images.len() == 0 {
                        Some(bytes@)
                    } else {
                        old(self)@.first_bytes
                    }
                    &&& final(self)@.failures == old(self)@.failures
                    &&& final(self)@.last_failure == old(self)@.last_failure
                    &&& go_on == !old(self)@.single
                },
                LoadItem::Failed { kind, detail } => {
                    &&& final(self)@.images == old(self)@.images
                    &&& final(self)@.names == old(self)@.names
                    &&& final(self)@.first_name == old(self)@.first_name
                    &&& final(self)@.first_bytes == old(self)@.first_bytes
                    &&& final(self)@.failures == old(self)@.failures + 1
                    &&& final(self)@.last_failure == Some((kind, detail@))
                    &&& go_on
                },
            },
    {
        match item {
            LoadItem::Decoded { image, file_name, stem, bytes } => {
                if self.images.len() == 0 {
                    self.first_name = Some(file_name.clone());
                    self.first_bytes = Some(bytes);
                }
                let name = if self.single {
                    file_name
                } else {
                    stem
                };
                self.images.push(image);
                self.names.push(name);
                proof {
                    assert(raster_views(self.images@) =~= raster_views(old(self).images@).push(image@));
                    assert(string_views(self.names@) =~= string_views(old(self).names@).push(name@));
                }
                !self.single
            },
            LoadItem::Failed { kind, detail } => {
                self.failures = self.failures + 1;
                self.last_failure = Some((kind, detail));
                true
            },
        }
    }

    /// What the files add up to: without any image, the last failure (or a corrupted-image
    /// failure when nothing failed either); otherwise the images and their names, with
    /// the first file's name, size and bytes for a single document, or the counts of
    /// opened and failed files for input images.
    pub fn finish<E, R>(self, append: bool) -> (outcome: WorkspaceOutcome<E, R>)
        requires
            self.wf(),
        ensures
            self@.images.len() == 0 ==> match self@.last_failure {
                Some((k, d)) => (outcome matches WorkspaceOutcome::Failed { kind, detail } && kind == k
                    && detail@ == d),
                None => (outcome matches WorkspaceOutcome::Failed { kind, .. } && kind
                    == ErrorKind::CorruptedImage),
            },
            self@.images.len() > 0 ==> (outcome matches WorkspaceOutcome::Loaded {
                images,
                source_names,
                source_bytes,
                info,
                status,
                single,
                append: appended,
            } && raster_views(images@) == self@.images && string_views(source_names@) == self@.names
                && single == self@.single && appended == append && if self@.single {
                &&& source_bytes matches Some(b) && Some(b@) == self@.first_bytes
                &&& info matches InfoMessage::Image { name, width, height } && Some(name@) == self@.first_name
                    && width == self@.images[0].width && height == self@.images[0].height
                &&& status == UiMessage::LoadedImage
            } else {
                &&& source_bytes is None
                &&& info is Empty
                &&& status == UiMessage::LoadedMultiple {
                    successes: self@.images.len() as usize,
                    failures: self@.failures as usize,
                }
            }),
    {
        let PathLoader { single, images, names, first_bytes, first_name, failures, last_failure } = self;
        if images.len() == 0 {
            return match last_failure {
                Some((kind, detail)) => WorkspaceOutcome::Failed { kind, detail },
                None => WorkspaceOutcome::Failed {
                    kind: ErrorKind::CorruptedImage,
                    detail: String::from_str("no image could be loaded"),
                },
            };
        }
        let width = images[0].width;
        let height = images[0].height;
        let successes = images.len();
        if single {
            let name = match first_name {
                Some(name) => name,
                None => String::new(),
            };
            WorkspaceOutcome::Loaded {
                images,
                source_names: names,
                source_bytes: first_bytes,
                info: InfoMessage::Image { name, width, height },
                status: UiMessage::LoadedImage,
                single,
                append,
            }
        } else {
            WorkspaceOutcome::Loaded {
                images,
                source_names: names,
                source_bytes: None,
                info: InfoMessage::Empty,
                status: UiMessage::LoadedMultiple { successes, failures },
                single,
                append,
            }
        }
    }
}

} // verus!
