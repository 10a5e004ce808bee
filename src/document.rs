//! The engine token and the verified bookkeeping of an open document: which thread owns it,
//! how many pages the last layout produced, and which calls may reach the native layer.
//!
//! Every gate here returns `Err` for a call that must not reach the native layer and `Ok`
//! with exactly what the native call is to receive otherwise; the runtime that owns the
//! native handle performs the call only on `Ok`.

use vstd::prelude::*;

use crate::affinity::{thread_check, ThreadAffinity};
use crate::canvas::{Canvas, CanvasView};
use crate::error::{map_status, status_outcome, Error, Result};
use crate::layout::TocEntry;
use crate::native::{CreRenderSurface, CreResult, CRE_RESULT_OK};

verus! {

/// The kinds of input the engine opens; it tells them apart by file extension.
#[derive(Debug, Clone, Copy, PartialEq, Eq, Structural)]
pub enum DocumentKind {
    /// An EPUB container.
    Epub,
    /// A single HTML file.
    Html,
}

impl DocumentKind {
    /// The extension, without its dot, of the backing file for this kind.
    pub open spec fn extension_spec(self) -> Seq<char> {
        match self {
            DocumentKind::Epub => seq!['e', 'p', 'u', 'b'],
            DocumentKind::Html => seq!['h', 't', 'm', 'l'],
        }
    }

    /// File extension, without its dot, that makes the engine read the bytes as this kind.
    pub fn extension(self) -> (r: &'static str)
        ensures
            r@ == self.extension_spec(),
    {
        match self {
            DocumentKind::Epub => {
                proof {
                    reveal_strlit("epub");
                }
                "epub"
            },
            DocumentKind::Html => {
                proof {
                    reveal_strlit("html");
                }
                "html"
            },
        }
    }
}

/// Process-level token from which documents are opened, pinned to the thread that created
/// it.
#[derive(Debug)]
pub struct Engine {
    affinity: ThreadAffinity,
}

impl View for Engine {
    type V = ThreadAffinity;

    closed spec fn view(&self) -> ThreadAffinity {
        self.affinity
    }
}

impl Engine {
    /// Initializes the engine on thread `current`. No native set-up is needed today, so this
    /// always succeeds; the `Result` leaves room for one that may fail.
    pub fn initialize(current: u64) -> (r: Result<Self>)
        ensures
            r matches Ok(e) && e@.owner == current,
    {
        Ok(Engine { affinity: ThreadAffinity::pinned_to(current) })
    }

    /// Gives the token up. There is no native teardown to perform.
    pub fn shutdown(self) {
    }

    /// Succeeds exactly when `current` is the thread the engine was created on.
    pub fn ensure_thread(&self, current: u64) -> (r: Result<()>)
        ensures
            r == thread_check(self@.owner, current),
    {
        self.affinity.ensure_thread(current)
    }

    /// The thread pinning that documents opened from this engine inherit.
    pub fn handle(&self) -> (r: ThreadAffinity)
        ensures
            r == self@,
    {
        self.affinity
    }
}

/// What the wrapper knows of an open document: its owning thread and the page count cached
/// by the most recent successful layout.
pub struct DocumentView {
    pub owner: u64,
    pub pages: u32,
}

/// Outcome of opening: the native status decides first, then a null handle is refused even
/// under a success status.
pub open spec fn open_outcome(
    engine: ThreadAffinity,
    status: CreResult,
    null_handle: bool,
) -> core::result::Result<DocumentView, Error> {
    match status_outcome(status) {
        Err(e) => Err(e),
        Ok(_) => if null_handle {
            Err(Error::NullHandle)
        } else {
            Ok(DocumentView { owner: engine.owner, pages: 0 })
        },
    }
}

/// Outcome of reading the page count: the reported count when the status is success.
pub open spec fn count_outcome(status: CreResult, reported: u32) -> core::result::Result<
    u32,
    Error,
> {
    match status_outcome(status) {
        Err(e) => Err(e),
        Ok(_) => Ok(reported),
    }
}

/// Outcome of asking to render page `index` of `doc` into `canvas` from thread `current`:
/// the thread is checked first, then the page index, then the buffer length; only then is
/// the surface descriptor handed out.
pub open spec fn render_outcome(
    doc: DocumentView,
    current: u64,
    index: u32,
    canvas: CanvasView,
) -> core::result::Result<CreRenderSurface, Error> {
    if doc.owner != current {
        Err(Error::WrongThread)
    } else if index >= doc.pages {
        Err(Error::PageOutOfBounds { index, total: doc.pages })
    } else if canvas.bytes.len() < canvas.required_len() {
        Err(
            Error::SurfaceTooSmall {
                expected: canvas.required_len() as usize,
                actual: canvas.bytes.len() as usize,
            },
        )
    } else {
        Ok(canvas.surface())
    }
}

/// Outcome of asking for a view of page `index`: thread check, then bounds check.
pub open spec fn page_outcome(doc: DocumentView, current: u64, index: u32) -> core::result::Result<
    u32,
    Error,
> {
    if doc.owner != current {
        Err(Error::WrongThread)
    } else if index >= doc.pages {
        Err(Error::PageOutOfBounds { index, total: doc.pages })
    } else {
        Ok(index)
    }
}

/// Outcome of an operation the engine does not offer yet: after the thread check it is
/// always `Unsupported`.
pub open spec fn unsupported_outcome(doc: DocumentView, current: u64) -> Error {
    if doc.owner != current {
        Error::WrongThread
    } else {
        Error::Unsupported
    }
}

/// Verified bookkeeping of one open document.
#[derive(Debug)]
pub struct DocumentState {
    engine: ThreadAffinity,
    pages: u32,
}

impl View for DocumentState {
    type V = DocumentView;

    closed spec fn view(&self) -> DocumentView {
        DocumentView { owner: self.engine.owner, pages: self.pages }
    }
}

impl DocumentState {
    /// Decides the outcome of the native open call, given its status and whether the handle
    /// it returned is null. The document starts with no pages laid out.
    pub fn opened(engine: ThreadAffinity, status: CreResult, null_handle: bool) -> (r: Result<
        Self,
    >)
        ensures
            r is Ok <==> (status == CRE_RESULT_OK && !null_handle),
            r matches Ok(d) ==> open_outcome(engine, status, null_handle) == Ok::<
                DocumentView,
                Error,
            >(d@),
            r matches Err(e) ==> open_outcome(engine, status, null_handle) == Err::<
                DocumentView,
                Error,
            >(e),
    {
        match map_status(status) {
            Err(e) => Err(e),
            Ok(()) => {
                if null_handle {
                    Err(Error::NullHandle)
                } else {
                    Ok(DocumentState { engine, pages: 0 })
                }
            },
        }
    }

    /// Succeeds exactly when `current` is the thread that opened the document.
    pub fn ensure_thread(&self, current: u64) -> (r: Result<()>)
        ensures
            r == thread_check(self@.owner, current),
    {
        self.engine.ensure_thread(current)
    }

    /// Page count cached by the most recent successful layout (0 before any).
    pub fn pages(&self) -> (r: u32)
        ensures
            r == self@.pages,
    {
        self.pages
    }

    /// Caches the page count read after a layout. On an error the cache is left as it was.
    pub fn finish_layout(&mut self, counted: Result<u32>) -> (r: Result<u32>)
        ensures
            final(self)@.owner == old(self)@.owner,
            r == counted,
            counted matches Ok(n) ==> final(self)@.pages == n,
            counted is Err ==> final(self)@.pages == old(self)@.pages,
    {
        match counted {
            Ok(n) => {
                self.pages = n;
                Ok(n)
            },
            Err(e) => Err(e),
        }
    }

    /// Checks a request to render page `page_index` into `canvas` from thread `current` and,
    /// when it may proceed, returns the descriptor for the native render call.
    pub fn render_gate(&self, current: u64, page_index: u32, canvas: &Canvas) -> (r: Result<
        CreRenderSurface,
    >)
        requires
            canvas.wf(),
        ensures
            r == render_outcome(self@, current, page_index, canvas@),
    {
        self.engine.ensure_thread(current)?;
        let total = self.pages;
        if page_index >= total {
            return Err(Error::PageOutOfBounds { index: page_index, total });
        }
        let expected = canvas.stride() * canvas.size().height as usize;
        let actual = canvas.byte_len();
        if actual < expected {
            return Err(Error::SurfaceTooSmall { expected, actual });
        }
        Ok(canvas.to_surface())
    }

    /// Checks a request for a view of page `index` from thread `current`; on success returns
    /// the validated index.
    pub fn page_gate(&self, current: u64, index: u32) -> (r: Result<u32>)
        ensures
            r == page_outcome(self@, current, index),
    {
        self.engine.ensure_thread(current)?;
        let total = self.pages;
        if index >= total {
            return Err(Error::PageOutOfBounds { index, total });
        }
        Ok(index)
    }

    /// Table of contents. No native extraction exists yet, so after the thread check this is
    /// always `Unsupported`.
    pub fn toc(&self, current: u64) -> (r: Result<Vec<TocEntry>>)
        ensures
            r matches Err(e) && e == unsupported_outcome(self@, current),
    {
        self.engine.ensure_thread(current)?;
        Err(Error::Unsupported)
    }

    /// Plain text of the document. No native extraction exists yet, so after the thread
    /// check this is always `Unsupported`.
    pub fn extract_text(&self, current: u64) -> (r: Result<String>)
        ensures
            r matches Err(e) && e == unsupported_outcome(self@, current),
    {
        self.engine.ensure_thread(current)?;
        Err(Error::Unsupported)
    }
}

/// Decides the outcome of the native page-count query from its status and the count it
/// reported.
pub fn page_count_from(status: CreResult, reported: u32) -> (r: Result<u32>)
    ensures
        r == count_outcome(status, reported),
{
    map_status(status)?;
    Ok(reported)
}

/// A page index at or past the cached page count is refused with `PageOutOfBounds`, naming
/// that index and count, whatever the canvas; the page-view gate refuses it the same way.
pub proof fn lemma_out_of_range_page_refused(
    doc: DocumentView,
    current: u64,
    index: u32,
    canvas: CanvasView,
)
    requires
        doc.owner == current,
        index >= doc.pages,
    ensures
        render_outcome(doc, current, index, canvas) == Err::<CreRenderSurface, Error>(
            Error::PageOutOfBounds { index, total: doc.pages },
        ),
        page_outcome(doc, current, index) == Err::<u32, Error>(
            Error::PageOutOfBounds { index, total: doc.pages },
        ),
{
}

/// A canvas whose buffer is shorter than `stride * height` is refused with
/// `SurfaceTooSmall`, naming both lengths, so no surface descriptor is handed out.
pub proof fn lemma_short_canvas_refused(
    doc: DocumentView,
    current: u64,
    index: u32,
    canvas: CanvasView,
)
    requires
        canvas.wf(),
        doc.owner == current,
        index < doc.pages,
        canvas.bytes.len() < canvas.stride * canvas.size.height,
    ensures
        render_outcome(doc, current, index, canvas) == Err::<CreRenderSurface, Error>(
            Error::SurfaceTooSmall {
                expected: (canvas.stride * canvas.size.height) as usize,
                actual: canvas.bytes.len() as usize,
            },
        ),
{
}

/// From any thread but the owner, every operation on a document, and loading through an
/// engine, fails with `WrongThread`, so none of them reaches the native layer.
pub proof fn lemma_foreign_thread_refused(
    doc: DocumentView,
    current: u64,
    index: u32,
    canvas: CanvasView,
)
    requires
        doc.owner != current,
    ensures
        thread_check(doc.owner, current) == Err::<(), Error>(Error::WrongThread),
        render_outcome(doc, current, index, canvas) == Err::<CreRenderSurface, Error>(
            Error::WrongThread,
        ),
        page_outcome(doc, current, index) == Err::<u32, Error>(Error::WrongThread),
        unsupported_outcome(doc, current) == Error::WrongThread,
{
}

/// Opening succeeds exactly when the native status is success and the handle is not null,
/// and a new document starts on the engine's thread with no pages laid out.
pub proof fn lemma_open_succeeds_iff_native_succeeds(
    engine: ThreadAffinity,
    status: CreResult,
    null_handle: bool,
)
    ensures
        open_outcome(engine, status, null_handle) is Ok <==> (status == CRE_RESULT_OK
            && !null_handle),
        open_outcome(engine, status, null_handle) matches Ok(v) ==> v.owner == engine.owner
            && v.pages == 0,
{
}

} // verus!
