//! The course of one export, as a session that is told what happened and
//! says what to do next.

use vstd::prelude::*;
use crate::export::{export_image, export_page, image_file, page_file, ExportError};
use crate::marshal::record_views;
use crate::query::QueryError;
use crate::record::{integer_at, Record};
use crate::value::ValueView;

verus! {

/// Where an export stands.
#[derive(Clone, Copy, Debug, PartialEq, Eq, Structural)]
pub enum Stage {
    /// The directory is being created.
    AwaitingDirectory,
    /// The pages are being fetched.
    AwaitingPages,
    /// The file of the page in row `row` is being written.
    WritingPage { row: usize, page_id: i64 },
    /// The images are being fetched.
    AwaitingImages,
    /// The file of the image in row `row` is being written.
    WritingImage { row: usize, page_id: i64, image_id: i64 },
    /// The export has ended, well or not.
    Finished,
}

/// What is reported to a session.
#[derive(Debug)]
pub enum ExportEvent {
    /// The directory was created, or was there already; or why it could not
    /// be created.
    DirectoryCreated(Result<(), String>),
    /// The pages that are not archived, or why they could not be fetched.
    PagesFetched(Result<Vec<Record>, QueryError>),
    /// The images of those pages, or why they could not be fetched.
    ImagesFetched(Result<Vec<Record>, QueryError>),
    /// The file was written, or why it could not be written.
    FileWritten(Result<(), String>),
}

/// What a session asks for next.
#[derive(Debug, PartialEq)]
pub enum ExportAction {
    /// Create the directory and its parents; one that exists is no failure.
    CreateDirectory { path: String },
    /// Run the statement that selects the pages.
    FetchPages,
    /// Run the statement that selects the images.
    FetchImages,
    /// Write `text` as UTF-8 to the file `file_name` of the directory, over
    /// a file of that name if there is one.
    WriteText { file_name: String, text: String },
    /// Write `bytes` to the file `file_name` of the directory, over a file of
    /// that name if there is one.
    WriteBinary { file_name: String, bytes: Vec<u8> },
    /// Nothing more: the export has ended with this result.
    Finish(Result<(), ExportError>),
}

/// What an [`ExportAction`] holds.
pub enum ActionView {
    CreateDirectory { path: Seq<char> },
    FetchPages,
    FetchImages,
    WriteText { file_name: Seq<char>, text: Seq<char> },
    WriteBinary { file_name: Seq<char>, bytes: Seq<u8> },
    Finish(Result<(), ExportError>),
}

impl View for ExportAction {
    type V = ActionView;

    open spec fn view(&self) -> ActionView {
        match self {
            ExportAction::CreateDirectory { path } => ActionView::CreateDirectory { path: path@ },
            ExportAction::FetchPages => ActionView::FetchPages,
            ExportAction::FetchImages => ActionView::FetchImages,
            ExportAction::WriteText { file_name, text } => ActionView::WriteText {
                file_name: file_name@,
                text: text@,
            },
            ExportAction::WriteBinary { file_name, bytes } => ActionView::WriteBinary {
                file_name: file_name@,
                bytes: bytes@,
            },
            ExportAction::Finish(result) => ActionView::Finish(*result),
        }
    }
}

/// One export in progress.
#[derive(Debug)]
pub struct ExportSession {
    stage: Stage,
    pages: Vec<Record>,
    images: Vec<Record>,
}

/// What an [`ExportSession`] holds: its stage, and the pages and images
/// fetched so far.
pub struct SessionView {
    pub stage: Stage,
    pub pages: Seq<Seq<(Seq<char>, ValueView)>>,
    pub images: Seq<Seq<(Seq<char>, ValueView)>>,
}

impl View for ExportSession {
    type V = SessionView;

    closed spec fn view(&self) -> SessionView {
        SessionView {
            stage: self.stage,
            pages: record_views(self.pages@),
            images: record_views(self.images@),
        }
    }
}

/// The session with which an export begins.
pub open spec fn initial_session() -> SessionView {
    SessionView { stage: Stage::AwaitingDirectory, pages: Seq::empty(), images: Seq::empty() }
}

/// Whether the stage of a session fits what it has fetched: the file that is
/// being written is the file of a row that was fetched, and the identifiers
/// that the stage holds are those of that file.
pub open spec fn well_staged(session: SessionView) -> bool {
    &&& session.pages.len() <= usize::MAX
    &&& session.images.len() <= usize::MAX
    &&& match session.stage {
        Stage::WritingPage { row, page_id } => {
            &&& row < session.pages.len()
            &&& page_file(session.pages[row as int], row) matches Ok(file)
            &&& file.page_id == page_id
        },
        Stage::WritingImage { row, page_id, image_id } => {
            &&& row < session.images.len()
            &&& image_file(session.images[row as int], row) matches Ok(file)
            &&& file.page_id == page_id
            &&& file.image_id == image_id
        },
        _ => true,
    }
}

/// What was fetched fits in memory: a vector holds no more than `usize::MAX`
/// records.
proof fn lemma_fetched_fits(records: Vec<Record>)
    ensures
        record_views(records@).len() <= usize::MAX,
{
    assert(records@.len() == records.len());
}

/// What follows once the pages before row `row` are written: the file of the
/// page in that row is written, or the export ends because that page has no
/// file, or, after the last page, the images are fetched.
pub open spec fn page_turn(pages: Seq<Seq<(Seq<char>, ValueView)>>, row: int) -> (
    Stage,
    ActionView,
) {
    if 0 <= row < pages.len() {
        match page_file(pages[row], row as usize) {
            Ok(file) => (
                Stage::WritingPage { row: row as usize, page_id: file.page_id },
                ActionView::WriteText { file_name: file.file_name, text: file.content },
            ),
            Err(error) => (Stage::Finished, ActionView::Finish(Err(error))),
        }
    } else {
        (Stage::AwaitingImages, ActionView::FetchImages)
    }
}

/// What follows once the images before row `row` are written: the file of the
/// image in that row is written, or the export ends because that image has
/// no file, or, after the last image, the export ends well.
pub open spec fn image_turn(images: Seq<Seq<(Seq<char>, ValueView)>>, row: int) -> (
    Stage,
    ActionView,
) {
    if 0 <= row < images.len() {
        match image_file(images[row], row as usize) {
            Ok(file) => (
                Stage::WritingImage {
                    row: row as usize,
                    page_id: file.page_id,
                    image_id: file.image_id,
                },
                ActionView::WriteBinary { file_name: file.file_name, bytes: file.content },
            ),
            Err(error) => (Stage::Finished, ActionView::Finish(Err(error))),
        }
    } else {
        (Stage::Finished, ActionView::Finish(Ok(())))
    }
}

/// The session after `event`, and what is to be done next.
///
/// A failure that is reported ends the export with an error that names what
/// failed. So does an event that the session is not waiting for. A success
/// moves the export on: from the directory to the pages, through the pages in
/// row order, to the images, and through the images in row order.
pub open spec fn next(session: SessionView, event: ExportEvent) -> (SessionView, ActionView) {
    let ended = SessionView { stage: Stage::Finished, ..session };
    match (session.stage, event) {
        (Stage::AwaitingDirectory, ExportEvent::DirectoryCreated(Ok(_))) => (
            SessionView { stage: Stage::AwaitingPages, ..session },
            ActionView::FetchPages,
        ),
        (Stage::AwaitingDirectory, ExportEvent::DirectoryCreated(Err(cause))) => (
            ended,
            ActionView::Finish(Err(ExportError::CreateDirectory { cause })),
        ),
        (Stage::AwaitingPages, ExportEvent::PagesFetched(Ok(pages))) => (
            SessionView {
                stage: page_turn(record_views(pages@), 0).0,
                pages: record_views(pages@),
                ..session
            },
            page_turn(record_views(pages@), 0).1,
        ),
        (Stage::AwaitingPages, ExportEvent::PagesFetched(Err(cause))) => (
            ended,
            ActionView::Finish(Err(ExportError::FetchPages { cause })),
        ),
        (Stage::WritingPage { row, page_id }, ExportEvent::FileWritten(Ok(_))) => (
            SessionView { stage: page_turn(session.pages, row + 1).0, ..session },
            page_turn(session.pages, row + 1).1,
        ),
        (Stage::WritingPage { row, page_id }, ExportEvent::FileWritten(Err(cause))) => (
            ended,
            ActionView::Finish(Err(ExportError::WritePage { page_id, cause })),
        ),
        (Stage::AwaitingImages, ExportEvent::ImagesFetched(Ok(images))) => (
            SessionView {
                stage: image_turn(record_views(images@), 0).0,
                images: record_views(images@),
                ..session
            },
            image_turn(record_views(images@), 0).1,
        ),
        (Stage::AwaitingImages, ExportEvent::ImagesFetched(Err(cause))) => (
            ended,
            ActionView::Finish(Err(ExportError::FetchImages { cause })),
        ),
        (Stage::WritingImage { row, page_id, image_id }, ExportEvent::FileWritten(Ok(_))) => (
            SessionView { stage: image_turn(session.images, row + 1).0, ..session },
            image_turn(session.images, row + 1).1,
        ),
        (Stage::WritingImage { row, page_id, image_id }, ExportEvent::FileWritten(Err(cause))) => (
            ended,
            ActionView::Finish(Err(ExportError::WriteImage { page_id, image_id, cause })),
        ),
        _ => (ended, ActionView::Finish(Err(ExportError::UnexpectedEvent))),
    }
}

impl ExportSession {
    #[verifier::type_invariant]
    spec fn stage_fits(self) -> bool {
        well_staged(self@)
    }

    /// Begins an export to the directory at `path`: the directory is to be
    /// created first.
    pub fn begin(path: String) -> (started: (ExportSession, ExportAction))
        ensures
            started.0@ == initial_session(),
            started.1@ == (ActionView::CreateDirectory { path: path@ }),
            well_staged(started.0@),
    {
        let session = ExportSession {
            stage: Stage::AwaitingDirectory,
            pages: Vec::new(),
            images: Vec::new(),
        };
        assert(record_views(session.pages@) =~= Seq::empty());
        assert(record_views(session.images@) =~= Seq::empty());
        assert(well_staged(session@));
        (session, ExportAction::CreateDirectory { path })
    }

    /// Where the export stands.
    pub fn stage(&self) -> (stage: Stage)
        ensures
            stage == self@.stage,
            well_staged(self@),
    {
        proof {
            use_type_invariant(self);
        }
        self.stage
    }

    /// Whether the export has ended.
    pub fn is_finished(&self) -> (finished: bool)
        ensures
            finished == (self@.stage is Finished),
    {
        match self.stage {
            Stage::Finished => true,
            _ => false,
        }
    }

    fn end(&mut self, error: ExportError) -> (action: ExportAction)
        ensures
            final(self)@ == (SessionView { stage: Stage::Finished, ..old(self)@ }),
            action == ExportAction::Finish(Err(error)),
    {
        proof {
            use_type_invariant(&*self);
        }
        self.stage = Stage::Finished;
        ExportAction::Finish(Err(error))
    }

    fn turn_to_page(&mut self, row: usize) -> (action: ExportAction)
        ensures
            final(self)@ == (SessionView {
                stage: page_turn(old(self)@.pages, row as int).0,
                ..old(self)@
            }),
            action@ == page_turn(old(self)@.pages, row as int).1,
    {
        proof {
            use_type_invariant(&*self);
        }
        if row < self.pages.len() {
            match export_page(row, &self.pages[row]) {
                Ok(file) => {
                    self.stage = Stage::WritingPage { row, page_id: file.page_id };
                    ExportAction::WriteText { file_name: file.file_name, text: file.content }
                },
                Err(error) => {
                    self.stage = Stage::Finished;
                    ExportAction::Finish(Err(error))
                },
            }
        } else {
            self.stage = Stage::AwaitingImages;
            ExportAction::FetchImages
        }
    }

    fn turn_to_image(&mut self, row: usize) -> (action: ExportAction)
        ensures
            final(self)@ == (SessionView {
                stage: image_turn(old(self)@.images, row as int).0,
                ..old(self)@
            }),
            action@ == image_turn(old(self)@.images, row as int).1,
    {
        proof {
            use_type_invariant(&*self);
        }
        if row < self.images.len() {
            match export_image(row, &self.images[row]) {
                Ok(file) => {
                    self.stage = Stage::WritingImage {
                        row,
                        page_id: file.page_id,
                        image_id: file.image_id,
                    };
                    ExportAction::WriteBinary { file_name: file.file_name, bytes: file.content }
                },
                Err(error) => {
                    self.stage = Stage::Finished;
                    ExportAction::Finish(Err(error))
                },
            }
        } else {
            self.stage = Stage::Finished;
            ExportAction::Finish(Ok(()))
        }
    }

    /// Takes in what is reported and says what is to be done next.
    pub fn step(&mut self, event: ExportEvent) -> (action: ExportAction)
        ensures
            final(self)@ == next(old(self)@, event).0,
            action@ == next(old(self)@, event).1,
            well_staged(old(self)@),
            well_staged(final(self)@),
    {
        proof {
            use_type_invariant(&*self);
        }
        match (self.stage, event) {
            (Stage::AwaitingDirectory, ExportEvent::DirectoryCreated(Ok(_))) => {
                self.stage = Stage::AwaitingPages;
                ExportAction::FetchPages
            },
            (Stage::AwaitingDirectory, ExportEvent::DirectoryCreated(Err(cause))) => self.end(
                ExportError::CreateDirectory { cause },
            ),
            (Stage::AwaitingPages, ExportEvent::PagesFetched(Ok(pages))) => {
                proof {
                    lemma_fetched_fits(pages);
                }
                self.pages = pages;
                self.turn_to_page(0)
            },
            (Stage::AwaitingPages, ExportEvent::PagesFetched(Err(cause))) => self.end(
                ExportError::FetchPages { cause },
            ),
            (Stage::WritingPage { row, page_id }, ExportEvent::FileWritten(Ok(_))) => {
                self.turn_to_page(row + 1)
            },
            (Stage::WritingPage { row, page_id }, ExportEvent::FileWritten(Err(cause))) => self.end(
                ExportError::WritePage { page_id, cause },
            ),
            (Stage::AwaitingImages, ExportEvent::ImagesFetched(Ok(images))) => {
                proof {
                    lemma_fetched_fits(images);
                }
                self.images = images;
                self.turn_to_image(0)
            },
            (Stage::AwaitingImages, ExportEvent::ImagesFetched(Err(cause))) => self.end(
                ExportError::FetchImages { cause },
            ),
            (Stage::WritingImage { row, page_id, image_id }, ExportEvent::FileWritten(Ok(_))) => {
                self.turn_to_image(row + 1)
            },
            (
                Stage::WritingImage { row, page_id, image_id },
                ExportEvent::FileWritten(Err(cause)),
            ) => self.end(ExportError::WriteImage { page_id, image_id, cause }),
            _ => self.end(ExportError::UnexpectedEvent),
        }
    }
}

/// Every step leaves the stage fitting what was fetched.
pub proof fn lemma_next_is_well_staged(session: SessionView, event: ExportEvent)
    requires
        well_staged(session),
    ensures
        well_staged(next(session, event).0),
{
    match event {
        ExportEvent::PagesFetched(Ok(pages)) => lemma_fetched_fits(pages),
        ExportEvent::ImagesFetched(Ok(images)) => lemma_fetched_fits(images),
        _ => {},
    }
}

/// An action that ends the export leaves the session finished, and a finished
/// session answers every event by refusing it: nothing follows the first
/// failure.
pub proof fn lemma_finish_is_final(session: SessionView, event: ExportEvent)
    ensures
        next(session, event).1 is Finish ==> next(session, event).0.stage is Finished,
        session.stage is Finished ==> next(session, event) == (
            session,
            ActionView::Finish(Err(ExportError::UnexpectedEvent)),
        ),
{
}

/// Where the file of a page cannot be written, the export ends with an error
/// that names that page: the identifier in the error is the one that the page
/// in the row being written holds.
pub proof fn lemma_failed_page_is_named(session: SessionView, cause: String)
    requires
        well_staged(session),
        session.stage is WritingPage,
    ensures
        next(session, ExportEvent::FileWritten(Err(cause))).1 matches ActionView::Finish(
            Err(ExportError::WritePage { page_id, cause: reported }),
        ) && reported == cause && session.stage->WritingPage_row < session.pages.len()
            && integer_at(session.pages[session.stage->WritingPage_row as int], "id"@) == Some(
            page_id,
        ),
{
}

/// Where the file of an image cannot be written, the export ends with an
/// error that names that image and its page: the identifiers in the error are
/// those that the image in the row being written holds.
pub proof fn lemma_failed_image_is_named(session: SessionView, cause: String)
    requires
        well_staged(session),
        session.stage is WritingImage,
    ensures
        next(session, ExportEvent::FileWritten(Err(cause))).1 matches ActionView::Finish(
            Err(ExportError::WriteImage { page_id, image_id, cause: reported }),
        ) && reported == cause && session.stage->WritingImage_row < session.images.len()
            && integer_at(session.images[session.stage->WritingImage_row as int], "id"@)
            == Some(image_id) && integer_at(
            session.images[session.stage->WritingImage_row as int],
            "page_id"@,
        ) == Some(page_id),
{
}

} // verus!
