//! The course of a whole export: what a session asks for, from its first
//! step to its last, when it is told of one event after the other.

use vstd::prelude::*;
use crate::export::{image_file, page_file, ExportError};
use crate::marshal::record_views;
use crate::record::Record;
use crate::session::{
    image_turn, initial_session, next, page_turn, ActionView, ExportEvent, SessionView, Stage,
};
use crate::value::ValueView;

verus! {

/// The session after `events`, from `session` on, and the actions that it
/// asked for on the way, one for each event.
pub open spec fn run(session: SessionView, events: Seq<ExportEvent>) -> (
    SessionView,
    Seq<ActionView>,
)
    decreases events.len(),
{
    if events.len() == 0 {
        (session, Seq::empty())
    } else {
        let (before, actions) = run(session, events.drop_last());
        let (after, action) = next(before, events.last());
        (after, actions.push(action))
    }
}

/// Whether each of the pages has a file.
pub open spec fn pages_have_files(pages: Seq<Seq<(Seq<char>, ValueView)>>) -> bool {
    forall|row: int| 0 <= row < pages.len() ==> (#[trigger] page_file(pages[row], row as usize)) is Ok
}

/// Whether each of the images has a file.
pub open spec fn images_have_files(images: Seq<Seq<(Seq<char>, ValueView)>>) -> bool {
    forall|row: int|
        0 <= row < images.len() ==> (#[trigger] image_file(images[row], row as usize)) is Ok
}

/// `count` reports that a file was written.
pub open spec fn files_written(count: nat) -> Seq<ExportEvent> {
    Seq::new(count, |i: int| ExportEvent::FileWritten(Ok(())))
}

/// The events of an export up to the moment when `written` of its pages are
/// written: the directory was created, the pages were fetched, and each file
/// so far was written.
pub open spec fn page_events(pages: Vec<Record>, written: nat) -> Seq<ExportEvent> {
    seq![ExportEvent::DirectoryCreated(Ok(())), ExportEvent::PagesFetched(Ok(pages))]
        + files_written(written)
}

/// The events of an export up to the moment when all of its pages and
/// `written` of its images are written.
pub open spec fn image_events(pages: Vec<Record>, images: Vec<Record>, written: nat) -> Seq<
    ExportEvent,
> {
    page_events(pages, pages@.len()) + seq![ExportEvent::ImagesFetched(Ok(images))]
        + files_written(written)
}

/// What an export asks for until `count` of its pages are on their way: to
/// fetch the pages, then to write the file of each page, in row order.
pub open spec fn page_actions(pages: Seq<Seq<(Seq<char>, ValueView)>>, count: nat) -> Seq<
    ActionView,
> {
    seq![ActionView::FetchPages] + Seq::new(
        count,
        |row: int|
            ActionView::WriteText {
                file_name: page_file(pages[row], row as usize)->Ok_0.file_name,
                text: page_file(pages[row], row as usize)->Ok_0.content,
            },
    )
}

/// What an export asks for after its pages until `count` of its images are
/// on their way: to fetch the images, then to write the file of each image,
/// in row order.
pub open spec fn image_actions(images: Seq<Seq<(Seq<char>, ValueView)>>, count: nat) -> Seq<
    ActionView,
> {
    seq![ActionView::FetchImages] + Seq::new(
        count,
        |row: int|
            ActionView::WriteBinary {
                file_name: image_file(images[row], row as usize)->Ok_0.file_name,
                bytes: image_file(images[row], row as usize)->Ok_0.content,
            },
    )
}

/// A vector holds no more than `usize::MAX` records.
proof fn lemma_count_fits(records: Vec<Record>)
    ensures
        record_views(records@).len() == records@.len() <= usize::MAX,
{
    assert(records@.len() == records.len());
}

/// While the files are written, the pages are written one after the other,
/// in row order: after `written` reports of a written file the export has
/// asked for the files of the first `written + 1` pages, and once there is no
/// further page it has asked for the images.
pub proof fn lemma_pages_in_order(pages: Vec<Record>, written: nat)
    requires
        written <= pages@.len(),
        pages_have_files(record_views(pages@)),
    ensures
        run(initial_session(), page_events(pages, written)).0 == (SessionView {
            stage: page_turn(record_views(pages@), written as int).0,
            pages: record_views(pages@),
            images: Seq::empty(),
        }),
        written < pages@.len() ==> run(initial_session(), page_events(pages, written)).1
            == page_actions(record_views(pages@), written + 1),
        written == pages@.len() ==> run(initial_session(), page_events(pages, written)).1
            == page_actions(record_views(pages@), written) + seq![ActionView::FetchImages],
    decreases written,
{
    let views = record_views(pages@);
    let events = page_events(pages, written);
    lemma_count_fits(pages);
    if written == 0 {
        let created = seq![ExportEvent::DirectoryCreated(Ok(()))];
        assert(events =~= created.push(ExportEvent::PagesFetched(Ok(pages))));
        assert(events.drop_last() =~= created);
        assert(created.drop_last() =~= Seq::<ExportEvent>::empty());
        assert(run(initial_session(), created.drop_last()) == (
            initial_session(),
            Seq::<ActionView>::empty(),
        ));
        let after_directory = next(initial_session(), created.last());
        assert(run(initial_session(), created) == (
            after_directory.0,
            Seq::<ActionView>::empty().push(after_directory.1),
        ));
        if pages@.len() > 0 {
            assert(page_file(views[0], 0usize) is Ok);
            assert(run(initial_session(), events).1 =~= page_actions(views, 1));
        } else {
            assert(run(initial_session(), events).1 =~= page_actions(views, 0)
                + seq![ActionView::FetchImages]);
        }
    } else {
        let earlier = (written - 1) as nat;
        lemma_pages_in_order(pages, earlier);
        assert(events =~= page_events(pages, earlier).push(ExportEvent::FileWritten(Ok(()))));
        assert(events.drop_last() =~= page_events(pages, earlier));
        assert(page_file(views[earlier as int], earlier as usize) is Ok);
        if written < pages@.len() {
            assert(page_file(views[written as int], written as usize) is Ok);
            assert(run(initial_session(), events).1 =~= page_actions(views, written + 1));
        } else {
            assert(run(initial_session(), events).1 =~= page_actions(views, written)
                + seq![ActionView::FetchImages]);
        }
    }
}

/// Once the pages are written, the images are written one after the other,
/// in row order, and after the last of them the export ends well.
pub proof fn lemma_images_in_order(pages: Vec<Record>, images: Vec<Record>, written: nat)
    requires
        written <= images@.len(),
        pages_have_files(record_views(pages@)),
        images_have_files(record_views(images@)),
    ensures
        run(initial_session(), image_events(pages, images, written)).0 == (SessionView {
            stage: image_turn(record_views(images@), written as int).0,
            pages: record_views(pages@),
            images: record_views(images@),
        }),
        written < images@.len() ==> run(initial_session(), image_events(pages, images, written)).1
            == page_actions(record_views(pages@), pages@.len()) + image_actions(
            record_views(images@),
            written + 1,
        ),
        written == images@.len() ==> run(
            initial_session(),
            image_events(pages, images, written),
        ).1 == page_actions(record_views(pages@), pages@.len()) + image_actions(
            record_views(images@),
            written,
        ) + seq![ActionView::Finish(Ok(()))],
    decreases written,
{
    let page_views = record_views(pages@);
    let views = record_views(images@);
    let events = image_events(pages, images, written);
    let before_images = page_actions(page_views, pages@.len());
    lemma_count_fits(pages);
    lemma_count_fits(images);
    if written == 0 {
        lemma_pages_in_order(pages, pages@.len());
        let fetched = page_events(pages, pages@.len());
        assert(events =~= fetched.push(ExportEvent::ImagesFetched(Ok(images))));
        assert(events.drop_last() =~= fetched);
        if images@.len() > 0 {
            assert(image_file(views[0], 0usize) is Ok);
            assert(run(initial_session(), events).1 =~= before_images + image_actions(views, 1));
        } else {
            assert(run(initial_session(), events).1 =~= before_images + image_actions(views, 0)
                + seq![ActionView::Finish(Ok(()))]);
        }
    } else {
        let earlier = (written - 1) as nat;
        lemma_images_in_order(pages, images, earlier);
        assert(events =~= image_events(pages, images, earlier).push(
            ExportEvent::FileWritten(Ok(())),
        ));
        assert(events.drop_last() =~= image_events(pages, images, earlier));
        assert(image_file(views[earlier as int], earlier as usize) is Ok);
        if written < images@.len() {
            assert(image_file(views[written as int], written as usize) is Ok);
            assert(run(initial_session(), events).1 =~= before_images + image_actions(
                views,
                written + 1,
            ));
        } else {
            assert(run(initial_session(), events).1 =~= before_images + image_actions(
                views,
                written,
            ) + seq![ActionView::Finish(Ok(()))]);
        }
    }
}

/// An export in which nothing fails asks for one file for each page and one
/// for each image, pages first and each kind in row order, and then ends
/// well.
pub proof fn lemma_export_writes_every_file(pages: Vec<Record>, images: Vec<Record>)
    requires
        pages_have_files(record_views(pages@)),
        images_have_files(record_views(images@)),
    ensures
        run(initial_session(), image_events(pages, images, images@.len())).0.stage
            is Finished,
        run(initial_session(), image_events(pages, images, images@.len())).1 == page_actions(
            record_views(pages@),
            pages@.len(),
        ) + image_actions(record_views(images@), images@.len()) + seq![
            ActionView::Finish(Ok(())),
        ],
{
    lemma_images_in_order(pages, images, images@.len());
    lemma_count_fits(images);
}

/// Where a page cannot be written, the export has asked for the files of the
/// pages before it and for its own, and ends with an error that names it:
/// what was written before stays written, and nothing is asked for after.
pub proof fn lemma_failed_page_ends_export(pages: Vec<Record>, written: nat, cause: String)
    requires
        written < pages@.len(),
        pages_have_files(record_views(pages@)),
    ensures
        run(
            initial_session(),
            page_events(pages, written).push(ExportEvent::FileWritten(Err(cause))),
        ).0.stage is Finished,
        run(
            initial_session(),
            page_events(pages, written).push(ExportEvent::FileWritten(Err(cause))),
        ).1 == page_actions(record_views(pages@), written + 1).push(
            ActionView::Finish(
                Err(
                    ExportError::WritePage {
                        page_id: page_file(
                            record_views(pages@)[written as int],
                            written as usize,
                        )->Ok_0.page_id,
                        cause,
                    },
                ),
            ),
        ),
{
    let views = record_views(pages@);
    let events = page_events(pages, written).push(ExportEvent::FileWritten(Err(cause)));
    lemma_count_fits(pages);
    lemma_pages_in_order(pages, written);
    assert(events.drop_last() =~= page_events(pages, written));
    assert(page_file(views[written as int], written as usize) is Ok);
}

/// Where an image cannot be written, the export has asked for the files of
/// all pages, of the images before it and for its own, and ends with an
/// error that names it and its page.
pub proof fn lemma_failed_image_ends_export(
    pages: Vec<Record>,
    images: Vec<Record>,
    written: nat,
    cause: String,
)
    requires
        written < images@.len(),
        pages_have_files(record_views(pages@)),
        images_have_files(record_views(images@)),
    ensures
        run(
            initial_session(),
            image_events(pages, images, written).push(ExportEvent::FileWritten(Err(cause))),
        ).0.stage is Finished,
        run(
            initial_session(),
            image_events(pages, images, written).push(ExportEvent::FileWritten(Err(cause))),
        ).1 == (page_actions(record_views(pages@), pages@.len()) + image_actions(
            record_views(images@),
            written + 1,
        )).push(
            ActionView::Finish(
                Err(
                    ExportError::WriteImage {
                        page_id: image_file(
                            record_views(images@)[written as int],
                            written as usize,
                        )->Ok_0.page_id,
                        image_id: image_file(
                            record_views(images@)[written as int],
                            written as usize,
                        )->Ok_0.image_id,
                        cause,
                    },
                ),
            ),
        ),
{
    let views = record_views(images@);
    let events = image_events(pages, images, written).push(ExportEvent::FileWritten(Err(cause)));
    lemma_count_fits(images);
    lemma_images_in_order(pages, images, written);
    assert(events.drop_last() =~= image_events(pages, images, written));
    assert(image_file(views[written as int], written as usize) is Ok);
}

} // verus!
