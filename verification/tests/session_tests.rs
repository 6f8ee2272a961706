use notesponge::export::{ExportError, PageField};
use notesponge::marshal::{DecodeError, DecodeFailure};
use notesponge::query::QueryError;
use notesponge::record::Record;
use notesponge::session::{ExportAction, ExportEvent, ExportSession, Stage};
use notesponge::value::Value;

fn page(id: i64, title: &str, markdown: &str) -> Record {
    let mut made = Record::new();
    made.insert("id".to_string(), Value::Integer(id));
    made.insert("title".to_string(), Value::Text(title.to_string()));
    made.insert("markdown_text".to_string(), Value::Text(markdown.to_string()));
    made
}

fn stored_page(id: i64, filename: &str, markdown: &str) -> Record {
    let mut made = page(id, "ignored", markdown);
    made.insert("filename".to_string(), Value::Text(filename.to_string()));
    made
}

fn image(id: i64, page_id: i64, data: &str, mime_type: &str) -> Record {
    let mut made = Record::new();
    made.insert("id".to_string(), Value::Integer(id));
    made.insert("page_id".to_string(), Value::Integer(page_id));
    made.insert("data".to_string(), Value::Text(data.to_string()));
    made.insert("mime_type".to_string(), Value::Text(mime_type.to_string()));
    made
}

/// A directory that lives in memory, and refuses to write the files whose
/// names it was told to refuse.
struct Directory {
    created: bool,
    files: Vec<(String, Vec<u8>)>,
    refused: Vec<String>,
}

impl Directory {
    fn new() -> Directory {
        Directory {
            created: false,
            files: Vec::new(),
            refused: Vec::new(),
        }
    }

    fn write(&mut self, name: &str, content: Vec<u8>) -> Result<(), String> {
        if self.refused.iter().any(|refused| refused == name) {
            return Err("disk full".to_string());
        }
        self.files.retain(|(existing, _)| existing != name);
        self.files.push((name.to_string(), content));
        Ok(())
    }

    fn names(&self) -> Vec<&str> {
        self.files.iter().map(|(name, _)| name.as_str()).collect()
    }
}

/// Drives a session to its end against a directory in memory.
fn run(
    directory: &mut Directory,
    pages: Result<Vec<Record>, QueryError>,
    images: Result<Vec<Record>, QueryError>,
) -> Result<(), ExportError> {
    let mut pages = Some(pages);
    let mut images = Some(images);
    let (mut session, mut action) = ExportSession::begin("/sync".to_string());
    loop {
        let event = match action {
            ExportAction::CreateDirectory { path } => {
                assert_eq!(path, "/sync");
                directory.created = true;
                ExportEvent::DirectoryCreated(Ok(()))
            }
            ExportAction::FetchPages => ExportEvent::PagesFetched(pages.take().unwrap()),
            ExportAction::FetchImages => ExportEvent::ImagesFetched(images.take().unwrap()),
            ExportAction::WriteText { file_name, text } => {
                ExportEvent::FileWritten(directory.write(&file_name, text.into_bytes()))
            }
            ExportAction::WriteBinary { file_name, bytes } => {
                ExportEvent::FileWritten(directory.write(&file_name, bytes))
            }
            ExportAction::Finish(result) => {
                assert!(session.is_finished());
                return result;
            }
        };
        action = session.step(event);
    }
}

#[test]
fn export_begins_with_the_directory() {
    let (session, action) = ExportSession::begin("/tmp/out".to_string());
    assert_eq!(
        action,
        ExportAction::CreateDirectory {
            path: "/tmp/out".to_string()
        }
    );
    assert_eq!(session.stage(), Stage::AwaitingDirectory);
    assert!(!session.is_finished());
}

#[test]
fn export_of_nothing_succeeds_and_writes_nothing() {
    let mut directory = Directory::new();
    let result = run(&mut directory, Ok(vec![]), Ok(vec![]));
    assert_eq!(result, Ok(()));
    assert!(directory.created);
    assert!(directory.files.is_empty());
}

#[test]
fn export_of_nothing_step_by_step() {
    let (mut session, _) = ExportSession::begin("d".to_string());
    assert_eq!(
        session.step(ExportEvent::DirectoryCreated(Ok(()))),
        ExportAction::FetchPages
    );
    assert_eq!(session.stage(), Stage::AwaitingPages);
    assert_eq!(
        session.step(ExportEvent::PagesFetched(Ok(vec![]))),
        ExportAction::FetchImages
    );
    assert_eq!(session.stage(), Stage::AwaitingImages);
    assert_eq!(
        session.step(ExportEvent::ImagesFetched(Ok(vec![]))),
        ExportAction::Finish(Ok(()))
    );
    assert_eq!(session.stage(), Stage::Finished);
}

#[test]
fn pages_then_images_are_written_in_result_order() {
    let mut directory = Directory::new();
    let result = run(
        &mut directory,
        Ok(vec![
            page(2, "b", "second"),
            page(1, "a", "first"),
            stored_page(3, "three.md", "third"),
        ]),
        Ok(vec![
            image(7, 2, "AQID", "image/png"),
            image(5, 1, "/w==", "image/jpeg"),
        ]),
    );
    assert_eq!(result, Ok(()));
    assert_eq!(
        directory.files,
        vec![
            ("2_b.md".to_string(), b"second".to_vec()),
            ("1_a.md".to_string(), b"first".to_vec()),
            ("three.md".to_string(), b"third".to_vec()),
            ("2_7.png".to_string(), vec![1, 2, 3]),
            ("1_5.jpg".to_string(), vec![255]),
        ]
    );
}

#[test]
fn pages_with_the_same_title_do_not_collide() {
    let mut directory = Directory::new();
    let result = run(
        &mut directory,
        Ok(vec![page(1, "Same", "one"), page(2, "Same", "two")]),
        Ok(vec![]),
    );
    assert_eq!(result, Ok(()));
    assert_eq!(directory.names(), vec!["1_Same.md", "2_Same.md"]);
}

#[test]
fn failed_write_of_second_page_names_it_and_keeps_the_first() {
    let mut directory = Directory::new();
    directory.refused.push("2_Two.md".to_string());
    let result = run(
        &mut directory,
        Ok(vec![
            page(1, "One", "first"),
            page(2, "Two", "second"),
            page(3, "Three", "third"),
        ]),
        Ok(vec![image(1, 1, "AA==", "image/png")]),
    );
    assert_eq!(
        result,
        Err(ExportError::WritePage {
            page_id: 2,
            cause: "disk full".to_string(),
        })
    );
    assert_eq!(
        result.unwrap_err().message(),
        "Failed to write page 2: disk full"
    );
    assert_eq!(
        directory.files,
        vec![("1_One.md".to_string(), b"first".to_vec())]
    );
}

#[test]
fn failed_write_is_reported_step_by_step() {
    let (mut session, _) = ExportSession::begin("d".to_string());
    session.step(ExportEvent::DirectoryCreated(Ok(())));
    let first = session.step(ExportEvent::PagesFetched(Ok(vec![
        page(1, "One", "first"),
        page(2, "Two", "second"),
    ])));
    assert_eq!(
        first,
        ExportAction::WriteText {
            file_name: "1_One.md".to_string(),
            text: "first".to_string(),
        }
    );
    assert_eq!(session.stage(), Stage::WritingPage { row: 0, page_id: 1 });
    let second = session.step(ExportEvent::FileWritten(Ok(())));
    assert_eq!(
        second,
        ExportAction::WriteText {
            file_name: "2_Two.md".to_string(),
            text: "second".to_string(),
        }
    );
    assert_eq!(session.stage(), Stage::WritingPage { row: 1, page_id: 2 });
    let last = session.step(ExportEvent::FileWritten(Err("disk full".to_string())));
    assert_eq!(
        last,
        ExportAction::Finish(Err(ExportError::WritePage {
            page_id: 2,
            cause: "disk full".to_string(),
        }))
    );
    assert!(session.is_finished());
}

#[test]
fn failed_write_of_an_image_names_it_and_keeps_what_was_written() {
    let mut directory = Directory::new();
    directory.refused.push("1_11.gif".to_string());
    let result = run(
        &mut directory,
        Ok(vec![page(1, "One", "first")]),
        Ok(vec![
            image(10, 1, "AA==", "image/png"),
            image(11, 1, "AA==", "image/gif"),
            image(12, 1, "AA==", "image/webp"),
        ]),
    );
    assert_eq!(
        result,
        Err(ExportError::WriteImage {
            page_id: 1,
            image_id: 11,
            cause: "disk full".to_string(),
        })
    );
    assert_eq!(directory.names(), vec!["1_One.md", "1_10.png"]);
}

#[test]
fn invalid_page_ends_the_export_after_the_pages_before_it() {
    let mut broken = Record::new();
    broken.insert("id".to_string(), Value::Integer(2));
    broken.insert("title".to_string(), Value::Text("Two".to_string()));
    let mut directory = Directory::new();
    let result = run(
        &mut directory,
        Ok(vec![page(1, "One", "first"), broken, page(3, "Three", "third")]),
        Ok(vec![]),
    );
    assert_eq!(
        result,
        Err(ExportError::InvalidPage {
            row: 1,
            page_id: Some(2),
            field: PageField::Markdown,
        })
    );
    assert_eq!(directory.names(), vec!["1_One.md"]);
}

#[test]
fn image_that_does_not_decode_ends_the_export() {
    let mut directory = Directory::new();
    let result = run(
        &mut directory,
        Ok(vec![page(1, "One", "first")]),
        Ok(vec![
            image(10, 1, "AA==", "image/png"),
            image(11, 1, "####", "image/png"),
        ]),
    );
    assert!(matches!(
        result,
        Err(ExportError::DecodeImage {
            page_id: 1,
            image_id: 11,
            ..
        })
    ));
    assert_eq!(directory.names(), vec!["1_One.md", "1_10.png"]);
}

#[test]
fn directory_that_cannot_be_created_ends_the_export() {
    let (mut session, _) = ExportSession::begin("d".to_string());
    let action = session.step(ExportEvent::DirectoryCreated(Err("denied".to_string())));
    assert_eq!(
        action,
        ExportAction::Finish(Err(ExportError::CreateDirectory {
            cause: "denied".to_string(),
        }))
    );
    assert!(session.is_finished());
}

#[test]
fn pages_that_cannot_be_fetched_end_the_export() {
    let mut directory = Directory::new();
    let result = run(
        &mut directory,
        Err(QueryError::Database("no such table: pages".to_string())),
        Ok(vec![]),
    );
    assert_eq!(
        result,
        Err(ExportError::FetchPages {
            cause: QueryError::Database("no such table: pages".to_string()),
        })
    );
    assert_eq!(
        result.unwrap_err().message(),
        "Failed to fetch pages: no such table: pages"
    );
    assert!(directory.files.is_empty());
}

#[test]
fn images_that_cannot_be_fetched_end_the_export_after_the_pages() {
    let mut directory = Directory::new();
    let cause = QueryError::Decode(DecodeError {
        row: 0,
        column: "data".to_string(),
        cause: DecodeFailure::TypeMismatch,
    });
    let result = run(
        &mut directory,
        Ok(vec![page(1, "One", "first")]),
        Err(cause.clone()),
    );
    assert_eq!(result, Err(ExportError::FetchImages { cause }));
    assert_eq!(
        result.unwrap_err().message(),
        "Failed to fetch images: Failed to decode column 'data' of row 0: type mismatch"
    );
    assert_eq!(directory.names(), vec!["1_One.md"]);
}

#[test]
fn event_that_is_not_awaited_ends_the_export() {
    let (mut session, _) = ExportSession::begin("d".to_string());
    assert_eq!(
        session.step(ExportEvent::FileWritten(Ok(()))),
        ExportAction::Finish(Err(ExportError::UnexpectedEvent))
    );
    assert!(session.is_finished());

    let (mut session, _) = ExportSession::begin("d".to_string());
    session.step(ExportEvent::DirectoryCreated(Ok(())));
    assert_eq!(
        session.step(ExportEvent::ImagesFetched(Ok(vec![]))),
        ExportAction::Finish(Err(ExportError::UnexpectedEvent))
    );
    assert!(session.is_finished());
}

#[test]
fn finished_session_stays_finished() {
    let (mut session, _) = ExportSession::begin("d".to_string());
    session.step(ExportEvent::DirectoryCreated(Ok(())));
    session.step(ExportEvent::PagesFetched(Ok(vec![])));
    assert_eq!(
        session.step(ExportEvent::ImagesFetched(Ok(vec![]))),
        ExportAction::Finish(Ok(()))
    );
    for event in [
        ExportEvent::DirectoryCreated(Ok(())),
        ExportEvent::PagesFetched(Ok(vec![page(1, "One", "first")])),
        ExportEvent::ImagesFetched(Ok(vec![])),
        ExportEvent::FileWritten(Ok(())),
        ExportEvent::FileWritten(Err("late".to_string())),
    ] {
        assert_eq!(
            session.step(event),
            ExportAction::Finish(Err(ExportError::UnexpectedEvent))
        );
        assert_eq!(session.stage(), Stage::Finished);
    }
}

#[test]
fn existing_file_is_overwritten() {
    let mut directory = Directory::new();
    directory
        .write("1_One.md", b"stale".to_vec())
        .unwrap();
    let result = run(&mut directory, Ok(vec![page(1, "One", "fresh")]), Ok(vec![]));
    assert_eq!(result, Ok(()));
    assert_eq!(
        directory.files,
        vec![("1_One.md".to_string(), b"fresh".to_vec())]
    );
}
