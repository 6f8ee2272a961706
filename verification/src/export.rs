//! The export of all pages that are not archived, and of their images, to a
//! directory.
//!
//! An export is a session that is driven from outside: it says what is to be
//! done next, is told how that went, and says what follows. The session holds
//! every decision; whoever drives it creates the directory, runs the two
//! statements and writes the files. The first failure ends the export. What
//! was written before stays where it is.

use vstd::prelude::*;
use vstd::string::StringExecFns;
use crate::decimal::{decimal, decimal_nat, push_decimal, push_decimal_nat};
use crate::encoding::{base64_message, decode_standard, standard_decoding, Base64Error};
use crate::filename::{
    derived_page_filename, derived_page_name, extension_for_mime, image_filename, image_name,
    mime_extension,
};
use crate::params::Param;
use crate::query::{query_message, QueryError};
use crate::record::{integer_at, text_at, Record};
use crate::value::ValueView;

verus! {

/// Selects the pages that are not archived, with every column they have.
pub const PAGES_QUERY: &'static str = "SELECT * FROM pages WHERE archived_at IS NULL";

/// Selects the images of the pages that are not archived, with every column
/// they have.
pub const IMAGES_QUERY: &'static str =
    "SELECT ia.* FROM image_attachments ia JOIN pages p ON ia.page_id = p.id WHERE p.archived_at IS NULL";

/// Why the settings name no directory to export to.
#[derive(Clone, Copy, Debug, PartialEq, Eq, Structural)]
pub enum ConfigurationError {
    /// The settings hold no sync path.
    Missing,
    /// The sync path of the settings is not a text.
    NotText,
}

/// A column of a page that the export reads.
#[derive(Clone, Copy, Debug, PartialEq, Eq, Structural)]
pub enum PageField {
    Id,
    Title,
    Markdown,
}

/// A column of an image that the export reads.
#[derive(Clone, Copy, Debug, PartialEq, Eq, Structural)]
pub enum ImageField {
    Id,
    PageId,
    Data,
    Extension,
}

/// Why an export ended before its last file.
#[derive(Clone, Debug, PartialEq)]
#[allow(inconsistent_fields)]
pub enum ExportError {
    /// The settings name no directory.
    Configuration(ConfigurationError),
    /// The directory could not be created.
    CreateDirectory { cause: String },
    /// The pages could not be fetched.
    FetchPages { cause: QueryError },
    /// The page in row `row` lacks the column `field`, or holds a value of
    /// another type there. `page_id` is known unless `field` is the
    /// identifier itself.
    InvalidPage { row: usize, page_id: Option<i64>, field: PageField },
    /// The file of a page could not be written.
    WritePage { page_id: i64, cause: String },
    /// The images could not be fetched.
    FetchImages { cause: QueryError },
    /// The image in row `row` lacks the column `field`, or holds a value of
    /// another type there.
    InvalidImage { row: usize, field: ImageField },
    /// The stored payload of an image is not base64.
    DecodeImage { page_id: i64, image_id: i64, cause: Base64Error },
    /// The file of an image could not be written.
    WriteImage { page_id: i64, image_id: i64, cause: String },
    /// The session was told of something it was not waiting for.
    UnexpectedEvent,
}

/// What a column of a page is called in a message.
pub open spec fn page_field_name(field: PageField) -> Seq<char> {
    match field {
        PageField::Id => "page ID"@,
        PageField::Title => "title"@,
        PageField::Markdown => "markdown"@,
    }
}

/// What a column of an image is called in a message.
pub open spec fn image_field_name(field: ImageField) -> Seq<char> {
    match field {
        ImageField::Id => "image ID"@,
        ImageField::PageId => "page ID"@,
        ImageField::Data => "image data"@,
        ImageField::Extension => "file extension"@,
    }
}

/// The message of an export error: it names what was being done and the
/// record it was done for, and gives the cause where there is one.
pub open spec fn export_message(error: ExportError) -> Seq<char> {
    match error {
        ExportError::Configuration(ConfigurationError::Missing) => "No sync path"@,
        ExportError::Configuration(ConfigurationError::NotText) => "Sync path is not a string"@,
        ExportError::CreateDirectory { cause } => "Failed to create directory: "@ + cause@,
        ExportError::FetchPages { cause } => "Failed to fetch pages: "@ + query_message(cause),
        ExportError::InvalidPage { row, page_id: Some(page_id), field } => "Invalid "@
            + page_field_name(field) + " in page "@ + decimal(page_id as int),
        ExportError::InvalidPage { row, page_id: None, field } => "Invalid "@ + page_field_name(
            field,
        ) + " in row "@ + decimal_nat(row as nat),
        ExportError::WritePage { page_id, cause } => "Failed to write page "@ + decimal(
            page_id as int,
        ) + ": "@ + cause@,
        ExportError::FetchImages { cause } => "Failed to fetch images: "@ + query_message(cause),
        ExportError::InvalidImage { row, field } => "Invalid "@ + image_field_name(field)
            + " in row "@ + decimal_nat(row as nat),
        ExportError::DecodeImage { page_id, image_id, cause } => "Failed to decode base64 for image "@
            + decimal(page_id as int) + "_"@ + decimal(image_id as int) + ": "@ + base64_message(
            cause,
        ),
        ExportError::WriteImage { page_id, image_id, cause } => "Failed to write image data "@
            + decimal(page_id as int) + "_"@ + decimal(image_id as int) + ": "@ + cause@,
        ExportError::UnexpectedEvent => "Unexpected event"@,
    }
}

impl PageField {
    /// What the column is called in a message.
    pub fn name(self) -> (name: &'static str)
        ensures
            name@ == page_field_name(self),
    {
        match self {
            PageField::Id => "page ID",
            PageField::Title => "title",
            PageField::Markdown => "markdown",
        }
    }
}

impl ImageField {
    /// What the column is called in a message.
    pub fn name(self) -> (name: &'static str)
        ensures
            name@ == image_field_name(self),
    {
        match self {
            ImageField::Id => "image ID",
            ImageField::PageId => "page ID",
            ImageField::Data => "image data",
            ImageField::Extension => "file extension",
        }
    }
}

impl ExportError {
    /// The error as the one line that the user is shown.
    pub fn message(&self) -> (text: String)
        ensures
            text@ == export_message(*self),
    {
        match self {
            ExportError::Configuration(ConfigurationError::Missing) => String::from_str(
                "No sync path",
            ),
            ExportError::Configuration(ConfigurationError::NotText) => String::from_str(
                "Sync path is not a string",
            ),
            ExportError::CreateDirectory { cause } => {
                let mut text = String::from_str("Failed to create directory: ");
                text.append(cause.as_str());
                text
            },
            ExportError::FetchPages { cause } => {
                let mut text = String::from_str("Failed to fetch pages: ");
                text.append(cause.message().as_str());
                text
            },
            ExportError::InvalidPage { row, page_id, field } => {
                let mut text = String::from_str("Invalid ");
                text.append(field.name());
                match page_id {
                    Some(page_id) => {
                        text.append(" in page ");
                        push_decimal(&mut text, *page_id);
                    },
                    None => {
                        text.append(" in row ");
                        push_decimal_nat(&mut text, *row as u64);
                    },
                }
                text
            },
            ExportError::WritePage { page_id, cause } => {
                let mut text = String::from_str("Failed to write page ");
                push_decimal(&mut text, *page_id);
                text.append(": ");
                text.append(cause.as_str());
                text
            },
            ExportError::FetchImages { cause } => {
                let mut text = String::from_str("Failed to fetch images: ");
                text.append(cause.message().as_str());
                text
            },
            ExportError::InvalidImage { row, field } => {
                let mut text = String::from_str("Invalid ");
                text.append(field.name());
                text.append(" in row ");
                push_decimal_nat(&mut text, *row as u64);
                text
            },
            ExportError::DecodeImage { page_id, image_id, cause } => {
                let mut text = String::from_str("Failed to decode base64 for image ");
                push_decimal(&mut text, *page_id);
                text.append("_");
                push_decimal(&mut text, *image_id);
                text.append(": ");
                text.append(cause.message().as_str());
                text
            },
            ExportError::WriteImage { page_id, image_id, cause } => {
                let mut text = String::from_str("Failed to write image data ");
                push_decimal(&mut text, *page_id);
                text.append("_");
                push_decimal(&mut text, *image_id);
                text.append(": ");
                text.append(cause.as_str());
                text
            },
            ExportError::UnexpectedEvent => String::from_str("Unexpected event"),
        }
    }
}

/// The file of one page.
#[derive(Clone, Debug, PartialEq)]
pub struct PageFile {
    pub page_id: i64,
    pub file_name: String,
    pub content: String,
}

/// What a [`PageFile`] holds.
pub struct PageFileView {
    pub page_id: i64,
    pub file_name: Seq<char>,
    pub content: Seq<char>,
}

impl View for PageFile {
    type V = PageFileView;

    open spec fn view(&self) -> PageFileView {
        PageFileView { page_id: self.page_id, file_name: self.file_name@, content: self.content@ }
    }
}

/// The file of one image.
#[derive(Clone, Debug, PartialEq)]
pub struct ImageFile {
    pub page_id: i64,
    pub image_id: i64,
    pub file_name: String,
    pub content: Vec<u8>,
}

/// What an [`ImageFile`] holds.
pub struct ImageFileView {
    pub page_id: i64,
    pub image_id: i64,
    pub file_name: Seq<char>,
    pub content: Seq<u8>,
}

impl View for ImageFile {
    type V = ImageFileView;

    open spec fn view(&self) -> ImageFileView {
        ImageFileView {
            page_id: self.page_id,
            image_id: self.image_id,
            file_name: self.file_name@,
            content: self.content@,
        }
    }
}

/// The directory that the settings name: the sync path, where it is there and
/// a text.
pub open spec fn configured_directory(setting: Option<&Param>) -> Result<
    Seq<char>,
    ConfigurationError,
> {
    match setting {
        None => Err(ConfigurationError::Missing),
        Some(Param::Text(path)) => Ok(path@),
        Some(_) => Err(ConfigurationError::NotText),
    }
}

/// The name of the file of a page: its stored file name where it has one,
/// else the name derived from its identifier and its title. Nothing where it
/// has neither a stored file name nor a title.
pub open spec fn page_file_name(record: Seq<(Seq<char>, ValueView)>, page_id: i64) -> Option<
    Seq<char>,
> {
    match text_at(record, "filename"@) {
        Some(stored) => Some(stored),
        None => match text_at(record, "title"@) {
            Some(title) => Some(derived_page_name(page_id as int, title)),
            None => None,
        },
    }
}

/// The file that the page in row `row` is exported to: named by
/// [`page_file_name`], with its markdown text as content.
pub open spec fn page_file(record: Seq<(Seq<char>, ValueView)>, row: usize) -> Result<
    PageFileView,
    ExportError,
> {
    match integer_at(record, "id"@) {
        None => Err(ExportError::InvalidPage { row, page_id: None, field: PageField::Id }),
        Some(page_id) => match page_file_name(record, page_id) {
            None => Err(
                ExportError::InvalidPage { row, page_id: Some(page_id), field: PageField::Title },
            ),
            Some(file_name) => match text_at(record, "markdown_text"@) {
                None => Err(
                    ExportError::InvalidPage {
                        row,
                        page_id: Some(page_id),
                        field: PageField::Markdown,
                    },
                ),
                Some(content) => Ok(PageFileView { page_id, file_name, content }),
            },
        },
    }
}

/// The extension of the file of an image: its stored extension where it has
/// one, else the extension that stands for its stored MIME type. Nothing
/// where it has neither.
pub open spec fn image_extension(record: Seq<(Seq<char>, ValueView)>) -> Option<Seq<char>> {
    match text_at(record, "file_extension"@) {
        Some(stored) => Some(stored),
        None => match text_at(record, "mime_type"@) {
            Some(mime_type) => Some(mime_extension(mime_type)),
            None => None,
        },
    }
}

/// The file that the image in row `row` is exported to: named after its page,
/// itself and its extension, with the bytes that its stored payload decodes
/// to as content.
pub open spec fn image_file(record: Seq<(Seq<char>, ValueView)>, row: usize) -> Result<
    ImageFileView,
    ExportError,
> {
    match integer_at(record, "id"@) {
        None => Err(ExportError::InvalidImage { row, field: ImageField::Id }),
        Some(image_id) => match integer_at(record, "page_id"@) {
            None => Err(ExportError::InvalidImage { row, field: ImageField::PageId }),
            Some(page_id) => match text_at(record, "data"@) {
                None => Err(ExportError::InvalidImage { row, field: ImageField::Data }),
                Some(data) => match image_extension(record) {
                    None => Err(ExportError::InvalidImage { row, field: ImageField::Extension }),
                    Some(extension) => match standard_decoding(data) {
                        Err(cause) => Err(ExportError::DecodeImage { page_id, image_id, cause }),
                        Ok(content) => Ok(
                            ImageFileView {
                                page_id,
                                image_id,
                                file_name: image_name(page_id as int, image_id as int, extension),
                                content,
                            },
                        ),
                    },
                },
            },
        },
    }
}

/// Reads the directory to export to from the sync path of the settings.
pub fn sync_directory<'a>(setting: Option<&'a Param>) -> (directory: Result<
    &'a str,
    ConfigurationError,
>)
    ensures
        match directory {
            Ok(path) => configured_directory(setting) == Ok::<Seq<char>, ConfigurationError>(
                path@,
            ),
            Err(error) => configured_directory(setting) == Err::<Seq<char>, ConfigurationError>(
                error,
            ),
        },
{
    match setting {
        None => Err(ConfigurationError::Missing),
        Some(Param::Text(path)) => Ok(path.as_str()),
        Some(_) => Err(ConfigurationError::NotText),
    }
}

/// Makes the file of the page that stands in row `row` of the fetched pages.
pub fn export_page(row: usize, record: &Record) -> (file: Result<PageFile, ExportError>)
    ensures
        match file {
            Ok(made) => page_file(record@, row) == Ok::<PageFileView, ExportError>(made@),
            Err(error) => page_file(record@, row) == Err::<PageFileView, ExportError>(error),
        },
{
    let page_id = match record.integer("id") {
        Some(page_id) => page_id,
        None => {
            return Err(ExportError::InvalidPage { row, page_id: None, field: PageField::Id });
        },
    };
    let file_name = match record.text("filename") {
        Some(stored) => String::from_str(stored),
        None => match record.text("title") {
            Some(title) => derived_page_filename(page_id, title),
            None => {
                return Err(
                    ExportError::InvalidPage {
                        row,
                        page_id: Some(page_id),
                        field: PageField::Title,
                    },
                );
            },
        },
    };
    let content = match record.text("markdown_text") {
        Some(markdown) => String::from_str(markdown),
        None => {
            return Err(
                ExportError::InvalidPage {
                    row,
                    page_id: Some(page_id),
                    field: PageField::Markdown,
                },
            );
        },
    };
    Ok(PageFile { page_id, file_name, content })
}

/// Makes the file of the image that stands in row `row` of the fetched
/// images.
pub fn export_image(row: usize, record: &Record) -> (file: Result<ImageFile, ExportError>)
    ensures
        match file {
            Ok(made) => image_file(record@, row) == Ok::<ImageFileView, ExportError>(made@),
            Err(error) => image_file(record@, row) == Err::<ImageFileView, ExportError>(error),
        },
{
    let image_id = match record.integer("id") {
        Some(image_id) => image_id,
        None => {
            return Err(ExportError::InvalidImage { row, field: ImageField::Id });
        },
    };
    let page_id = match record.integer("page_id") {
        Some(page_id) => page_id,
        None => {
            return Err(ExportError::InvalidImage { row, field: ImageField::PageId });
        },
    };
    let data = match record.text("data") {
        Some(data) => data,
        None => {
            return Err(ExportError::InvalidImage { row, field: ImageField::Data });
        },
    };
    let extension = match record.text("file_extension") {
        Some(stored) => stored,
        None => match record.text("mime_type") {
            Some(mime_type) => extension_for_mime(mime_type),
            None => {
                return Err(ExportError::InvalidImage { row, field: ImageField::Extension });
            },
        },
    };
    let content = match decode_standard(data) {
        Ok(content) => content,
        Err(cause) => {
            return Err(ExportError::DecodeImage { page_id, image_id, cause });
        },
    };
    let file_name = image_filename(page_id, image_id, extension);
    Ok(ImageFile { page_id, image_id, file_name, content })
}

} // verus!
