//! File names of exported pages and images.
//!
//! Every name starts with the decimal identifier of its record, so two records
//! never share a name, whatever their titles are.

use vstd::prelude::*;
use vstd::string::StringExecFns;
use crate::decimal::{decimal, lemma_decimal_chars, lemma_decimal_injective, push_decimal};
use crate::strings::same_text;

verus! {

/// The characters that may not appear in a derived file name.
pub open spec fn is_separator(c: char) -> bool {
    c == '/' || c == '\\' || c == ':'
}

/// `title` with every separator replaced by an underscore and every other
/// character left as it is.
pub open spec fn sanitized(title: Seq<char>) -> Seq<char> {
    Seq::new(title.len(), |i: int| if is_separator(title[i]) { '_' } else { title[i] })
}

/// The name derived for a page: `{page_id}_{sanitized title}.md`.
pub open spec fn derived_page_name(page_id: int, title: Seq<char>) -> Seq<char> {
    decimal(page_id) + seq!['_'] + sanitized(title) + seq!['.', 'm', 'd']
}

/// The name of an image file: `{page_id}_{image_id}.{extension}`.
pub open spec fn image_name(page_id: int, image_id: int, extension: Seq<char>) -> Seq<char> {
    decimal(page_id) + seq!['_'] + decimal(image_id) + seq!['.'] + extension
}

/// The file extension that stands for a MIME type; `bin` for every type that
/// the table does not list.
pub open spec fn mime_extension(mime_type: Seq<char>) -> Seq<char> {
    if mime_type == "image/png"@ {
        "png"@
    } else if mime_type == "image/jpeg"@ || mime_type == "image/jpg"@ {
        "jpg"@
    } else if mime_type == "image/gif"@ {
        "gif"@
    } else if mime_type == "image/webp"@ {
        "webp"@
    } else if mime_type == "image/svg+xml"@ {
        "svg"@
    } else {
        "bin"@
    }
}

/// Replaces each `/`, `\` and `:` of `filename` by `_`.
pub fn sanitize_filename(filename: &str) -> (clean: String)
    ensures
        clean@ == sanitized(filename@),
{
    let mut clean = String::new();
    for c in it: filename.chars()
        invariant
            it.seq() == filename@,
            clean@ == sanitized(filename@.subrange(0, it.index() as int)),
    {
        if c == '/' || c == '\\' || c == ':' {
            clean.push('_');
        } else {
            clean.push(c);
        }
        assert(clean@ =~= sanitized(filename@.subrange(0, it.index() + 1)));
    }
    assert(filename@.subrange(0, filename@.len() as int) =~= filename@);
    clean
}

/// The name of the file that holds a page without a stored file name.
pub fn derived_page_filename(page_id: i64, title: &str) -> (name: String)
    ensures
        name@ == derived_page_name(page_id as int, title@),
{
    let mut name = String::new();
    push_decimal(&mut name, page_id);
    name.push('_');
    let clean = sanitize_filename(title);
    name.append(clean.as_str());
    name.push('.');
    name.push('m');
    name.push('d');
    assert(name@ =~= derived_page_name(page_id as int, title@));
    name
}

/// The file extension for a stored MIME type.
pub fn extension_for_mime(mime_type: &str) -> (extension: &'static str)
    ensures
        extension@ == mime_extension(mime_type@),
{
    if same_text(mime_type, "image/png") {
        "png"
    } else if same_text(mime_type, "image/jpeg") || same_text(mime_type, "image/jpg") {
        "jpg"
    } else if same_text(mime_type, "image/gif") {
        "gif"
    } else if same_text(mime_type, "image/webp") {
        "webp"
    } else if same_text(mime_type, "image/svg+xml") {
        "svg"
    } else {
        "bin"
    }
}

/// The name of the file that holds an image.
pub fn image_filename(page_id: i64, image_id: i64, extension: &str) -> (name: String)
    ensures
        name@ == image_name(page_id as int, image_id as int, extension@),
{
    let mut name = String::new();
    push_decimal(&mut name, page_id);
    name.push('_');
    push_decimal(&mut name, image_id);
    name.push('.');
    name.append(extension);
    assert(name@ =~= image_name(page_id as int, image_id as int, extension@));
    name
}

/// Sanitizing keeps the length and leaves no separator behind.
pub proof fn lemma_sanitized_is_clean(title: Seq<char>)
    ensures
        sanitized(title).len() == title.len(),
        forall|i: int| 0 <= i < title.len() ==> !is_separator(#[trigger] sanitized(title)[i]),
        forall|i: int|
            0 <= i < title.len() && !is_separator(title[i]) ==> #[trigger] sanitized(title)[i]
                == title[i],
{
}

/// If two texts agree, and each starts with a run free of `mark` that is
/// followed by `mark`, then the runs agree and so does what follows them.
pub proof fn lemma_marked_prefix(
    left: Seq<char>,
    left_rest: Seq<char>,
    right: Seq<char>,
    right_rest: Seq<char>,
    mark: char,
)
    requires
        left + seq![mark] + left_rest == right + seq![mark] + right_rest,
        forall|i: int| 0 <= i < left.len() ==> left[i] != mark,
        forall|i: int| 0 <= i < right.len() ==> right[i] != mark,
    ensures
        left == right,
        left_rest == right_rest,
{
    let l = left + seq![mark] + left_rest;
    let r = right + seq![mark] + right_rest;
    if left.len() < right.len() {
        assert(l[left.len() as int] == mark);
        assert(r[left.len() as int] == right[left.len() as int]);
        assert(false);
    }
    if right.len() < left.len() {
        assert(r[right.len() as int] == mark);
        assert(l[right.len() as int] == left[right.len() as int]);
        assert(false);
    }
    assert(left =~= l.subrange(0, left.len() as int));
    assert(right =~= r.subrange(0, left.len() as int));
    assert(left_rest =~= l.subrange(left.len() as int + 1, l.len() as int));
    assert(right_rest =~= r.subrange(left.len() as int + 1, r.len() as int));
}

/// Pages with different identifiers get different derived names, whatever
/// their titles are: the identifier in front tells them apart.
pub proof fn lemma_derived_page_names_distinct(
    page_id: int,
    title: Seq<char>,
    other_id: int,
    other_title: Seq<char>,
)
    requires
        page_id != other_id,
    ensures
        derived_page_name(page_id, title) != derived_page_name(other_id, other_title),
{
    if derived_page_name(page_id, title) == derived_page_name(other_id, other_title) {
        lemma_decimal_chars(page_id);
        lemma_decimal_chars(other_id);
        let rest = sanitized(title) + seq!['.', 'm', 'd'];
        let other_rest = sanitized(other_title) + seq!['.', 'm', 'd'];
        assert(derived_page_name(page_id, title) =~= decimal(page_id) + seq!['_'] + rest);
        assert(derived_page_name(other_id, other_title) =~= decimal(other_id) + seq!['_']
            + other_rest);
        lemma_marked_prefix(decimal(page_id), rest, decimal(other_id), other_rest, '_');
        lemma_decimal_injective(page_id, other_id);
    }
}

/// An image name tells which page and which image it belongs to, and with
/// which extension it was made.
pub proof fn lemma_image_names_injective(
    page_id: int,
    image_id: int,
    extension: Seq<char>,
    other_page_id: int,
    other_image_id: int,
    other_extension: Seq<char>,
)
    requires
        image_name(page_id, image_id, extension) == image_name(
            other_page_id,
            other_image_id,
            other_extension,
        ),
    ensures
        page_id == other_page_id,
        image_id == other_image_id,
        extension == other_extension,
{
    lemma_decimal_chars(page_id);
    lemma_decimal_chars(other_page_id);
    lemma_decimal_chars(image_id);
    lemma_decimal_chars(other_image_id);
    let rest = decimal(image_id) + seq!['.'] + extension;
    let other_rest = decimal(other_image_id) + seq!['.'] + other_extension;
    assert(image_name(page_id, image_id, extension) =~= decimal(page_id) + seq!['_'] + rest);
    assert(image_name(other_page_id, other_image_id, other_extension) =~= decimal(other_page_id)
        + seq!['_'] + other_rest);
    lemma_marked_prefix(decimal(page_id), rest, decimal(other_page_id), other_rest, '_');
    lemma_decimal_injective(page_id, other_page_id);
    lemma_marked_prefix(decimal(image_id), extension, decimal(other_image_id), other_extension, '.');
    lemma_decimal_injective(image_id, other_image_id);
}

} // verus!
