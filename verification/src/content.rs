//! Content processing: from the bytes of one file to its catalog record.

use crate::date::CaptureDate;
use crate::fingerprint::{fingerprint, fingerprint_of, is_fingerprint};
use crate::inference::{deduced_date, try_deduce_date, DatePath, EmbeddedDates, EmbeddedDatesView};
use vstd::prelude::*;
use vstd::slice::slice_to_vec;

verus! {

/// The longest side, in pixels, that a thumbnail may have.
pub const THUMB_SIZE: u32 = 200;

/// The JPEG quality that thumbnails are written with.
pub const THUMB_QUALITY: u8 = 90;

/// The catalog's record of one image.
#[derive(Clone, Debug, PartialEq, Eq)]
pub struct FileInfo {
    /// The fingerprint of the file's content, in lowercase hexadecimal.
    pub hash: String,
    /// The capture date, where one could be found.
    pub date: Option<CaptureDate>,
    /// The thumbnail, as the bytes of a JPEG file.
    pub thumb: Vec<u8>,
}

/// What a `FileInfo` holds, as mathematical values.
pub struct FileInfoView {
    pub hash: Seq<char>,
    pub date: Option<CaptureDate>,
    pub thumb: Seq<u8>,
}

impl View for FileInfo {
    type V = FileInfoView;

    open spec fn view(&self) -> FileInfoView {
        FileInfoView { hash: self.hash@, date: self.date, thumb: self.thumb@ }
    }
}

impl FileInfoView {
    /// Whether the record is one that processing can produce: its hash has
    /// the form of a fingerprint and its date, if any, exists in the
    /// calendar.
    pub open spec fn wf(self) -> bool {
        &&& is_fingerprint(self.hash)
        &&& self.date matches Some(date) ==> date.is_calendar()
    }
}

/// Why a file got no record.
#[derive(Clone, Debug, PartialEq, Eq)]
pub enum ProcessError {
    /// The content is not an image that a thumbnail can be made of: it is
    /// corrupt or of a kind that is not supported. Holds the decoder's words.
    Decode(String),
}

/// What a `ProcessError` holds, as mathematical values.
pub enum ProcessErrorView {
    Decode(Seq<char>),
}

impl View for ProcessError {
    type V = ProcessErrorView;

    open spec fn view(&self) -> ProcessErrorView {
        match self {
            ProcessError::Decode(reason) => ProcessErrorView::Decode(reason@),
        }
    }
}

/// The texts of the two date-time fields as a metadata block holds them. A
/// text field may hold several texts; a field that the block lacks, or that
/// is not text, is absent.
#[derive(Clone, Debug, PartialEq, Eq)]
pub struct EmbeddedTexts {
    /// The texts of the field for the moment the picture was taken.
    pub original: Option<Vec<Vec<u8>>>,
    /// The texts of the general date-time field.
    pub generic: Option<Vec<Vec<u8>>>,
}

/// What `EmbeddedTexts` holds, as mathematical sequences.
pub struct EmbeddedTextsView {
    pub original: Option<Seq<Seq<u8>>>,
    pub generic: Option<Seq<Seq<u8>>>,
}

/// The texts of one field as mathematical sequences.
pub open spec fn texts_view(field: Option<Vec<Vec<u8>>>) -> Option<Seq<Seq<u8>>> {
    match field {
        Some(texts) => Some(Seq::new(texts@.len(), |i: int| texts@[i]@)),
        None => None,
    }
}

impl View for EmbeddedTexts {
    type V = EmbeddedTextsView;

    open spec fn view(&self) -> EmbeddedTextsView {
        EmbeddedTextsView {
            original: texts_view(self.original),
            generic: texts_view(self.generic),
        }
    }
}

/// The texts of the fields `DateTimeOriginal` and `DateTime` of the primary
/// image in the metadata block that a file's content embeds: what
/// `exif::Reader::read_from_container` and `exif::Exif::get_field` find in
/// it. Absent where the content holds no metadata block that parses.
pub uninterp spec fn embedded_texts(content: Seq<u8>) -> Option<EmbeddedTextsView>;

/// The text that counts of a field: its first, if it has any.
pub open spec fn first_text(field: Option<Seq<Seq<u8>>>) -> Option<Seq<u8>> {
    match field {
        Some(texts) => if texts.len() > 0 {
            Some(texts[0])
        } else {
            None
        },
        None => None,
    }
}

/// The date-time texts that a file's content embeds: the first text of each
/// of the two fields.
pub open spec fn embedded_dates(content: Seq<u8>) -> Option<EmbeddedDatesView> {
    match embedded_texts(content) {
        Some(texts) => Some(
            EmbeddedDatesView {
                original: first_text(texts.original),
                generic: first_text(texts.generic),
            },
        ),
        None => None,
    }
}

/// What the header of a picture says of its size, width first, as
/// `image::io::Reader::into_dimensions` reads it from a content; where the
/// content is of no known format or its header is broken, the words of the
/// `image` crate's error.
pub uninterp spec fn picture_size(content: Seq<u8>) -> Result<(u32, u32), Seq<char>>;

/// Why no thumbnail can be made of a content whose header is sound, in the
/// words of the `image` crate's error; absent where one can be made.
pub uninterp spec fn thumbnail_failure(content: Seq<u8>, bound: u32, quality: u8) -> Option<
    Seq<char>,
>;

/// Whether `jpeg` is a thumbnail of the picture in `content`: what the
/// `image` crate wrote when it decoded the content, scaled the picture with
/// the Catmull-Rom filter to the largest size of the same shape that fits a
/// square of `bound` pixels, and encoded the result as JPEG of quality
/// `quality`. The pixels are computed in floating point, so a content may
/// have more than one thumbnail.
pub uninterp spec fn is_thumbnail_of(content: Seq<u8>, bound: u32, quality: u8, jpeg: Seq<u8>) -> bool;

/// What is said of a picture without pixels.
pub open spec fn empty_picture_message() -> Seq<char> {
    "the picture has no pixels"@
}

/// Why a content gets no record, if it gets none: its header cannot be
/// read, or the picture has a side of no pixels, or no thumbnail can be
/// made of it.
pub open spec fn rejection(content: Seq<u8>) -> Option<Seq<char>> {
    match picture_size(content) {
        Err(reason) => Some(reason),
        Ok(size) => if size.0 == 0 || size.1 == 0 {
            Some(empty_picture_message())
        } else {
            thumbnail_failure(content, THUMB_SIZE, THUMB_QUALITY)
        },
    }
}

/// Whether the bytes begin as a JPEG file does, with the start-of-image
/// marker.
pub open spec fn starts_as_jpeg(bytes: Seq<u8>) -> bool {
    bytes.len() >= 2 && bytes[0] == 0xff && bytes[1] == 0xd8
}

/// The capture date of a file with this content at this relative path.
pub open spec fn capture_date_of(
    content: Seq<u8>,
    relative_path: Seq<char>,
    rules: Seq<DatePath>,
) -> Option<CaptureDate> {
    deduced_date(embedded_dates(content), relative_path, rules)
}

/// What processing makes of a file, given the bytes that the thumbnail came
/// out as: the pixels of a thumbnail are computed in floating point, so its
/// bytes are not fixed by the content.
pub open spec fn processed(
    content: Seq<u8>,
    relative_path: Seq<char>,
    rules: Seq<DatePath>,
    thumb: Seq<u8>,
) -> Result<FileInfoView, ProcessErrorView> {
    match rejection(content) {
        Some(reason) => Err(ProcessErrorView::Decode(reason)),
        None => Ok(
            FileInfoView {
                hash: fingerprint_of(content),
                date: capture_date_of(content, relative_path, rules),
                thumb,
            },
        ),
    }
}

/// The view of the outcome of processing.
pub open spec fn outcome_view(outcome: Result<FileInfo, ProcessError>) -> Result<
    FileInfoView,
    ProcessErrorView,
> {
    match outcome {
        Ok(info) => Ok(info@),
        Err(error) => Err(error@),
    }
}

/// The thumbnail bytes of an outcome; none where there is no record.
pub open spec fn outcome_thumb(outcome: Result<FileInfo, ProcessError>) -> Seq<u8> {
    match outcome {
        Ok(info) => info.thumb@,
        Err(_) => Seq::empty(),
    }
}

/// The view of optional texts.
pub open spec fn optional_texts_view(texts: Option<EmbeddedTexts>) -> Option<EmbeddedTextsView> {
    match texts {
        Some(found) => Some(found@),
        None => None,
    }
}

/// Parses the metadata block with `exif::Reader::read_from_container` and
/// takes the texts of the fields `DateTimeOriginal` and `DateTime` of the
/// primary image with `exif::Exif::get_field`. Trusted: the outcome is a
/// function of the bytes alone, here named `embedded_texts`.
#[verifier::external_body]
fn read_embedded_texts(content: &[u8]) -> (texts: Option<EmbeddedTexts>)
    ensures
        optional_texts_view(texts) == embedded_texts(content@),
{
    let exif = exif::Reader::new().read_from_container(&mut std::io::Cursor::new(content)).ok()?;
    let texts = |tag: exif::Tag| match exif.get_field(tag, exif::In::PRIMARY) {
        Some(exif::Field { value: exif::Value::Ascii(lines), .. }) => Some(lines.clone()),
        _ => None,
    };
    Some(
        EmbeddedTexts {
            original: texts(exif::Tag::DateTimeOriginal),
            generic: texts(exif::Tag::DateTime),
        },
    )
}

/// Takes the text that counts of a field: its first, if it has any.
fn take_first_text(field: &Option<Vec<Vec<u8>>>) -> (text: Option<Vec<u8>>)
    ensures
        match text {
            Some(first) => first_text(texts_view(*field)) == Some(first@),
            None => first_text(texts_view(*field)) is None,
        },
{
    match field {
        Some(texts) => {
            if texts.len() > 0 {
                Some(slice_to_vec(texts[0].as_slice()))
            } else {
                None
            }
        },
        None => None,
    }
}

/// Reads the date-time texts that a content embeds: the first text of each
/// of the two date-time fields of its metadata block, if it has one that
/// parses.
pub fn read_embedded_dates(content: &[u8]) -> (dates: Option<EmbeddedDates>)
    ensures
        dates matches Some(found) ==> embedded_dates(content@) == Some(found@),
        dates is None ==> embedded_dates(content@) is None,
{
    match read_embedded_texts(content) {
        Some(texts) => Some(
            EmbeddedDates {
                original: take_first_text(&texts.original),
                generic: take_first_text(&texts.generic),
            },
        ),
        None => None,
    }
}

/// The view of a measured size.
pub open spec fn measured_view(size: Result<(u32, u32), String>) -> Result<(u32, u32), Seq<char>> {
    match size {
        Ok(sides) => Ok(sides),
        Err(reason) => Err(reason@),
    }
}

/// Reads the picture's size from its header with `image::io::Reader`
/// (`with_guessed_format`, then `into_dimensions`). Trusted: the outcome is a
/// function of the bytes alone, here named `picture_size`.
#[verifier::external_body]
fn measure_picture(content: &[u8]) -> (size: Result<(u32, u32), String>)
    ensures
        measured_view(size) == picture_size(content@),
{
    let reader = image::io::Reader::new(std::io::Cursor::new(content));
    reader.with_guessed_format().map_err(|err| err.to_string())?.into_dimensions().map_err(
        |err| err.to_string(),
    )
}

/// Decodes the content with `image::io::Reader` (`with_guessed_format`, then
/// `decode`), scales the picture into a square of `bound` pixels with
/// `image::DynamicImage::resize` and the Catmull-Rom filter, and writes it as
/// JPEG of the given quality with `DynamicImage::write_to`.
///
/// `resize` divides by the picture's sides, so a picture with a side of no
/// pixels is left out: the decoders of the formats that are built in, JPEG
/// and PNG, give the picture the size that `into_dimensions` reads from the
/// same header. Trusted: whether this fails, and the error's words, are a
/// function of the arguments alone, here named `thumbnail_failure`; what is
/// written is a thumbnail of the content in the sense of `is_thumbnail_of`,
/// and the encoder begins it with the start-of-image marker.
#[verifier::external_body]
fn render_thumbnail(content: &[u8], bound: u32, quality: u8) -> (thumb: Result<Vec<u8>, String>)
    requires
        bound > 0,
        picture_size(content@) matches Ok(sides) && sides.0 > 0 && sides.1 > 0,
    ensures
        thumb matches Err(reason) ==> thumbnail_failure(content@, bound, quality) == Some(reason@),
        thumb is Ok ==> thumbnail_failure(content@, bound, quality) is None,
        thumb matches Ok(jpeg) ==> is_thumbnail_of(content@, bound, quality, jpeg@)
            && starts_as_jpeg(jpeg@),
{
    let reader = image::io::Reader::new(std::io::Cursor::new(content));
    let picture = reader.with_guessed_format().map_err(|err| err.to_string())?.decode().map_err(
        |err| err.to_string(),
    )?;
    let small = picture.resize(bound, bound, image::imageops::FilterType::CatmullRom);
    let mut jpeg = Vec::new();
    small.write_to(&mut jpeg, image::ImageOutputFormat::Jpeg(quality)).map_err(
        |err| err.to_string(),
    )?;
    Ok(jpeg)
}

/// Makes the thumbnail of a content, or says why there is none: the header
/// cannot be read, the picture has a side of no pixels, or the picture
/// cannot be decoded or written.
pub fn make_thumbnail(content: &[u8]) -> (thumb: Result<Vec<u8>, String>)
    ensures
        thumb matches Err(reason) ==> rejection(content@) == Some(reason@),
        thumb is Ok ==> rejection(content@) is None,
        thumb matches Ok(jpeg) ==> is_thumbnail_of(content@, THUMB_SIZE, THUMB_QUALITY, jpeg@)
            && starts_as_jpeg(jpeg@),
{
    match measure_picture(content) {
        Err(reason) => Err(reason),
        Ok(sides) => {
            if sides.0 == 0 || sides.1 == 0 {
                Err("the picture has no pixels".to_owned())
            } else {
                render_thumbnail(content, THUMB_SIZE, THUMB_QUALITY)
            }
        },
    }
}

impl FileInfo {
    /// Assembles the record of a file once its thumbnail has been made, or
    /// gives the reason why there is none.
    ///
    /// With a thumbnail, the record holds it with the content's fingerprint
    /// and the capture date deduced from the content's metadata and the
    /// relative path; without one, the file is to be skipped and nothing is
    /// computed.
    pub fn assemble(
        content: &[u8],
        relative_path: &str,
        date_paths: &Vec<DatePath>,
        thumb: Result<Vec<u8>, String>,
    ) -> (outcome: Result<FileInfo, ProcessError>)
        ensures
            match thumb {
                Ok(bytes) => outcome matches Ok(info) && info@ == (FileInfoView {
                    hash: fingerprint_of(content@),
                    date: capture_date_of(content@, relative_path@, date_paths@),
                    thumb: bytes@,
                }) && info@.wf(),
                Err(reason) => outcome matches Err(error) && error@ == ProcessErrorView::Decode(
                    reason@,
                ),
            },
    {
        match thumb {
            Ok(bytes) => {
                let hash = fingerprint(content);
                let exif = read_embedded_dates(content);
                let date = try_deduce_date(exif.as_ref(), relative_path, date_paths);
                Ok(FileInfo { hash, date, thumb: bytes })
            },
            Err(reason) => Err(ProcessError::Decode(reason)),
        }
    }
}

/// Processes the content of one file into its catalog record.
///
/// The content is decoded as an image of whatever format its first bytes
/// show, and a thumbnail is made that fits a square of `THUMB_SIZE` pixels.
/// Content that cannot be decoded, and a picture without pixels, give
/// `ProcessError::Decode`, and the file is to be skipped. Otherwise the record holds the thumbnail, the
/// fingerprint of the content and the capture date, if one can be found.
pub fn process_file(
    content: &[u8],
    relative_path: &str,
    date_paths: &Vec<DatePath>,
) -> (outcome: Result<FileInfo, ProcessError>)
    ensures
        outcome_view(outcome) == processed(
            content@,
            relative_path@,
            date_paths@,
            outcome_thumb(outcome),
        ),
        outcome matches Ok(info) ==> info@.wf() && starts_as_jpeg(info.thumb@)
            && is_thumbnail_of(content@, THUMB_SIZE, THUMB_QUALITY, info.thumb@),
{
    let thumb = make_thumbnail(content);
    FileInfo::assemble(content, relative_path, date_paths, thumb)
}

} // verus!
