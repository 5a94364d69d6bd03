//! Media uploads: the settings of the upload widget, the multipart forms
//! that carry a film or a poster, where uploads are stored, and the poster
//! variants cut from an uploaded image.
use crate::error::{is_validation, validation, AppError, MediaError};
use crate::text::{chars_of, ends_with, has_suffix, owned, push_str, string_of, texts};
use image::imageops::FilterType;
use image::{ImageError, ImageFormat};
use vstd::prelude::*;

verus! {

/// Settings of the upload widget.
#[derive(Debug, Clone)]
pub struct UppyConfig {
    pub endpoint: String,
    pub film_id: String,
    pub max_file_size_mb: u64,
    pub allowed_types: Vec<String>,
}

/// The video types a film upload accepts.
pub open spec fn film_types() -> Seq<Seq<char>> {
    seq!["video/mp4"@, "video/quicktime"@, "video/x-matroska"@, "video/x-msvideo"@, "video/webm"@]
}

/// The image types a poster upload accepts.
pub open spec fn poster_types() -> Seq<Seq<char>> {
    seq!["image/jpeg"@, "image/png"@, "image/webp"@]
}

impl UppyConfig {
    /// The widget for a film's master file: up to 50 GB of video.
    pub fn for_film(film_id: &str, base_url: &str) -> (c: UppyConfig)
        ensures
            c.endpoint@ == base_url@ + "/films/"@ + film_id@ + "/upload"@,
            c.film_id@ == film_id@,
            c.max_file_size_mb == 50_000,
            texts(c.allowed_types@) == film_types(),
    {
        let mut e = chars_of(base_url);
        push_str(&mut e, "/films/");
        push_str(&mut e, film_id);
        push_str(&mut e, "/upload");
        let mut t: Vec<String> = Vec::new();
        crate::text::push_owned(&mut t, "video/mp4");
        crate::text::push_owned(&mut t, "video/quicktime");
        crate::text::push_owned(&mut t, "video/x-matroska");
        crate::text::push_owned(&mut t, "video/x-msvideo");
        crate::text::push_owned(&mut t, "video/webm");
        assert(texts(t@) =~= film_types());
        UppyConfig {
            endpoint: string_of(e.as_slice()),
            film_id: owned(film_id),
            max_file_size_mb: 50_000,
            allowed_types: t,
        }
    }

    /// The widget for a film's poster: up to 50 MB of JPEG, PNG or WebP.
    pub fn for_poster(film_id: &str, base_url: &str) -> (c: UppyConfig)
        ensures
            c.endpoint@ == base_url@ + "/films/"@ + film_id@ + "/poster"@,
            c.film_id@ == film_id@,
            c.max_file_size_mb == 50,
            texts(c.allowed_types@) == poster_types(),
    {
        let mut e = chars_of(base_url);
        push_str(&mut e, "/films/");
        push_str(&mut e, film_id);
        push_str(&mut e, "/poster");
        let mut t: Vec<String> = Vec::new();
        crate::text::push_owned(&mut t, "image/jpeg");
        crate::text::push_owned(&mut t, "image/png");
        crate::text::push_owned(&mut t, "image/webp");
        assert(texts(t@) =~= poster_types());
        UppyConfig {
            endpoint: string_of(e.as_slice()),
            film_id: owned(film_id),
            max_file_size_mb: 50,
            allowed_types: t,
        }
    }
}

/// A presigned multipart upload session handed to the client.
#[derive(Debug, Clone)]
pub struct UploadSession {
    pub upload_id: String,
    pub film_key: String,
    pub storage_key: String,
    pub parts: Vec<PresignedPart>,
}

/// One presigned part of an upload.
#[derive(Debug, Clone)]
pub struct PresignedPart {
    pub part_number: i32,
    pub presigned_url: String,
}

/// What the client sends once all parts are uploaded.
#[derive(Debug, Clone)]
pub struct CompleteUploadRequest {
    pub upload_id: String,
    pub storage_key: String,
    pub parts: Vec<CompletedPart>,
}

/// One uploaded part.
#[derive(Debug, Clone)]
pub struct CompletedPart {
    pub part_number: i32,
    pub etag: String,
}

/// The content type of an uploaded film, by its file name's extension.
pub open spec fn video_type_of(file_name: Seq<char>) -> Seq<char> {
    if ends_with(file_name, ".mp4"@) {
        "video/mp4"@
    } else if ends_with(file_name, ".mov"@) {
        "video/quicktime"@
    } else if ends_with(file_name, ".mkv"@) {
        "video/x-matroska"@
    } else if ends_with(file_name, ".avi"@) {
        "video/x-msvideo"@
    } else {
        "application/octet-stream"@
    }
}

fn name_ends(name: &[char], ext: &str) -> (b: bool)
    ensures
        b == ends_with(name@, ext@),
{
    has_suffix(name, chars_of(ext).as_slice())
}

/// The content type of the film file `file_name`.
pub fn video_content_type(file_name: &str) -> (r: String)
    ensures
        r@ == video_type_of(file_name@),
{
    let n = chars_of(file_name);
    if name_ends(n.as_slice(), ".mp4") {
        owned("video/mp4")
    } else if name_ends(n.as_slice(), ".mov") {
        owned("video/quicktime")
    } else if name_ends(n.as_slice(), ".mkv") {
        owned("video/x-matroska")
    } else if name_ends(n.as_slice(), ".avi") {
        owned("video/x-msvideo")
    } else {
        owned("application/octet-stream")
    }
}

/// Where a film's master file is stored.
pub fn master_key(film_key: &str) -> (r: String)
    ensures
        r@ == "masters/"@ + film_key@ + ".mp4"@,
{
    let mut v = chars_of("masters/");
    push_str(&mut v, film_key);
    push_str(&mut v, ".mp4");
    string_of(v.as_slice())
}

/// One field of a multipart upload, as the form reading sees it.
#[derive(Debug, Clone)]
pub struct UploadPart {
    pub name: Option<String>,
    pub file_name: Option<String>,
    pub size: usize,
}

/// Whether a part has the given field name.
pub open spec fn named(p: UploadPart, n: Seq<char>) -> bool {
    p.name matches Some(s) && s@ == n
}

/// Reading a film upload: the file name so far, and whether a file was read.
#[derive(Debug, Clone)]
pub struct FilmUpload {
    pub file_name: String,
    pub has_file: bool,
}

impl FilmUpload {
    /// Nothing read yet.
    pub fn new() -> (u: FilmUpload)
        ensures
            u.file_name@ == Seq::<char>::empty(),
            !u.has_file,
    {
        FilmUpload { file_name: string_of(Vec::new().as_slice()), has_file: false }
    }

    /// Takes the next field of the form. A `file` field sets the file name
    /// (`upload.mp4` where it has none) and its bytes become the film, unless
    /// it is empty, which refuses the upload. Other fields are skipped. The
    /// result says whether this field's bytes are kept.
    pub fn take_part(&mut self, part: &UploadPart) -> (r: Result<bool, AppError>)
        ensures
            !named(*part, "file"@) ==> r == Ok::<bool, AppError>(false) && *final(self) == *old(self),
            named(*part, "file"@) && part.size == 0 ==> (r matches Err(e) && is_validation(e, "File is empty."@)),
            named(*part, "file"@) && part.size > 0 ==> r == Ok::<bool, AppError>(true) && final(self).has_file
                && final(self).file_name@ == (match part.file_name {
                    Some(f) => f@,
                    None => "upload.mp4"@,
                }),
    {
        let is_file = match &part.name {
            Some(n) => crate::text::str_is(n.as_str(), "file"),
            None => false,
        };
        if !is_file {
            return Ok(false);
        }
        self.file_name = match &part.file_name {
            Some(f) => f.clone(),
            None => owned("upload.mp4"),
        };
        if part.size == 0 {
            return Err(validation("File is empty."));
        }
        self.has_file = true;
        Ok(true)
    }

    /// The end of the form: a film must have been read.
    pub fn finish(&self) -> (r: Result<(), AppError>)
        ensures
            r is Ok <==> self.has_file,
            r matches Err(e) ==> is_validation(e, "No file provided."@),
    {
        if self.has_file {
            Ok(())
        } else {
            Err(validation("No file provided."))
        }
    }
}

/// Whether a field of a poster upload is kept: a `poster` field that is not
/// empty replaces any poster read before it.
pub fn takes_poster_part(part: &UploadPart) -> (b: bool)
    ensures
        b == (named(*part, "poster"@) && part.size > 0),
{
    let is_poster = match &part.name {
        Some(n) => crate::text::str_is(n.as_str(), "poster"),
        None => false,
    };
    is_poster && part.size > 0
}

/// The end of a poster upload: a poster must have been read.
pub fn finish_poster(has_poster: bool) -> (r: Result<(), AppError>)
    ensures
        r is Ok <==> has_poster,
        r matches Err(e) ==> is_validation(e, "No poster file provided."@),
{
    if has_poster {
        Ok(())
    } else {
        Err(validation("No poster file provided."))
    }
}

/// The storage keys of a film's poster variants.
#[derive(Debug, Clone)]
pub struct PosterKeys {
    pub thumb: String,
    pub small: String,
    pub medium: String,
    pub large: String,
}

/// The storage key of a poster variant.
pub open spec fn poster_key(film_key: Seq<char>, variant: Seq<char>) -> Seq<char> {
    "posters/"@ + film_key + "/"@ + variant + ".jpg"@
}

fn variant_key(film_key: &str, variant: &str) -> (r: String)
    ensures
        r@ == poster_key(film_key@, variant@),
{
    let mut v = chars_of("posters/");
    push_str(&mut v, film_key);
    push_str(&mut v, "/");
    push_str(&mut v, variant);
    push_str(&mut v, ".jpg");
    string_of(v.as_slice())
}

/// Where the four poster variants of a film are stored.
pub fn poster_keys(film_key: &str) -> (k: PosterKeys)
    ensures
        k.thumb@ == poster_key(film_key@, "thumb"@),
        k.small@ == poster_key(film_key@, "small"@),
        k.medium@ == poster_key(film_key@, "medium"@),
        k.large@ == poster_key(film_key@, "large"@),
{
    PosterKeys {
        thumb: variant_key(film_key, "thumb"),
        small: variant_key(film_key, "small"),
        medium: variant_key(film_key, "medium"),
        large: variant_key(film_key, "large"),
    }
}

/// The error type of the `image` crate.
#[verifier::external_type_specification]
#[verifier::external_body]
pub struct ExImageError(image::ImageError);

/// Whether the `image` crate recognizes and decodes `bytes` as an image.
pub uninterp spec fn decodes_as_image(bytes: Seq<u8>) -> bool;

/// The JPEG that the `image` crate makes of the image in `bytes`, filled to
/// `width` by `height` pixels.
pub uninterp spec fn jpeg_fill(bytes: Seq<u8>, width: u32, height: u32) -> Seq<u8>;

/// `image::load_from_memory` (the format guessed from the leading bytes),
/// then `DynamicImage::resize_to_fill` with the Lanczos3 filter, then
/// `DynamicImage::write_to` as JPEG into a byte buffer. Claims: for a size of
/// 1 to 65535 pixels each way it succeeds exactly where `decodes_as_image`
/// holds. The crate's source shows this: its PNG, JPEG and WebP decoders
/// refuse an image without pixels, `resize_to_fill` of an image with pixels
/// gives exactly the size asked for, and the JPEG encoder refuses only a size
/// outside 1 to 65535, writing into a buffer in memory that cannot fail.
/// The bytes written are named `jpeg_fill` of the data and the size: decoding,
/// resampling and encoding read nothing else.
#[verifier::external_body]
fn fill_jpeg(data: &[u8], width: u32, height: u32) -> (r: Result<Vec<u8>, ImageError>)
    requires
        1 <= width <= 65535,
        1 <= height <= 65535,
    ensures
        r is Ok <==> decodes_as_image(data@),
        r matches Ok(b) ==> b@ == jpeg_fill(data@, width, height),
{
    let img = image::load_from_memory(data)?;
    let resized = img.resize_to_fill(width, height, FilterType::Lanczos3);
    let mut buf = std::io::Cursor::new(Vec::new());
    resized.write_to(&mut buf, ImageFormat::Jpeg)?;
    Ok(buf.into_inner())
}

/// The text of an `image` error, as its `Display` writes it.
#[verifier::external_body]
fn image_error_text(e: &ImageError) -> String {
    e.to_string()
}

/// The four JPEG variants of a poster: 92x138, 185x278, 370x556 and 780x1170.
#[derive(Debug, Clone)]
pub struct PosterSizes {
    pub thumb: Vec<u8>,
    pub small: Vec<u8>,
    pub medium: Vec<u8>,
    pub large: Vec<u8>,
}

/// Cuts the four poster variants out of an uploaded image, each filled to
/// its size; data that is not an image is refused.
pub fn process_poster(data: &[u8]) -> (r: Result<PosterSizes, MediaError>)
    ensures
        r is Ok <==> decodes_as_image(data@),
        r matches Ok(p) ==> p.thumb@ == jpeg_fill(data@, 92, 138) && p.small@ == jpeg_fill(
            data@,
            185,
            278,
        ) && p.medium@ == jpeg_fill(data@, 370, 556) && p.large@ == jpeg_fill(data@, 780, 1170),
        r matches Err(e) ==> e is Internal,
{
    let thumb = match fill_jpeg(data, 92, 138) {
        Ok(b) => b,
        Err(e) => return Err(MediaError::Internal(image_error_text(&e))),
    };
    let small = match fill_jpeg(data, 185, 278) {
        Ok(b) => b,
        Err(e) => return Err(MediaError::Internal(image_error_text(&e))),
    };
    let medium = match fill_jpeg(data, 370, 556) {
        Ok(b) => b,
        Err(e) => return Err(MediaError::Internal(image_error_text(&e))),
    };
    let large = match fill_jpeg(data, 780, 1170) {
        Ok(b) => b,
        Err(e) => return Err(MediaError::Internal(image_error_text(&e))),
    };
    Ok(PosterSizes { thumb, small, medium, large })
}

/// A 320x180 JPEG thumbnail cut from image data; data that is not an image is refused.
pub fn generate_video_thumbnail(data: &[u8]) -> (r: Result<Vec<u8>, MediaError>)
    ensures
        r is Ok <==> decodes_as_image(data@),
        r matches Ok(b) ==> b@ == jpeg_fill(data@, 320, 180),
        r matches Err(e) ==> e is Internal,
{
    match fill_jpeg(data, 320, 180) {
        Ok(b) => Ok(b),
        Err(e) => Err(MediaError::Internal(image_error_text(&e))),
    }
}

/// The key of a file under a storage prefix.
pub fn object_key(prefix: &str, name: &str) -> (r: String)
    ensures
        r@ == prefix@ + "/"@ + name@,
{
    let mut v = chars_of(prefix);
    push_str(&mut v, "/");
    push_str(&mut v, name);
    string_of(v.as_slice())
}

/// What a storage read answers: a missing object is not found, anything
/// else is passed on.
pub fn storage_read_status(status_code: u16, key: &str) -> (r: Result<(), MediaError>)
    ensures
        status_code == 404 ==> (r matches Err(MediaError::NotFound(m)) && m@ == "Object not found: "@ + key@),
        status_code != 404 ==> r is Ok,
{
    if status_code == 404 {
        let mut v = chars_of("Object not found: ");
        push_str(&mut v, key);
        Err(MediaError::NotFound(string_of(v.as_slice())))
    } else {
        Ok(())
    }
}

/// The content type of a stored object, `application/octet-stream` where it has none.
pub fn stored_content_type(header: Option<String>) -> (r: String)
    ensures
        r@ == match header {
            Some(h) => h@,
            None => "application/octet-stream"@,
        },
{
    match header {
        Some(h) => h,
        None => owned("application/octet-stream"),
    }
}

} // verus!
