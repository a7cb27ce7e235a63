use vstd::prelude::*;

use crate::app_error::{is_bad_request, AppError};
use crate::text::{chars_of, has_prefix, text_starts_with};

verus! {

/// Largest accepted upload, in bytes (5 MB).
pub const MAX_IMAGE_SIZE: usize = 5242880;

/// `data` begins with the bytes of `magic`.
pub open spec fn has_magic(data: Seq<u8>, magic: Seq<u8>) -> bool {
    data.len() >= magic.len() && data.take(magic.len() as int) == magic
}

pub open spec fn png_magic() -> Seq<u8> {
    seq![0x89u8, 0x50u8, 0x4eu8, 0x47u8]
}

pub open spec fn jpeg_magic() -> Seq<u8> {
    seq![0xffu8, 0xd8u8, 0xffu8]
}

pub open spec fn webp_magic() -> Seq<u8> {
    seq![0x52u8, 0x49u8, 0x46u8, 0x46u8]
}

pub open spec fn gif_magic() -> Seq<u8> {
    seq![0x47u8, 0x49u8, 0x46u8]
}

/// The (content type, file extension) of an image, recognized by its leading bytes;
/// PNG, JPEG, WebP and GIF are tried in that order.
pub open spec fn image_type_spec(data: Seq<u8>) -> Option<(Seq<char>, Seq<char>)> {
    if has_magic(data, png_magic()) {
        Some(("image/png"@, "png"@))
    } else if has_magic(data, jpeg_magic()) {
        Some(("image/jpeg"@, "jpg"@))
    } else if has_magic(data, webp_magic()) {
        Some(("image/webp"@, "webp"@))
    } else if has_magic(data, gif_magic()) {
        Some(("image/gif"@, "gif"@))
    } else {
        None
    }
}

/// An image is recognized by its first bytes alone, and nothing after them matters:
/// `89 50 4E 47` is PNG; `FF D8 FF` is JPEG, whatever follows (JFIF, Exif and other
/// variants alike); `52 49 46 46` is WebP; `47 49 46` is GIF. Data of fewer than three
/// bytes, or starting with any other first byte, is no recognized image.
pub proof fn lemma_image_type_by_leading_bytes(data: Seq<u8>)
    ensures
        data.len() >= 4 && data[0] == 0x89u8 && data[1] == 0x50u8 && data[2] == 0x4eu8 && data[3] == 0x47u8
            ==> image_type_spec(data) == Some(("image/png"@, "png"@)),
        data.len() >= 3 && data[0] == 0xffu8 && data[1] == 0xd8u8 && data[2] == 0xffu8 ==> image_type_spec(data)
            == Some(("image/jpeg"@, "jpg"@)),
        data.len() >= 4 && data[0] == 0x52u8 && data[1] == 0x49u8 && data[2] == 0x46u8 && data[3] == 0x46u8
            ==> image_type_spec(data) == Some(("image/webp"@, "webp"@)),
        data.len() >= 3 && data[0] == 0x47u8 && data[1] == 0x49u8 && data[2] == 0x46u8 ==> image_type_spec(data)
            == Some(("image/gif"@, "gif"@)),
        data.len() < 3 ==> image_type_spec(data) is None,
        data.len() > 0 && data[0] != 0x89u8 && data[0] != 0xffu8 && data[0] != 0x52u8 && data[0] != 0x47u8
            ==> image_type_spec(data) is None,
{
    if data.len() >= 4 {
        assert(data.take(4).len() == 4);
    }
    if data.len() >= 3 {
        if data[0] == 0xffu8 && data[1] == 0xd8u8 && data[2] == 0xffu8 {
            assert(data.take(3) =~= jpeg_magic());
        }
        if data[0] == 0x47u8 && data[1] == 0x49u8 && data[2] == 0x46u8 {
            assert(data.take(3) =~= gif_magic());
        }
    }
    if data.len() >= 4 {
        if data[0] == 0x89u8 && data[1] == 0x50u8 && data[2] == 0x4eu8 && data[3] == 0x47u8 {
            assert(data.take(4) =~= png_magic());
        }
        if data[0] == 0x52u8 && data[1] == 0x49u8 && data[2] == 0x46u8 && data[3] == 0x46u8 {
            assert(data.take(4) =~= webp_magic());
        }
    }
    if has_magic(data, png_magic()) {
        assert(data.take(4)[0] == data[0]);
    }
    if has_magic(data, jpeg_magic()) {
        assert(data.take(3)[0] == data[0]);
    }
    if has_magic(data, webp_magic()) {
        assert(data.take(4)[0] == data[0]);
    }
    if has_magic(data, gif_magic()) {
        assert(data.take(3)[0] == data[0]);
    }
}

fn starts_with_bytes(data: &[u8], magic: &[u8]) -> (r: bool)
    ensures
        r == has_magic(data@, magic@),
{
    if data.len() < magic.len() {
        return false;
    }
    let mut i: usize = 0;
    while i < magic.len()
        invariant
            magic@.len() <= data@.len(),
            0 <= i <= magic@.len(),
            forall|j: int| 0 <= j < i ==> data@[j] == magic@[j],
        decreases magic@.len() - i,
    {
        if data[i] != magic[i] {
            proof {
                assert(data@.take(magic@.len() as int)[i as int] != magic@[i as int]);
            }
            return false;
        }
        i = i + 1;
    }
    proof {
        assert(data@.take(magic@.len() as int) =~= magic@);
    }
    true
}

/// Detect image type by magic bytes. Returns (content_type, extension).
pub fn detect_image_type(data: &[u8]) -> (r: Option<(&'static str, &'static str)>)
    ensures
        match image_type_spec(data@) {
            Some((ct, ext)) => r matches Some((c, e)) && c@ == ct && e@ == ext,
            None => r is None,
        },
        data@.len() >= 3 && data@[0] == 0xffu8 && data@[1] == 0xd8u8 && data@[2] == 0xffu8 ==> (r matches Some(
            (c, e),
        ) && c@ == "image/jpeg"@ && e@ == "jpg"@),
        data@.len() < 3 ==> r is None,
{
    let png: [u8; 4] = [0x89, 0x50, 0x4e, 0x47];
    let jpeg: [u8; 3] = [0xff, 0xd8, 0xff];
    let webp: [u8; 4] = [0x52, 0x49, 0x46, 0x46];
    let gif: [u8; 3] = [0x47, 0x49, 0x46];
    proof {
        assert(png@ =~= png_magic());
        assert(jpeg@ =~= jpeg_magic());
        assert(webp@ =~= webp_magic());
        assert(gif@ =~= gif_magic());
        lemma_image_type_by_leading_bytes(data@);
    }
    if starts_with_bytes(data, png.as_slice()) {
        Some(("image/png", "png"))
    } else if starts_with_bytes(data, jpeg.as_slice()) {
        Some(("image/jpeg", "jpg"))
    } else if starts_with_bytes(data, webp.as_slice()) {
        Some(("image/webp", "webp"))
    } else if starts_with_bytes(data, gif.as_slice()) {
        Some(("image/gif", "gif"))
    } else {
        None
    }
}

/// Validate that an image URI points to the public image bucket whose URL prefix is
/// `public_url_prefix` (an empty prefix accepts nothing).
pub fn validate_image_uri(uri: &str, public_url_prefix: &str) -> (r: bool)
    ensures
        r == (public_url_prefix@.len() > 0 && has_prefix(uri@, public_url_prefix@)),
{
    !public_url_prefix.is_empty() && text_starts_with(uri, public_url_prefix)
}

/// Check an image before it is stored: it must be non-empty, at most
/// `MAX_IMAGE_SIZE` bytes and of a recognized type, whose (content type, extension)
/// is returned.
pub fn check_image_upload(data: &[u8]) -> (r: Result<(&'static str, &'static str), AppError>)
    ensures
        data@.len() == 0 ==> is_bad_request(r, "Empty file"@),
        0 < data@.len() <= MAX_IMAGE_SIZE ==> match image_type_spec(data@) {
            Some((ct, ext)) => r matches Ok((c, e)) && c@ == ct && e@ == ext,
            None => is_bad_request(r, "Invalid image type. Allowed: PNG, JPEG, WebP, GIF"@),
        },
        data@.len() > MAX_IMAGE_SIZE ==> is_bad_request(r, "File too large. Max size is 5MB"@),
{
    if data.len() == 0 {
        return Err(AppError::BadRequest(String::from_str("Empty file")));
    }
    if data.len() > MAX_IMAGE_SIZE {
        return Err(AppError::BadRequest(String::from_str("File too large. Max size is 5MB")));
    }
    match detect_image_type(data) {
        Some(t) => Ok(t),
        None => Err(
            AppError::BadRequest(String::from_str("Invalid image type. Allowed: PNG, JPEG, WebP, GIF")),
        ),
    }
}

/// Check an evidence file before it is stored: non-empty and at most `MAX_IMAGE_SIZE` bytes.
pub fn check_evidence_upload(data: &[u8]) -> (r: Result<(), AppError>)
    ensures
        data@.len() == 0 ==> is_bad_request(r, "Empty file"@),
        data@.len() > MAX_IMAGE_SIZE ==> is_bad_request(r, "File too large"@),
        0 < data@.len() <= MAX_IMAGE_SIZE ==> r is Ok,
{
    if data.len() == 0 {
        return Err(AppError::BadRequest(String::from_str("Empty file")));
    }
    if data.len() > MAX_IMAGE_SIZE {
        return Err(AppError::BadRequest(String::from_str("File too large")));
    }
    Ok(())
}

/// The text after the last `.` of `name`, or all of `name` when it has no `.`.
pub open spec fn extension_spec(name: Seq<char>) -> Seq<char>
    decreases name.len(),
{
    if name.len() == 0 {
        name
    } else if name.last() == '.' {
        Seq::empty()
    } else {
        extension_spec(name.drop_last()).push(name.last())
    }
}

/// The extension an evidence file is stored under: what follows the last `.` of its
/// name (the whole name when it has none).
pub fn evidence_extension(filename: &str) -> (r: String)
    ensures
        r@ == extension_spec(filename@),
{
    let v = chars_of(filename);
    let mut start = v.len();
    while start > 0 && v[start - 1] != '.'
        invariant
            start <= v@.len(),
            forall|j: int| start <= j < v@.len() ==> #[trigger] v@[j] != '.',
        decreases start,
    {
        start = start - 1;
    }
    proof {
        lemma_extension_spec(v@, start as int);
    }
    filename.substring_char(start, v.len()).to_owned()
}

proof fn lemma_extension_spec(name: Seq<char>, start: int)
    requires
        0 <= start <= name.len(),
        forall|j: int| start <= j < name.len() ==> #[trigger] name[j] != '.',
        start == 0 || name[start - 1] == '.',
    ensures
        extension_spec(name) == name.subrange(start, name.len() as int),
    decreases name.len(),
{
    if name.len() == 0 {
        assert(name.subrange(start, 0) =~= name);
    } else if name.len() as int == start {
        assert(name.last() == '.');
        assert(name.subrange(start, start) =~= Seq::<char>::empty());
    } else {
        let d = name.drop_last();
        assert forall|j: int| start <= j < d.len() implies #[trigger] d[j] != '.' by {
            assert(d[j] == name[j]);
        }
        if start > 0 {
            assert(d[start - 1] == name[start - 1]);
        }
        lemma_extension_spec(d, start);
        assert(d.subrange(start, d.len() as int).push(name.last()) =~= name.subrange(start, name.len() as int));
    }
}

} // verus!
