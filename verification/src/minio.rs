//! Image uploads: what is accepted, under which name it is stored, and what
//! is written down with it.
//!
//! An upload is named by the BLAKE3 hash of a fixed secret prefix followed by
//! its bytes, so that the same picture always lands under the same name and
//! the name gives nothing away.
use crate::text::chars_of;
use vstd::prelude::*;

verus! {

/// The bucket that holds the images of published posts.
pub const IMG_BUCKET_NAME: &'static str = "rf-images";

/// The bucket that holds uploads not yet used in a post.
pub const TMP_IMG_BUCKET_NAME: &'static str = "rf-images-tmp";

/// Sent when the upload does not claim to be an image.
pub const MSG_NOT_AN_IMAGE: &'static str = "Only image uploads are allowed";

/// Sent when the bytes are no picture of a supported kind.
pub const MSG_UNSUPPORTED_IMAGE: &'static str = "File is not a valid or supported image";

/// Sent when the upload outgrows the size limit.
pub const MSG_TOO_LARGE: &'static str = "The file size must not exceed 10MB";

/// Sent when the object store refuses the upload.
pub const MSG_NOT_SAVED: &'static str = "Failed to persistently save file";

/// The answer to an upload: the name the image is stored under.
#[derive(Clone, Debug, PartialEq, Eq)]
pub struct ImageUpload {
    pub image_id: String,
}

/// What can go wrong with an upload.
#[derive(Clone, Copy, Debug, PartialEq, Eq)]
pub enum UploadError {
    FileSizeExceeded(&'static str),
    MinioError(&'static str),
    UnsupportedMediaType(&'static str),
}

impl UploadError {
    /// The HTTP status that the error is answered with.
    pub open spec fn status_of(self) -> u16 {
        match self {
            UploadError::FileSizeExceeded(_) => 403,
            UploadError::MinioError(_) => 500,
            UploadError::UnsupportedMediaType(_) => 403,
        }
    }

    /// The HTTP status that the error is answered with.
    pub fn status(&self) -> (code: u16)
        ensures
            code == self.status_of(),
    {
        match self {
            UploadError::FileSizeExceeded(_) => 403,
            UploadError::MinioError(_) => 500,
            UploadError::UnsupportedMediaType(_) => 403,
        }
    }
}

/// The kinds of picture that are accepted.
#[derive(Clone, Copy, Debug, PartialEq, Eq, Structural)]
pub enum SupportedImage {
    JPG,
    PNG,
    GIF,
    WEBP,
}

/// Whether `data` holds the bytes `magic` from position `at` on.
pub open spec fn holds_at(data: Seq<u8>, at: int, magic: Seq<u8>) -> bool {
    &&& 0 <= at
    &&& at + magic.len() <= data.len()
    &&& data.subrange(at, at + magic.len()) == magic
}

/// The kind of picture that a file's first bytes announce, if any: the
/// signatures of JPEG, PNG, GIF in both versions, and WebP inside a RIFF
/// container longer than twelve bytes, tried in that order.
pub open spec fn image_kind_of(data: Seq<u8>) -> Option<SupportedImage> {
    if holds_at(data, 0, seq![0xFFu8, 0xD8u8, 0xFFu8]) {
        Some(SupportedImage::JPG)
    } else if holds_at(data, 0, seq![0x89u8, 0x50u8, 0x4Eu8, 0x47u8]) {
        Some(SupportedImage::PNG)
    } else if holds_at(data, 0, seq![0x47u8, 0x49u8, 0x46u8, 0x38u8, 0x37u8, 0x61u8]) || holds_at(
        data,
        0,
        seq![0x47u8, 0x49u8, 0x46u8, 0x38u8, 0x39u8, 0x61u8],
    ) {
        Some(SupportedImage::GIF)
    } else if holds_at(data, 0, seq![0x52u8, 0x49u8, 0x46u8, 0x46u8]) && data.len() > 12
        && holds_at(data, 8, seq![0x57u8, 0x45u8, 0x42u8, 0x50u8]) {
        Some(SupportedImage::WEBP)
    } else {
        None
    }
}

/// Whether `data` holds the bytes `magic` from position `at` on.
pub fn bytes_at(data: &[u8], at: usize, magic: &[u8]) -> (r: bool)
    requires
        at + magic@.len() <= usize::MAX,
    ensures
        r == holds_at(data@, at as int, magic@),
{
    let size: usize = data.len();
    if at + magic.len() > size {
        return false;
    }
    let mut i: usize = 0;
    while i < magic.len()
        invariant
            i <= magic@.len(),
            size == data@.len(),
            at + magic@.len() <= size,
            forall|k: int| 0 <= k < i ==> data@[at + k] == magic@[k],
        decreases magic@.len() - i,
    {
        if data[at + i] != magic[i] {
            assert(data@.subrange(at as int, at + magic@.len())[i as int] != magic@[i as int]);
            return false;
        }
        i += 1;
    }
    assert(data@.subrange(at as int, at + magic@.len()) =~= magic@);
    true
}

/// Tells the kind of picture from the first bytes of a file.
pub fn identify_image(buffer: &[u8]) -> (kind: Option<SupportedImage>)
    ensures
        kind == image_kind_of(buffer@),
{
    let jpg: [u8; 3] = [0xFF, 0xD8, 0xFF];
    let png: [u8; 4] = [0x89, 0x50, 0x4E, 0x47];
    let gif87: [u8; 6] = [0x47, 0x49, 0x46, 0x38, 0x37, 0x61];
    let gif89: [u8; 6] = [0x47, 0x49, 0x46, 0x38, 0x39, 0x61];
    let riff: [u8; 4] = [0x52, 0x49, 0x46, 0x46];
    let webp: [u8; 4] = [0x57, 0x45, 0x42, 0x50];
    assert(jpg@ =~= seq![0xFFu8, 0xD8u8, 0xFFu8]);
    assert(png@ =~= seq![0x89u8, 0x50u8, 0x4Eu8, 0x47u8]);
    assert(gif87@ =~= seq![0x47u8, 0x49u8, 0x46u8, 0x38u8, 0x37u8, 0x61u8]);
    assert(gif89@ =~= seq![0x47u8, 0x49u8, 0x46u8, 0x38u8, 0x39u8, 0x61u8]);
    assert(riff@ =~= seq![0x52u8, 0x49u8, 0x46u8, 0x46u8]);
    assert(webp@ =~= seq![0x57u8, 0x45u8, 0x42u8, 0x50u8]);
    if bytes_at(buffer, 0, jpg.as_slice()) {
        Some(SupportedImage::JPG)
    } else if bytes_at(buffer, 0, png.as_slice()) {
        Some(SupportedImage::PNG)
    } else if bytes_at(buffer, 0, gif87.as_slice()) || bytes_at(buffer, 0, gif89.as_slice()) {
        Some(SupportedImage::GIF)
    } else if bytes_at(buffer, 0, riff.as_slice()) && buffer.len() > 12 && bytes_at(
        buffer,
        8,
        webp.as_slice(),
    ) {
        Some(SupportedImage::WEBP)
    } else {
        None
    }
}

impl SupportedImage {
    /// The name of the kind, as it is written into an object's metadata.
    pub open spec fn name_of(self) -> Seq<char> {
        match self {
            SupportedImage::JPG => "JPG"@,
            SupportedImage::PNG => "PNG"@,
            SupportedImage::GIF => "GIF"@,
            SupportedImage::WEBP => "WEBP"@,
        }
    }

    /// The name of the kind, as it is written into an object's metadata.
    pub fn name(&self) -> (n: &'static str)
        ensures
            n@ == self.name_of(),
    {
        match self {
            SupportedImage::JPG => "JPG",
            SupportedImage::PNG => "PNG",
            SupportedImage::GIF => "GIF",
            SupportedImage::WEBP => "WEBP",
        }
    }
}

/// The character in lower case if it is an ASCII capital, else unchanged.
pub open spec fn ascii_lower(c: char) -> char {
    if 'A' <= c <= 'Z' {
        ((c as u8) + 32) as char
    } else {
        c
    }
}

/// Whether two texts are the same but for the case of ASCII letters.
pub open spec fn same_ignoring_ascii_case(a: Seq<char>, b: Seq<char>) -> bool {
    &&& a.len() == b.len()
    &&& forall|i: int| 0 <= i < a.len() ==> ascii_lower(a[i]) == ascii_lower(b[i])
}

/// The character in lower case if it is an ASCII capital, else unchanged.
pub fn to_ascii_lower(c: char) -> (l: char)
    ensures
        l == ascii_lower(c),
{
    if 'A' <= c && c <= 'Z' {
        ((c as u8) + 32) as char
    } else {
        c
    }
}

/// The top-level media type of pictures.
pub const IMAGE_MEDIA_TYPE: &'static str = "image";

/// Whether an upload announces itself as a picture: its content type is a
/// known one and its top-level type is `image`, in any case of letters.
pub fn is_image_media(known: bool, top: &str) -> (r: bool)
    ensures
        r == (known && same_ignoring_ascii_case(top@, IMAGE_MEDIA_TYPE@)),
{
    if !known {
        return false;
    }
    let a = chars_of(top);
    let b = chars_of(IMAGE_MEDIA_TYPE);
    if a.len() != b.len() {
        return false;
    }
    let mut i: usize = 0;
    while i < a.len()
        invariant
            i <= a.len(),
            a.len() == b.len(),
            a@ == top@,
            b@ == IMAGE_MEDIA_TYPE@,
            forall|k: int| 0 <= k < i ==> ascii_lower(a@[k]) == ascii_lower(b@[k]),
        decreases a.len() - i,
    {
        if to_ascii_lower(a[i]) != to_ascii_lower(b[i]) {
            return false;
        }
        i += 1;
    }
    true
}

/// The BLAKE3 hash of a byte string, written as lowercase hexadecimal digits.
pub uninterp spec fn blake3_hex(input: Seq<u8>) -> Seq<char>;

/// Hashes `salt` followed by `data` with `blake3::Hasher` (`new`, `update`
/// once for each part, `finalize`) and writes the hash with `Hash::to_hex`.
/// Believed, not proved: that the result is the BLAKE3 hash, in hexadecimal,
/// of the two parts taken as one byte string.
#[verifier::external_body]
fn salted_hash_hex(salt: &[u8], data: &[u8]) -> (hex: String)
    ensures
        hex@ == blake3_hex(salt@ + data@),
{
    let mut hasher = blake3::Hasher::new();
    hasher.update(salt);
    hasher.update(data);
    hasher.finalize().to_hex().to_string()
}

/// The name an upload is stored under: the hash of the secret prefix
/// followed by the upload's bytes.
pub fn image_name(secret_prefix: &[u8], data: &[u8]) -> (name: String)
    ensures
        name@ == blake3_hex(secret_prefix@ + data@),
{
    salted_hash_hex(secret_prefix, data)
}

/// The name of an object and what is written down with it.
#[derive(Clone, Debug, PartialEq, Eq)]
pub struct ObjectKey {
    pub name: String,
    pub metadata: Vec<(String, String)>,
}

/// The metadata key under which the uploader is written down.
pub const META_OWNER: &'static str = "Owner";

/// The metadata key under which the kind of picture is written down.
pub const META_IMG_TYPE: &'static str = "ImgType";

/// The key of an uploaded image: its name, with the uploader and the kind of
/// picture as metadata.
pub fn generate_key_args(img_name: &String, owner: String, img_type: &SupportedImage) -> (key:
    ObjectKey)
    ensures
        key.name@ == img_name@,
        key.metadata@.len() == 2,
        key.metadata@[0].0@ == META_OWNER@,
        key.metadata@[0].1@ == owner@,
        key.metadata@[1].0@ == META_IMG_TYPE@,
        key.metadata@[1].1@ == img_type.name_of(),
{
    let mut metadata: Vec<(String, String)> = Vec::new();
    metadata.push((String::from_str(META_OWNER), owner));
    metadata.push((String::from_str(META_IMG_TYPE), String::from_str(img_type.name())));
    ObjectKey { name: img_name.clone(), metadata }
}

/// An upload that has been accepted: under which key to store it, and what
/// it is.
#[derive(Clone, Debug, PartialEq, Eq)]
pub struct AcceptedUpload {
    pub key: ObjectKey,
    pub kind: SupportedImage,
}

/// Decides on an upload once its bytes are in. It must announce itself as a
/// picture and its bytes must begin as a picture of a supported kind does;
/// it is then stored under its hashed name with the uploader and its kind as
/// metadata.
pub fn accept_upload(
    content_type_known: bool,
    content_type_top: &str,
    secret_prefix: &[u8],
    data: &[u8],
    owner: String,
) -> (r: Result<AcceptedUpload, UploadError>)
    ensures
        !(content_type_known && same_ignoring_ascii_case(content_type_top@, IMAGE_MEDIA_TYPE@))
            ==> r == Err::<AcceptedUpload, UploadError>(
            UploadError::UnsupportedMediaType(MSG_NOT_AN_IMAGE),
        ),
        content_type_known && same_ignoring_ascii_case(content_type_top@, IMAGE_MEDIA_TYPE@)
            && image_kind_of(data@) is None ==> r == Err::<AcceptedUpload, UploadError>(
            UploadError::UnsupportedMediaType(MSG_UNSUPPORTED_IMAGE),
        ),
        content_type_known && same_ignoring_ascii_case(content_type_top@, IMAGE_MEDIA_TYPE@)
            && image_kind_of(data@) is Some ==> {
            &&& r is Ok
            &&& Some(r->Ok_0.kind) == image_kind_of(data@)
            &&& r->Ok_0.key.name@ == blake3_hex(secret_prefix@ + data@)
            &&& r->Ok_0.key.metadata@.len() == 2
            &&& r->Ok_0.key.metadata@[0].0@ == META_OWNER@
            &&& r->Ok_0.key.metadata@[0].1@ == owner@
            &&& r->Ok_0.key.metadata@[1].0@ == META_IMG_TYPE@
            &&& r->Ok_0.key.metadata@[1].1@ == r->Ok_0.kind.name_of()
        },
{
    if !is_image_media(content_type_known, content_type_top) {
        return Err(UploadError::UnsupportedMediaType(MSG_NOT_AN_IMAGE));
    }
    match identify_image(data) {
        Some(kind) => {
            let name = image_name(secret_prefix, data);
            let key = generate_key_args(&name, owner, &kind);
            Ok(AcceptedUpload { key, kind })
        },
        None => Err(UploadError::UnsupportedMediaType(MSG_UNSUPPORTED_IMAGE)),
    }
}

/// One step of getting the object store ready.
#[derive(Clone, Copy, Debug, PartialEq, Eq)]
pub enum SetupAction {
    /// Create the bucket of that name, with object locking or without.
    CreateBucket(&'static str, bool),
    /// Make objects of that bucket expire after so many days.
    SetRetentionDays(&'static str, usize),
}

/// Days after which an upload that no post has used is dropped.
pub const TMP_RETENTION_DAYS: usize = 1;

/// What is left to do for a store in which the image bucket and the bucket
/// of temporary uploads do or do not exist yet.
pub open spec fn setup_plan_of(images_exist: bool, temporary_exist: bool) -> Seq<SetupAction> {
    let temporary = if temporary_exist {
        Seq::<SetupAction>::empty()
    } else {
        seq![
            SetupAction::CreateBucket(TMP_IMG_BUCKET_NAME, true),
            SetupAction::SetRetentionDays(TMP_IMG_BUCKET_NAME, TMP_RETENTION_DAYS),
        ]
    };
    let images = if images_exist {
        Seq::<SetupAction>::empty()
    } else {
        seq![SetupAction::CreateBucket(IMG_BUCKET_NAME, false)]
    };
    temporary + images
}

/// Gets the object store ready when the server starts.
pub struct MinioInitialiser;

impl MinioInitialiser {
    /// The steps to take, in order, given which of the two buckets exist: a
    /// missing bucket of temporary uploads is created with object locking and
    /// given its retention time, then a missing image bucket is created.
    pub fn plan(images_exist: bool, temporary_exist: bool) -> (steps: Vec<SetupAction>)
        ensures
            steps@ == setup_plan_of(images_exist, temporary_exist),
    {
        let mut steps: Vec<SetupAction> = Vec::new();
        if !temporary_exist {
            steps.push(SetupAction::CreateBucket(TMP_IMG_BUCKET_NAME, true));
            steps.push(SetupAction::SetRetentionDays(TMP_IMG_BUCKET_NAME, TMP_RETENTION_DAYS));
        }
        if !images_exist {
            steps.push(SetupAction::CreateBucket(IMG_BUCKET_NAME, false));
        }
        assert(steps@ =~= setup_plan_of(images_exist, temporary_exist));
        steps
    }
}

} // verus!
