//! Avatars (the Workspace icon): their size limit and their decoding.
use base64::Engine;
use vstd::prelude::*;
use vstd::utf8::encode_utf8;

verus! {

/// No avatar may be larger than this, whatever the configuration says, so
/// that none can be abused to store more.
pub const AVATAR_MAX_LENGTH_BYTES: usize = 10_000_000;

/// Why bytes are not an avatar.
#[derive(Debug)]
pub enum AvatarDecodeError {
    /// Over [`AVATAR_MAX_LENGTH_BYTES`].
    TooLarge,
    /// Not an image of a supported media type.
    UnsupportedMediaType,
    /// Not valid Base64; holds the decoder's explanation.
    InvalidBase64(String),
}

/// An image, with its media type as detected from its magic bytes.
#[derive(Debug)]
pub struct Avatar {
    bytes: Vec<u8>,
    media_type: String,
}

impl View for Avatar {
    type V = (Seq<u8>, Seq<char>);

    closed spec fn view(&self) -> (Seq<u8>, Seq<char>) {
        (self.bytes@, self.media_type@)
    }
}

/// What decoding `input` as standard Base64 (with padding) gives, if it is
/// valid.
pub uninterp spec fn base64_standard_decode(input: Seq<u8>) -> Option<Seq<u8>>;

/// `base64`'s `BASE64_STANDARD.decode`: the decoded bytes, or the
/// decoder's explanation of why `input` is not valid. What it decodes to,
/// and when it fails, is named by [`base64_standard_decode`].
#[verifier::external_body]
fn decode_base64_standard(input: &[u8]) -> (r: Result<Vec<u8>, String>)
    ensures
        r is Ok <==> base64_standard_decode(input@) is Some,
        r is Ok ==> r->Ok_0@ == base64_standard_decode(input@)->Some_0,
{
    match base64::prelude::BASE64_STANDARD.decode(input) {
        Ok(bytes) => Ok(bytes),
        Err(err) => Err(err.to_string()),
    }
}

impl Avatar {
    /// An avatar from its bytes. `detected_media_type` is the media type
    /// that detection finds in the bytes' magic numbers, `None` when they
    /// are no supported image.
    pub fn try_from_bytes(bytes: Vec<u8>, detected_media_type: Option<String>) -> (r: Result<
        Avatar,
        AvatarDecodeError,
    >)
        ensures
            bytes@.len() > AVATAR_MAX_LENGTH_BYTES ==> r matches Err(AvatarDecodeError::TooLarge),
            bytes@.len() <= AVATAR_MAX_LENGTH_BYTES && detected_media_type is None ==> r matches Err(
                AvatarDecodeError::UnsupportedMediaType,
            ),
            bytes@.len() <= AVATAR_MAX_LENGTH_BYTES && detected_media_type is Some ==> r is Ok
                && r->Ok_0@ == (bytes@, detected_media_type->Some_0@),
    {
        if bytes.len() > AVATAR_MAX_LENGTH_BYTES {
            return Err(AvatarDecodeError::TooLarge);
        }
        match detected_media_type {
            Some(media_type) => Ok(Avatar { bytes, media_type }),
            None => Err(AvatarDecodeError::UnsupportedMediaType),
        }
    }

    /// The bytes of an avatar sent as Base64, before its media type is
    /// detected.
    pub fn decode_base64(input: &[u8]) -> (r: Result<Vec<u8>, AvatarDecodeError>)
        ensures
            base64_standard_decode(input@) is None ==> r matches Err(
                AvatarDecodeError::InvalidBase64(_),
            ),
            base64_standard_decode(input@) is Some ==> r is Ok && r->Ok_0@ == base64_standard_decode(
                input@,
            )->Some_0,
    {
        match decode_base64_standard(input) {
            Ok(bytes) => Ok(bytes),
            Err(reason) => Err(AvatarDecodeError::InvalidBase64(reason)),
        }
    }

    /// The image's bytes.
    pub fn into_bytes(self) -> (b: Vec<u8>)
        ensures
            b@ == self@.0,
    {
        self.bytes
    }

    /// The image's media type.
    pub fn media_type(&self) -> (m: &str)
        ensures
            m@ == self@.1,
    {
        self.media_type.as_str()
    }
}

/// How a request body holds an avatar.
#[derive(Clone, Copy, Debug, PartialEq, Eq)]
pub enum AvatarBody {
    /// The image's bytes.
    Bytes,
    /// The image as Base64 text.
    Base64Text,
    /// The image as a JSON string of Base64.
    Base64Json,
}

/// How the body holds the avatar, from the request's `Content-Type` (its
/// value's bytes, `None` without the header): raw bytes without a type,
/// as `application/octet-stream` or any `image/…`; Base64 as
/// `text/plain`; a JSON string as `application/json`; any other type is
/// not supported (`None`).
pub open spec fn spec_avatar_body(content_type: Option<Seq<u8>>) -> Option<AvatarBody> {
    match content_type {
        None => Some(AvatarBody::Bytes),
        Some(ct) => if ct == encode_utf8("application/octet-stream"@) {
            Some(AvatarBody::Bytes)
        } else if encode_utf8("image/"@).is_prefix_of(ct) {
            Some(AvatarBody::Bytes)
        } else if ct == encode_utf8("text/plain"@) {
            Some(AvatarBody::Base64Text)
        } else if ct == encode_utf8("application/json"@) {
            Some(AvatarBody::Base64Json)
        } else {
            None
        },
    }
}

fn bytes_starting_with(b: &[u8], prefix: &str) -> (r: bool)
    ensures
        r == encode_utf8(prefix@).is_prefix_of(b@),
{
    let p = prefix.as_bytes();
    if p.len() > b.len() {
        return false;
    }
    let mut i: usize = 0;
    while i < p.len()
        invariant
            i <= p@.len(),
            p@.len() <= b@.len(),
            p@ == encode_utf8(prefix@),
            forall|j: int| 0 <= j < i ==> p@[j] == b@[j],
        decreases p@.len() - i,
    {
        if p[i] != b[i] {
            return false;
        }
        i = i + 1;
    }
    true
}

fn bytes_equal_to(b: &[u8], s: &str) -> (r: bool)
    ensures
        r == (b@ == encode_utf8(s@)),
{
    let p = s.as_bytes();
    if p.len() != b.len() {
        return false;
    }
    let r = bytes_starting_with(b, s);
    proof {
        if r {
            assert(b@ =~= encode_utf8(s@));
        }
    }
    r
}

/// How the body of a request holds the avatar it sends.
pub fn avatar_body(content_type: Option<&[u8]>) -> (r: Option<AvatarBody>)
    ensures
        r == spec_avatar_body(
            match content_type {
                Some(ct) => Some(ct@),
                None => None::<Seq<u8>>,
            },
        ),
{
    match content_type {
        None => Some(AvatarBody::Bytes),
        Some(ct) => {
            if bytes_equal_to(ct, "application/octet-stream") {
                Some(AvatarBody::Bytes)
            } else if bytes_starting_with(ct, "image/") {
                Some(AvatarBody::Bytes)
            } else if bytes_equal_to(ct, "text/plain") {
                Some(AvatarBody::Base64Text)
            } else if bytes_equal_to(ct, "application/json") {
                Some(AvatarBody::Base64Json)
            } else {
                None
            }
        },
    }
}

} // verus!
