//! Chat completion requests: their messages, the images users attach, and
//! the per-model limits on those images.
use base64::Engine;
use vstd::prelude::*;

use crate::error::ShaideError;
use crate::text::{
    ascii_lowercase, chars_of, concat3, eq_ignore_ascii_case, eq_ignore_ascii_case_str, format_i64,
    decimal_int, owned, push_chars, push_str, split_all, split_once, split_once_chars, starts_with,
    starts_with_str, string_from_chars, to_ascii_lowercase_chars,
};

verus! {

/// A part of a user message.
#[derive(Debug)]
pub enum UserContentPart {
    Text(String),
    ImageUrl(String),
    InputAudio,
    File,
}

/// The content of a user message.
#[derive(Debug)]
pub enum UserContent {
    Text(String),
    Array(Vec<UserContentPart>),
}

/// A part of an assistant message.
#[derive(Debug)]
pub enum AssistantContentPart {
    Text(String),
    Refusal(String),
}

/// The content of an assistant message.
#[derive(Debug)]
pub enum AssistantContent {
    Text(String),
    Array(Vec<AssistantContentPart>),
}

/// The content of a system message.
#[derive(Debug)]
pub enum SystemContent {
    Text(String),
    Array(Vec<String>),
}

/// A message of a chat request.
#[derive(Debug)]
pub enum ChatMessage {
    User(UserContent),
    System(SystemContent),
    Assistant(Option<AssistantContent>),
    /// A tool, function or developer message.
    Other,
}

/// What of a chat completion request the service reads.
#[derive(Debug)]
pub struct ChatRequest {
    pub model: String,
    pub messages: Vec<ChatMessage>,
    pub max_completion_tokens: Option<u32>,
}

/// The image URLs among parts of a user message, in order.
pub open spec fn parts_image_urls(parts: Seq<UserContentPart>) -> Seq<Seq<char>>
    decreases parts.len(),
{
    if parts.len() == 0 {
        Seq::empty()
    } else {
        parts_image_urls(parts.drop_last()) + match parts.last() {
            UserContentPart::ImageUrl(u) => seq![u@],
            _ => Seq::empty(),
        }
    }
}

/// The image URLs of a message, in order; only user messages carry them.
pub open spec fn message_image_urls(m: ChatMessage) -> Seq<Seq<char>> {
    match m {
        ChatMessage::User(UserContent::Array(parts)) => parts_image_urls(parts@),
        _ => Seq::empty(),
    }
}

/// The image URLs of all messages, in order.
pub open spec fn request_image_urls(msgs: Seq<ChatMessage>) -> Seq<Seq<char>>
    decreases msgs.len(),
{
    if msgs.len() == 0 {
        Seq::empty()
    } else {
        request_image_urls(msgs.drop_last()) + message_image_urls(msgs.last())
    }
}

/// The views of a list of texts.
pub open spec fn texts_view(v: Seq<String>) -> Seq<Seq<char>> {
    v.map_values(|s: String| s@)
}

/// The image URLs of the user messages of a request, in order.
pub fn user_message_image_urls(request: &ChatRequest) -> (r: Vec<String>)
    ensures
        texts_view(r@) == request_image_urls(request.messages@),
{
    let mut out: Vec<String> = Vec::new();
    let mut i: usize = 0;
    while i < request.messages.len()
        invariant
            i <= request.messages.len(),
            texts_view(out@) == request_image_urls(request.messages@.take(i as int)),
        decreases request.messages.len() - i,
    {
        proof {
            assert(request.messages@.take(i + 1).drop_last() == request.messages@.take(i as int));
        }
        match &request.messages[i] {
            ChatMessage::User(UserContent::Array(parts)) => {
                let ghost before = out@;
                let mut k: usize = 0;
                while k < parts.len()
                    invariant
                        k <= parts.len(),
                        texts_view(out@) == texts_view(before) + parts_image_urls(parts@.take(k as int)),
                    decreases parts.len() - k,
                {
                    proof {
                        assert(parts@.take(k + 1).drop_last() == parts@.take(k as int));
                    }
                    match &parts[k] {
                        UserContentPart::ImageUrl(url) => {
                            let ghost prev_out = out@;
                            out.push(url.clone());
                            proof {
                                assert(parts@.take(k + 1).last() == parts@[k as int]);
                                assert(texts_view(out@) =~= texts_view(prev_out).push(url@));
                                assert(texts_view(out@) =~= texts_view(before) + parts_image_urls(parts@.take(k + 1)));
                            }
                        },
                        _ => {
                            proof {
                                assert(parts@.take(k + 1).last() == parts@[k as int]);
                                assert(texts_view(out@) =~= texts_view(before) + parts_image_urls(parts@.take(k + 1)));
                            }
                        },
                    }
                    k = k + 1;
                }
                proof {
                    assert(parts@.take(parts.len() as int) == parts@);
                }
            },
            _ => {
                proof {
                    assert(texts_view(out@) =~= texts_view(out@) + message_image_urls(request.messages@[i as int]));
                }
            },
        }
        i = i + 1;
    }
    proof {
        assert(request.messages@.take(request.messages.len() as int) == request.messages@);
    }
    out
}

/// Whether any user message carries an image.
pub fn does_user_message_have_images(request: &ChatRequest) -> (r: bool)
    ensures
        r == (request_image_urls(request.messages@).len() > 0),
{
    let urls = user_message_image_urls(request);
    urls.len() > 0
}

/// How many images the user messages carry.
pub fn count_user_message_images(request: &ChatRequest) -> (r: usize)
    ensures
        r == request_image_urls(request.messages@).len(),
{
    let urls = user_message_image_urls(request);
    urls.len()
}

/// What the standard base64 alphabet (with padding) decodes a text to;
/// `None` when the text is not valid base64.
pub uninterp spec fn base64_standard_decode(input: Seq<char>) -> Option<Seq<u8>>;

/// Decodes standard base64.
///
/// Calls `base64::engine::general_purpose::STANDARD.decode`. The contract
/// claims only that the outcome is a function of the input text.
#[verifier::external_body]
fn base64_decode(input: &str) -> (r: Option<Vec<u8>>)
    ensures
        match r {
            Some(b) => base64_standard_decode(input@) == Some(b@),
            None => base64_standard_decode(input@) is None,
        },
{
    base64::engine::general_purpose::STANDARD.decode(input).ok()
}

/// The width and height the `imagesize` crate reads from image bytes;
/// `None` when it recognizes no image format.
pub uninterp spec fn image_blob_size(bytes: Seq<u8>) -> Option<(usize, usize)>;

/// The dimensions of an image.
///
/// Calls `imagesize::blob_size`. The contract claims only that the outcome is
/// a function of the bytes.
#[verifier::external_body]
fn blob_size(bytes: &[u8]) -> (r: Option<(usize, usize)>)
    ensures
        r == image_blob_size(bytes@),
{
    match imagesize::blob_size(bytes) {
        Ok(size) => Some((size.width, size.height)),
        Err(_) => None,
    }
}

/// The width and height of an image, as 32-bit numbers (values above that
/// wrap, as the conversion does).
pub fn image_dimensions(bytes: &[u8]) -> (r: Option<(u32, u32)>)
    ensures
        r == (match image_blob_size(bytes@) {
            Some((w, h)) => Some((w as u32, h as u32)),
            None => None,
        }),
{
    match blob_size(bytes) {
        Some((w, h)) => Some((#[verifier::truncate] (w as u32), #[verifier::truncate] (h as u32))),
        None => None,
    }
}

/// Some piece of `meta`, split at `;`, reads `base64` in any case.
pub open spec fn has_base64_marker(meta: Seq<char>) -> bool {
    exists|i: int| 0 <= i < split_all(meta, ';').len() && eq_ignore_ascii_case(#[trigger] split_all(meta, ';')[i], "base64"@)
}

/// What an image URL decodes to: `Ok(None)` when it is not an inline image
/// (another scheme, or a data URL of another media type), the bytes of an
/// inline base64 image, or the message of the error it is rejected with.
pub open spec fn decode_data_url_spec(url: Seq<char>) -> Result<Option<Seq<u8>>, Seq<char>> {
    match split_once(url, ':') {
        None => Ok(None),
        Some((scheme, rest)) => {
            if !eq_ignore_ascii_case(scheme, "data"@) {
                Ok(None)
            } else {
                match split_once(rest, ',') {
                    None => Err("Invalid image data URL"@),
                    Some((meta, encoded)) => {
                        if !starts_with(ascii_lowercase(meta), "image/"@) {
                            Ok(None)
                        } else if !has_base64_marker(meta) {
                            Err("Inline image data URLs must be base64 encoded"@)
                        } else {
                            match base64_standard_decode(encoded) {
                                Some(b) => Ok(Some(b)),
                                None => Err("Invalid base64 image data"@),
                            }
                        }
                    },
                }
            }
        },
    }
}

/// Splitting at the first separator.
proof fn lemma_split_all_first(s: Seq<char>, sep: char, i: int)
    requires
        crate::text::first_index_of(s, sep) == Some(i),
    ensures
        0 <= i < s.len(),
        split_all(s, sep) == seq![s.take(i)] + split_all(s.skip(i + 1), sep),
{
    crate::text::lemma_first_index_props(s, sep);
}

/// A text without separator is one piece.
proof fn lemma_split_all_none(s: Seq<char>, sep: char)
    requires
        crate::text::first_index_of(s, sep) is None,
    ensures
        split_all(s, sep) == seq![s],
{
}

/// The marker is in the first piece or among the rest.
proof fn lemma_marker_cons(first: Seq<char>, tail: Seq<Seq<char>>)
    ensures
        (exists|i: int| 0 <= i < (seq![first] + tail).len() && eq_ignore_ascii_case(#[trigger] (seq![first] + tail)[i], "base64"@))
            <==> (eq_ignore_ascii_case(first, "base64"@) || exists|i: int| 0 <= i < tail.len() && eq_ignore_ascii_case(#[trigger] tail[i], "base64"@)),
{
    let all = seq![first] + tail;
    if exists|i: int| 0 <= i < all.len() && eq_ignore_ascii_case(#[trigger] all[i], "base64"@) {
        let i = choose|i: int| 0 <= i < all.len() && eq_ignore_ascii_case(#[trigger] all[i], "base64"@);
        if i > 0 {
            assert(all[i] == tail[i - 1]);
        }
    }
    if exists|i: int| 0 <= i < tail.len() && eq_ignore_ascii_case(#[trigger] tail[i], "base64"@) {
        let i = choose|i: int| 0 <= i < tail.len() && eq_ignore_ascii_case(#[trigger] tail[i], "base64"@);
        assert(all[i + 1] == tail[i]);
    }
    if eq_ignore_ascii_case(first, "base64"@) {
        assert(all[0] == first);
    }
}

/// Whether some `;`-separated piece of `meta` is `base64`.
pub fn base64_marker(meta: &[char]) -> (r: bool)
    ensures
        r == has_base64_marker(meta@),
    decreases meta.len(),
{
    match crate::text::find_char(meta, ';') {
        None => {
            proof {
                lemma_split_all_none(meta@, ';');
                lemma_marker_cons(meta@, Seq::empty());
                assert(seq![meta@] + Seq::<Seq<char>>::empty() == seq![meta@]);
            }
            eq_ignore_ascii_case_str(meta, "base64")
        },
        Some(i) => {
            let first = crate::text::slice_chars(meta, 0, i);
            let rest = crate::text::slice_chars(meta, i + 1, meta.len());
            proof {
                lemma_split_all_first(meta@, ';', i as int);
                assert(first@ == meta@.take(i as int));
                assert(rest@ == meta@.skip(i + 1));
                lemma_marker_cons(first@, split_all(rest@, ';'));
            }
            if eq_ignore_ascii_case_str(&first, "base64") {
                true
            } else {
                base64_marker(&rest)
            }
        },
    }
}

/// Reads an inline image out of a `data:` URL. Other URLs, and data URLs of
/// other media types, give `Ok(None)`; malformed inline images are rejected.
pub fn decode_image_data_url(image_url: &str) -> (r: Result<Option<Vec<u8>>, ShaideError>)
    ensures
        match r {
            Ok(None) => decode_data_url_spec(image_url@) == Ok::<Option<Seq<u8>>, Seq<char>>(None),
            Ok(Some(b)) => decode_data_url_spec(image_url@) == Ok::<Option<Seq<u8>>, Seq<char>>(Some(b@)),
            Err(e) => e is BadRequestWithMessage
                && decode_data_url_spec(image_url@) == Err::<Option<Seq<u8>>, Seq<char>>(e->BadRequestWithMessage_0@),
        },
{
    let url = chars_of(image_url);
    let (scheme, rest) = match split_once_chars(&url, ':') {
        None => return Ok(None),
        Some(p) => p,
    };
    if !eq_ignore_ascii_case_str(&scheme, "data") {
        return Ok(None);
    }
    let (metadata, encoded) = match split_once_chars(&rest, ',') {
        None => return Err(ShaideError::BadRequestWithMessage(owned("Invalid image data URL"))),
        Some(p) => p,
    };
    let lower = to_ascii_lowercase_chars(&metadata);
    if !starts_with_str(&lower, "image/") {
        return Ok(None);
    }
    if !base64_marker(&metadata) {
        return Err(ShaideError::BadRequestWithMessage(owned("Inline image data URLs must be base64 encoded")));
    }
    let encoded_text = string_from_chars(&encoded);
    match base64_decode(encoded_text.as_str()) {
        Some(bytes) => Ok(Some(bytes)),
        None => Err(ShaideError::BadRequestWithMessage(owned("Invalid base64 image data"))),
    }
}

/// The image limits of a model; absent limits do not apply.
#[derive(Debug)]
pub struct VisionLimits {
    pub name: String,
    pub supports_images: bool,
    pub max_images_per_request: Option<i64>,
    pub max_image_bytes: Option<i64>,
    pub max_image_width_px: Option<i64>,
    pub max_image_height_px: Option<i64>,
}

/// The message for an image over the byte limit.
pub open spec fn too_large_msg(name: Seq<char>, max: i64) -> Seq<char> {
    "An image in this request is too large for model '"@ + name + "'. The model accepts images up to "@ + decimal_int(max as int) + " bytes."@
}

/// The message for an image over the width limit.
pub open spec fn too_wide_msg(name: Seq<char>, max: i64) -> Seq<char> {
    "An image in this request is too wide for model '"@ + name + "'. The model accepts images up to "@ + decimal_int(max as int) + "px wide."@
}

/// The message for an image over the height limit.
pub open spec fn too_tall_msg(name: Seq<char>, max: i64) -> Seq<char> {
    "An image in this request is too tall for model '"@ + name + "'. The model accepts images up to "@ + decimal_int(max as int) + "px high."@
}

/// The message for too many images.
pub open spec fn too_many_msg(name: Seq<char>, max: i64) -> Seq<char> {
    "This request contains too many images for model '"@ + name + "'. The model accepts up to "@ + decimal_int(max as int) + " images per request."@
}

/// Whether one image URL passes a model's limits: `Ok` or the rejection
/// message. Only inline images are checked for size and dimensions.
pub open spec fn image_limits_spec(url: Seq<char>, l: VisionLimits) -> Result<(), Seq<char>> {
    match decode_data_url_spec(url) {
        Err(m) => Err(m),
        Ok(None) => Ok(()),
        Ok(Some(bytes)) => {
            if l.max_image_bytes is Some && bytes.len() > l.max_image_bytes->0 {
                Err(too_large_msg(l.name@, l.max_image_bytes->0))
            } else if l.max_image_width_px is None && l.max_image_height_px is None {
                Ok(())
            } else {
                match image_blob_size(bytes) {
                    None => Err("Unable to determine image dimensions for inline image payload"@),
                    Some((w, h)) => {
                        if l.max_image_width_px is Some && (w as u32) > l.max_image_width_px->0 {
                            Err(too_wide_msg(l.name@, l.max_image_width_px->0))
                        } else if l.max_image_height_px is Some && (h as u32) > l.max_image_height_px->0 {
                            Err(too_tall_msg(l.name@, l.max_image_height_px->0))
                        } else {
                            Ok(())
                        }
                    },
                }
            }
        },
    }
}

/// An inline image within the byte limit is measured with `imagesize`,
/// whose first component is the width and second the height: one wider
/// than the model's width limit is refused as too wide, one within it but
/// taller than the height limit as too tall, and one within both passes.
pub proof fn law_images_are_measured_width_then_height(url: Seq<char>, l: VisionLimits, bytes: Seq<u8>, w: usize, h: usize)
    requires
        decode_data_url_spec(url) == Ok::<Option<Seq<u8>>, Seq<char>>(Some(bytes)),
        l.max_image_bytes matches Some(m) ==> bytes.len() <= m,
        image_blob_size(bytes) == Some((w, h)),
    ensures
        l.max_image_width_px is Some && (w as u32) > l.max_image_width_px->0 ==> image_limits_spec(url, l) == Err::<
            (),
            Seq<char>,
        >(too_wide_msg(l.name@, l.max_image_width_px->0)),
        (l.max_image_width_px is Some ==> (w as u32) <= l.max_image_width_px->0) && l.max_image_height_px is Some && (h as u32)
            > l.max_image_height_px->0 ==> image_limits_spec(url, l) == Err::<(), Seq<char>>(
            too_tall_msg(l.name@, l.max_image_height_px->0),
        ),
        (l.max_image_width_px is Some ==> (w as u32) <= l.max_image_width_px->0) && (l.max_image_height_px is Some ==> (
        h as u32) <= l.max_image_height_px->0) ==> image_limits_spec(url, l) == Ok::<(), Seq<char>>(()),
{
}

/// Builds `a`, then `name`, then `b`, then `max` in decimal, then `c`.
fn limit_message(a: &str, name: &str, b: &str, max: i64, c: &str) -> (r: String)
    ensures
        r@ == a@ + name@ + b@ + decimal_int(max as int) + c@,
{
    let mut v = chars_of(a);
    push_str(&mut v, name);
    push_str(&mut v, b);
    let digits = format_i64(max);
    push_chars(&mut v, &digits);
    push_str(&mut v, c);
    string_from_chars(&v)
}

/// Checks one image URL against a model's limits.
pub fn validate_image_url_vision_limits(image_url: &str, limits: &VisionLimits) -> (r: Result<(), ShaideError>)
    ensures
        match r {
            Ok(()) => image_limits_spec(image_url@, *limits) == Ok::<(), Seq<char>>(()),
            Err(e) => e is BadRequestWithMessage && image_limits_spec(image_url@, *limits) == Err::<(), Seq<char>>(e->BadRequestWithMessage_0@),
        },
{
    let bytes = match decode_image_data_url(image_url) {
        Err(e) => return Err(e),
        Ok(None) => return Ok(()),
        Ok(Some(b)) => b,
    };
    match limits.max_image_bytes {
        Some(max_bytes) => {
            if bytes.len() as i128 > max_bytes as i128 {
                return Err(ShaideError::BadRequestWithMessage(limit_message(
                    "An image in this request is too large for model '",
                    limits.name.as_str(),
                    "'. The model accepts images up to ",
                    max_bytes,
                    " bytes.",
                )));
            }
        },
        None => {},
    }
    if limits.max_image_width_px.is_none() && limits.max_image_height_px.is_none() {
        return Ok(());
    }
    let (width, height) = match image_dimensions(&bytes) {
        None => return Err(ShaideError::BadRequestWithMessage(owned(
            "Unable to determine image dimensions for inline image payload",
        ))),
        Some(d) => d,
    };
    match limits.max_image_width_px {
        Some(max_width) => {
            if width as i64 > max_width {
                return Err(ShaideError::BadRequestWithMessage(limit_message(
                    "An image in this request is too wide for model '",
                    limits.name.as_str(),
                    "'. The model accepts images up to ",
                    max_width,
                    "px wide.",
                )));
            }
        },
        None => {},
    }
    match limits.max_image_height_px {
        Some(max_height) => {
            if height as i64 > max_height {
                return Err(ShaideError::BadRequestWithMessage(limit_message(
                    "An image in this request is too tall for model '",
                    limits.name.as_str(),
                    "'. The model accepts images up to ",
                    max_height,
                    "px high.",
                )));
            }
        },
        None => {},
    }
    Ok(())
}

/// The first image (in order) that fails the limits, as its message.
pub open spec fn urls_limits_spec(urls: Seq<Seq<char>>, l: VisionLimits) -> Result<(), Seq<char>>
    decreases urls.len(),
{
    if urls.len() == 0 {
        Ok(())
    } else {
        match image_limits_spec(urls[0], l) {
            Err(m) => Err(m),
            Ok(()) => urls_limits_spec(urls.skip(1), l),
        }
    }
}

/// Whether a request's images pass a model's limits: first the number of
/// images, then each image in order.
pub open spec fn request_limits_spec(msgs: Seq<ChatMessage>, l: VisionLimits) -> Result<(), Seq<char>> {
    let urls = request_image_urls(msgs);
    if l.max_images_per_request is Some && urls.len() > l.max_images_per_request->0 {
        Err(too_many_msg(l.name@, l.max_images_per_request->0))
    } else {
        urls_limits_spec(urls, l)
    }
}

/// Checks a request's images against a model's limits.
pub fn validate_user_message_vision_limits(request: &ChatRequest, limits: &VisionLimits) -> (r: Result<(), ShaideError>)
    ensures
        match r {
            Ok(()) => request_limits_spec(request.messages@, *limits) == Ok::<(), Seq<char>>(()),
            Err(e) => e is BadRequestWithMessage && request_limits_spec(request.messages@, *limits) == Err::<(), Seq<char>>(e->BadRequestWithMessage_0@),
        },
{
    let urls = user_message_image_urls(request);
    let image_count = urls.len();
    match limits.max_images_per_request {
        Some(max_images) => {
            if image_count as i128 > max_images as i128 {
                return Err(ShaideError::BadRequestWithMessage(limit_message(
                    "This request contains too many images for model '",
                    limits.name.as_str(),
                    "'. The model accepts up to ",
                    max_images,
                    " images per request.",
                )));
            }
        },
        None => {},
    }
    let ghost all = texts_view(urls@);
    let mut i: usize = 0;
    proof {
        assert(all.skip(0) == all);
        assert(request_limits_spec(request.messages@, *limits) == urls_limits_spec(all, *limits));
    }
    while i < urls.len()
        invariant
            i <= urls.len(),
            all == texts_view(urls@),
            request_limits_spec(request.messages@, *limits) == urls_limits_spec(all, *limits),
            urls_limits_spec(all, *limits) == urls_limits_spec(all.skip(i as int), *limits),
        decreases urls.len() - i,
    {
        proof {
            assert(all.skip(i as int)[0] == urls@[i as int]@);
            assert(all.skip(i as int).skip(1) == all.skip(i + 1));
        }
        match validate_image_url_vision_limits(urls[i].as_str(), limits) {
            Err(e) => return Err(e),
            Ok(()) => {},
        }
        i = i + 1;
    }
    proof {
        assert(all.skip(i as int).len() == 0);
    }
    Ok(())
}

/// Refuses images for a model that takes none.
pub fn check_image_support(request: &ChatRequest, supports_images: bool) -> (r: Result<(), ShaideError>)
    ensures
        match r {
            Ok(()) => !(request_image_urls(request.messages@).len() > 0 && !supports_images),
            Err(e) => request_image_urls(request.messages@).len() > 0 && !supports_images
                && e is BadRequest
                && e->BadRequest_0@ == "Model '"@ + request.model@ + "' does not support image input"@,
        },
{
    if does_user_message_have_images(request) && !supports_images {
        return Err(ShaideError::BadRequest(concat3("Model '", request.model.as_str(), "' does not support image input")));
    }
    Ok(())
}

} // verus!
