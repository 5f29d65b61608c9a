//! Images and attachments carried by conversation messages.

use vstd::prelude::*;
use image::imageops::FilterType;
use image::{DynamicImage, ImageFormat};

verus! {

/// Longest edge, in pixels, that an image keeps after downscaling.
pub const MAX_IMAGE_EDGE: u32 = 1024;

/// An encoded image (PNG, JPEG, …) with its MIME type.
pub struct Image {
    pub bytes: Vec<u8>,
    pub mime: String,
}

/// Model of an [`Image`].
pub struct ImageView {
    pub bytes: Seq<u8>,
    pub mime: Seq<char>,
}

impl DeepView for Image {
    type V = ImageView;

    open spec fn deep_view(&self) -> ImageView {
        ImageView { bytes: self.bytes@, mime: self.mime@ }
    }
}

impl Clone for Image {
    fn clone(&self) -> (r: Self)
        ensures
            r.deep_view() == self.deep_view(),
    {
        let bytes = self.bytes.clone();
        assert(bytes@ =~= self.bytes@);
        Image { bytes, mime: self.mime.clone() }
    }
}

/// Width and height of `bytes` once decoded by the `image` crate, or `None`
/// where `image::load_from_memory` fails on them.
pub uninterp spec fn decoded_dimensions(bytes: Seq<u8>) -> Option<(u32, u32)>;

/// A resampling filter of the `image` crate.
#[derive(Clone, Copy, Debug, PartialEq, Eq)]
pub enum ResizeFilter {
    Nearest,
    Triangle,
    CatmullRom,
    Gaussian,
    Lanczos3,
}

/// The pixel layout an image is converted to before it is encoded.
#[derive(Clone, Copy, Debug, PartialEq, Eq)]
pub enum PixelLayout {
    Rgb8,
    Rgba8,
}

/// The format an image is encoded in.
#[derive(Clone, Copy, Debug, PartialEq, Eq)]
pub enum EncodedFormat {
    Png,
    Jpeg,
}

/// The MIME type of an encoding.
pub open spec fn format_mime(f: EncodedFormat) -> Seq<char> {
    match f {
        EncodedFormat::Png => "image/png"@,
        EncodedFormat::Jpeg => "image/jpeg"@,
    }
}

impl EncodedFormat {
    /// The MIME type of this encoding (see [`format_mime`]).
    pub fn mime(&self) -> (r: &'static str)
        ensures
            r@ == format_mime(*self),
    {
        match self {
            EncodedFormat::Png => "image/png",
            EncodedFormat::Jpeg => "image/jpeg",
        }
    }
}

/// The encoding, in `format`, of `bytes` decoded by the `image` crate, resized
/// with `filter` to fit in an `edge`×`edge` box (aspect ratio kept) and
/// converted to `pixels`; `None` where decoding or encoding fails.
pub uninterp spec fn resized_encoding(bytes: Seq<u8>, edge: u32, filter: ResizeFilter, pixels: PixelLayout, format: EncodedFormat) -> Option<Seq<u8>>;

/// `image::load_from_memory`, reporting the decoded width and height.
/// Trusted: the pair is what the decoder reports for these bytes; nothing more
/// is claimed of the decoder.
#[verifier::external_body]
fn image_dimensions(bytes: &Vec<u8>) -> (r: Option<(u32, u32)>)
    ensures
        r == decoded_dimensions(bytes@),
{
    match image::load_from_memory(bytes) {
        Ok(decoded) => Some((decoded.width(), decoded.height())),
        Err(_) => None,
    }
}

/// `image::load_from_memory`, then `DynamicImage::resize` to an `edge` box with
/// the given filter, conversion to the given pixel layout and `write_to` in the
/// given format. Trusted: the result is the named encoding of these bytes with
/// these choices; nothing more is claimed of the codec.
#[verifier::external_body]
fn resize_encoded(bytes: &Vec<u8>, edge: u32, filter: ResizeFilter, pixels: PixelLayout, format: EncodedFormat) -> (r: Option<Vec<u8>>)
    ensures
        r matches Some(v) ==> resized_encoding(bytes@, edge, filter, pixels, format) == Some(v@),
        r is None ==> resized_encoding(bytes@, edge, filter, pixels, format) is None,
{
    let f = match filter { ResizeFilter::Nearest => FilterType::Nearest, ResizeFilter::Triangle => FilterType::Triangle,
        ResizeFilter::CatmullRom => FilterType::CatmullRom, ResizeFilter::Gaussian => FilterType::Gaussian, ResizeFilter::Lanczos3 => FilterType::Lanczos3 };
    let resized = match image::load_from_memory(bytes) { Ok(d) => d.resize(edge, edge, f), Err(_) => return None };
    let converted = match pixels { PixelLayout::Rgb8 => DynamicImage::ImageRgb8(resized.to_rgb8()),
        PixelLayout::Rgba8 => DynamicImage::ImageRgba8(resized.to_rgba8()) };
    let encoding = match format { EncodedFormat::Png => ImageFormat::Png, EncodedFormat::Jpeg => ImageFormat::Jpeg };
    let mut out = std::io::Cursor::new(Vec::new());
    match converted.write_to(&mut out, encoding) { Ok(()) => Some(out.into_inner()), Err(_) => None }
}

/// What [`Image::downscaled`] yields: the image itself unless it decodes to
/// something larger than [`MAX_IMAGE_EDGE`] on its longer side and re-encodes
/// as JPEG, in which case the JPEG.
pub open spec fn downscaled_view(img: ImageView) -> ImageView {
    match decoded_dimensions(img.bytes) {
        None => img,
        Some(dims) => {
            let longest = if dims.0 >= dims.1 { dims.0 } else { dims.1 };
            if longest <= MAX_IMAGE_EDGE {
                img
            } else {
                match resized_encoding(img.bytes, MAX_IMAGE_EDGE, ResizeFilter::Lanczos3, PixelLayout::Rgb8, EncodedFormat::Jpeg) {
                    Some(jpeg) => ImageView { bytes: jpeg, mime: format_mime(EncodedFormat::Jpeg) },
                    None => img,
                }
            }
        },
    }
}

impl Image {
    /// The image shrunk to fit [`MAX_IMAGE_EDGE`], re-encoded as JPEG; unchanged
    /// when it already fits or cannot be decoded or re-encoded.
    pub fn downscaled(&self) -> (r: Image)
        ensures
            r.deep_view() == downscaled_view(self.deep_view()),
    {
        match image_dimensions(&self.bytes) {
            None => self.clone(),
            Some((w, h)) => {
                let longest = if w >= h { w } else { h };
                if longest <= MAX_IMAGE_EDGE {
                    self.clone()
                } else {
                    let format = EncodedFormat::Jpeg;
                    match resize_encoded(&self.bytes, MAX_IMAGE_EDGE, ResizeFilter::Lanczos3, PixelLayout::Rgb8, format) {
                        Some(jpeg) => {
                            let mime = crate::text::owned(format.mime());
                            Image { bytes: jpeg, mime }
                        },
                        None => self.clone(),
                    }
                }
            },
        }
    }
}

/// An image as a message carries it: with its bytes, or reduced to its size
/// once it has been shown to the model.
pub enum MessageImage {
    Hydrated(Image),
    Dehydrated { byte_size: usize },
}

/// Model of a [`MessageImage`].
pub enum MessageImageView {
    Hydrated(ImageView),
    Dehydrated { byte_size: nat },
}

impl DeepView for MessageImage {
    type V = MessageImageView;

    open spec fn deep_view(&self) -> MessageImageView {
        match self {
            MessageImage::Hydrated(image) => MessageImageView::Hydrated(image.deep_view()),
            MessageImage::Dehydrated { byte_size } => MessageImageView::Dehydrated {
                byte_size: *byte_size as nat,
            },
        }
    }
}

impl Clone for MessageImage {
    fn clone(&self) -> (r: Self)
        ensures
            r.deep_view() == self.deep_view(),
    {
        match self {
            MessageImage::Hydrated(image) => MessageImage::Hydrated(image.clone()),
            MessageImage::Dehydrated { byte_size } => MessageImage::Dehydrated {
                byte_size: *byte_size,
            },
        }
    }
}

/// The dehydrated form of an image: its byte count only.
pub open spec fn dehydrated_view(m: MessageImageView) -> MessageImageView {
    match m {
        MessageImageView::Hydrated(image) => MessageImageView::Dehydrated {
            byte_size: image.bytes.len(),
        },
        MessageImageView::Dehydrated { byte_size } => MessageImageView::Dehydrated { byte_size },
    }
}

impl MessageImage {
    /// Drops the bytes, keeping their count.
    pub fn dehydrated(&self) -> (r: MessageImage)
        ensures
            r.deep_view() == dehydrated_view(self.deep_view()),
    {
        match self {
            MessageImage::Hydrated(image) => MessageImage::Dehydrated {
                byte_size: image.bytes.len(),
            },
            MessageImage::Dehydrated { byte_size } => MessageImage::Dehydrated {
                byte_size: *byte_size,
            },
        }
    }

    /// The image bytes, when the image still carries them.
    pub fn hydrated_bytes(&self) -> (r: Option<Vec<u8>>)
        ensures
            match self.deep_view() {
                MessageImageView::Hydrated(image) => r matches Some(b) && b@ == image.bytes,
                MessageImageView::Dehydrated { .. } => r is None,
            },
    {
        match self {
            MessageImage::Hydrated(image) => {
                let b = image.bytes.clone();
                assert(b@ =~= image.bytes@);
                Some(b)
            },
            MessageImage::Dehydrated { .. } => None,
        }
    }

    /// A hydrated image downscaled; a dehydrated one unchanged.
    pub fn downscaled(&self) -> (r: MessageImage)
        ensures
            r.deep_view() == (match self.deep_view() {
                MessageImageView::Hydrated(image) => MessageImageView::Hydrated(downscaled_view(image)),
                other => other,
            }),
    {
        match self {
            MessageImage::Hydrated(image) => MessageImage::Hydrated(image.downscaled()),
            MessageImage::Dehydrated { byte_size } => MessageImage::Dehydrated {
                byte_size: *byte_size,
            },
        }
    }

    /// The byte count an image is persisted with (a hydrated image persists dehydrated).
    pub fn persisted_byte_size(&self) -> (r: usize)
        ensures
            r == (match self.deep_view() {
                MessageImageView::Hydrated(image) => image.bytes.len(),
                MessageImageView::Dehydrated { byte_size } => byte_size,
            }),
    {
        match self {
            MessageImage::Hydrated(image) => image.bytes.len(),
            MessageImage::Dehydrated { byte_size } => *byte_size,
        }
    }
}

/// A file or image attached to a message, with where it came from.
pub enum Attachment {
    Image { image: MessageImage, filename: String, url: String },
    File { filename: String, content_type: Option<String>, url: String },
}

/// Model of an [`Attachment`].
pub enum AttachmentView {
    Image { image: MessageImageView, filename: Seq<char>, url: Seq<char> },
    File { filename: Seq<char>, content_type: Option<Seq<char>>, url: Seq<char> },
}

impl DeepView for Attachment {
    type V = AttachmentView;

    open spec fn deep_view(&self) -> AttachmentView {
        match self {
            Attachment::Image { image, filename, url } => AttachmentView::Image {
                image: image.deep_view(),
                filename: filename@,
                url: url@,
            },
            Attachment::File { filename, content_type, url } => AttachmentView::File {
                filename: filename@,
                content_type: content_type.deep_view(),
                url: url@,
            },
        }
    }
}

impl Clone for Attachment {
    fn clone(&self) -> (r: Self)
        ensures
            r.deep_view() == self.deep_view(),
    {
        match self {
            Attachment::Image { image, filename, url } => Attachment::Image {
                image: image.clone(),
                filename: filename.clone(),
                url: url.clone(),
            },
            Attachment::File { filename, content_type, url } => Attachment::File {
                filename: filename.clone(),
                content_type: content_type.clone(),
                url: url.clone(),
            },
        }
    }
}

/// An attachment with its image (if any) dehydrated.
pub open spec fn attachment_dehydrated(a: AttachmentView) -> AttachmentView {
    match a {
        AttachmentView::Image { image, filename, url } => AttachmentView::Image {
            image: dehydrated_view(image),
            filename,
            url,
        },
        other => other,
    }
}

/// An attachment with its image (if any) downscaled.
pub open spec fn attachment_downscaled(a: AttachmentView) -> AttachmentView {
    match a {
        AttachmentView::Image { image, filename, url } => AttachmentView::Image {
            image: match image {
                MessageImageView::Hydrated(i) => MessageImageView::Hydrated(downscaled_view(i)),
                other => other,
            },
            filename,
            url,
        },
        other => other,
    }
}

impl Attachment {
    /// The attachment with its image downscaled; files unchanged.
    pub fn downscaled(&self) -> (r: Attachment)
        ensures
            r.deep_view() == attachment_downscaled(self.deep_view()),
    {
        match self {
            Attachment::Image { image, filename, url } => Attachment::Image {
                image: image.downscaled(),
                filename: filename.clone(),
                url: url.clone(),
            },
            Attachment::File { .. } => self.clone(),
        }
    }

    /// The attachment with its image dehydrated; files unchanged.
    pub fn dehydrated(&self) -> (r: Attachment)
        ensures
            r.deep_view() == attachment_dehydrated(self.deep_view()),
    {
        match self {
            Attachment::Image { image, filename, url } => Attachment::Image {
                image: image.dehydrated(),
                filename: filename.clone(),
                url: url.clone(),
            },
            Attachment::File { .. } => self.clone(),
        }
    }
}

/// Every attachment of `v` dehydrated.
pub fn dehydrate_all(v: &Vec<Attachment>) -> (r: Vec<Attachment>)
    ensures
        r.deep_view() == v.deep_view().map_values(|a: AttachmentView| attachment_dehydrated(a)),
{
    let mut r: Vec<Attachment> = Vec::new();
    for i in 0..v.len()
        invariant
            r@.len() == i,
            forall|j: int| 0 <= j < i ==> #[trigger] r@[j].deep_view() == attachment_dehydrated(v@[j].deep_view()),
    {
        let a = v[i].dehydrated();
        r.push(a);
    }
    assert(r.deep_view() =~= v.deep_view().map_values(|a: AttachmentView| attachment_dehydrated(a)));
    r
}

/// Every attachment of `v` downscaled.
pub fn downscale_all(v: &Vec<Attachment>) -> (r: Vec<Attachment>)
    ensures
        r.deep_view() == v.deep_view().map_values(|a: AttachmentView| attachment_downscaled(a)),
{
    let mut r: Vec<Attachment> = Vec::new();
    for i in 0..v.len()
        invariant
            r@.len() == i,
            forall|j: int| 0 <= j < i ==> #[trigger] r@[j].deep_view() == attachment_downscaled(v@[j].deep_view()),
    {
        let a = v[i].downscaled();
        r.push(a);
    }
    assert(r.deep_view() =~= v.deep_view().map_values(|a: AttachmentView| attachment_downscaled(a)));
    r
}

} // verus!
