use chatbot::conversation::{ToolCall, ToolType};
use chatbot::media::{Image, MessageImage, MAX_IMAGE_EDGE};
use chatbot::tool_exec::{page_from_html, pulled_image};
use chatbot::user::{HistoryEntry, LLMDecisionType, LLMResponse};

fn png(w: u32, h: u32) -> Vec<u8> {
    let img = image::RgbImage::from_pixel(w, h, image::Rgb([10, 200, 30]));
    let mut out = std::io::Cursor::new(Vec::new());
    image::DynamicImage::ImageRgb8(img).write_to(&mut out, image::ImageFormat::Png).unwrap();
    out.into_inner()
}

#[test]
fn pulled_images_are_recognized_by_their_bytes() {
    let small = png(3, 2);
    match pulled_image("/p.png", small.clone()) {
        Ok(MessageImage::Hydrated(Image { bytes, mime })) => {
            assert_eq!(mime, "image/png");
            assert_eq!(bytes, small);
        }
        _ => panic!("expected a hydrated image"),
    }
    assert_eq!(
        pulled_image("/x", b"not an image".to_vec()).err().unwrap(),
        "'/x' is not a valid image (expected PNG, JPEG, GIF, or WebP)"
    );
}

#[test]
fn large_images_are_shrunk_to_jpeg() {
    let big = Image { bytes: png(MAX_IMAGE_EDGE * 2, 8), mime: "image/png".to_string() };
    let shrunk = big.downscaled();
    assert_eq!(shrunk.mime, "image/jpeg");
    let decoded = image::load_from_memory(&shrunk.bytes).unwrap();
    assert!(decoded.width() <= MAX_IMAGE_EDGE && decoded.height() <= MAX_IMAGE_EDGE);
    assert_eq!(decoded.width(), MAX_IMAGE_EDGE);
    let small = Image { bytes: png(4, 4), mime: "image/png".to_string() };
    let same = small.downscaled();
    assert_eq!(same.bytes, small.bytes);
    assert_eq!(same.mime, "image/png");
}

#[test]
fn pages_are_read_for_their_text() {
    let html = "<html><head><title>Notes</title></head><body><article><h1>Rust ownership</h1>\
        <p>Every value in Rust has a single owner, and the value is dropped when its owner goes out of scope.</p>\
        <p>Borrowing lets code use a value without taking ownership of it, either shared or exclusively.</p>\
        </article></body></html>";
    let data = page_from_html("https://example.org/notes", html).unwrap();
    assert!(data.actual.starts_with("Content of https://example.org/notes:\n"));
    assert!(data.actual.contains("single owner"));
    assert_eq!(data.actual, data.simplified);
}

#[test]
fn simplified_tool_calls_show_their_calls() {
    let entry = HistoryEntry::Output(LLMResponse {
        thoughts: String::new(),
        output: LLMDecisionType::IntermediateToolCall {
            tool_calls: vec![ToolCall { id: "call_0".to_string(), tool_type: ToolType::WebSearch { query: "q".to_string() } }],
        },
    });
    let text = entry.format_simplified();
    assert!(text.starts_with("Assistant:\n"));
    assert!(text.contains("call_0") && text.contains("WebSearch"));
}
