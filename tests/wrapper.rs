use crengine::affinity::ThreadAffinity;
use crengine::canvas::{Canvas, Size, SurfaceFormat, TARGET_HEIGHT, TARGET_WIDTH};
use crengine::document::{page_count_from, DocumentKind, DocumentState, Engine};
use crengine::error::map_status;
use crengine::layout::{to_native, LayoutConfig};
use crengine::native::{
    CreLayoutConfig, CreRenderSurface, CreSize, CRE_RESULT_INTERNAL_ERROR,
    CRE_RESULT_INVALID_ARGUMENT, CRE_RESULT_OK, CRE_RESULT_UNSUPPORTED,
    CRE_SURFACE_FORMAT_GRAY8, CRE_SURFACE_FORMAT_MONOCHROME,
};
use crengine::Error;

const OWNER: u64 = 7;
const OTHER: u64 = 8;

fn laid_out(pages: u32) -> DocumentState {
    let engine = Engine::initialize(OWNER).expect("engine");
    let mut doc = DocumentState::opened(engine.handle(), CRE_RESULT_OK, false).expect("open");
    assert_eq!(doc.finish_layout(Ok(pages)).expect("layout"), pages);
    doc
}

#[test]
fn status_ok_maps_to_success() {
    assert!(map_status(CRE_RESULT_OK).is_ok());
}

#[test]
fn status_codes_map_to_their_kinds() {
    assert!(matches!(map_status(CRE_RESULT_UNSUPPORTED), Err(Error::Unsupported)));
    assert!(matches!(map_status(CRE_RESULT_INVALID_ARGUMENT), Err(Error::InvalidArgument)));
    assert!(matches!(map_status(CRE_RESULT_INTERNAL_ERROR), Err(Error::InternalError)));
}

#[test]
fn unknown_status_maps_to_internal_error() {
    assert!(matches!(map_status(42), Err(Error::InternalError)));
    assert!(matches!(map_status(-1), Err(Error::InternalError)));
}

#[test]
fn default_layout_config_values() {
    let config = LayoutConfig::default();
    assert_eq!(
        config,
        LayoutConfig { font_size: 18, line_height_percent: 120, page_margin_dp: 12 }
    );
    let raw: CreLayoutConfig = config.into();
    assert_eq!(
        raw,
        CreLayoutConfig { font_size: 18, line_height_percent: 120, page_margin_dp: 12 }
    );
    assert_eq!(to_native(config), raw);
}

#[test]
fn native_layout_config_keeps_distinct_fields() {
    let config = LayoutConfig { font_size: 1, line_height_percent: 2, page_margin_dp: 3 };
    assert_eq!(
        to_native(config),
        CreLayoutConfig { font_size: 1, line_height_percent: 2, page_margin_dp: 3 }
    );
}

#[test]
fn new_gray8_allocates_zeroed_frame() {
    let canvas = Canvas::new_gray8(Size { width: 480, height: 800 });
    assert_eq!(canvas.as_bytes().len(), 384000);
    assert!(canvas.as_bytes().iter().all(|b| *b == 0));
    assert_eq!(canvas.stride(), 480);
    assert_eq!(canvas.size(), Size { width: 480, height: 800 });
    assert_eq!(canvas.format(), SurfaceFormat::Gray8);
}

#[test]
fn gray8_target_matches_display() {
    let canvas = Canvas::gray8_target();
    assert_eq!(canvas.size(), Size { width: TARGET_WIDTH, height: TARGET_HEIGHT });
    assert_eq!(canvas.byte_len(), 480 * 800);
}

#[test]
fn empty_canvas_has_no_bytes() {
    let canvas = Canvas::new_gray8(Size { width: 0, height: 10 });
    assert_eq!(canvas.byte_len(), 0);
    assert_eq!(canvas.stride(), 0);
}

#[test]
fn canvas_bytes_are_writable() {
    let mut canvas = Canvas::new_gray8(Size { width: 2, height: 2 });
    canvas.as_bytes_mut()[3] = 9;
    assert_eq!(canvas.as_bytes(), &[0, 0, 0, 9]);
}

#[test]
fn surface_formats_have_native_tags() {
    assert_eq!(SurfaceFormat::Gray8.as_raw(), CRE_SURFACE_FORMAT_GRAY8);
    assert_eq!(SurfaceFormat::Monochrome.as_raw(), CRE_SURFACE_FORMAT_MONOCHROME);
}

#[test]
fn canvas_surface_descriptor() {
    let canvas = Canvas::new_gray8(Size { width: 3, height: 5 });
    assert_eq!(
        canvas.to_surface(),
        CreRenderSurface {
            stride: 3,
            size: CreSize { width: 3, height: 5 },
            format: CRE_SURFACE_FORMAT_GRAY8,
        }
    );
}

#[test]
fn document_kinds_have_extensions() {
    assert_eq!(DocumentKind::Epub.extension(), "epub");
    assert_eq!(DocumentKind::Html.extension(), "html");
}

#[test]
fn engine_pins_its_thread() {
    let engine = Engine::initialize(OWNER).expect("engine");
    assert!(engine.ensure_thread(OWNER).is_ok());
    assert!(matches!(engine.ensure_thread(OTHER), Err(Error::WrongThread)));
    assert_eq!(engine.handle(), ThreadAffinity { owner: OWNER });
    engine.shutdown();
}

#[test]
fn open_succeeds_with_ok_status_and_handle() {
    let doc = DocumentState::opened(ThreadAffinity::pinned_to(OWNER), CRE_RESULT_OK, false)
        .expect("open");
    assert_eq!(doc.pages(), 0);
    assert!(doc.ensure_thread(OWNER).is_ok());
}

#[test]
fn open_rejects_null_handle_under_success() {
    let r = DocumentState::opened(ThreadAffinity::pinned_to(OWNER), CRE_RESULT_OK, true);
    assert!(matches!(r, Err(Error::NullHandle)));
}

#[test]
fn open_reports_native_status_first() {
    let r = DocumentState::opened(ThreadAffinity::pinned_to(OWNER), CRE_RESULT_UNSUPPORTED, true);
    assert!(matches!(r, Err(Error::Unsupported)));
    let r = DocumentState::opened(ThreadAffinity::pinned_to(OWNER), 99, false);
    assert!(matches!(r, Err(Error::InternalError)));
}

#[test]
fn render_before_layout_is_out_of_bounds() {
    let doc = DocumentState::opened(ThreadAffinity::pinned_to(OWNER), CRE_RESULT_OK, false)
        .expect("open");
    let canvas = Canvas::gray8_target();
    let r = doc.render_gate(OWNER, 0, &canvas);
    assert!(matches!(r, Err(Error::PageOutOfBounds { index: 0, total: 0 })));
}

#[test]
fn render_past_last_page_is_out_of_bounds() {
    let doc = laid_out(3);
    let small = Canvas::new_gray8(Size { width: 1, height: 1 });
    let r = doc.render_gate(OWNER, 3, &small);
    assert!(matches!(r, Err(Error::PageOutOfBounds { index: 3, total: 3 })));
    let r = doc.render_gate(OWNER, u32::MAX, &Canvas::gray8_target());
    assert!(matches!(r, Err(Error::PageOutOfBounds { index: u32::MAX, total: 3 })));
}

#[test]
fn render_within_range_hands_out_surface() {
    let doc = laid_out(3);
    let canvas = Canvas::new_gray8(Size { width: 6, height: 2 });
    let surface = doc.render_gate(OWNER, 2, &canvas).expect("surface");
    assert_eq!(
        surface,
        CreRenderSurface {
            stride: 6,
            size: CreSize { width: 6, height: 2 },
            format: CRE_SURFACE_FORMAT_GRAY8,
        }
    );
}

#[test]
fn render_from_other_thread_is_refused() {
    let doc = laid_out(3);
    let canvas = Canvas::new_gray8(Size { width: 1, height: 1 });
    assert!(matches!(doc.render_gate(OTHER, 0, &canvas), Err(Error::WrongThread)));
    assert!(matches!(doc.render_gate(OTHER, 10, &canvas), Err(Error::WrongThread)));
    assert!(matches!(doc.page_gate(OTHER, 0), Err(Error::WrongThread)));
    assert!(matches!(doc.toc(OTHER), Err(Error::WrongThread)));
    assert!(matches!(doc.extract_text(OTHER), Err(Error::WrongThread)));
    assert!(matches!(doc.ensure_thread(OTHER), Err(Error::WrongThread)));
}

#[test]
fn page_gate_checks_bounds() {
    let doc = laid_out(2);
    assert_eq!(doc.page_gate(OWNER, 1).expect("page"), 1);
    assert!(matches!(doc.page_gate(OWNER, 2), Err(Error::PageOutOfBounds { index: 2, total: 2 })));
}

#[test]
fn toc_and_text_are_unsupported() {
    let doc = laid_out(1);
    assert!(matches!(doc.toc(OWNER), Err(Error::Unsupported)));
    assert!(matches!(doc.extract_text(OWNER), Err(Error::Unsupported)));
}

#[test]
fn failed_page_count_keeps_cached_pages() {
    let mut doc = laid_out(5);
    let r = doc.finish_layout(Err(Error::InternalError));
    assert!(matches!(r, Err(Error::InternalError)));
    assert_eq!(doc.pages(), 5);
    assert_eq!(doc.finish_layout(Ok(2)).expect("relayout"), 2);
    assert_eq!(doc.pages(), 2);
    assert!(matches!(doc.page_gate(OWNER, 2), Err(Error::PageOutOfBounds { index: 2, total: 2 })));
}

#[test]
fn page_count_follows_status() {
    assert_eq!(page_count_from(CRE_RESULT_OK, 12).expect("count"), 12);
    assert!(matches!(page_count_from(CRE_RESULT_INVALID_ARGUMENT, 12), Err(Error::InvalidArgument)));
}
