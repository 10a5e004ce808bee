//! Layout preferences and the table-of-contents tree.

use vstd::prelude::*;

use crate::native::CreLayoutConfig;

verus! {

/// Layout preferences passed to the engine.
#[derive(Debug, Clone, Copy, PartialEq, Eq, Structural)]
pub struct LayoutConfig {
    /// Font size in device-independent pixels.
    pub font_size: u32,
    /// Line height as a percentage (100 = normal).
    pub line_height_percent: u32,
    /// Margin applied around the page in device-independent pixels.
    pub page_margin_dp: u32,
}

/// Default font size.
pub const DEFAULT_FONT_SIZE: u32 = 18;

/// Default line height percentage.
pub const DEFAULT_LINE_HEIGHT_PERCENT: u32 = 120;

/// Default page margin.
pub const DEFAULT_PAGE_MARGIN_DP: u32 = 12;

impl Default for LayoutConfig {
    fn default() -> (r: Self)
        ensures
            r.font_size == DEFAULT_FONT_SIZE,
            r.line_height_percent == DEFAULT_LINE_HEIGHT_PERCENT,
            r.page_margin_dp == DEFAULT_PAGE_MARGIN_DP,
    {
        LayoutConfig {
            font_size: DEFAULT_FONT_SIZE,
            line_height_percent: DEFAULT_LINE_HEIGHT_PERCENT,
            page_margin_dp: DEFAULT_PAGE_MARGIN_DP,
        }
    }
}

/// The native form of a configuration: the same three fields.
pub open spec fn native_config(c: LayoutConfig) -> CreLayoutConfig {
    CreLayoutConfig {
        font_size: c.font_size,
        line_height_percent: c.line_height_percent,
        page_margin_dp: c.page_margin_dp,
    }
}

impl From<LayoutConfig> for CreLayoutConfig {
    fn from(value: LayoutConfig) -> (r: Self)
        ensures
            r == native_config(value),
    {
        CreLayoutConfig {
            font_size: value.font_size,
            line_height_percent: value.line_height_percent,
            page_margin_dp: value.page_margin_dp,
        }
    }
}

impl vstd::std_specs::convert::FromSpecImpl<LayoutConfig> for CreLayoutConfig {
    open spec fn obeys_from_spec() -> bool {
        true
    }

    open spec fn from_spec(v: LayoutConfig) -> CreLayoutConfig {
        native_config(v)
    }
}

/// Converts a configuration to the form the native layout call takes, field for field.
pub fn to_native(config: LayoutConfig) -> (r: CreLayoutConfig)
    ensures
        r == native_config(config),
        r.font_size == config.font_size,
        r.line_height_percent == config.line_height_percent,
        r.page_margin_dp == config.page_margin_dp,
{
    CreLayoutConfig::from(config)
}

/// A node of a document's table of contents.
#[derive(Debug, PartialEq, Eq)]
pub struct TocEntry {
    /// Node title.
    pub title: String,
    /// Page the entry points at, if known.
    pub page: Option<u32>,
    /// Child entries, in order.
    pub children: Vec<TocEntry>,
}

} // verus!
