//! A verified recording layer for an immediate-mode 2D canvas.
//!
//! The crate models the client-side half of a display-list renderer: paints,
//! paths, textures, typography and the display-list builder itself are plain
//! values whose behaviour is stated in contracts and proved.  Rasterisation,
//! font shaping and window-system integration belong to a rendering engine
//! behind this layer and are out of scope; coordinates are therefore carried
//! as opaque 32-bit scalar patterns that the engine interprets.

mod color;
mod context;
mod display_list;
mod enums;
mod error;
mod filters;
mod geometry;
mod line_metrics;
mod paint;
mod paragraph;
mod paragraph_style;
mod path;
mod surface;
mod texture;
mod typography;
mod version;

pub use color::Color;
pub use color::ColorSpace;
pub use color::SCALAR_ONE_BITS;
pub use context::Backend;
pub use context::Context;
pub use context::version_matches;
pub use display_list::BuilderV;
pub use display_list::Command;
pub use display_list::CommandV;
pub use display_list::DisplayList;
pub use display_list::DisplayListBuilder;
pub use display_list::command_view;
pub use display_list::commands_view;
pub use display_list::copied_rect;
pub use display_list::lemma_commands_view_len;
pub use display_list::lemma_commands_view_push;
pub use display_list::lemma_restored_n_depth;
pub use display_list::lemma_save_restore_counts;
pub use display_list::lemma_saved_n_depth;
pub use display_list::opt_filter_view;
pub use display_list::opt_owned_filter_view;
pub use display_list::opt_owned_paint_view;
pub use display_list::opt_paint_view;
pub use display_list::restored;
pub use display_list::restored_n;
pub use display_list::restores_for;
pub use display_list::saved;
pub use display_list::saved_n;
pub use enums::BlendMode;
pub use enums::BlurStyle;
pub use enums::ClipOperation;
pub use enums::DrawStyle;
pub use enums::FillType;
pub use enums::FontStyle;
pub use enums::FontWeight;
pub use enums::PixelFormat;
pub use enums::StrokeCap;
pub use enums::StrokeJoin;
pub use enums::TextAlignment;
pub use enums::TextDirection;
pub use enums::TextureSampling;
pub use enums::TileMode;
pub use error::Error;
pub use filters::ColorFilter;
pub use filters::ColorSource;
pub use filters::ColorSourceV;
pub use filters::FragmentProgram;
pub use filters::ImageFilter;
pub use filters::ImageFilterV;
pub use filters::MaskFilter;
pub use filters::copied_matrix;
pub use geometry::ColorMatrix;
pub use geometry::ISize;
pub use geometry::Matrix;
pub use geometry::Point;
pub use geometry::Rect;
pub use geometry::RoundingRadii;
pub use geometry::Scalar;
pub use geometry::Size;
pub use line_metrics::LineEntry;
pub use line_metrics::LineMetrics;
pub use line_metrics::LineSpanV;
pub use line_metrics::entries_spans;
pub use line_metrics::entry_span;
pub use line_metrics::first_nl;
pub use line_metrics::is_trim_ws;
pub use line_metrics::line_span;
pub use line_metrics::line_spans;
pub use line_metrics::line_spans_from;
pub use line_metrics::nl_count;
pub use line_metrics::trim_ws;
pub use line_metrics::u16_len;
pub use line_metrics::u16_weight;
pub use paint::Paint;
pub use paint::PaintV;
pub use paint::SCALAR_FOUR_BITS;
pub use paint::default_paint;
pub use paragraph::GlyphInfo;
pub use paragraph::Paragraph;
pub use paragraph::ParagraphBuilder;
pub use paragraph::ParagraphBuilderV;
pub use paragraph::ParagraphV;
pub use paragraph::TextRun;
pub use paragraph::TextRunV;
pub use paragraph::current_style;
pub use paragraph::lemma_line_metrics_consistent;
pub use paragraph::runs_text;
pub use paragraph_style::ParagraphStyle;
pub use paragraph_style::ParagraphStyleV;
pub use paragraph_style::default_paragraph_style;
pub use path::Path;
pub use path::PathBuilder;
pub use path::PathBuilderV;
pub use path::PathV;
pub use path::PathVerb;
pub use surface::Surface;
pub use surface::VkSwapChain;
pub use surface::lemma_replay_deterministic;
pub use texture::Texture;
pub use texture::ceil_log2;
pub use texture::flutter_mip_count;
pub use texture::lemma_ceil_log2_bounds;
pub use texture::lemma_ceil_log2_mono;
pub use texture::lemma_mip_count_monotonic;
pub use texture::max_nat;
pub use texture::pow2;
pub use texture::spec_mip_count;
pub use typography::RegisteredFont;
pub use typography::RegisteredFontV;
pub use typography::TypographyContext;
pub use typography::has_nul_byte;
pub use version::ImpellerVersion;
pub use version::VERSION_MAJOR;
pub use version::VERSION_MINOR;
pub use version::VERSION_PATCH;
pub use version::VERSION_VARIANT;
pub use version::lemma_version_roundtrip;
pub use version::spec_major;
pub use version::spec_minor;
pub use version::spec_pack;
pub use version::spec_patch;
pub use version::spec_variant;
