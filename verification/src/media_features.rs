//! The media features and how each is evaluated against a device.
//!
//! What a feature is evaluated against is a `Device`: the answers of the
//! platform, gathered before the evaluation. Each evaluator says whether the
//! value of a query matches the device. A query without a value asks whether
//! the feature is there at all.
use vstd::prelude::*;

verus! {

/// A size in app units: sixtieths of a CSS pixel.
#[derive(Clone, Copy, Debug, PartialEq, Eq, Structural)]
pub struct Size2D {
    pub width: i32,
    pub height: i32,
}

/// The media type of a device.
#[derive(Clone, Copy, Debug, PartialEq, Eq, Structural)]
pub enum MediaType {
    /// A screen.
    Screen,
    /// Paged media, and documents seen in print preview.
    Print,
}

/// Values for the orientation media features.
#[derive(Clone, Copy, Debug, PartialEq, Eq, Structural)]
pub enum Orientation {
    Landscape,
    Portrait,
}

/// Values for the prefers-color-scheme media feature.
#[derive(Clone, Copy, Debug, PartialEq, Eq, Structural)]
pub enum PrefersColorScheme {
    Light,
    Dark,
}

/// Whether colors are forced on the document.
#[derive(Clone, Copy, Debug, PartialEq, Eq, Structural)]
pub enum ForcedColors {
    /// Page colors are not being forced.
    Inactive,
    /// Page colors would be forced in content.
    Requested,
    /// Page colors are being forced.
    Active,
}

/// Values for the display-mode media feature.
#[derive(Clone, Copy, Debug, PartialEq, Eq, Structural)]
#[allow(missing_docs)]
pub enum DisplayMode {
    Browser,
    MinimalUi,
    Standalone,
    Fullscreen,
}

/// Values for the scan media feature.
#[derive(Clone, Copy, Debug, PartialEq, Eq, Structural)]
pub enum Scan {
    Progressive,
    Interlace,
}

/// Values for the color-gamut media feature, from the narrowest gamut to the
/// widest, so that lower values match higher capabilities.
#[derive(Clone, Copy, Debug, PartialEq, Eq, Structural)]
pub enum ColorGamut {
    /// The sRGB gamut.
    Srgb,
    /// The gamut specified by the Display P3 Color Space.
    P3,
    /// The gamut specified by the ITU-R Recommendation BT.2020 Color Space.
    Rec2020,
}

/// Values for the prefers-reduced-motion media feature.
#[derive(Clone, Copy, Debug, PartialEq, Eq, Structural)]
pub enum PrefersReducedMotion {
    NoPreference,
    Reduce,
}

/// Values for the prefers-reduced-transparency media feature.
#[derive(Clone, Copy, Debug, PartialEq, Eq, Structural)]
pub enum PrefersReducedTransparency {
    NoPreference,
    Reduce,
}

/// Values for the dynamic-range and video-dynamic-range media features, from
/// the lower range to the higher, so that lower values match higher
/// capabilities.
///
/// <https://drafts.csswg.org/mediaqueries-5/#dynamic-range>
#[derive(Clone, Copy, Debug, PartialEq, Eq, Structural)]
#[allow(missing_docs)]
pub enum DynamicRange {
    Standard,
    High,
}

/// Possible values for prefers-contrast media query.
///
/// <https://drafts.csswg.org/mediaqueries-5/#prefers-contrast>
#[derive(Clone, Copy, Debug, PartialEq, Eq, Structural)]
pub enum PrefersContrast {
    /// More contrast is preferred.
    More,
    /// Low contrast is preferred.
    Less,
    /// Custom (not more, not less).
    Custom,
    /// The default value if neither high or low contrast is enabled.
    NoPreference,
}

/// Possible values for the inverted-colors media query.
///
/// <https://drafts.csswg.org/mediaqueries-5/#inverted>
#[derive(Clone, Copy, Debug, PartialEq, Eq, Structural)]
pub enum InvertedColors {
    /// Colors are displayed normally.
    Normal,
    /// All pixels within the displayed area have been inverted.
    Inverted,
}

/// Values for the overflow-block media feature.
#[derive(Clone, Copy, Debug, PartialEq, Eq, Structural)]
pub enum OverflowBlock {
    /// What overflows is not shown.
    Hidden,
    Scroll,
    Paged,
}

/// Values for the overflow-inline media feature.
#[derive(Clone, Copy, Debug, PartialEq, Eq, Structural)]
pub enum OverflowInline {
    /// What overflows is not shown.
    Hidden,
    Scroll,
}

/// Values for the update media feature.
#[derive(Clone, Copy, Debug, PartialEq, Eq, Structural)]
pub enum Update {
    /// The layout cannot be updated once it has been rendered.
    Never,
    Slow,
    Fast,
}

/// Values for the pointer and any-pointer media features.
#[derive(Clone, Copy, Debug, PartialEq, Eq, Structural)]
pub enum Pointer {
    /// There is no pointing device.
    Absent,
    Coarse,
    Fine,
}

/// Values for the hover and any-hover media features.
#[derive(Clone, Copy, Debug, PartialEq, Eq, Structural)]
pub enum Hover {
    /// Nothing can hover.
    Absent,
    Hover,
}

/// Allows front-end CSS to discern platform via media queries.
#[derive(Clone, Copy, Debug, PartialEq, Eq, Structural)]
pub enum Platform {
    /// Matches any Android version.
    Android,
    /// For our purposes here, "linux" is just "gtk" (so unix-but-not-mac).
    /// There's no need for our front-end code to differentiate between those
    /// platforms and they already use the "linux" string elsewhere.
    Linux,
    /// Matches any iOS version.
    Ios,
    /// Matches any macOS version.
    Macos,
    /// Matches any Windows version.
    Windows,
}

/// Allows front-end CSS to discern gtk theme via media queries.
#[derive(Clone, Copy, Debug, PartialEq, Eq, Structural)]
pub enum GtkThemeFamily {
    /// Unknown theme family.
    Unknown,
    /// Adwaita, the default GTK theme.
    Adwaita,
    /// Breeze, the default KDE theme.
    Breeze,
    /// Yaru, the default Ubuntu theme.
    Yaru,
}

/// Values for the scripting media feature.
///
/// <https://drafts.csswg.org/mediaqueries-5/#scripting>
#[derive(Clone, Copy, Debug, PartialEq, Eq, Structural)]
pub enum Scripting {
    /// Scripting is not supported or not enabled
    Disabled,
    /// Scripting is supported and enabled, but only for initial page load
    /// We will never match this value as it is intended for non-browser user agents,
    /// but it is part of the spec so we should still parse it.
    /// See: <https://github.com/w3c/csswg-drafts/issues/8621>
    InitialOnly,
    /// Scripting is supported and enabled
    Enabled,
}

/// What the pointing devices of a device can do, one bit for each ability.
///
/// <https://drafts.csswg.org/mediaqueries-4/#mf-interaction>
#[derive(Clone, Copy, Debug, PartialEq, Eq, Structural)]
pub struct PointerCapabilities {
    bits: u8,
}

/// The bit of a pointer of limited accuracy.
pub const POINTER_COARSE: u8 = 1;

/// The bit of an accurate pointer.
pub const POINTER_FINE: u8 = 2;

/// The bit of a pointer that can hover.
pub const POINTER_HOVER: u8 = 4;

/// The bits of the look-and-feel value for the scrollbar arrows.
pub const SCROLL_ARROW_START_BACKWARD: i32 = 0x1000;

pub const SCROLL_ARROW_START_FORWARD: i32 = 0x0100;

pub const SCROLL_ARROW_END_BACKWARD: i32 = 0x0010;

pub const SCROLL_ARROW_END_FORWARD: i32 = 0x0001;

impl PointerCapabilities {
    /// Only the bits of the three abilities are ever set.
    #[verifier::type_invariant]
    spec fn well_formed(self) -> bool {
        self.bits <= 7
    }

    /// The bits of the abilities.
    pub closed spec fn spec_bits(self) -> u8 {
        self.bits
    }

    /// Whether one of the abilities of `other` is among these.
    pub open spec fn spec_intersects(self, other: u8) -> bool {
        self.spec_bits() & other != 0
    }

    /// The abilities for the given bits. Bits that stand for no ability are
    /// dropped.
    pub fn from_bits_truncate(bits: u8) -> (capabilities: PointerCapabilities)
        ensures
            capabilities.spec_bits() == bits & 7,
    {
        assert(bits & 7 <= 7) by (bit_vector);
        PointerCapabilities { bits: bits & 7 }
    }

    /// The bits of the abilities.
    #[verifier::when_used_as_spec(spec_bits)]
    pub fn bits(self) -> (bits: u8)
        ensures
            bits == self.spec_bits(),
    {
        self.bits
    }

    /// Whether there is no ability at all.
    pub fn is_empty(self) -> (empty: bool)
        ensures
            empty == (self.spec_bits() == 0),
    {
        self.bits == 0
    }

    /// Whether one of the abilities of `other` is among these.
    #[verifier::when_used_as_spec(spec_intersects)]
    pub fn intersects(self, other: u8) -> (common: bool)
        ensures
            common == self.spec_intersects(other),
    {
        self.bits & other != 0
    }
}

/// The answers of the platform about the device that a document is shown on.
#[derive(Clone, Copy, Debug)]
pub struct Device {
    /// The size of the viewport.
    pub viewport_size: Size2D,
    /// The size of the device.
    pub device_size: Size2D,
    /// The media type.
    pub media_type: MediaType,
    /// Whether the document is shown in print preview.
    pub is_print_preview: bool,
    /// Whether colors are forced.
    pub forced_colors: ForcedColors,
    /// The display mode of the window.
    pub display_mode: DisplayMode,
    /// The color gamut of the screen.
    pub color_gamut: ColorGamut,
    /// Whether the user prefers reduced motion.
    pub prefers_reduced_motion: bool,
    /// Whether the user prefers reduced transparency.
    pub prefers_reduced_transparency: bool,
    /// The contrast that the user prefers.
    pub prefers_contrast: PrefersContrast,
    /// Whether the colors of the screen are inverted.
    pub inverted_colors: bool,
    /// The color scheme that the user prefers.
    pub prefers_color_scheme: PrefersColorScheme,
    /// The color scheme that the user prefers for content.
    pub content_prefers_color_scheme: PrefersColorScheme,
    /// The dynamic range of the screen.
    pub dynamic_range: DynamicRange,
    /// The dynamic range of video on the screen.
    pub video_dynamic_range: DynamicRange,
    /// What the primary pointing device can do.
    pub primary_pointer_capabilities: PointerCapabilities,
    /// What all pointing devices together can do.
    pub all_pointer_capabilities: PointerCapabilities,
    /// Whether the document holds SVG glyphs.
    pub is_svg_glyphs_document: bool,
    /// The platform.
    pub platform: Platform,
    /// The family of the GTK theme.
    pub gtk_theme_family: GtkThemeFamily,
    /// The state of scripting in the document.
    pub scripting: Scripting,
}

/// What a media query is evaluated in.
#[derive(Clone, Copy, Debug)]
pub struct Context {
    /// The device.
    pub device: Device,
}

impl Context {
    /// The device of this context.
    pub fn device(&self) -> (device: &Device)
        ensures
            *device == self.device,
    {
        &self.device
    }
}

impl Orientation {
    /// Whether a viewport of the given size has the orientation of the
    /// query. A viewport is in landscape where it is wider than high: square
    /// viewports are in portrait.
    pub open spec fn spec_eval(size: Size2D, value: Option<Orientation>) -> bool {
        match value {
            None => true,
            Some(Orientation::Landscape) => size.width > size.height,
            Some(Orientation::Portrait) => size.width <= size.height,
        }
    }

    /// Whether a viewport of the given size has the orientation of the query.
    pub fn eval(size: Size2D, value: Option<Orientation>) -> (matches: bool)
        ensures
            matches == Orientation::spec_eval(size, value),
    {
        let query_orientation = match value {
            Some(v) => v,
            None => {
                return true;
            },
        };
        // Per spec, square viewports should be 'portrait'
        let is_landscape = size.width > size.height;
        match query_orientation {
            Orientation::Landscape => is_landscape,
            Orientation::Portrait => !is_landscape,
        }
    }
}

impl ColorGamut {
    /// The place of the gamut among the gamuts, from the narrowest.
    pub open spec fn spec_rank(self) -> u8 {
        match self {
            ColorGamut::Srgb => 0,
            ColorGamut::P3 => 1,
            ColorGamut::Rec2020 => 2,
        }
    }

    /// The place of the gamut among the gamuts, from the narrowest.
    #[verifier::when_used_as_spec(spec_rank)]
    pub fn rank(self) -> (rank: u8)
        ensures
            rank == self.spec_rank(),
    {
        match self {
            ColorGamut::Srgb => 0,
            ColorGamut::P3 => 1,
            ColorGamut::Rec2020 => 2,
        }
    }
}

impl DynamicRange {
    /// The place of the range among the ranges, from the lowest.
    pub open spec fn spec_rank(self) -> u8 {
        match self {
            DynamicRange::Standard => 0,
            DynamicRange::High => 1,
        }
    }

    /// The place of the range among the ranges, from the lowest.
    #[verifier::when_used_as_spec(spec_rank)]
    pub fn rank(self) -> (rank: u8)
        ensures
            rank == self.spec_rank(),
    {
        match self {
            DynamicRange::Standard => 0,
            DynamicRange::High => 1,
        }
    }
}

/// The width of the viewport, in app units.
///
/// <https://drafts.csswg.org/mediaqueries-4/#width>
pub fn eval_width(context: &Context) -> (width: i32)
    ensures
        width == context.device.viewport_size.width,
{
    context.device().viewport_size.width
}

/// The width of the device, in app units.
///
/// <https://drafts.csswg.org/mediaqueries-4/#device-width>
pub fn eval_device_width(context: &Context) -> (width: i32)
    ensures
        width == context.device.device_size.width,
{
    context.device().device_size.width
}

/// The height of the viewport, in app units.
///
/// <https://drafts.csswg.org/mediaqueries-4/#height>
pub fn eval_height(context: &Context) -> (height: i32)
    ensures
        height == context.device.viewport_size.height,
{
    context.device().viewport_size.height
}

/// The height of the device, in app units.
///
/// <https://drafts.csswg.org/mediaqueries-4/#device-height>
pub fn eval_device_height(context: &Context) -> (height: i32)
    ensures
        height == context.device.device_size.height,
{
    context.device().device_size.height
}

/// The two terms of the aspect ratio of the viewport: its width and its
/// height.
///
/// <https://drafts.csswg.org/mediaqueries-4/#aspect-ratio>
pub fn eval_aspect_ratio(context: &Context) -> (ratio: (i32, i32))
    ensures
        ratio == (context.device.viewport_size.width, context.device.viewport_size.height),
{
    let size = context.device().viewport_size;
    (size.width, size.height)
}

/// The two terms of the aspect ratio of the device: its width and its height.
///
/// <https://drafts.csswg.org/mediaqueries-4/#device-aspect-ratio>
pub fn eval_device_aspect_ratio(context: &Context) -> (ratio: (i32, i32))
    ensures
        ratio == (context.device.device_size.width, context.device.device_size.height),
{
    let size = context.device().device_size;
    (size.width, size.height)
}

/// <https://drafts.csswg.org/mediaqueries-4/#orientation>
pub fn eval_orientation(context: &Context, value: Option<Orientation>) -> (matches: bool)
    ensures
        matches == Orientation::spec_eval(context.device.viewport_size, value),
{
    Orientation::eval(context.device().viewport_size, value)
}

/// The orientation of the device itself.
pub fn eval_device_orientation(context: &Context, value: Option<Orientation>) -> (matches: bool)
    ensures
        matches == Orientation::spec_eval(context.device.device_size, value),
{
    Orientation::eval(context.device().device_size, value)
}

/// <https://w3c.github.io/manifest/#the-display-mode-media-feature>
pub fn eval_display_mode(context: &Context, query_value: Option<DisplayMode>) -> (matches: bool)
    ensures
        matches == match query_value {
            Some(v) => v == context.device.display_mode,
            None => true,
        },
{
    match query_value {
        Some(v) => v == context.device().display_mode,
        None => true,
    }
}

/// <https://drafts.csswg.org/mediaqueries-4/#grid>
pub fn eval_grid(_context: &Context) -> (matches: bool)
    ensures
        !matches,
{
    // Grid devices (e.g., ttys) are not supported, so the 'grid' feature
    // is always 0.
    false
}

/// <https://compat.spec.whatwg.org/#css-media-queries-webkit-transform-3d>
pub fn eval_transform_3d(_context: &Context) -> (matches: bool)
    ensures
        matches,
{
    true
}

/// <https://drafts.csswg.org/mediaqueries-4/#scan>
pub fn eval_scan(_context: &Context, _query_value: Option<Scan>) -> (matches: bool)
    ensures
        !matches,
{
    // Since the 'tv' media type is not supported, the 'scan' feature never
    // matches.
    false
}

/// <https://drafts.csswg.org/mediaqueries-4/#color-index>
pub fn eval_color_index(_context: &Context) -> (index: i32)
    ensures
        index == 0,
{
    // We should return zero if the device does not use a color lookup table.
    0
}

/// <https://drafts.csswg.org/mediaqueries-4/#color-gamut>
pub fn eval_color_gamut(context: &Context, query_value: Option<ColorGamut>) -> (matches: bool)
    ensures
        matches == match query_value {
            Some(v) => v.spec_rank() <= context.device.color_gamut.spec_rank(),
            None => false,
        },
{
    let query_value = match query_value {
        Some(v) => v,
        None => {
            return false;
        },
    };
    let color_gamut = context.device().color_gamut;
    // Match if our color gamut is at least as wide as the query value
    query_value.rank() <= color_gamut.rank()
}

/// <https://drafts.csswg.org/mediaqueries-5/#prefers-reduced-motion>
pub fn eval_prefers_reduced_motion(context: &Context, query_value: Option<PrefersReducedMotion>) -> (matches:
    bool)
    ensures
        matches == match query_value {
            Some(PrefersReducedMotion::NoPreference) => !context.device.prefers_reduced_motion,
            Some(PrefersReducedMotion::Reduce) => context.device.prefers_reduced_motion,
            None => context.device.prefers_reduced_motion,
        },
{
    let prefers_reduced = context.device().prefers_reduced_motion;
    let query_value = match query_value {
        Some(v) => v,
        None => {
            return prefers_reduced;
        },
    };

    match query_value {
        PrefersReducedMotion::NoPreference => !prefers_reduced,
        PrefersReducedMotion::Reduce => prefers_reduced,
    }
}

/// <https://drafts.csswg.org/mediaqueries-5/#prefers-reduced-transparency>
pub fn eval_prefers_reduced_transparency(
    context: &Context,
    query_value: Option<PrefersReducedTransparency>,
) -> (matches: bool)
    ensures
        matches == match query_value {
            Some(PrefersReducedTransparency::NoPreference) => !context.device.prefers_reduced_transparency,
            Some(PrefersReducedTransparency::Reduce) => context.device.prefers_reduced_transparency,
            None => context.device.prefers_reduced_transparency,
        },
{
    let prefers_reduced = context.device().prefers_reduced_transparency;
    let query_value = match query_value {
        Some(v) => v,
        None => {
            return prefers_reduced;
        },
    };

    match query_value {
        PrefersReducedTransparency::NoPreference => !prefers_reduced,
        PrefersReducedTransparency::Reduce => prefers_reduced,
    }
}

/// <https://drafts.csswg.org/mediaqueries-5/#prefers-contrast>
pub fn eval_prefers_contrast(context: &Context, query_value: Option<PrefersContrast>) -> (matches: bool)
    ensures
        matches == match query_value {
            Some(v) => v == context.device.prefers_contrast,
            None => context.device.prefers_contrast != PrefersContrast::NoPreference,
        },
{
    let prefers_contrast = context.device().prefers_contrast;
    match query_value {
        Some(v) => v == prefers_contrast,
        None => prefers_contrast != PrefersContrast::NoPreference,
    }
}

/// <https://drafts.csswg.org/mediaqueries-5/#forced-colors>
pub fn eval_forced_colors(context: &Context, query_value: Option<ForcedColors>) -> (matches: bool)
    ensures
        matches == match query_value {
            Some(v) => v == context.device.forced_colors,
            None => context.device.forced_colors != ForcedColors::Inactive,
        },
{
    let forced = context.device().forced_colors;
    match query_value {
        Some(query_value) => query_value == forced,
        None => forced != ForcedColors::Inactive,
    }
}

/// <https://drafts.csswg.org/mediaqueries-5/#inverted>
pub fn eval_inverted_colors(context: &Context, query_value: Option<InvertedColors>) -> (matches: bool)
    ensures
        matches == match query_value {
            Some(InvertedColors::Normal) => !context.device.inverted_colors,
            Some(InvertedColors::Inverted) => context.device.inverted_colors,
            None => context.device.inverted_colors,
        },
{
    let inverted_colors = context.device().inverted_colors;
    let query_value = match query_value {
        Some(v) => v,
        None => {
            return inverted_colors;
        },
    };

    match query_value {
        InvertedColors::Normal => !inverted_colors,
        InvertedColors::Inverted => inverted_colors,
    }
}

/// <https://drafts.csswg.org/mediaqueries-4/#mf-overflow-block>
pub fn eval_overflow_block(context: &Context, query_value: Option<OverflowBlock>) -> (matches: bool)
    ensures
        matches == match query_value {
            Some(OverflowBlock::Hidden) => false,
            Some(OverflowBlock::Scroll) => context.device.media_type != MediaType::Print,
            Some(OverflowBlock::Paged) => context.device.media_type == MediaType::Print,
            None => true,
        },
{
    // For the time being, assume that printing (including previews)
    // is the only time when we paginate, and we are otherwise always
    // scrolling. This may need updating in the future (e.g., ebook readers,
    // a billboard mode that doesn't support overflow at all).
    //
    // If this ever changes, don't forget to change eval_overflow_inline too.
    let scrolling = context.device().media_type != MediaType::Print;
    let query_value = match query_value {
        Some(v) => v,
        None => {
            return true;
        },
    };

    match query_value {
        OverflowBlock::Hidden => false,
        OverflowBlock::Scroll => scrolling,
        OverflowBlock::Paged => !scrolling,
    }
}

/// <https://drafts.csswg.org/mediaqueries-4/#mf-overflow-inline>
pub fn eval_overflow_inline(context: &Context, query_value: Option<OverflowInline>) -> (matches: bool)
    ensures
        matches == match query_value {
            Some(OverflowInline::Hidden) => context.device.media_type == MediaType::Print,
            Some(OverflowInline::Scroll) => context.device.media_type != MediaType::Print,
            None => context.device.media_type != MediaType::Print,
        },
{
    // See the note in eval_overflow_block.
    let scrolling = context.device().media_type != MediaType::Print;
    let query_value = match query_value {
        Some(v) => v,
        None => {
            return scrolling;
        },
    };

    match query_value {
        OverflowInline::Hidden => !scrolling,
        OverflowInline::Scroll => scrolling,
    }
}

/// <https://drafts.csswg.org/mediaqueries-4/#update>
pub fn eval_update(context: &Context, query_value: Option<Update>) -> (matches: bool)
    ensures
        matches == match query_value {
            Some(Update::Never) => context.device.media_type == MediaType::Print,
            Some(Update::Slow) => false,
            Some(Update::Fast) => context.device.media_type != MediaType::Print,
            None => context.device.media_type != MediaType::Print,
        },
{
    // This has similar caveats to those described in eval_overflow_block.
    // For now, we report that print (incl. print media simulation,
    // which can in fact update but is limited to the developer tools)
    // is `update: none` and that all other contexts are `update: fast`,
    // which may not be true for future platforms, like e-ink devices.
    let can_update = context.device().media_type != MediaType::Print;
    let query_value = match query_value {
        Some(v) => v,
        None => {
            return can_update;
        },
    };

    match query_value {
        Update::Never => !can_update,
        Update::Slow => false,
        Update::Fast => can_update,
    }
}

/// Whether the color scheme that the user prefers, for content or for the
/// user interface, is that of the query.
pub fn do_eval_prefers_color_scheme(
    context: &Context,
    use_content: bool,
    query_value: Option<PrefersColorScheme>,
) -> (matches: bool)
    ensures
        matches == match query_value {
            Some(v) => v == if use_content {
                context.device.content_prefers_color_scheme
            } else {
                context.device.prefers_color_scheme
            },
            None => true,
        },
{
    let prefers_color_scheme = if use_content {
        context.device().content_prefers_color_scheme
    } else {
        context.device().prefers_color_scheme
    };
    match query_value {
        Some(v) => prefers_color_scheme == v,
        None => true,
    }
}

/// <https://drafts.csswg.org/mediaqueries-5/#prefers-color-scheme>
pub fn eval_prefers_color_scheme(context: &Context, query_value: Option<PrefersColorScheme>) -> (matches:
    bool)
    ensures
        matches == match query_value {
            Some(v) => v == context.device.prefers_color_scheme,
            None => true,
        },
{
    do_eval_prefers_color_scheme(context,  /* use_content = */ false, query_value)
}

/// The color scheme that the user prefers for content. Only useful in the
/// user interface, whose color scheme may differ from that of content.
pub fn eval_content_prefers_color_scheme(
    context: &Context,
    query_value: Option<PrefersColorScheme>,
) -> (matches: bool)
    ensures
        matches == match query_value {
            Some(v) => v == context.device.content_prefers_color_scheme,
            None => true,
        },
{
    do_eval_prefers_color_scheme(context,  /* use_content = */ true, query_value)
}

/// <https://drafts.csswg.org/mediaqueries-5/#dynamic-range>
pub fn eval_dynamic_range(context: &Context, query_value: Option<DynamicRange>) -> (matches: bool)
    ensures
        matches == match query_value {
            Some(v) => context.device.dynamic_range.spec_rank() >= v.spec_rank(),
            None => false,
        },
{
    let dynamic_range = context.device().dynamic_range;
    match query_value {
        Some(v) => dynamic_range.rank() >= v.rank(),
        None => false,
    }
}

/// <https://drafts.csswg.org/mediaqueries-5/#video-dynamic-range>
pub fn eval_video_dynamic_range(context: &Context, query_value: Option<DynamicRange>) -> (matches: bool)
    ensures
        matches == match query_value {
            Some(v) => context.device.video_dynamic_range.spec_rank() >= v.spec_rank(),
            None => false,
        },
{
    let dynamic_range = context.device().video_dynamic_range;
    match query_value {
        Some(v) => dynamic_range.rank() >= v.rank(),
        None => false,
    }
}

/// What the primary pointing device can do.
pub fn primary_pointer_capabilities(context: &Context) -> (capabilities: PointerCapabilities)
    ensures
        capabilities == context.device.primary_pointer_capabilities,
{
    context.device().primary_pointer_capabilities
}

/// What all pointing devices together can do.
pub fn all_pointer_capabilities(context: &Context) -> (capabilities: PointerCapabilities)
    ensures
        capabilities == context.device.all_pointer_capabilities,
{
    context.device().all_pointer_capabilities
}

/// Whether pointing devices with the given abilities are what the query
/// asks for.
pub open spec fn spec_eval_pointer_capabilities(
    query_value: Option<Pointer>,
    pointer_capabilities: PointerCapabilities,
) -> bool {
    match query_value {
        None => pointer_capabilities.spec_bits() != 0,
        Some(Pointer::Absent) => pointer_capabilities.spec_bits() == 0,
        Some(Pointer::Coarse) => pointer_capabilities.spec_intersects(POINTER_COARSE),
        Some(Pointer::Fine) => pointer_capabilities.spec_intersects(POINTER_FINE),
    }
}

/// Whether pointing devices with the given abilities are what the query
/// asks for.
pub fn eval_pointer_capabilities(query_value: Option<Pointer>, pointer_capabilities: PointerCapabilities) -> (matches:
    bool)
    ensures
        matches == spec_eval_pointer_capabilities(query_value, pointer_capabilities),
{
    let query_value = match query_value {
        Some(v) => v,
        None => {
            return !pointer_capabilities.is_empty();
        },
    };

    match query_value {
        Pointer::Absent => pointer_capabilities.is_empty(),
        Pointer::Coarse => pointer_capabilities.intersects(POINTER_COARSE),
        Pointer::Fine => pointer_capabilities.intersects(POINTER_FINE),
    }
}

/// <https://drafts.csswg.org/mediaqueries-4/#pointer>
pub fn eval_pointer(context: &Context, query_value: Option<Pointer>) -> (matches: bool)
    ensures
        matches == spec_eval_pointer_capabilities(query_value, context.device.primary_pointer_capabilities),
{
    eval_pointer_capabilities(query_value, primary_pointer_capabilities(context))
}

/// <https://drafts.csswg.org/mediaqueries-4/#descdef-media-any-pointer>
pub fn eval_any_pointer(context: &Context, query_value: Option<Pointer>) -> (matches: bool)
    ensures
        matches == spec_eval_pointer_capabilities(query_value, context.device.all_pointer_capabilities),
{
    eval_pointer_capabilities(query_value, all_pointer_capabilities(context))
}

/// Whether pointing devices with the given abilities hover as the query asks.
pub open spec fn spec_eval_hover_capabilities(
    query_value: Option<Hover>,
    pointer_capabilities: PointerCapabilities,
) -> bool {
    match query_value {
        None => pointer_capabilities.spec_intersects(POINTER_HOVER),
        Some(Hover::Absent) => !pointer_capabilities.spec_intersects(POINTER_HOVER),
        Some(Hover::Hover) => pointer_capabilities.spec_intersects(POINTER_HOVER),
    }
}

/// Whether pointing devices with the given abilities hover as the query asks.
pub fn eval_hover_capabilities(query_value: Option<Hover>, pointer_capabilities: PointerCapabilities) -> (matches:
    bool)
    ensures
        matches == spec_eval_hover_capabilities(query_value, pointer_capabilities),
{
    let can_hover = pointer_capabilities.intersects(POINTER_HOVER);
    let query_value = match query_value {
        Some(v) => v,
        None => {
            return can_hover;
        },
    };

    match query_value {
        Hover::Absent => !can_hover,
        Hover::Hover => can_hover,
    }
}

/// <https://drafts.csswg.org/mediaqueries-4/#hover>
pub fn eval_hover(context: &Context, query_value: Option<Hover>) -> (matches: bool)
    ensures
        matches == spec_eval_hover_capabilities(query_value, context.device.primary_pointer_capabilities),
{
    eval_hover_capabilities(query_value, primary_pointer_capabilities(context))
}

/// <https://drafts.csswg.org/mediaqueries-4/#descdef-media-any-hover>
pub fn eval_any_hover(context: &Context, query_value: Option<Hover>) -> (matches: bool)
    ensures
        matches == spec_eval_hover_capabilities(query_value, context.device.all_pointer_capabilities),
{
    eval_hover_capabilities(query_value, all_pointer_capabilities(context))
}

/// Whether the document holds SVG glyphs.
pub fn eval_moz_is_glyph(context: &Context) -> (matches: bool)
    ensures
        matches == context.device.is_svg_glyphs_document,
{
    context.device().is_svg_glyphs_document
}

/// Whether the document is shown in print preview. A document in print
/// preview has the print media type.
pub fn eval_moz_print_preview(context: &Context) -> (matches: bool)
    requires
        context.device.is_print_preview ==> context.device.media_type == MediaType::Print,
    ensures
        matches == context.device.is_print_preview,
{
    let is_print_preview = context.device().is_print_preview;
    if is_print_preview {
        assert(context.device.media_type == MediaType::Print);
    }
    is_print_preview
}

/// Whether the platform is that of the query.
pub fn eval_moz_platform(context: &Context, query_value: Option<Platform>) -> (matches: bool)
    ensures
        matches == match query_value {
            Some(v) => v == context.device.platform,
            None => false,
        },
{
    let query_value = match query_value {
        Some(v) => v,
        None => {
            return false;
        },
    };

    query_value == context.device().platform
}

/// Whether the family of the GTK theme is that of the query.
pub fn eval_gtk_theme_family(context: &Context, query_value: Option<GtkThemeFamily>) -> (matches: bool)
    ensures
        matches == match query_value {
            Some(v) => v == context.device.gtk_theme_family,
            None => context.device.gtk_theme_family != GtkThemeFamily::Unknown,
        },
{
    let family = context.device().gtk_theme_family;
    match query_value {
        Some(v) => v == family,
        None => family != GtkThemeFamily::Unknown,
    }
}

/// <https://drafts.csswg.org/mediaqueries-5/#scripting>
pub fn eval_scripting(context: &Context, query_value: Option<Scripting>) -> (matches: bool)
    ensures
        matches == match query_value {
            Some(v) => v == context.device.scripting,
            None => context.device.scripting != Scripting::Disabled,
        },
{
    let scripting = context.device().scripting;
    match query_value {
        Some(v) => v == scripting,
        None => scripting != Scripting::Disabled,
    }
}

/// Whether a look-and-feel value is set.
pub fn get_lnf_int_as_bool(value: i32) -> (set: bool)
    ensures
        set == (value != 0),
{
    value != 0
}

/// Whether the look-and-feel value for the scrollbar arrows has a backward
/// arrow at the start.
pub fn get_scrollbar_start_backward(value: i32) -> (set: bool)
    ensures
        set == (value & SCROLL_ARROW_START_BACKWARD != 0),
{
    (value & SCROLL_ARROW_START_BACKWARD) != 0
}

/// Whether the look-and-feel value for the scrollbar arrows has a forward
/// arrow at the start.
pub fn get_scrollbar_start_forward(value: i32) -> (set: bool)
    ensures
        set == (value & SCROLL_ARROW_START_FORWARD != 0),
{
    (value & SCROLL_ARROW_START_FORWARD) != 0
}

/// Whether the look-and-feel value for the scrollbar arrows has a backward
/// arrow at the end.
pub fn get_scrollbar_end_backward(value: i32) -> (set: bool)
    ensures
        set == (value & SCROLL_ARROW_END_BACKWARD != 0),
{
    (value & SCROLL_ARROW_END_BACKWARD) != 0
}

/// Whether the look-and-feel value for the scrollbar arrows has a forward
/// arrow at the end.
pub fn get_scrollbar_end_forward(value: i32) -> (set: bool)
    ensures
        set == (value & SCROLL_ARROW_END_FORWARD != 0),
{
    (value & SCROLL_ARROW_END_FORWARD) != 0
}

} // verus!
