use style::media_features::{
    eval_any_hover, eval_any_pointer, eval_aspect_ratio, eval_color_gamut, eval_color_index,
    eval_content_prefers_color_scheme, eval_device_aspect_ratio, eval_device_height,
    eval_device_orientation, eval_device_width, eval_display_mode, eval_dynamic_range,
    eval_forced_colors, eval_grid, eval_gtk_theme_family, eval_height, eval_hover,
    eval_hover_capabilities, eval_inverted_colors, eval_moz_is_glyph, eval_moz_platform,
    eval_moz_print_preview, eval_orientation, eval_overflow_block, eval_overflow_inline,
    eval_pointer, eval_pointer_capabilities, eval_prefers_color_scheme, eval_prefers_contrast,
    eval_prefers_reduced_motion, eval_prefers_reduced_transparency, eval_scan, eval_scripting,
    eval_transform_3d, eval_update, eval_video_dynamic_range, eval_width, get_lnf_int_as_bool,
    get_scrollbar_end_backward, get_scrollbar_end_forward, get_scrollbar_start_backward,
    get_scrollbar_start_forward, ColorGamut, Context, Device, DisplayMode, DynamicRange,
    ForcedColors, GtkThemeFamily, Hover, InvertedColors, MediaType, Orientation, OverflowBlock,
    OverflowInline, Platform, Pointer, PointerCapabilities, PrefersColorScheme, PrefersContrast,
    PrefersReducedMotion, PrefersReducedTransparency, Scan, Scripting, Size2D, Update,
    POINTER_COARSE, POINTER_FINE, POINTER_HOVER,
};

fn screen() -> Context {
    Context {
        device: Device {
            viewport_size: Size2D { width: 60_000, height: 36_000 },
            device_size: Size2D { width: 64_800, height: 115_200 },
            media_type: MediaType::Screen,
            is_print_preview: false,
            forced_colors: ForcedColors::Inactive,
            display_mode: DisplayMode::Browser,
            color_gamut: ColorGamut::P3,
            prefers_reduced_motion: false,
            prefers_reduced_transparency: true,
            prefers_contrast: PrefersContrast::NoPreference,
            inverted_colors: false,
            prefers_color_scheme: PrefersColorScheme::Dark,
            content_prefers_color_scheme: PrefersColorScheme::Light,
            dynamic_range: DynamicRange::High,
            video_dynamic_range: DynamicRange::Standard,
            primary_pointer_capabilities: PointerCapabilities::from_bits_truncate(POINTER_COARSE),
            all_pointer_capabilities: PointerCapabilities::from_bits_truncate(
                POINTER_COARSE | POINTER_FINE | POINTER_HOVER,
            ),
            is_svg_glyphs_document: false,
            platform: Platform::Linux,
            gtk_theme_family: GtkThemeFamily::Adwaita,
            scripting: Scripting::Enabled,
        },
    }
}

fn print() -> Context {
    let mut context = screen();
    context.device.media_type = MediaType::Print;
    context.device.is_print_preview = true;
    context
}

#[test]
fn sizes_are_those_of_the_viewport_and_of_the_device() {
    let context = screen();
    assert_eq!(eval_width(&context), 60_000);
    assert_eq!(eval_height(&context), 36_000);
    assert_eq!(eval_device_width(&context), 64_800);
    assert_eq!(eval_device_height(&context), 115_200);
    assert_eq!(eval_aspect_ratio(&context), (60_000, 36_000));
    assert_eq!(eval_device_aspect_ratio(&context), (64_800, 115_200));
}

#[test]
fn square_viewports_are_in_portrait() {
    let context = screen();
    assert!(eval_orientation(&context, None));
    assert!(eval_orientation(&context, Some(Orientation::Landscape)));
    assert!(!eval_orientation(&context, Some(Orientation::Portrait)));
    assert!(eval_device_orientation(&context, None));
    assert!(!eval_device_orientation(&context, Some(Orientation::Landscape)));
    assert!(eval_device_orientation(&context, Some(Orientation::Portrait)));
    let square = Size2D { width: 10, height: 10 };
    assert!(Orientation::eval(square, Some(Orientation::Portrait)));
    assert!(!Orientation::eval(square, Some(Orientation::Landscape)));
    assert!(Orientation::eval(square, None));
}

#[test]
fn features_that_never_or_always_match() {
    let context = screen();
    assert!(!eval_grid(&context));
    assert!(eval_transform_3d(&context));
    assert!(!eval_scan(&context, None));
    assert!(!eval_scan(&context, Some(Scan::Progressive)));
    assert!(!eval_scan(&context, Some(Scan::Interlace)));
    assert_eq!(eval_color_index(&context), 0);
}

#[test]
fn display_mode_matches_the_mode_of_the_window() {
    let context = screen();
    assert!(eval_display_mode(&context, None));
    assert!(eval_display_mode(&context, Some(DisplayMode::Browser)));
    assert!(!eval_display_mode(&context, Some(DisplayMode::MinimalUi)));
    assert!(!eval_display_mode(&context, Some(DisplayMode::Standalone)));
    assert!(!eval_display_mode(&context, Some(DisplayMode::Fullscreen)));
}

#[test]
fn narrower_gamuts_and_lower_ranges_match_wider_devices() {
    let context = screen();
    assert!(!eval_color_gamut(&context, None));
    assert!(eval_color_gamut(&context, Some(ColorGamut::Srgb)));
    assert!(eval_color_gamut(&context, Some(ColorGamut::P3)));
    assert!(!eval_color_gamut(&context, Some(ColorGamut::Rec2020)));
    assert!(!eval_dynamic_range(&context, None));
    assert!(eval_dynamic_range(&context, Some(DynamicRange::Standard)));
    assert!(eval_dynamic_range(&context, Some(DynamicRange::High)));
    assert!(!eval_video_dynamic_range(&context, None));
    assert!(eval_video_dynamic_range(&context, Some(DynamicRange::Standard)));
    assert!(!eval_video_dynamic_range(&context, Some(DynamicRange::High)));
    assert!(ColorGamut::Srgb.rank() < ColorGamut::P3.rank());
    assert!(ColorGamut::P3.rank() < ColorGamut::Rec2020.rank());
    assert!(DynamicRange::Standard.rank() < DynamicRange::High.rank());
}

#[test]
fn preferences_of_the_user() {
    let context = screen();
    assert!(!eval_prefers_reduced_motion(&context, None));
    assert!(eval_prefers_reduced_motion(&context, Some(PrefersReducedMotion::NoPreference)));
    assert!(!eval_prefers_reduced_motion(&context, Some(PrefersReducedMotion::Reduce)));
    assert!(eval_prefers_reduced_transparency(&context, None));
    assert!(!eval_prefers_reduced_transparency(
        &context,
        Some(PrefersReducedTransparency::NoPreference)
    ));
    assert!(eval_prefers_reduced_transparency(&context, Some(PrefersReducedTransparency::Reduce)));
    assert!(!eval_prefers_contrast(&context, None));
    assert!(eval_prefers_contrast(&context, Some(PrefersContrast::NoPreference)));
    assert!(!eval_prefers_contrast(&context, Some(PrefersContrast::More)));
    let mut more = screen();
    more.device.prefers_contrast = PrefersContrast::More;
    assert!(eval_prefers_contrast(&more, None));
    assert!(eval_prefers_contrast(&more, Some(PrefersContrast::More)));
    assert!(!eval_prefers_contrast(&more, Some(PrefersContrast::Less)));
    assert!(!eval_prefers_contrast(&more, Some(PrefersContrast::Custom)));
    assert!(eval_prefers_color_scheme(&context, None));
    assert!(eval_prefers_color_scheme(&context, Some(PrefersColorScheme::Dark)));
    assert!(!eval_prefers_color_scheme(&context, Some(PrefersColorScheme::Light)));
    assert!(eval_content_prefers_color_scheme(&context, None));
    assert!(!eval_content_prefers_color_scheme(&context, Some(PrefersColorScheme::Dark)));
    assert!(eval_content_prefers_color_scheme(&context, Some(PrefersColorScheme::Light)));
}

#[test]
fn colors_of_the_screen() {
    let context = screen();
    assert!(!eval_forced_colors(&context, None));
    assert!(eval_forced_colors(&context, Some(ForcedColors::Inactive)));
    assert!(!eval_forced_colors(&context, Some(ForcedColors::Active)));
    let mut forced = screen();
    forced.device.forced_colors = ForcedColors::Active;
    assert!(eval_forced_colors(&forced, None));
    assert!(eval_forced_colors(&forced, Some(ForcedColors::Active)));
    assert!(!eval_forced_colors(&forced, Some(ForcedColors::Requested)));
    assert!(!eval_inverted_colors(&context, None));
    assert!(eval_inverted_colors(&context, Some(InvertedColors::Normal)));
    assert!(!eval_inverted_colors(&context, Some(InvertedColors::Inverted)));
    let mut inverted = screen();
    inverted.device.inverted_colors = true;
    assert!(eval_inverted_colors(&inverted, None));
    assert!(!eval_inverted_colors(&inverted, Some(InvertedColors::Normal)));
    assert!(eval_inverted_colors(&inverted, Some(InvertedColors::Inverted)));
}

#[test]
fn screens_scroll_and_update_and_print_does_neither() {
    let screen = screen();
    let print = print();
    assert!(eval_overflow_block(&screen, None));
    assert!(eval_overflow_block(&print, None));
    assert!(!eval_overflow_block(&screen, Some(OverflowBlock::Hidden)));
    assert!(!eval_overflow_block(&print, Some(OverflowBlock::Hidden)));
    assert!(eval_overflow_block(&screen, Some(OverflowBlock::Scroll)));
    assert!(!eval_overflow_block(&print, Some(OverflowBlock::Scroll)));
    assert!(!eval_overflow_block(&screen, Some(OverflowBlock::Paged)));
    assert!(eval_overflow_block(&print, Some(OverflowBlock::Paged)));

    assert!(eval_overflow_inline(&screen, None));
    assert!(!eval_overflow_inline(&print, None));
    assert!(!eval_overflow_inline(&screen, Some(OverflowInline::Hidden)));
    assert!(eval_overflow_inline(&print, Some(OverflowInline::Hidden)));
    assert!(eval_overflow_inline(&screen, Some(OverflowInline::Scroll)));
    assert!(!eval_overflow_inline(&print, Some(OverflowInline::Scroll)));

    assert!(eval_update(&screen, None));
    assert!(!eval_update(&print, None));
    assert!(!eval_update(&screen, Some(Update::Never)));
    assert!(eval_update(&print, Some(Update::Never)));
    assert!(!eval_update(&screen, Some(Update::Slow)));
    assert!(!eval_update(&print, Some(Update::Slow)));
    assert!(eval_update(&screen, Some(Update::Fast)));
    assert!(!eval_update(&print, Some(Update::Fast)));

    assert!(!eval_moz_print_preview(&screen));
    assert!(eval_moz_print_preview(&print));
}

#[test]
fn pointer_capabilities_keep_the_known_bits() {
    assert_eq!(PointerCapabilities::from_bits_truncate(0).bits(), 0);
    assert_eq!(PointerCapabilities::from_bits_truncate(5).bits(), 5);
    assert_eq!(PointerCapabilities::from_bits_truncate(0xff).bits(), 7);
    assert_eq!(PointerCapabilities::from_bits_truncate(0xf8).bits(), 0);
    assert!(PointerCapabilities::from_bits_truncate(8).is_empty());
    assert!(!PointerCapabilities::from_bits_truncate(4).is_empty());
    let fine = PointerCapabilities::from_bits_truncate(POINTER_FINE);
    assert!(fine.intersects(POINTER_FINE));
    assert!(fine.intersects(POINTER_FINE | POINTER_HOVER));
    assert!(!fine.intersects(POINTER_COARSE | POINTER_HOVER));
}

#[test]
fn pointer_and_hover_match_the_capabilities() {
    let none = PointerCapabilities::from_bits_truncate(0);
    let coarse = PointerCapabilities::from_bits_truncate(POINTER_COARSE);
    let fine_hover = PointerCapabilities::from_bits_truncate(POINTER_FINE | POINTER_HOVER);
    let both = PointerCapabilities::from_bits_truncate(POINTER_FINE | POINTER_COARSE);

    assert!(!eval_pointer_capabilities(None, none));
    assert!(eval_pointer_capabilities(None, coarse));
    assert!(eval_pointer_capabilities(Some(Pointer::Absent), none));
    assert!(!eval_pointer_capabilities(Some(Pointer::Absent), coarse));
    assert!(eval_pointer_capabilities(Some(Pointer::Coarse), coarse));
    assert!(!eval_pointer_capabilities(Some(Pointer::Coarse), fine_hover));
    assert!(!eval_pointer_capabilities(Some(Pointer::Fine), coarse));
    assert!(eval_pointer_capabilities(Some(Pointer::Fine), fine_hover));
    assert!(eval_pointer_capabilities(Some(Pointer::Coarse), both));
    assert!(eval_pointer_capabilities(Some(Pointer::Fine), both));

    assert!(!eval_hover_capabilities(None, coarse));
    assert!(eval_hover_capabilities(None, fine_hover));
    assert!(eval_hover_capabilities(Some(Hover::Absent), coarse));
    assert!(!eval_hover_capabilities(Some(Hover::Absent), fine_hover));
    assert!(!eval_hover_capabilities(Some(Hover::Hover), none));
    assert!(eval_hover_capabilities(Some(Hover::Hover), fine_hover));

    let context = screen();
    assert!(eval_pointer(&context, Some(Pointer::Coarse)));
    assert!(!eval_pointer(&context, Some(Pointer::Fine)));
    assert!(eval_any_pointer(&context, Some(Pointer::Fine)));
    assert!(!eval_hover(&context, None));
    assert!(eval_hover(&context, Some(Hover::Absent)));
    assert!(eval_any_hover(&context, None));
    assert!(eval_any_hover(&context, Some(Hover::Hover)));
}

#[test]
fn features_of_the_user_interface() {
    let context = screen();
    assert!(!eval_moz_is_glyph(&context));
    assert!(!eval_moz_platform(&context, None));
    assert!(eval_moz_platform(&context, Some(Platform::Linux)));
    for other in [Platform::Android, Platform::Ios, Platform::Macos, Platform::Windows] {
        assert!(!eval_moz_platform(&context, Some(other)));
    }
    assert!(eval_gtk_theme_family(&context, None));
    assert!(eval_gtk_theme_family(&context, Some(GtkThemeFamily::Adwaita)));
    assert!(!eval_gtk_theme_family(&context, Some(GtkThemeFamily::Breeze)));
    assert!(!eval_gtk_theme_family(&context, Some(GtkThemeFamily::Yaru)));
    let mut unknown = screen();
    unknown.device.gtk_theme_family = GtkThemeFamily::Unknown;
    assert!(!eval_gtk_theme_family(&unknown, None));
    assert!(eval_gtk_theme_family(&unknown, Some(GtkThemeFamily::Unknown)));
    assert!(eval_scripting(&context, None));
    assert!(eval_scripting(&context, Some(Scripting::Enabled)));
    assert!(!eval_scripting(&context, Some(Scripting::InitialOnly)));
    let mut disabled = screen();
    disabled.device.scripting = Scripting::Disabled;
    assert!(!eval_scripting(&disabled, None));
    assert!(eval_scripting(&disabled, Some(Scripting::Disabled)));
}

#[test]
fn look_and_feel_values() {
    assert!(!get_lnf_int_as_bool(0));
    assert!(get_lnf_int_as_bool(1));
    assert!(get_lnf_int_as_bool(-1));
    assert!(get_scrollbar_start_backward(0x1000));
    assert!(!get_scrollbar_start_backward(0x0111));
    assert!(get_scrollbar_start_forward(0x0100));
    assert!(!get_scrollbar_start_forward(0x1011));
    assert!(get_scrollbar_end_backward(0x0010));
    assert!(!get_scrollbar_end_backward(0x1101));
    assert!(get_scrollbar_end_forward(0x0001));
    assert!(!get_scrollbar_end_forward(0x1110));
    assert!(get_scrollbar_start_backward(0x1111) && get_scrollbar_end_forward(0x1111));
    assert!(!get_scrollbar_start_backward(0) && !get_scrollbar_end_forward(0));
}
