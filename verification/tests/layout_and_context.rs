//! Tests of the attribute layout and the window/context configuration.

use gl_triangle::context::{
    context_matches, requested_context, window_config, window_title, ContextRequest, GlProfile,
    SCREEN_HEIGHT, SCREEN_WIDTH,
};
use gl_triangle::layout::{color_attribute, position_attribute, STRIDE_BYTES};

#[test]
fn position_attribute_reads_three_floats_at_offset_zero() {
    let a = position_attribute();
    assert_eq!(a.index, 0);
    assert_eq!(a.components, 3);
    assert!(!a.normalized);
    assert_eq!(a.stride_bytes, 24);
    assert_eq!(a.offset_bytes, 0);
}

#[test]
fn color_attribute_reads_three_floats_at_offset_twelve() {
    let a = color_attribute();
    assert_eq!(a.index, 1);
    assert_eq!(a.components, 3);
    assert!(!a.normalized);
    assert_eq!(a.stride_bytes, 24);
    assert_eq!(a.offset_bytes, 12);
}

#[test]
fn both_attributes_stride_one_24_byte_record() {
    assert_eq!(STRIDE_BYTES, 24);
    assert_eq!(position_attribute().stride_bytes, STRIDE_BYTES);
    assert_eq!(color_attribute().stride_bytes, STRIDE_BYTES);
}

#[test]
fn requested_context_is_core_3_3() {
    let request = requested_context();
    assert_eq!(request.profile, GlProfile::Core);
    assert_eq!((request.major, request.minor), (3, 3));
}

#[test]
fn context_matches_accepts_the_request_itself() {
    let request = requested_context();
    assert!(context_matches(&request, &request));
}

#[test]
fn context_matches_rejects_a_different_profile_or_version() {
    let request = requested_context();
    let compat = ContextRequest { profile: GlProfile::Compatibility, major: 3, minor: 3 };
    assert!(!context_matches(&compat, &request));
    let newer = ContextRequest { profile: GlProfile::Core, major: 4, minor: 1 };
    assert!(!context_matches(&newer, &request));
}

#[test]
fn window_is_800_by_600_centered_resizable_opengl() {
    let config = window_config();
    assert_eq!(config.width, 800);
    assert_eq!(config.height, 600);
    assert_eq!((config.width, config.height), (SCREEN_WIDTH, SCREEN_HEIGHT));
    assert!(config.opengl);
    assert!(config.centered);
    assert!(config.resizable);
}

#[test]
fn window_title_is_the_playground_title() {
    assert_eq!(window_title(), "OpenGL Playground");
}
