use glutin_glx::creation::context_attributes;
use glutin_glx::descriptor::fbconfig_descriptor;
use glutin_glx::tokens;
use glutin_glx::types::{
    CreationError, GlProfile, PixelFormatRequirements, ReleaseBehavior, Robustness,
};
use glutin_glx_sys::{glx, glx_extra};

fn plain() -> PixelFormatRequirements {
    PixelFormatRequirements {
        hardware_accelerated: Some(true),
        color_bits: None,
        float_color_buffer: false,
        alpha_bits: None,
        depth_bits: None,
        stencil_bits: None,
        double_buffer: None,
        multisampling: None,
        stereoscopy: false,
        srgb: false,
        release_behavior: ReleaseBehavior::Flush,
        x11_visual_xid: None,
    }
}

fn signed(token: u32) -> i32 {
    token as i32
}

#[test]
fn least_descriptor() {
    assert_eq!(
        fbconfig_descriptor("", &plain()),
        Ok(vec![
            0x8012, 1, 0x22, 0x8002, 0x8010, 1, 0x8011, 1, 5, 1, 6, 0, 0x20, -1, 0,
        ]),
    );
}

#[test]
fn greatest_descriptor() {
    let reqs = PixelFormatRequirements {
        hardware_accelerated: None,
        color_bits: Some(26),
        float_color_buffer: true,
        alpha_bits: Some(8),
        depth_bits: Some(24),
        stencil_bits: Some(7),
        double_buffer: Some(false),
        multisampling: Some(16),
        stereoscopy: true,
        srgb: true,
        release_behavior: ReleaseBehavior::Nothing,
        x11_visual_xid: Some(0x21),
    };
    let extensions = "GLX_ARB_fbconfig_float GLX_ARB_multisample GLX_ARB_framebuffer_sRGB \
                      GLX_ARB_context_flush_control";
    let list = fbconfig_descriptor(extensions, &reqs).unwrap();
    assert_eq!(list.len(), 37);
    assert_eq!(
        list,
        vec![
            signed(glx::X_RENDERABLE),
            1,
            signed(glx::X_VISUAL_TYPE),
            signed(glx::TRUE_COLOR),
            signed(glx::VISUAL_ID),
            0x21,
            signed(glx::DRAWABLE_TYPE),
            signed(glx::WINDOW_BIT),
            signed(glx::RENDER_TYPE),
            signed(glx_extra::RGBA_FLOAT_BIT_ARB),
            signed(glx::RED_SIZE),
            8,
            signed(glx::GREEN_SIZE),
            9,
            signed(glx::BLUE_SIZE),
            9,
            signed(glx::ALPHA_SIZE),
            8,
            signed(glx::DEPTH_SIZE),
            24,
            signed(glx::STENCIL_SIZE),
            7,
            signed(glx::DOUBLEBUFFER),
            0,
            signed(glx_extra::SAMPLE_BUFFERS_ARB),
            1,
            signed(glx_extra::SAMPLES_ARB),
            16,
            signed(glx::STEREO),
            1,
            signed(glx_extra::FRAMEBUFFER_SRGB_CAPABLE_ARB),
            1,
            signed(glx_extra::CONTEXT_RELEASE_BEHAVIOR_ARB),
            signed(glx_extra::CONTEXT_RELEASE_BEHAVIOR_NONE_ARB),
            signed(glx::CONFIG_CAVEAT),
            signed(glx::DONT_CARE),
            0,
        ],
    );
}

#[test]
fn lists_are_read_whole() {
    let reqs = PixelFormatRequirements {
        color_bits: Some(0),
        alpha_bits: Some(0),
        depth_bits: Some(0),
        stencil_bits: Some(0),
        multisampling: Some(0),
        x11_visual_xid: Some(0),
        ..plain()
    };
    let lists = [
        fbconfig_descriptor("GLX_ARB_multisample", &reqs).unwrap(),
        context_attributes((0, 0), None, false, Robustness::NotRobust, false).unwrap(),
    ];
    for list in lists {
        let names: Vec<i32> = list.chunks(2).map(|p| p[0]).collect();
        let end = names.iter().position(|name| *name == 0).unwrap();
        assert_eq!(end, names.len() - 1);
        for (i, name) in names.iter().enumerate() {
            assert!(!names[..i].contains(name));
        }
    }
}

#[test]
fn missing_extensions_are_errors() {
    let float = PixelFormatRequirements { float_color_buffer: true, ..plain() };
    assert_eq!(fbconfig_descriptor("GLX_ARB_multisample", &float), Err(()));
    assert!(fbconfig_descriptor("GLX_ARB_fbconfig_float", &float).is_ok());

    let samples = PixelFormatRequirements { multisampling: Some(4), ..plain() };
    assert_eq!(fbconfig_descriptor("GLX_ARB_fbconfig_float", &samples), Err(()));
    assert!(fbconfig_descriptor("GLX_ARB_multisample", &samples).is_ok());

    let srgb = PixelFormatRequirements { srgb: true, ..plain() };
    assert_eq!(fbconfig_descriptor("", &srgb), Err(()));
    assert!(fbconfig_descriptor("GLX_ARB_framebuffer_sRGB", &srgb).is_ok());
    let ext = fbconfig_descriptor("GLX_EXT_framebuffer_sRGB", &srgb).unwrap();
    assert!(ext.chunks(2).any(|p| p == [signed(glx_extra::FRAMEBUFFER_SRGB_CAPABLE_EXT), 1]));
}

#[test]
fn release_without_flush_is_dropped_where_unknown() {
    let reqs = PixelFormatRequirements { release_behavior: ReleaseBehavior::Nothing, ..plain() };
    assert_eq!(fbconfig_descriptor("", &reqs), fbconfig_descriptor("", &plain()));
}

#[test]
fn no_samples_means_no_sample_buffers() {
    let reqs = PixelFormatRequirements { multisampling: Some(0), ..plain() };
    let list = fbconfig_descriptor("GLX_ARB_multisample", &reqs).unwrap();
    assert!(list.chunks(2).any(|p| p == [100000, 0]));
    assert!(list.chunks(2).any(|p| p == [100001, 0]));
}

#[test]
fn colors_add_up() {
    for color in 0..=255u8 {
        let reqs = PixelFormatRequirements { color_bits: Some(color), ..plain() };
        let list = fbconfig_descriptor("", &reqs).unwrap();
        let size = |name: i32| list.chunks(2).find(|p| p[0] == name).unwrap()[1];
        assert_eq!(size(8) + size(9) + size(10), color as i32);
        assert_eq!(size(8), (color / 3) as i32);
    }
}

#[test]
fn visual_id_keeps_its_low_bits() {
    let id = |xid: u64| {
        let reqs = PixelFormatRequirements { x11_visual_xid: Some(xid), ..plain() };
        fbconfig_descriptor("", &reqs).unwrap()[5]
    };
    assert_eq!(id(0x21), 0x21);
    assert_eq!(id(0xffff_ffff), -1);
    assert_eq!(id(0x1_0000_0005), 5);
}

#[test]
fn least_context_attributes() {
    assert_eq!(
        context_attributes((4, 6), None, false, Robustness::NotRobust, true),
        Ok(vec![0x2091, 4, 0x2092, 6, 0x2094, 0, 0]),
    );
    assert_eq!(
        context_attributes((4, 6), None, true, Robustness::NoError, false),
        Ok(vec![0x2091, 4, 0x2092, 6, 0x2094, 1, 0]),
    );
}

#[test]
fn greatest_context_attributes() {
    assert_eq!(
        context_attributes(
            (3, 2),
            Some(GlProfile::Core),
            true,
            Robustness::RobustLoseContextOnReset,
            true,
        ),
        Ok(vec![
            signed(glx_extra::CONTEXT_MAJOR_VERSION_ARB),
            3,
            signed(glx_extra::CONTEXT_MINOR_VERSION_ARB),
            2,
            signed(glx_extra::CONTEXT_PROFILE_MASK_ARB),
            signed(glx_extra::CONTEXT_CORE_PROFILE_BIT_ARB),
            signed(glx_extra::CONTEXT_RESET_NOTIFICATION_STRATEGY_ARB),
            signed(glx_extra::LOSE_CONTEXT_ON_RESET_ARB),
            signed(glx_extra::CONTEXT_FLAGS_ARB),
            signed(glx_extra::CONTEXT_ROBUST_ACCESS_BIT_ARB | glx_extra::CONTEXT_DEBUG_BIT_ARB),
            0,
        ]),
    );
    assert_eq!(
        context_attributes(
            (1, 0),
            Some(GlProfile::Compatibility),
            false,
            Robustness::TryRobustNoResetNotification,
            true,
        ),
        Ok(vec![
            0x2091,
            1,
            0x2092,
            0,
            signed(glx_extra::CONTEXT_PROFILE_MASK_ARB),
            signed(glx_extra::CONTEXT_COMPATIBILITY_PROFILE_BIT_ARB),
            signed(glx_extra::CONTEXT_RESET_NOTIFICATION_STRATEGY_ARB),
            signed(glx_extra::NO_RESET_NOTIFICATION_ARB),
            0x2094,
            4,
            0,
        ]),
    );
}

#[test]
fn robustness_that_is_not_known() {
    for robustness in [Robustness::RobustNoResetNotification, Robustness::RobustLoseContextOnReset]
    {
        assert_eq!(
            context_attributes((3, 3), None, false, robustness, false),
            Err(CreationError::RobustnessNotSupported),
        );
    }
    for robustness in [
        Robustness::NotRobust,
        Robustness::NoError,
        Robustness::TryRobustNoResetNotification,
        Robustness::TryRobustLoseContextOnReset,
    ] {
        assert_eq!(
            context_attributes((3, 3), None, false, robustness, false),
            Ok(vec![0x2091, 3, 0x2092, 3, 0x2094, 0, 0]),
        );
    }
}

#[test]
fn tokens_are_those_of_the_bindings() {
    assert_eq!(tokens::GLX_X_RENDERABLE, signed(glx::X_RENDERABLE));
    assert_eq!(tokens::GLX_X_VISUAL_TYPE, signed(glx::X_VISUAL_TYPE));
    assert_eq!(tokens::GLX_TRUE_COLOR, signed(glx::TRUE_COLOR));
    assert_eq!(tokens::GLX_VISUAL_ID, signed(glx::VISUAL_ID));
    assert_eq!(tokens::GLX_DRAWABLE_TYPE, signed(glx::DRAWABLE_TYPE));
    assert_eq!(tokens::GLX_WINDOW_BIT, signed(glx::WINDOW_BIT));
    assert_eq!(tokens::GLX_RENDER_TYPE, signed(glx::RENDER_TYPE));
    assert_eq!(tokens::GLX_RGBA_BIT, signed(glx::RGBA_BIT));
    assert_eq!(tokens::GLX_RGBA_FLOAT_BIT_ARB, signed(glx_extra::RGBA_FLOAT_BIT_ARB));
    assert_eq!(tokens::GLX_RED_SIZE, signed(glx::RED_SIZE));
    assert_eq!(tokens::GLX_GREEN_SIZE, signed(glx::GREEN_SIZE));
    assert_eq!(tokens::GLX_BLUE_SIZE, signed(glx::BLUE_SIZE));
    assert_eq!(tokens::GLX_ALPHA_SIZE, signed(glx::ALPHA_SIZE));
    assert_eq!(tokens::GLX_DEPTH_SIZE, signed(glx::DEPTH_SIZE));
    assert_eq!(tokens::GLX_STENCIL_SIZE, signed(glx::STENCIL_SIZE));
    assert_eq!(tokens::GLX_DOUBLEBUFFER, signed(glx::DOUBLEBUFFER));
    assert_eq!(tokens::GLX_SAMPLE_BUFFERS_ARB, signed(glx_extra::SAMPLE_BUFFERS_ARB));
    assert_eq!(tokens::GLX_SAMPLES_ARB, signed(glx_extra::SAMPLES_ARB));
    assert_eq!(tokens::GLX_SAMPLE_BUFFERS, signed(glx::SAMPLE_BUFFERS));
    assert_eq!(tokens::GLX_SAMPLES, signed(glx::SAMPLES));
    assert_eq!(tokens::GLX_STEREO, signed(glx::STEREO));
    assert_eq!(tokens::GLX_FRAMEBUFFER_SRGB_CAPABLE_ARB, signed(glx_extra::FRAMEBUFFER_SRGB_CAPABLE_ARB));
    assert_eq!(tokens::GLX_FRAMEBUFFER_SRGB_CAPABLE_EXT, signed(glx_extra::FRAMEBUFFER_SRGB_CAPABLE_EXT));
    assert_eq!(tokens::GLX_CONTEXT_RELEASE_BEHAVIOR_ARB, signed(glx_extra::CONTEXT_RELEASE_BEHAVIOR_ARB));
    assert_eq!(tokens::GLX_CONTEXT_RELEASE_BEHAVIOR_NONE_ARB, signed(glx_extra::CONTEXT_RELEASE_BEHAVIOR_NONE_ARB));
    assert_eq!(tokens::GLX_CONFIG_CAVEAT, signed(glx::CONFIG_CAVEAT));
    assert_eq!(tokens::GLX_SLOW_CONFIG, signed(glx::SLOW_CONFIG));
    assert_eq!(tokens::GLX_DONT_CARE, signed(glx::DONT_CARE));
    assert_eq!(tokens::GLX_CONTEXT_MAJOR_VERSION_ARB, signed(glx_extra::CONTEXT_MAJOR_VERSION_ARB));
    assert_eq!(tokens::GLX_CONTEXT_MINOR_VERSION_ARB, signed(glx_extra::CONTEXT_MINOR_VERSION_ARB));
    assert_eq!(tokens::GLX_CONTEXT_PROFILE_MASK_ARB, signed(glx_extra::CONTEXT_PROFILE_MASK_ARB));
    assert_eq!(tokens::GLX_CONTEXT_CORE_PROFILE_BIT_ARB, signed(glx_extra::CONTEXT_CORE_PROFILE_BIT_ARB));
    assert_eq!(tokens::GLX_CONTEXT_COMPATIBILITY_PROFILE_BIT_ARB, signed(glx_extra::CONTEXT_COMPATIBILITY_PROFILE_BIT_ARB));
    assert_eq!(tokens::GLX_CONTEXT_RESET_NOTIFICATION_STRATEGY_ARB, signed(glx_extra::CONTEXT_RESET_NOTIFICATION_STRATEGY_ARB));
    assert_eq!(tokens::GLX_NO_RESET_NOTIFICATION_ARB, signed(glx_extra::NO_RESET_NOTIFICATION_ARB));
    assert_eq!(tokens::GLX_LOSE_CONTEXT_ON_RESET_ARB, signed(glx_extra::LOSE_CONTEXT_ON_RESET_ARB));
    assert_eq!(tokens::GLX_CONTEXT_FLAGS_ARB, signed(glx_extra::CONTEXT_FLAGS_ARB));
    assert_eq!(tokens::GLX_CONTEXT_DEBUG_BIT_ARB, signed(glx_extra::CONTEXT_DEBUG_BIT_ARB));
    assert_eq!(tokens::GLX_CONTEXT_ROBUST_ACCESS_BIT_ARB, signed(glx_extra::CONTEXT_ROBUST_ACCESS_BIT_ARB));
}
