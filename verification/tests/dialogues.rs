use glutin_glx::creation::create_context;
use glutin_glx::destruction::DestructionError;
use glutin_glx::fbconfig::choose_fbconfig;
use glutin_glx::protocol::{Call, ErrorHandler, Machine, Reply, Step, Visual};
use glutin_glx::types::{
    Api, ContextError, CreationError, GlAttributes, GlProfile, GlRequest, PixelFormat,
    PixelFormatRequirements, ReleaseBehavior, Robustness, VisualInfo,
};
use glutin_glx::{Context, ContextPrototype, Glx};

/// Answers the calls of an operation with `replies` in turn. Every reply must be fit
/// and needed, and the operation must be over after the last.
fn converse<M: Machine>(first: Step<M, M::Out>, replies: Vec<Reply>) -> (Vec<Call>, M::Out) {
    let mut calls = Vec::new();
    let mut step = first;
    for reply in replies {
        match step {
            Step::Ask(machine, call) => {
                calls.push(call);
                assert!(machine.ready(&reply));
                step = machine.next(reply);
            }
            Step::Done(_) => panic!("a reply too many"),
        }
    }
    match step {
        Step::Ask(_, _) => panic!("a reply too few"),
        Step::Done(out) => (calls, out),
    }
}

fn plain() -> PixelFormatRequirements {
    PixelFormatRequirements {
        hardware_accelerated: Some(true),
        color_bits: Some(24),
        float_color_buffer: false,
        alpha_bits: Some(8),
        depth_bits: Some(24),
        stencil_bits: Some(8),
        double_buffer: None,
        multisampling: None,
        stereoscopy: false,
        srgb: false,
        release_behavior: ReleaseBehavior::Flush,
        x11_visual_xid: None,
    }
}

fn info(depth: i32) -> VisualInfo {
    VisualInfo {
        visual: 0x77,
        visualid: 0x21,
        screen: 0,
        depth,
        class: 4,
        red_mask: 0xff0000,
        green_mask: 0xff00,
        blue_mask: 0xff,
        colormap_size: 256,
        bits_per_rgb: 8,
    }
}

fn visual(pointer: usize, depth: i32) -> Reply {
    Reply::Visual(Some(Visual { pointer, info: info(depth) }))
}

const ATTRIBS: [i32; 10] = [0x20, 8, 9, 10, 11, 12, 13, 6, 5, 100000];

fn values(values: &[i32]) -> Vec<Reply> {
    values.iter().map(|v| Reply::Attrib(*v)).collect()
}

fn reads(display: usize, fb_config: usize, attribs: &[i32]) -> Vec<Call> {
    attribs
        .iter()
        .map(|a| Call::GetFbConfigAttrib { display, fb_config, attrib: *a })
        .collect()
}

const PLAIN_VALUES: [i32; 12] = [0x8000, 8, 8, 8, 8, 24, 8, 0, 1, 0, 0, 0];

fn plain_format() -> PixelFormat {
    PixelFormat {
        hardware_accelerated: true,
        color_bits: 24,
        alpha_bits: 8,
        depth_bits: 24,
        stencil_bits: 8,
        stereoscopy: false,
        double_buffer: true,
        multisampling: None,
        srgb: false,
    }
}

#[test]
fn versioned_library_goes_first() {
    let (calls, out) = converse(Glx::new(), vec![Reply::Address(5)]);
    assert_eq!(calls, vec![Call::OpenLibrary { path: "libGL.so.1" }]);
    assert_eq!(out, Ok(Glx { library: 5 }));

    let (calls, out) = converse(Glx::new(), vec![Reply::Address(0), Reply::Address(6)]);
    assert_eq!(
        calls,
        vec![
            Call::OpenLibrary { path: "libGL.so.1" },
            Call::OpenLibrary { path: "libGL.so" },
        ],
    );
    assert_eq!(out, Ok(Glx { library: 6 }));

    let (_, out) = converse(Glx::new(), vec![Reply::Address(0), Reply::Address(0)]);
    assert_eq!(out, Err(()));
}

#[test]
fn opaque_choice_takes_the_first_config() {
    let mut replies = vec![Reply::Configs { list: 0x90, configs: vec![31, 32] }, Reply::Done];
    replies.extend(values(&PLAIN_VALUES));
    let (calls, out) = converse(choose_fbconfig("", 1, 2, &plain(), false), replies);
    assert_eq!(out, Ok((31, plain_format())));
    let mut expected = vec![
        Call::ChooseFbConfig {
            display: 1,
            screen: 2,
            attribs: vec![
                0x8012, 1, 0x22, 0x8002, 0x8010, 1, 0x8011, 1, 8, 8, 9, 8, 10, 8, 11, 8, 12, 24,
                13, 8, 5, 1, 6, 0, 0x20, -1, 0,
            ],
        },
        Call::Free { pointer: 0x90 },
    ];
    expected.extend(reads(1, 31, &ATTRIBS));
    expected.extend(reads(1, 31, &[0x20b2, 0x20b2]));
    assert_eq!(calls, expected);
}

#[test]
fn transparent_choice_takes_the_first_deep_config() {
    let mut replies = vec![
        Reply::Configs { list: 0x90, configs: vec![31, 32, 33, 34] },
        visual(0xa0, 24),
        Reply::Done,
        Reply::Visual(None),
        Reply::Done,
        visual(0xa2, 32),
        Reply::Done,
        Reply::Done,
    ];
    replies.extend(values(&PLAIN_VALUES));
    let (calls, out) = converse(choose_fbconfig("", 1, 2, &plain(), true), replies);
    assert_eq!(out, Ok((33, plain_format())));
    assert_eq!(
        calls[1..8],
        [
            Call::GetVisualFromFbConfig { display: 1, fb_config: 31 },
            Call::Free { pointer: 0xa0 },
            Call::GetVisualFromFbConfig { display: 1, fb_config: 32 },
            Call::Free { pointer: 0 },
            Call::GetVisualFromFbConfig { display: 1, fb_config: 33 },
            Call::Free { pointer: 0xa2 },
            Call::Free { pointer: 0x90 },
        ],
    );
}

#[test]
fn transparent_choice_takes_no_shallow_config() {
    let (calls, out) = converse(
        choose_fbconfig("", 1, 2, &plain(), true),
        vec![
            Reply::Configs { list: 0x90, configs: vec![31] },
            visual(0xa0, 24),
            Reply::Done,
            Reply::Done,
        ],
    );
    assert_eq!(out, Err(()));
    assert_eq!(calls.last(), Some(&Call::Free { pointer: 0x90 }));
}

#[test]
fn empty_lists_leave_no_choice() {
    for (list, configs) in [(0, vec![]), (0, vec![31]), (0x90, vec![])] {
        let (calls, out) = converse(
            choose_fbconfig("", 1, 2, &plain(), false),
            vec![Reply::Configs { list, configs }],
        );
        assert_eq!(out, Err(()));
        assert_eq!(calls.len(), 1);
    }
    let srgb = PixelFormatRequirements { srgb: true, ..plain() };
    let (calls, out) = converse(choose_fbconfig("", 1, 2, &srgb, false), vec![]);
    assert_eq!(out, Err(()));
    assert_eq!(calls, vec![]);
}

#[test]
fn format_follows_the_attributes() {
    let format = |read: &[i32]| {
        let mut replies = vec![Reply::Configs { list: 9, configs: vec![31] }, Reply::Done];
        replies.extend(values(read));
        let (calls, out) = converse(choose_fbconfig("", 1, 2, &plain(), false), replies);
        (calls.len() - 2, out.unwrap().1)
    };
    let (count, slow) = format(&[0x8001, 8, 8, 8, 0, 16, 0, 1, 0, 1, 4, 1]);
    assert_eq!(count, 12);
    assert_eq!(
        slow,
        PixelFormat {
            hardware_accelerated: false,
            color_bits: 24,
            alpha_bits: 0,
            depth_bits: 16,
            stencil_bits: 0,
            stereoscopy: true,
            double_buffer: false,
            multisampling: Some(4),
            srgb: true,
        },
    );
    let (count, ext) = format(&[0, 8, 8, 8, 0, 16, 0, 1, 0, 0, 0, 1]);
    assert_eq!(count, 12);
    assert!(ext.srgb && ext.hardware_accelerated && ext.multisampling.is_none());
    let (count, _) = format(&[0, 8, 8, 8, 0, 16, 0, 1, 0, 0, 1]);
    assert_eq!(count, 11);
    let (count, low) = format(&[0, 0x108, -248, 0, 0x1ff, -2, 256, 0, 0, 1, 0x1_0004, 0, 0]);
    assert_eq!(count, 13);
    assert_eq!(low.color_bits, 16);
    assert_eq!(low.alpha_bits, 255);
    assert_eq!(low.depth_bits, 254);
    assert_eq!(low.stencil_bits, 0);
    assert_eq!(low.multisampling, Some(4));
}

#[test]
fn colors_that_overflow_cannot_follow() {
    let mut step = choose_fbconfig("", 1, 2, &plain(), false);
    let mut replies = vec![Reply::Configs { list: 9, configs: vec![31] }, Reply::Done];
    replies.extend(values(&[0, 200, 55]));
    for reply in replies {
        step = match step {
            Step::Ask(machine, _) => {
                assert!(machine.ready(&reply));
                machine.next(reply)
            }
            Step::Done(_) => unreachable!(),
        };
    }
    match step {
        Step::Ask(machine, _) => {
            assert!(machine.ready(&Reply::Attrib(0)));
            assert!(machine.ready(&Reply::Attrib(256)));
            assert!(!machine.ready(&Reply::Attrib(1)));
            assert!(!machine.ready(&Reply::Done));
        }
        Step::Done(_) => unreachable!(),
    }
}

fn create(extensions: &str, robustness: Robustness, replies: Vec<Reply>) -> (
    Vec<Call>,
    Result<usize, CreationError>,
) {
    converse(
        create_context(
            extensions,
            (3, 3),
            Some(GlProfile::Core),
            true,
            robustness,
            0x51,
            1,
            31,
            &info(24),
        ),
        replies,
    )
}

#[test]
fn handler_is_put_back() {
    let (calls, out) = create(
        "GLX_ARB_create_context",
        Robustness::NotRobust,
        vec![Reply::Handler(0x40), Reply::Address(0x52), Reply::Handler(0x41)],
    );
    assert_eq!(out, Ok(0x52));
    assert_eq!(
        calls,
        vec![
            Call::SetErrorHandler { handler: ErrorHandler::Silent },
            Call::CreateContextAttribs {
                display: 1,
                fb_config: 31,
                share: 0x51,
                direct: 1,
                attribs: vec![0x2091, 3, 0x2092, 3, 0x9126, 1, 0x2094, 1, 0],
            },
            Call::SetErrorHandler { handler: ErrorHandler::Previous(0x40) },
        ],
    );
}

#[test]
fn context_without_attributes() {
    let (calls, out) = create(
        "",
        Robustness::RobustNoResetNotification,
        vec![Reply::Handler(0x40), Reply::Address(0), Reply::Handler(0x41)],
    );
    assert_eq!(out, Err(CreationError::OsError("GL context creation failed".to_string())));
    assert_eq!(
        calls[1],
        Call::CreateContext { display: 1, visual_infos: info(24), share: 0x51, direct: 1 },
    );
    assert_eq!(calls[2], Call::SetErrorHandler { handler: ErrorHandler::Previous(0x40) });
}

#[test]
fn unknown_robustness_is_refused() {
    let (calls, out) = create(
        "GLX_ARB_create_context",
        Robustness::RobustNoResetNotification,
        vec![Reply::Handler(0x40)],
    );
    assert_eq!(out, Err(CreationError::RobustnessNotSupported));
    assert_eq!(calls, vec![Call::SetErrorHandler { handler: ErrorHandler::Silent }]);

    let (calls, out) = create(
        "GLX_ARB_create_context GLX_ARB_create_context_robustness",
        Robustness::RobustNoResetNotification,
        vec![Reply::Handler(0x40), Reply::Address(0x52), Reply::Handler(0x41)],
    );
    assert_eq!(out, Ok(0x52));
    assert!(matches!(
        &calls[1],
        Call::CreateContextAttribs { attribs, .. } if attribs[6..8] == [0x8256, 0x8261]
    ));
}

fn attributes<'a>(version: GlRequest, vsync: bool, sharing: Option<&'a Context>) -> GlAttributes<
    &'a Context,
> {
    GlAttributes {
        sharing,
        version,
        profile: None,
        debug: false,
        robustness: Robustness::NotRobust,
        vsync,
    }
}

#[test]
fn prototype_holds_what_was_found() {
    let opengl = attributes(GlRequest::Latest, false, None);
    let reqs = plain();
    let mut replies = vec![
        Reply::Done,
        Reply::Extensions(Some("GLX_A".to_string())),
        Reply::Configs { list: 0x90, configs: vec![31] },
        Reply::Done,
    ];
    replies.extend(values(&PLAIN_VALUES));
    replies.push(visual(0xa0, 24));
    replies.push(Reply::Done);
    let (calls, out) = converse(Context::new(1, &reqs, &opengl, 2, false), replies);
    let prototype = out.unwrap();
    assert_eq!(
        prototype,
        ContextPrototype {
            extensions: "GLX_A".to_string(),
            display: 1,
            opengl: &opengl,
            fb_config: 31,
            visual_infos: info(24),
            pixel_format: plain_format(),
        },
    );
    assert_eq!(prototype.get_visual_infos(), &info(24));
    assert_eq!(calls[0], Call::QueryVersion { display: 1 });
    assert_eq!(calls[1], Call::QueryExtensionsString { display: 1, screen: 2 });
    assert_eq!(
        calls[calls.len() - 2..],
        [
            Call::GetVisualFromFbConfig { display: 1, fb_config: 31 },
            Call::Free { pointer: 0xa0 },
        ],
    );
}

#[test]
fn failures_on_the_way_to_a_prototype() {
    let opengl = attributes(GlRequest::Latest, false, None);
    let reqs = plain();
    let (_, out) = converse(
        Context::new(1, &reqs, &opengl, 2, false),
        vec![Reply::Done, Reply::Extensions(None)],
    );
    assert_eq!(
        out,
        Err(CreationError::OsError(
            "`glXQueryExtensionsString` found no glX extensions".to_string()
        )),
    );

    let (_, out) = converse(
        Context::new(1, &reqs, &opengl, 2, false),
        vec![
            Reply::Done,
            Reply::Extensions(Some("".to_string())),
            Reply::Configs { list: 0, configs: vec![] },
        ],
    );
    assert_eq!(out, Err(CreationError::NoAvailablePixelFormat));

    let samples = PixelFormatRequirements { multisampling: Some(4), ..plain() };
    let (calls, out) = converse(
        Context::new(1, &samples, &opengl, 2, false),
        vec![Reply::Done, Reply::Extensions(Some("".to_string()))],
    );
    assert_eq!(out, Err(CreationError::NoAvailablePixelFormat));
    assert_eq!(calls.len(), 2);

    let mut replies = vec![
        Reply::Done,
        Reply::Extensions(Some("".to_string())),
        Reply::Configs { list: 9, configs: vec![31] },
        Reply::Done,
    ];
    replies.extend(values(&PLAIN_VALUES));
    replies.push(Reply::Visual(None));
    let (_, out) = converse(Context::new(1, &reqs, &opengl, 2, false), replies);
    assert_eq!(
        out,
        Err(CreationError::OsError(
            "`glXGetVisualFromFBConfig` failed: invalid `GLXFBConfig`".to_string()
        )),
    );
}

fn prototype<'a>(extensions: &str, opengl: &'a GlAttributes<&'a Context>) -> ContextPrototype<'a> {
    ContextPrototype {
        extensions: extensions.to_string(),
        display: 1,
        opengl,
        fb_config: 31,
        visual_infos: info(24),
        pixel_format: plain_format(),
    }
}

fn context() -> Context {
    Context { display: 1, window: 0x600, context: 0x52, pixel_format: plain_format() }
}

fn loaded(ext: bool, sgi: bool) -> Reply {
    Reply::ExtraFunctions { swap_interval_ext: ext, swap_interval_sgi: sgi }
}

fn attempt(context: usize) -> Vec<Reply> {
    vec![Reply::Handler(0x40), Reply::Address(context), Reply::Handler(0x41)]
}

fn versions(calls: &[Call]) -> Vec<(i32, i32)> {
    let mut versions = Vec::new();
    for call in calls {
        if let Call::CreateContextAttribs { attribs, .. } = call {
            versions.push((attribs[1], attribs[3]));
        }
    }
    versions
}

const LATEST: [(i32, i32); 11] = [
    (4, 6),
    (4, 5),
    (4, 4),
    (4, 3),
    (4, 2),
    (4, 1),
    (4, 0),
    (3, 3),
    (3, 2),
    (3, 1),
    (1, 0),
];

#[test]
fn latest_version_that_works_is_taken() {
    let opengl = attributes(GlRequest::Latest, false, None);
    for (failures, _) in LATEST.iter().enumerate() {
        let mut replies = vec![loaded(true, true)];
        for _ in 0..failures {
            replies.extend(attempt(0));
        }
        replies.extend(attempt(0x52));
        let first = prototype("GLX_ARB_create_context", &opengl).finish(0x600);
        let (calls, out) = converse(first, replies);
        assert_eq!(out, Ok(context()));
        assert_eq!(calls[0], Call::LoadExtraFunctions);
        assert_eq!(calls.len(), 1 + 3 * (failures + 1));
        assert_eq!(versions(&calls), &LATEST[..failures + 1]);
    }
}

#[test]
fn all_versions_fail() {
    let opengl = attributes(GlRequest::Latest, true, None);
    let mut replies = vec![loaded(true, true)];
    for _ in 0..11 {
        replies.extend(attempt(0));
    }
    let first = prototype("GLX_ARB_create_context", &opengl).finish(0x600);
    let (calls, out) = converse(first, replies);
    assert_eq!(out, Err(CreationError::OsError("GL context creation failed".to_string())));
    assert_eq!(versions(&calls), LATEST);
}

#[test]
fn unknown_robustness_is_refused_for_all_versions() {
    let mut opengl = attributes(GlRequest::Latest, false, None);
    opengl.robustness = Robustness::RobustLoseContextOnReset;
    let mut replies = vec![loaded(true, true)];
    for _ in 0..11 {
        replies.push(Reply::Handler(0x40));
    }
    let first = prototype("GLX_ARB_create_context", &opengl).finish(0x600);
    let (calls, out) = converse(first, replies);
    assert_eq!(out, Err(CreationError::RobustnessNotSupported));
    assert_eq!(calls.len(), 12);
}

#[test]
fn one_version_is_tried_once() {
    let requests = [
        GlRequest::Specific(Api::OpenGl, (2, 1)),
        GlRequest::GlThenGles { opengl_version: (2, 1), opengles_version: (3, 0) },
    ];
    for request in requests {
        let other = context();
        let opengl = attributes(request, false, Some(&other));
        let mut replies = vec![loaded(false, false)];
        replies.extend(attempt(0));
        let first = prototype("GLX_ARB_create_context", &opengl).finish(0x600);
        let (calls, out) = converse(first, replies);
        assert_eq!(out, Err(CreationError::OsError("GL context creation failed".to_string())));
        assert_eq!(versions(&calls), [(2, 1)]);
        assert!(matches!(
            &calls[2],
            Call::CreateContextAttribs { share: 0x52, fb_config: 31, display: 1, .. }
        ));
    }
}

#[test]
fn swap_interval_is_set() {
    let opengl = attributes(GlRequest::Specific(Api::OpenGl, (2, 1)), true, None);
    let bind = Call::MakeCurrent { display: 1, drawable: 0x600, context: 0x52 };
    let release = Call::MakeCurrent { display: 1, drawable: 0, context: 0 };
    let ext = Call::SwapIntervalExt { display: 1, drawable: 0x600, interval: 1 };
    let sgi = Call::SwapIntervalSgi { interval: 1 };
    let both = "GLX_SGI_swap_control GLX_EXT_swap_control";
    let cases: [(&str, bool, bool, Option<&Call>); 7] = [
        (both, true, true, Some(&ext)),
        (both, false, true, Some(&sgi)),
        (both, false, false, None),
        ("GLX_SGI_swap_control", true, true, Some(&sgi)),
        ("GLX_EXT_swap_control", true, true, Some(&ext)),
        ("GLX_EXT_swap_control", false, true, None),
        ("", true, true, None),
    ];
    for (extensions, ext_found, sgi_found, interval) in cases {
        let mut replies = vec![loaded(ext_found, sgi_found)];
        replies.extend(attempt(0x52));
        replies.push(Reply::Status(0));
        if interval.is_some() {
            replies.push(Reply::Done);
        }
        replies.push(Reply::Status(1));
        let first = prototype(extensions, &opengl).finish(0x600);
        let (calls, out) = converse(first, replies);
        assert_eq!(out, Ok(context()));
        assert_eq!(calls[4], bind);
        assert_eq!(calls.last(), Some(&release));
        match interval {
            Some(call) => {
                assert_eq!(calls.len(), 7);
                assert_eq!(&calls[5], call);
            }
            None => assert_eq!(calls.len(), 6),
        }
    }
}

#[test]
fn context_is_made_current() {
    let (calls, out) = converse(context().make_current(), vec![Reply::Status(1)]);
    assert_eq!(out, Ok(()));
    assert_eq!(calls, vec![Call::MakeCurrent { display: 1, drawable: 0x600, context: 0x52 }]);

    let fail = |errors| {
        let (calls, out) = converse(
            context().make_current(),
            vec![Reply::Status(0), Reply::Errors(errors)],
        );
        assert_eq!(calls[1], Call::CheckErrors);
        out
    };
    assert_eq!(
        fail(Ok(())),
        Err(ContextError::OsError("`glXMakeCurrent` failed: Ok(())".to_string())),
    );
    assert_eq!(
        fail(Err("BadMatch".to_string())),
        Err(ContextError::OsError("`glXMakeCurrent` failed: Err(BadMatch)".to_string())),
    );
}

#[test]
fn debug_text_is_that_of_a_result() {
    let result: Result<(), i32> = Err(7);
    let (_, out) = converse(
        context().make_current(),
        vec![Reply::Status(0), Reply::Errors(Err("7".to_string()))],
    );
    assert_eq!(
        out,
        Err(ContextError::OsError(format!("`glXMakeCurrent` failed: {:?}", result))),
    );
}

#[test]
fn current_context_is_told() {
    let (calls, out) = converse(context().is_current(), vec![Reply::Address(0x52)]);
    assert_eq!(calls, vec![Call::GetCurrentContext]);
    assert!(out);
    assert!(!converse(context().is_current(), vec![Reply::Address(0)]).1);
}

#[test]
fn functions_are_looked_up_by_c_strings() {
    let (calls, out) = converse(context().get_proc_address("glFlush"), vec![Reply::Address(7)]);
    assert_eq!(calls, vec![Call::GetProcAddress { name: b"glFlush\0".to_vec() }]);
    assert_eq!(out, 7);
    assert_eq!(converse(context().get_proc_address("glNone"), vec![Reply::Address(0)]).1, 0);
}

#[test]
fn buffers_are_swapped() {
    let (calls, out) = converse(
        context().swap_buffers(),
        vec![Reply::Done, Reply::Errors(Ok(()))],
    );
    assert_eq!(calls, vec![Call::SwapBuffers { display: 1, drawable: 0x600 }, Call::CheckErrors]);
    assert_eq!(out, Ok(()));

    let (_, out) = converse(
        context().swap_buffers(),
        vec![Reply::Done, Reply::Errors(Err("BadDrawable".to_string()))],
    );
    assert_eq!(
        out,
        Err(ContextError::OsError("`glXSwapBuffers` failed: BadDrawable".to_string())),
    );
}

#[test]
fn context_tells_what_it_is() {
    assert_eq!(context().get_api(), Api::OpenGl);
    assert_eq!(context().get_pixel_format(), plain_format());
    assert_eq!(context().raw_handle(), 0x52);
}

#[test]
fn context_is_finished_before_it_is_destroyed() {
    let (calls, out) = converse(
        context().destroy(),
        vec![
            Reply::Status(1),
            Reply::Address(0x88),
            Reply::Done,
            Reply::Status(0),
            Reply::Done,
        ],
    );
    assert_eq!(out, Ok(()));
    assert_eq!(
        calls,
        vec![
            Call::MakeCurrent { display: 1, drawable: 0x600, context: 0x52 },
            Call::GetProcAddress { name: b"glFinish\0".to_vec() },
            Call::CallFunction { address: 0x88 },
            Call::MakeCurrent { display: 1, drawable: 0, context: 0 },
            Call::DestroyContext { display: 1, context: 0x52 },
        ],
    );
}

#[test]
fn context_that_cannot_be_destroyed() {
    let (_, out) = converse(
        context().destroy(),
        vec![Reply::Status(0), Reply::Errors(Err("BadMatch".to_string()))],
    );
    assert_eq!(
        out,
        Err(DestructionError::NotCurrent(ContextError::OsError(
            "`glXMakeCurrent` failed: Err(BadMatch)".to_string()
        ))),
    );
    let (calls, out) = converse(context().destroy(), vec![Reply::Status(1), Reply::Address(0)]);
    assert_eq!(out, Err(DestructionError::NoFinish));
    assert_eq!(calls.len(), 2);
}

#[test]
fn later_versions_are_tried_first() {
    assert!(LATEST.windows(2).all(|pair| pair[0] > pair[1]));
}

#[test]
fn dialogue_can_be_read_in_parts() {
    let replies = || vec![Reply::Handler(0x40), Reply::Address(0x52), Reply::Handler(0x41)];
    let (whole, out) = create("", Robustness::NotRobust, replies());
    let first = create_context(
        "",
        (3, 3),
        Some(GlProfile::Core),
        true,
        Robustness::NotRobust,
        0x51,
        1,
        31,
        &info(24),
    );
    let mut rest = replies();
    let head = rest.remove(0);
    match first {
        Step::Ask(machine, call) => {
            let (tail, last) = converse(machine.next(head), rest);
            let mut calls = vec![call];
            calls.extend(tail);
            assert_eq!(calls, whole);
            assert_eq!(last, out);
        }
        Step::Done(_) => unreachable!(),
    }
}

#[test]
fn replies_of_another_kind_cannot_follow() {
    match context().make_current() {
        Step::Ask(machine, _) => {
            assert!(machine.ready(&Reply::Status(0)));
            assert!(!machine.ready(&Reply::Done));
            assert!(!machine.ready(&Reply::Errors(Ok(()))));
        }
        Step::Done(_) => unreachable!(),
    }
    match Glx::new() {
        Step::Ask(machine, _) => assert!(!machine.ready(&Reply::Status(1))),
        Step::Done(_) => unreachable!(),
    }
}
