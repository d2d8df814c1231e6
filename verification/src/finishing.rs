//! From a prototype and a window to a context.

use vstd::prelude::*;
use vstd::pervasive::unreached;

use crate::attribute_list::value_of;
use crate::context::Context;
use crate::creation::{
    ContextRequest,
    Creating,
    cannot_be_robust,
    context_request,
    created,
    creation_replies,
    law_request_makes_what_is_asked_for,
    makes_context,
};
use crate::extensions::{check_ext, has_extension};
use crate::opening::ContextPrototype;
use crate::protocol::{
    Call,
    CallModel,
    ErrorHandler,
    Machine,
    Reply,
    Step,
    law_run_in_parts,
    run,
    step_model,
    step_wf,
};
use crate::tokens::{
    GLX_CONTEXT_COMPATIBILITY_PROFILE_BIT_ARB,
    GLX_CONTEXT_CORE_PROFILE_BIT_ARB,
    GLX_CONTEXT_DEBUG_BIT_ARB,
    GLX_CONTEXT_FLAGS_ARB,
    GLX_CONTEXT_PROFILE_MASK_ARB,
};
use crate::types::{Api, CreationError, GlProfile, GlRequest, PixelFormat};

verus! {

/// Whether GLX can make contexts of the API that is asked for.
pub open spec fn is_opengl(request: GlRequest) -> bool {
    request matches GlRequest::Specific(api, _) ==> api is OpenGl
}

/// The versions that are tried one after the other, until there is a context.
pub open spec fn versions_to_try(request: GlRequest) -> Seq<(u8, u8)> {
    match request {
        GlRequest::Latest => seq![
            (4, 6),
            (4, 5),
            (4, 4),
            (4, 3),
            (4, 2),
            (4, 1),
            (4, 0),
            (3, 3),
            (3, 2),
            (3, 1),
            (1, 0),
        ],
        GlRequest::Specific(_, version) => seq![version],
        GlRequest::GlThenGles { opengl_version, .. } => seq![opengl_version],
    }
}

/// The version that is tried after `attempt` others, if any is.
fn version_to_try(request: GlRequest, attempt: usize) -> (version: Option<(u8, u8)>)
    ensures
        version == if attempt < versions_to_try(request).len() {
            Some(versions_to_try(request)[attempt as int])
        } else {
            None
        },
{
    match request {
        // Try all OpenGL versions in descending order because some non-compliant
        // drivers don't return the latest supported version but the one requested.
        GlRequest::Latest => match attempt {
            0 => Some((4, 6)),
            1 => Some((4, 5)),
            2 => Some((4, 4)),
            3 => Some((4, 3)),
            4 => Some((4, 2)),
            5 => Some((4, 1)),
            6 => Some((4, 0)),
            7 => Some((3, 3)),
            8 => Some((3, 2)),
            9 => Some((3, 1)),
            10 => Some((1, 0)),
            _ => None,
        },
        GlRequest::Specific(_, version) => {
            if attempt == 0 {
                Some(version)
            } else {
                None
            }
        },
        GlRequest::GlThenGles { opengl_version, .. } => {
            if attempt == 0 {
                Some(opengl_version)
            } else {
                None
            }
        },
    }
}

/// The function that sets how many frames pass between two swaps of the buffers.
#[derive(Clone, Copy, PartialEq, Eq, Debug, Structural)]
pub enum SwapInterval {
    /// `glXSwapIntervalEXT`.
    Ext,
    /// `glXSwapIntervalSGI`.
    Sgi,
    /// There is none.
    Unknown,
}

/// How far the making of a context has come.
#[derive(Clone, Copy, PartialEq, Eq, Debug)]
pub enum FinishingStage {
    /// The functions that not every libGL has are being looked up.
    Loading,
    /// A context is being made, of the version that comes after `attempt` others.
    Creating { interval: SwapInterval, attempt: usize, creating: Creating },
    /// The context is being made current, for its swap interval to be set.
    Binding { interval: SwapInterval, context: usize },
    /// The swap interval is being set.
    Setting { context: usize },
    /// The context is being released.
    Unbinding { context: usize },
}

/// The making of a context from its prototype.
#[derive(Clone, Copy, PartialEq, Eq, Debug)]
pub struct Finishing {
    /// What is asked for, but for the version.
    pub request: ContextRequest,
    pub version: GlRequest,
    pub vsync: bool,
    /// Whether the screen has the extension of each function for the swap interval.
    pub ext_known: bool,
    pub sgi_known: bool,
    pub window: u64,
    pub pixel_format: PixelFormat,
    pub stage: FinishingStage,
}

impl Finishing {
    /// What is asked for in an attempt.
    pub open spec fn request_for(self, attempt: int) -> ContextRequest {
        ContextRequest { version: versions_to_try(self.version)[attempt], ..self.request }
    }

    /// The function that sets the swap interval, of those that were found: the first
    /// whose extension the screen has.
    pub open spec fn interval(self, ext_found: bool, sgi_found: bool) -> SwapInterval {
        if self.ext_known && ext_found {
            SwapInterval::Ext
        } else if self.sgi_known && sgi_found {
            SwapInterval::Sgi
        } else {
            SwapInterval::Unknown
        }
    }

    /// The context that is made in the end.
    pub open spec fn finished(self, context: usize) -> Context {
        Context {
            display: self.request.display,
            window: self.window,
            context,
            pixel_format: self.pixel_format,
        }
    }

    /// Where the making stands when an attempt begins.
    pub open spec fn trying(self, interval: SwapInterval, attempt: int) -> Step<
        Finishing,
        Result<Context, CreationError<Seq<char>>>,
        CallModel,
    > {
        self.tried(interval, attempt, self.request_for(attempt).first())
    }

    /// Where the making stands once an attempt stands at `creating`. Where it failed,
    /// the next version is tried; where there is none, the last error stays.
    pub open spec fn tried(
        self,
        interval: SwapInterval,
        attempt: int,
        creating: Step<Creating, Result<usize, CreationError<Seq<char>>>, CallModel>,
    ) -> Step<Finishing, Result<Context, CreationError<Seq<char>>>, CallModel> {
        match creating {
            Step::Ask(creating, call) => Step::Ask(
                Finishing {
                    stage: FinishingStage::Creating {
                        interval,
                        attempt: attempt as usize,
                        creating,
                    },
                    ..self
                },
                call,
            ),
            Step::Done(Ok(context)) => self.made(interval, context),
            Step::Done(Err(error)) => if attempt + 1 < versions_to_try(self.version).len() {
                Step::Ask(
                    Finishing {
                        stage: FinishingStage::Creating {
                            interval,
                            attempt: (attempt + 1) as usize,
                            creating: Creating::Silencing(self.request_for(attempt + 1)),
                        },
                        ..self
                    },
                    Call::SetErrorHandler { handler: ErrorHandler::Silent },
                )
            } else {
                Step::Done(Err(error))
            },
        }
    }

    /// Where the making stands once GLX has made the context.
    pub open spec fn made(self, interval: SwapInterval, context: usize) -> Step<
        Finishing,
        Result<Context, CreationError<Seq<char>>>,
        CallModel,
    > {
        if self.vsync {
            Step::Ask(
                Finishing { stage: FinishingStage::Binding { interval, context }, ..self },
                Call::MakeCurrent {
                    display: self.request.display,
                    drawable: self.window,
                    context,
                },
            )
        } else {
            Step::Done(Ok(self.finished(context)))
        }
    }

    /// Where the making stands when the context is about to be released.
    pub open spec fn unbinding(self, context: usize) -> Step<
        Finishing,
        Result<Context, CreationError<Seq<char>>>,
        CallModel,
    > {
        Step::Ask(
            Finishing { stage: FinishingStage::Unbinding { context }, ..self },
            Call::MakeCurrent { display: self.request.display, drawable: 0, context: 0 },
        )
    }

    fn with_stage(self, stage: FinishingStage) -> (finishing: Finishing)
        ensures
            finishing == (Finishing { stage, ..self }),
    {
        let mut finishing = self;
        finishing.stage = stage;
        finishing
    }

    fn context(self, context: usize) -> (finished: Context)
        ensures
            finished == self.finished(context),
    {
        Context {
            display: self.request.display,
            window: self.window,
            context,
            pixel_format: self.pixel_format,
        }
    }

    fn begin(self, version: (u8, u8)) -> (step: Step<Creating, Result<usize, CreationError>>)
        ensures
            step_model(step) == (ContextRequest { version, ..self.request }).first(),
    {
        let mut request = self.request;
        request.version = version;
        request.start()
    }
}

impl Machine for Finishing {
    type Out = Result<Context, CreationError>;

    type Answer = Result<Context, CreationError<Seq<char>>>;

    open spec fn answer(out: Self::Out) -> Self::Answer {
        match out {
            Ok(context) => Ok(context),
            Err(error) => Err(error.model()),
        }
    }

    open spec fn wf(self) -> bool {
        match self.stage {
            FinishingStage::Creating { attempt, .. } => attempt < versions_to_try(
                self.version,
            ).len(),
            _ => true,
        }
    }

    open spec fn accepts(self, reply: Reply) -> bool {
        match self.stage {
            FinishingStage::Loading => reply is ExtraFunctions,
            FinishingStage::Creating { creating, .. } => creating.accepts(reply),
            FinishingStage::Binding { .. } => reply is Status,
            FinishingStage::Setting { .. } => reply is Done,
            FinishingStage::Unbinding { .. } => reply is Status,
        }
    }

    open spec fn step(self, reply: Reply) -> Step<Self, Self::Answer, CallModel> {
        match (self.stage, reply) {
            (
                FinishingStage::Loading,
                Reply::ExtraFunctions { swap_interval_ext, swap_interval_sgi },
            ) => self.trying(self.interval(swap_interval_ext, swap_interval_sgi), 0),
            (FinishingStage::Creating { interval, attempt, creating }, _) => self.tried(
                interval,
                attempt as int,
                creating.step(reply),
            ),
            (FinishingStage::Binding { interval, context }, Reply::Status(_)) => match interval {
                SwapInterval::Ext => Step::Ask(
                    Finishing { stage: FinishingStage::Setting { context }, ..self },
                    Call::SwapIntervalExt {
                        display: self.request.display,
                        drawable: self.window,
                        interval: 1,
                    },
                ),
                SwapInterval::Sgi => Step::Ask(
                    Finishing { stage: FinishingStage::Setting { context }, ..self },
                    Call::SwapIntervalSgi { interval: 1 },
                ),
                SwapInterval::Unknown => self.unbinding(context),
            },
            (FinishingStage::Setting { context }, Reply::Done) => self.unbinding(context),
            (FinishingStage::Unbinding { context }, Reply::Status(_)) => Step::Done(
                Ok(self.finished(context)),
            ),
            _ => arbitrary(),
        }
    }

    fn ready(&self, reply: &Reply) -> (ready: bool) {
        match &self.stage {
            FinishingStage::Loading => matches!(reply, Reply::ExtraFunctions { .. }),
            FinishingStage::Creating { creating, .. } => creating.ready(reply),
            FinishingStage::Binding { .. } => matches!(reply, Reply::Status(_)),
            FinishingStage::Setting { .. } => matches!(reply, Reply::Done),
            FinishingStage::Unbinding { .. } => matches!(reply, Reply::Status(_)),
        }
    }

    fn next(self, reply: Reply) -> (step: Step<Self, Self::Out>) {
        let display: usize = self.request.display;
        let window: u64 = self.window;
        match (self.stage, reply) {
            (
                FinishingStage::Loading,
                Reply::ExtraFunctions { swap_interval_ext, swap_interval_sgi },
            ) => {
                let interval = if self.ext_known && swap_interval_ext {
                    // this should be the most common extension
                    SwapInterval::Ext
                } else if self.sgi_known && swap_interval_sgi {
                    SwapInterval::Sgi
                } else {
                    SwapInterval::Unknown
                };
                match version_to_try(self.version, 0) {
                    Some(version) => match self.begin(version) {
                        Step::Ask(creating, call) => Step::Ask(
                            self.with_stage(
                                FinishingStage::Creating { interval, attempt: 0, creating },
                            ),
                            call,
                        ),
                        Step::Done(_) => unreached(),
                    },
                    None => unreached(),
                }
            },
            (FinishingStage::Creating { interval, attempt, creating }, reply) => {
                match creating.next(reply) {
                    Step::Ask(creating, call) => Step::Ask(
                        self.with_stage(
                            FinishingStage::Creating { interval, attempt, creating },
                        ),
                        call,
                    ),
                    Step::Done(Ok(context)) => {
                        if self.vsync {
                            Step::Ask(
                                self.with_stage(FinishingStage::Binding { interval, context }),
                                Call::MakeCurrent { display, drawable: window, context },
                            )
                        } else {
                            Step::Done(Ok(self.context(context)))
                        }
                    },
                    Step::Done(Err(error)) => match version_to_try(self.version, attempt + 1) {
                        Some(version) => match self.begin(version) {
                            Step::Ask(creating, call) => Step::Ask(
                                self.with_stage(
                                    FinishingStage::Creating {
                                        interval,
                                        attempt: attempt + 1,
                                        creating,
                                    },
                                ),
                                call,
                            ),
                            Step::Done(_) => unreached(),
                        },
                        None => Step::Done(Err(error)),
                    },
                }
            },
            (FinishingStage::Binding { interval, context }, Reply::Status(_)) => match interval {
                SwapInterval::Ext => Step::Ask(
                    self.with_stage(FinishingStage::Setting { context }),
                    Call::SwapIntervalExt { display, drawable: window, interval: 1 },
                ),
                SwapInterval::Sgi => Step::Ask(
                    self.with_stage(FinishingStage::Setting { context }),
                    Call::SwapIntervalSgi { interval: 1 },
                ),
                SwapInterval::Unknown => Step::Ask(
                    self.with_stage(FinishingStage::Unbinding { context }),
                    Call::MakeCurrent { display, drawable: 0, context: 0 },
                ),
            },
            (FinishingStage::Setting { context }, Reply::Done) => Step::Ask(
                self.with_stage(FinishingStage::Unbinding { context }),
                Call::MakeCurrent { display, drawable: 0, context: 0 },
            ),
            (FinishingStage::Unbinding { context }, Reply::Status(_)) => Step::Done(
                Ok(self.context(context)),
            ),
            _ => unreached(),
        }
    }
}

impl<'a> ContextPrototype<'a> {
    /// Where the making of a context begins.
    pub open spec fn finishing(self, win: u64) -> Finishing {
        Finishing {
            request: context_request(
                self.extensions@,
                (0, 0),
                self.opengl.profile,
                self.opengl.debug,
                self.opengl.robustness,
                match self.opengl.sharing {
                    Some(context) => context.context,
                    None => 0,
                },
                self.display,
                self.fb_config,
                self.visual_infos,
            ),
            version: self.opengl.version,
            vsync: self.opengl.vsync,
            ext_known: has_extension(self.extensions@, "GLX_EXT_swap_control"@),
            sgi_known: has_extension(self.extensions@, "GLX_SGI_swap_control"@),
            window: win,
            pixel_format: self.pixel_format,
            stage: FinishingStage::Loading,
        }
    }

    /// The first step of the making of a context.
    pub open spec fn first_step(self, win: u64) -> Step<
        Finishing,
        Result<Context, CreationError<Seq<char>>>,
        CallModel,
    > {
        Step::Ask(self.finishing(win), Call::LoadExtraFunctions)
    }

    /// Begins to make a context that draws on the window `win`.
    pub fn finish(self, win: u64) -> (step: Step<Finishing, Result<Context, CreationError>>)
        requires
            is_opengl(self.opengl.version),
        ensures
            step_wf(step),
            step_model(step) == Step::<
                Finishing,
                Result<Context, CreationError<Seq<char>>>,
                CallModel,
            >::Ask(self.finishing(win), Call::LoadExtraFunctions),
            step_model(step) == self.first_step(win),
    {
        let extensions = self.extensions.as_str();
        let opengl = self.opengl;
        let share: usize = match opengl.sharing {
            Some(context) => context.context,
            None => 0,
        };
        let request = ContextRequest::new(
            extensions,
            (0, 0),
            opengl.profile,
            opengl.debug,
            opengl.robustness,
            share,
            self.display,
            self.fb_config,
            &self.visual_infos,
        );
        let finishing = Finishing {
            request,
            version: opengl.version,
            vsync: opengl.vsync,
            ext_known: check_ext(extensions, "GLX_EXT_swap_control"),
            sgi_known: check_ext(extensions, "GLX_SGI_swap_control"),
            window: win,
            pixel_format: self.pixel_format,
            stage: FinishingStage::Loading,
        };
        Step::Ask(finishing, Call::LoadExtraFunctions)
    }
}

/// GLX makes contexts of OpenGL, and of no other API that is named.
pub proof fn law_only_opengl_can_be_named(api: Api, version: (u8, u8), other: (u8, u8))
    ensures
        is_opengl(GlRequest::Specific(api, version)) <==> api == Api::OpenGl,
        is_opengl(GlRequest::Latest),
        is_opengl(
            (GlRequest::GlThenGles { opengl_version: version, opengles_version: other }),
        ),
{
}

/// The versions of [`GlRequest::Latest`] are tried from the latest down.
pub proof fn law_later_versions_are_tried_first(i: int, j: int)
    requires
        0 <= i < j < versions_to_try(GlRequest::Latest).len(),
    ensures
        ({
            let earlier = versions_to_try(GlRequest::Latest)[i];
            let later = versions_to_try(GlRequest::Latest)[j];
            earlier.0 > later.0 || (earlier.0 == later.0 && earlier.1 > later.1)
        }),
{
}

/// What libGL and Xlib gave back in one attempt to make a context: the error handler
/// that was in place before, the context or zero, and the handler that was in place
/// meanwhile.
pub struct Outcome {
    pub previous: usize,
    pub context: usize,
    pub silent: usize,
}

/// The replies in attempts that come out as given.
pub open spec fn attempt_replies(outcomes: Seq<Outcome>) -> Seq<Reply> {
    Seq::new(
        3 * outcomes.len(),
        |i: int|
            if i % 3 == 0 {
                Reply::Handler(outcomes[i / 3].previous)
            } else if i % 3 == 1 {
                Reply::Address(outcomes[i / 3].context)
            } else {
                Reply::Handler(outcomes[i / 3].silent)
            },
    )
}

/// The calls in attempts that come out as given, the first of them with the version
/// that comes after `from` others.
pub open spec fn attempt_calls(finishing: Finishing, from: int, outcomes: Seq<Outcome>) -> Seq<
    CallModel,
> {
    Seq::new(
        3 * outcomes.len(),
        |i: int|
            if i % 3 == 0 {
                CallModel::SetErrorHandler { handler: ErrorHandler::Silent }
            } else if i % 3 == 1 {
                finishing.request_for(from + i / 3).call()
            } else {
                CallModel::SetErrorHandler {
                    handler: ErrorHandler::Previous(outcomes[i / 3].previous),
                }
            },
    )
}

/// Whether every attempt but perhaps the last failed.
pub open spec fn made_at_last_only(outcomes: Seq<Outcome>) -> bool {
    forall|i: int| 0 <= i < outcomes.len() - 1 ==> (#[trigger] outcomes[i]).context == 0
}

proof fn lemma_one_attempt(
    finishing: Finishing,
    interval: SwapInterval,
    attempt: int,
    outcome: Outcome,
)
    requires
        0 <= attempt < versions_to_try(finishing.version).len(),
        !finishing.request.is_refused(),
    ensures
        ({
            let dialogue = run::<Finishing>(
                finishing.trying(interval, attempt),
                creation_replies(outcome.previous, outcome.context, outcome.silent),
            );
            &&& dialogue.calls == seq![
                CallModel::SetErrorHandler { handler: ErrorHandler::Silent },
                finishing.request_for(attempt).call(),
                CallModel::SetErrorHandler { handler: ErrorHandler::Previous(outcome.previous) },
            ]
            &&& dialogue.last == finishing.tried(
                interval,
                attempt,
                Step::Done(created(outcome.context)),
            )
        }),
{
    let replies = creation_replies(outcome.previous, outcome.context, outcome.silent);
    let request = finishing.request_for(attempt);
    assert(!request.is_refused());
    assert(replies.drop_first()[0] == replies[1]);
    assert(replies.drop_first().drop_first()[0] == replies[2]);
    assert(replies.drop_first().drop_first().drop_first() =~= seq![]);
    let s1 = finishing.trying(interval, attempt);
    let m1 = s1->Ask_0;
    let s2 = m1.step(replies[0]);
    assert(s2 == finishing.tried(
        interval,
        attempt,
        Step::Ask(Creating::Creating { previous: outcome.previous }, request.call()),
    ));
    let m2 = s2->Ask_0;
    let s3 = m2.step(replies[1]);
    assert(s3 == finishing.tried(
        interval,
        attempt,
        Step::Ask(
            Creating::Restoring { context: outcome.context },
            CallModel::SetErrorHandler { handler: ErrorHandler::Previous(outcome.previous) },
        ),
    ));
    let m3 = s3->Ask_0;
    let s4 = m3.step(replies[2]);
    assert(s4 == finishing.tried(interval, attempt, Step::Done(created(outcome.context))));
    assert(run::<Finishing>(s4, seq![]).calls =~= seq![]);
    assert(run::<Finishing>(s4, seq![]).last == s4);
    reveal_with_fuel(run, 4);
}

proof fn lemma_attempts(
    finishing: Finishing,
    interval: SwapInterval,
    from: int,
    outcomes: Seq<Outcome>,
)
    requires
        0 <= from,
        0 < outcomes.len(),
        from + outcomes.len() <= versions_to_try(finishing.version).len(),
        !finishing.request.is_refused(),
        made_at_last_only(outcomes),
    ensures
        ({
            let dialogue = run::<Finishing>(
                finishing.trying(interval, from),
                attempt_replies(outcomes),
            );
            &&& dialogue.calls == attempt_calls(finishing, from, outcomes)
            &&& dialogue.last == finishing.tried(
                interval,
                from + outcomes.len() - 1,
                Step::Done(created(outcomes.last().context)),
            )
        }),
    decreases outcomes.len(),
{
    let outcome = outcomes[0];
    let rest = outcomes.drop_first();
    let head = creation_replies(outcome.previous, outcome.context, outcome.silent);
    let first = finishing.trying(interval, from);
    lemma_one_attempt(finishing, interval, from, outcome);
    law_run_in_parts::<Finishing>(first, head, attempt_replies(rest));
    assert(attempt_replies(outcomes) =~= head + attempt_replies(rest));
    assert(attempt_calls(finishing, from, outcomes) =~= seq![
        CallModel::SetErrorHandler { handler: ErrorHandler::Silent },
        finishing.request_for(from).call(),
        CallModel::SetErrorHandler { handler: ErrorHandler::Previous(outcome.previous) },
    ] + attempt_calls(finishing, from + 1, rest));
    if rest.len() > 0 {
        assert(outcomes[0].context == 0);
        assert forall|i: int| 0 <= i < rest.len() - 1 implies (#[trigger] rest[i]).context
            == 0 by {
            assert(rest[i] == outcomes[i + 1]);
        }
        assert(rest.last() == outcomes.last());
        lemma_attempts(finishing, interval, from + 1, rest);
    } else {
        assert(outcomes.last() == outcome);
        assert(attempt_replies(rest) =~= seq![]);
        assert(attempt_calls(finishing, from + 1, rest) =~= seq![]);
    }
}

proof fn lemma_attempts_from_start(
    finishing: Finishing,
    ext_found: bool,
    sgi_found: bool,
    outcomes: Seq<Outcome>,
)
    requires
        finishing.stage is Loading,
        0 < outcomes.len() <= versions_to_try(finishing.version).len(),
        !finishing.request.is_refused(),
        made_at_last_only(outcomes),
    ensures
        ({
            let replies = seq![
                Reply::ExtraFunctions {
                    swap_interval_ext: ext_found,
                    swap_interval_sgi: sgi_found,
                },
            ] + attempt_replies(outcomes);
            let dialogue = run::<Finishing>(
                Step::Ask(finishing, Call::LoadExtraFunctions),
                replies,
            );
            &&& dialogue.calls.len() == replies.len()
            &&& dialogue.calls == seq![CallModel::LoadExtraFunctions] + attempt_calls(
                finishing,
                0,
                outcomes,
            )
            &&& dialogue.last == finishing.tried(
                finishing.interval(ext_found, sgi_found),
                outcomes.len() - 1,
                Step::Done(created(outcomes.last().context)),
            )
        }),
{
    let first = Step::Ask(finishing, Call::LoadExtraFunctions);
    let interval = finishing.interval(ext_found, sgi_found);
    let head = seq![
        Reply::ExtraFunctions { swap_interval_ext: ext_found, swap_interval_sgi: sgi_found },
    ];
    assert(run::<Finishing>(first, head).calls =~= seq![CallModel::LoadExtraFunctions] && run::<
        Finishing,
    >(first, head).last == finishing.trying(interval, 0)) by {
        reveal_with_fuel(run, 2);
    }
    law_run_in_parts::<Finishing>(first, head, attempt_replies(outcomes));
    lemma_attempts(finishing, interval, 0, outcomes);
}

/// The calls that set the swap interval of a context, if it is to be in step with the
/// screen.
pub open spec fn vsync_calls(
    finishing: Finishing,
    interval: SwapInterval,
    context: usize,
) -> Seq<CallModel> {
    let display = finishing.request.display;
    if !finishing.vsync {
        seq![]
    } else {
        seq![CallModel::MakeCurrent { display, drawable: finishing.window, context }] + (
        match interval {
            SwapInterval::Ext => seq![
                CallModel::SwapIntervalExt { display, drawable: finishing.window, interval: 1 },
            ],
            SwapInterval::Sgi => seq![CallModel::SwapIntervalSgi { interval: 1 }],
            SwapInterval::Unknown => seq![],
        }) + seq![CallModel::MakeCurrent { display, drawable: 0, context: 0 }]
    }
}

/// The replies to these calls.
pub open spec fn vsync_replies(
    finishing: Finishing,
    interval: SwapInterval,
    bound: i32,
    released: i32,
) -> Seq<Reply> {
    if !finishing.vsync {
        seq![]
    } else if interval is Unknown {
        seq![Reply::Status(bound), Reply::Status(released)]
    } else {
        seq![Reply::Status(bound), Reply::Done, Reply::Status(released)]
    }
}

/// The swap interval is set only for a context that is to be in step with the screen.
/// It is current meanwhile, and no context is current afterwards. Whether it could be
/// made current makes no difference, nor whether there is a way to set the interval.
pub proof fn law_vsync_leaves_no_context_current(
    finishing: Finishing,
    interval: SwapInterval,
    context: usize,
    bound: i32,
    released: i32,
)
    ensures
        ({
            let dialogue = run::<Finishing>(
                finishing.made(interval, context),
                vsync_replies(finishing, interval, bound, released),
            );
            &&& dialogue.calls == vsync_calls(finishing, interval, context)
            &&& dialogue.ends_with(Ok(finishing.finished(context)))
        }),
{
    reveal_with_fuel(run, 4);
}

/// The first version of which a context can be made is taken: the versions are asked
/// for in order, and no other is asked for once there is a context. Then the swap
/// interval is set, and the context that libGL made is handed out with the window and
/// the format of the prototype.
pub proof fn law_first_context_is_taken(
    prototype: ContextPrototype,
    win: u64,
    ext_found: bool,
    sgi_found: bool,
    outcomes: Seq<Outcome>,
    bound: i32,
    released: i32,
)
    requires
        is_opengl(prototype.opengl.version),
        !prototype.finishing(win).request.is_refused(),
        0 < outcomes.len() <= versions_to_try(prototype.opengl.version).len(),
        made_at_last_only(outcomes),
        outcomes.last().context != 0,
    ensures
        ({
            let finishing = prototype.finishing(win);
            let interval = finishing.interval(ext_found, sgi_found);
            let dialogue = run::<Finishing>(
                Step::Ask(finishing, Call::LoadExtraFunctions),
                seq![
                    Reply::ExtraFunctions {
                        swap_interval_ext: ext_found,
                        swap_interval_sgi: sgi_found,
                    },
                ] + attempt_replies(outcomes) + vsync_replies(
                    finishing,
                    interval,
                    bound,
                    released,
                ),
            );
            &&& dialogue.calls == seq![CallModel::LoadExtraFunctions] + attempt_calls(
                finishing,
                0,
                outcomes,
            ) + vsync_calls(finishing, interval, outcomes.last().context)
            &&& dialogue.ends_with(
                Ok(
                    Context {
                        display: prototype.display,
                        window: win,
                        context: outcomes.last().context,
                        pixel_format: prototype.pixel_format,
                    },
                ),
            )
        }),
{
    let finishing = prototype.finishing(win);
    let interval = finishing.interval(ext_found, sgi_found);
    let context = outcomes.last().context;
    let first = Step::Ask(finishing, Call::LoadExtraFunctions);
    let head = seq![
        Reply::ExtraFunctions { swap_interval_ext: ext_found, swap_interval_sgi: sgi_found },
    ] + attempt_replies(outcomes);
    lemma_attempts_from_start(finishing, ext_found, sgi_found, outcomes);
    law_run_in_parts::<Finishing>(
        first,
        head,
        vsync_replies(finishing, interval, bound, released),
    );
    law_vsync_leaves_no_context_current(finishing, interval, context, bound, released);
}

/// Where libGL makes a context of no version, all were asked for, and the making fails
/// with the error that says so.
pub proof fn law_all_versions_are_tried(
    prototype: ContextPrototype,
    win: u64,
    ext_found: bool,
    sgi_found: bool,
    outcomes: Seq<Outcome>,
)
    requires
        is_opengl(prototype.opengl.version),
        !prototype.finishing(win).request.is_refused(),
        outcomes.len() == versions_to_try(prototype.opengl.version).len(),
        forall|i: int| 0 <= i < outcomes.len() ==> (#[trigger] outcomes[i]).context == 0,
    ensures
        ({
            let finishing = prototype.finishing(win);
            let dialogue = run::<Finishing>(
                Step::Ask(finishing, Call::LoadExtraFunctions),
                seq![
                    Reply::ExtraFunctions {
                        swap_interval_ext: ext_found,
                        swap_interval_sgi: sgi_found,
                    },
                ] + attempt_replies(outcomes),
            );
            &&& dialogue.calls == seq![CallModel::LoadExtraFunctions] + attempt_calls(
                finishing,
                0,
                outcomes,
            )
            &&& dialogue.ends_with(Err(CreationError::OsError("GL context creation failed"@)))
        }),
{
    lemma_attempts_from_start(prototype.finishing(win), ext_found, sgi_found, outcomes);
}

proof fn lemma_refusals(
    finishing: Finishing,
    interval: SwapInterval,
    from: int,
    handlers: Seq<usize>,
)
    requires
        0 <= from,
        0 < handlers.len(),
        from + handlers.len() == versions_to_try(finishing.version).len(),
        finishing.request.is_refused(),
    ensures
        ({
            let dialogue = run::<Finishing>(
                finishing.trying(interval, from),
                handlers.map_values(|handler: usize| Reply::Handler(handler)),
            );
            &&& dialogue.calls == Seq::new(
                handlers.len(),
                |i: int| CallModel::SetErrorHandler { handler: ErrorHandler::Silent },
            )
            &&& dialogue.ends_with(Err(CreationError::RobustnessNotSupported))
        }),
    decreases handlers.len(),
{
    reveal_with_fuel(run, 2);
    let rest = handlers.drop_first();
    let replies = handlers.map_values(|handler: usize| Reply::Handler(handler));
    assert(replies.drop_first() =~= rest.map_values(|handler: usize| Reply::Handler(handler)));
    assert(finishing.request_for(from).is_refused());
    let silent = CallModel::SetErrorHandler { handler: ErrorHandler::Silent };
    assert(Seq::new(handlers.len(), |i: int| silent) =~= seq![silent] + Seq::new(
        rest.len(),
        |i: int| silent,
    ));
    if rest.len() > 0 {
        lemma_refusals(finishing, interval, from + 1, rest);
    }
}

/// A robustness that must be had and is not known is refused for every version: each
/// attempt ends at once, and the making fails with the error that says so.
pub proof fn law_unknown_robustness_is_refused_for_all_versions(
    prototype: ContextPrototype,
    win: u64,
    ext_found: bool,
    sgi_found: bool,
    handlers: Seq<usize>,
)
    requires
        is_opengl(prototype.opengl.version),
        prototype.finishing(win).request.is_refused(),
        handlers.len() == versions_to_try(prototype.opengl.version).len(),
    ensures
        ({
            let dialogue = run::<Finishing>(
                Step::Ask(prototype.finishing(win), Call::LoadExtraFunctions),
                seq![
                    Reply::ExtraFunctions {
                        swap_interval_ext: ext_found,
                        swap_interval_sgi: sgi_found,
                    },
                ] + handlers.map_values(|handler: usize| Reply::Handler(handler)),
            );
            &&& dialogue.calls == seq![CallModel::LoadExtraFunctions] + Seq::new(
                handlers.len(),
                |i: int| CallModel::SetErrorHandler { handler: ErrorHandler::Silent },
            )
            &&& dialogue.ends_with(Err(CreationError::RobustnessNotSupported))
        }),
{
    let finishing = prototype.finishing(win);
    let first = Step::Ask(finishing, Call::LoadExtraFunctions);
    let interval = finishing.interval(ext_found, sgi_found);
    let head = seq![
        Reply::ExtraFunctions { swap_interval_ext: ext_found, swap_interval_sgi: sgi_found },
    ];
    assert(run::<Finishing>(first, head).calls =~= seq![CallModel::LoadExtraFunctions] && run::<
        Finishing,
    >(first, head).last == finishing.trying(interval, 0)) by {
        reveal_with_fuel(run, 2);
    }
    law_run_in_parts::<Finishing>(
        first,
        head,
        handlers.map_values(|handler: usize| Reply::Handler(handler)),
    );
    lemma_refusals(finishing, interval, 0, handlers);
}

/// Whether `call` makes a context of the given version that is as the prototype asks.
pub open spec fn asks_for(
    call: CallModel,
    prototype: ContextPrototype,
    version: (u8, u8),
) -> bool {
    makes_context(
        call,
        prototype.extensions@,
        version,
        prototype.opengl.profile,
        prototype.opengl.debug,
        prototype.opengl.robustness,
        match prototype.opengl.sharing {
            Some(other) => other.context,
            None => 0,
        },
        prototype.display,
        prototype.fb_config,
        prototype.visual_infos,
    )
}

/// Whether `call` makes a context of the version whose turn it is in the given attempt:
/// of the one version that was named, or else of 4.6 down to 4.0, of 3.3 down to 3.1 and
/// of 1.0 at last.
pub open spec fn asks_in_turn(
    call: CallModel,
    prototype: ContextPrototype,
    attempt: int,
) -> bool {
    match prototype.opengl.version {
        GlRequest::Latest => {
            ||| 0 <= attempt <= 6 && asks_for(call, prototype, (4, (6 - attempt) as u8))
            ||| 7 <= attempt <= 9 && asks_for(call, prototype, (3, (10 - attempt) as u8))
            ||| attempt == 10 && asks_for(call, prototype, (1, 0))
        },
        GlRequest::Specific(_, version) => attempt == 0 && asks_for(call, prototype, version),
        GlRequest::GlThenGles { opengl_version, .. } => attempt == 0 && asks_for(
            call,
            prototype,
            opengl_version,
        ),
    }
}

proof fn lemma_request_asks_in_turn(prototype: ContextPrototype, win: u64, attempt: int)
    requires
        0 <= attempt < versions_to_try(prototype.opengl.version).len(),
    ensures
        ({
            let request = prototype.finishing(win).request_for(attempt);
            let hopeless = cannot_be_robust(
                prototype.extensions@,
                prototype.opengl.robustness,
            );
            &&& request.is_refused() == hopeless
            &&& prototype.finishing(win).request.is_refused() == hopeless
            &&& !hopeless ==> asks_in_turn(request.call(), prototype, attempt)
        }),
{
    let request = prototype.finishing(win).request_for(attempt);
    let version = versions_to_try(prototype.opengl.version)[attempt];
    let share = match prototype.opengl.sharing {
        Some(other) => other.context,
        None => 0,
    };
    assert(request == context_request(
        prototype.extensions@,
        version,
        prototype.opengl.profile,
        prototype.opengl.debug,
        prototype.opengl.robustness,
        share,
        prototype.display,
        prototype.fb_config,
        prototype.visual_infos,
    ));
    law_request_makes_what_is_asked_for(
        prototype.extensions@,
        version,
        prototype.opengl.profile,
        prototype.opengl.debug,
        prototype.opengl.robustness,
        share,
        prototype.display,
        prototype.fb_config,
        prototype.visual_infos,
    );
    if prototype.opengl.version is Latest {
        assert(attempt == 0 || attempt == 1 || attempt == 2 || attempt == 3 || attempt == 4
            || attempt == 5 || attempt == 6 || attempt == 7 || attempt == 8 || attempt == 9
            || attempt == 10);
        assert(0 <= attempt <= 6 ==> version == (4u8, (6 - attempt) as u8));
        assert(7 <= attempt <= 9 ==> version == (3u8, (10 - attempt) as u8));
        assert(attempt == 10 ==> version == (1u8, 0u8));
    }
}

/// Where the making of a context from `prototype` can stand once `done` calls were
/// answered.
spec fn stands_after(
    prototype: ContextPrototype,
    win: u64,
    done: int,
    step: Step<Finishing, Result<Context, CreationError<Seq<char>>>, CallModel>,
) -> bool {
    let start = prototype.finishing(win);
    step matches Step::Ask(machine, call) ==> {
        &&& machine == Finishing { stage: machine.stage, ..start }
        &&& match machine.stage {
            FinishingStage::Loading => done == 0 && call is LoadExtraFunctions,
            FinishingStage::Creating { attempt, creating, .. } => {
                &&& attempt < versions_to_try(start.version).len()
                &&& match creating {
                    Creating::Silencing(request) => {
                        &&& request == start.request_for(attempt as int)
                        &&& call is SetErrorHandler
                        &&& request.is_refused() || done == 1 + 3 * attempt
                    },
                    Creating::Creating { .. } => {
                        &&& call == start.request_for(attempt as int).call()
                        &&& !start.request_for(attempt as int).is_refused()
                        &&& done == 2 + 3 * attempt
                    },
                    Creating::Restoring { .. } => {
                        &&& call is SetErrorHandler
                        &&& done == 3 + 3 * attempt
                    },
                }
            },
            FinishingStage::Binding { .. } => call is MakeCurrent,
            FinishingStage::Setting { .. } => call is SwapIntervalExt || call is SwapIntervalSgi,
            FinishingStage::Unbinding { .. } => call is MakeCurrent,
        }
    }
}

proof fn lemma_stands_after_next(
    prototype: ContextPrototype,
    win: u64,
    done: int,
    machine: Finishing,
    call: CallModel,
    reply: Reply,
)
    requires
        stands_after(prototype, win, done, Step::Ask(machine, call)),
        machine.accepts(reply),
    ensures
        stands_after(prototype, win, done + 1, machine.step(reply)),
{
    let start = prototype.finishing(win);
    assert(versions_to_try(start.version).len() > 0);
    if let FinishingStage::Creating { attempt, .. } = machine.stage {
        lemma_request_asks_in_turn(prototype, win, attempt as int);
        if attempt + 1 < versions_to_try(start.version).len() {
            lemma_request_asks_in_turn(prototype, win, attempt + 1);
        }
    }
}

proof fn lemma_contexts_asked_for(
    prototype: ContextPrototype,
    win: u64,
    done: int,
    step: Step<Finishing, Result<Context, CreationError<Seq<char>>>, CallModel>,
    replies: Seq<Reply>,
    i: int,
)
    requires
        stands_after(prototype, win, done, step),
        0 <= i < run::<Finishing>(step, replies).calls.len(),
        run::<Finishing>(step, replies).calls[i] is CreateContextAttribs || run::<Finishing>(
            step,
            replies,
        ).calls[i] is CreateContext,
    ensures
        !cannot_be_robust(prototype.extensions@, prototype.opengl.robustness),
        (done + i) % 3 == 2,
        asks_in_turn(run::<Finishing>(step, replies).calls[i], prototype, (done + i) / 3),
    decreases replies.len(),
{
    let dialogue = run::<Finishing>(step, replies);
    let machine = step->Ask_0;
    let call = step->Ask_1;
    if i == 0 {
        assert(dialogue.calls[0] == call);
        let attempt = machine.stage->Creating_attempt;
        lemma_request_asks_in_turn(prototype, win, attempt as int);
    } else {
        lemma_stands_after_next(prototype, win, done, machine, call, replies[0]);
        let next = machine.step(replies[0]);
        let rest = run::<Finishing>(next, replies.drop_first());
        assert(dialogue.calls[i] == rest.calls[i - 1]);
        lemma_contexts_asked_for(
            prototype,
            win,
            done + 1,
            next,
            replies.drop_first(),
            i - 1,
        );
    }
}

/// Whatever libGL and the X server reply, each context that [`ContextPrototype::finish`]
/// asks libGL for is as the prototype asks, and of the version whose turn it is. Where one
/// version was named, no other is asked for, and that one only once.
pub proof fn law_contexts_are_asked_for_in_turn(
    prototype: ContextPrototype,
    win: u64,
    replies: Seq<Reply>,
    i: int,
)
    requires
        ({
            let calls = run::<Finishing>(prototype.first_step(win), replies).calls;
            0 <= i < calls.len() && (calls[i] is CreateContextAttribs || calls[i]
                is CreateContext)
        }),
    ensures
        ({
            let call = run::<Finishing>(prototype.first_step(win), replies).calls[i];
            &&& i % 3 == 2
            &&& match prototype.opengl.version {
                GlRequest::Latest => {
                    let attempt = i / 3;
                    &&& attempt <= 6 ==> asks_for(call, prototype, (4, (6 - attempt) as u8))
                    &&& 7 <= attempt <= 9 ==> asks_for(
                        call,
                        prototype,
                        (3, (10 - attempt) as u8),
                    )
                    &&& 10 <= attempt ==> attempt == 10 && asks_for(call, prototype, (1, 0))
                },
                GlRequest::Specific(_, version) => i == 2 && asks_for(call, prototype, version),
                GlRequest::GlThenGles { opengl_version, .. } => i == 2 && asks_for(
                    call,
                    prototype,
                    opengl_version,
                ),
            }
        }),
{
    lemma_contexts_asked_for(prototype, win, 0, prototype.first_step(win), replies, i);
}

/// Whatever is replied, a context that is asked for by its attributes has the profile
/// that the prototype names, if it names one, and is for debugging exactly if the
/// prototype says so.
pub proof fn law_profile_and_debugging_are_asked_for(
    prototype: ContextPrototype,
    win: u64,
    replies: Seq<Reply>,
    i: int,
)
    requires
        0 <= i < run::<Finishing>(prototype.first_step(win), replies).calls.len(),
        run::<Finishing>(
            prototype.first_step(win),
            replies,
        ).calls[i] is CreateContextAttribs,
    ensures
        ({
            let call = run::<Finishing>(prototype.first_step(win), replies).calls[i];
            let attribs = call->CreateContextAttribs_attribs;
            let mask = value_of(attribs, GLX_CONTEXT_PROFILE_MASK_ARB);
            let flags = value_of(attribs, GLX_CONTEXT_FLAGS_ARB);
            &&& mask == Some(GLX_CONTEXT_CORE_PROFILE_BIT_ARB) <==> prototype.opengl.profile
                == Some(GlProfile::Core)
            &&& mask == Some(GLX_CONTEXT_COMPATIBILITY_PROFILE_BIT_ARB)
                <==> prototype.opengl.profile == Some(GlProfile::Compatibility)
            &&& mask is None <==> prototype.opengl.profile is None
            &&& flags is Some
            &&& flags->0 & GLX_CONTEXT_DEBUG_BIT_ARB != 0 <==> prototype.opengl.debug
        }),
{
    law_contexts_are_asked_for_in_turn(prototype, win, replies, i);
    assert(0i32 & 1 == 0) by (bit_vector);
    assert(1i32 & 1 == 1) by (bit_vector);
    assert(4i32 & 1 == 0) by (bit_vector);
    assert(5i32 & 1 == 1) by (bit_vector);
}

/// The one function that can set the swap interval, of those that were found: that of
/// `GLX_EXT_swap_control` before that of `GLX_SGI_swap_control`, each only where the screen
/// has its extension.
pub open spec fn interval_call(
    prototype: ContextPrototype,
    win: u64,
    ext_found: bool,
    sgi_found: bool,
) -> Option<CallModel> {
    if ext_found && has_extension(prototype.extensions@, "GLX_EXT_swap_control"@) {
        Some(
            CallModel::SwapIntervalExt { display: prototype.display, drawable: win, interval: 1 },
        )
    } else if sgi_found && has_extension(prototype.extensions@, "GLX_SGI_swap_control"@) {
        Some(CallModel::SwapIntervalSgi { interval: 1 })
    } else {
        None
    }
}

/// The replies from the look-up of the functions for the swap interval to the end of the
/// attempts.
pub open spec fn replies_until_made(
    ext_found: bool,
    sgi_found: bool,
    outcomes: Seq<Outcome>,
) -> Seq<Reply> {
    seq![
        Reply::ExtraFunctions { swap_interval_ext: ext_found, swap_interval_sgi: sgi_found },
    ] + attempt_replies(outcomes)
}

/// Whether `calls` begins with the look-up of the functions for the swap interval and one
/// attempt after the other, as they came out. In each, errors are dropped, a context of the
/// version whose turn it is is asked for, and the error handler from before is put back.
pub open spec fn begins_with_attempts(
    calls: Seq<CallModel>,
    prototype: ContextPrototype,
    outcomes: Seq<Outcome>,
) -> bool {
    &&& calls.len() >= 1 + 3 * outcomes.len()
    &&& calls[0] == CallModel::LoadExtraFunctions
    &&& forall|i: int|
        0 <= i < outcomes.len() ==> {
            &&& calls[1 + 3 * i] == CallModel::SetErrorHandler { handler: ErrorHandler::Silent }
            &&& asks_in_turn(calls[2 + 3 * i], prototype, i)
            &&& calls[3 + 3 * i] == CallModel::SetErrorHandler {
                handler: ErrorHandler::Previous((#[trigger] outcomes[i]).previous),
            }
        }
}

proof fn lemma_begins_with_attempts(
    calls: Seq<CallModel>,
    prototype: ContextPrototype,
    win: u64,
    outcomes: Seq<Outcome>,
    more: Seq<CallModel>,
)
    requires
        !cannot_be_robust(prototype.extensions@, prototype.opengl.robustness),
        outcomes.len() <= versions_to_try(prototype.opengl.version).len(),
        calls == seq![CallModel::LoadExtraFunctions] + attempt_calls(
            prototype.finishing(win),
            0,
            outcomes,
        ) + more,
    ensures
        begins_with_attempts(calls, prototype, outcomes),
        calls.len() == 1 + 3 * outcomes.len() + more.len(),
        calls.skip((1 + 3 * outcomes.len()) as int) == more,
{
    let attempts = attempt_calls(prototype.finishing(win), 0, outcomes);
    assert(calls.skip((1 + 3 * outcomes.len()) as int) =~= more);
    assert forall|i: int| 0 <= i < outcomes.len() implies {
        &&& calls[1 + 3 * i] == CallModel::SetErrorHandler { handler: ErrorHandler::Silent }
        &&& asks_in_turn(calls[2 + 3 * i], prototype, i)
        &&& calls[3 + 3 * i] == CallModel::SetErrorHandler {
            handler: ErrorHandler::Previous((#[trigger] outcomes[i]).previous),
        }
    } by {
        assert(calls[1 + 3 * i] == attempts[3 * i]);
        assert(calls[2 + 3 * i] == attempts[3 * i + 1]);
        assert(calls[3 + 3 * i] == attempts[3 * i + 2]);
        lemma_request_asks_in_turn(prototype, win, i);
    }
}

/// The attempts go on until libGL makes a context, and no longer. Where the context is to
/// be in step with the screen, it is made current, the swap interval is set to one frame
/// if there is a way to, and no context is current in the end. The context that is handed
/// out is the one that libGL made, on the display and with the format of the prototype,
/// and it draws on the window that was given.
pub proof fn law_context_is_handed_out(
    prototype: ContextPrototype,
    win: u64,
    ext_found: bool,
    sgi_found: bool,
    outcomes: Seq<Outcome>,
    bound: i32,
    released: i32,
)
    requires
        !cannot_be_robust(prototype.extensions@, prototype.opengl.robustness),
        0 < outcomes.len() <= (if prototype.opengl.version is Latest {
            11int
        } else {
            1
        }),
        forall|i: int| 0 <= i < outcomes.len() - 1 ==> (#[trigger] outcomes[i]).context == 0,
        outcomes.last().context != 0,
    ensures
        ({
            let display = prototype.display;
            let context = outcomes.last().context;
            let interval = interval_call(prototype, win, ext_found, sgi_found);
            let bind = CallModel::MakeCurrent { display, drawable: win, context };
            let release = CallModel::MakeCurrent { display, drawable: 0, context: 0 };
            let dialogue = run::<Finishing>(
                prototype.first_step(win),
                replies_until_made(ext_found, sgi_found, outcomes) + (
                if !prototype.opengl.vsync {
                    seq![]
                } else if interval is Some {
                    seq![Reply::Status(bound), Reply::Done, Reply::Status(released)]
                } else {
                    seq![Reply::Status(bound), Reply::Status(released)]
                }),
            );
            &&& begins_with_attempts(dialogue.calls, prototype, outcomes)
            &&& dialogue.calls.skip((1 + 3 * outcomes.len()) as int) == (
            if !prototype.opengl.vsync {
                seq![]
            } else if interval is Some {
                seq![bind, interval->0, release]
            } else {
                seq![bind, release]
            })
            &&& dialogue.ends_with(
                Ok(
                    Context {
                        display,
                        window: win,
                        context,
                        pixel_format: prototype.pixel_format,
                    },
                ),
            )
        }),
{
    let finishing = prototype.finishing(win);
    let interval = finishing.interval(ext_found, sgi_found);
    let context = outcomes.last().context;
    let first = prototype.first_step(win);
    let head = replies_until_made(ext_found, sgi_found, outcomes);
    let tail = vsync_replies(finishing, interval, bound, released);
    let calls = run::<Finishing>(first, head + tail).calls;
    lemma_request_asks_in_turn(prototype, win, 0);
    lemma_attempts_from_start(finishing, ext_found, sgi_found, outcomes);
    law_run_in_parts::<Finishing>(first, head, tail);
    law_vsync_leaves_no_context_current(finishing, interval, context, bound, released);
    lemma_begins_with_attempts(
        calls,
        prototype,
        win,
        outcomes,
        vsync_calls(finishing, interval, context),
    );
}

/// Where libGL makes no context, every version was asked for in turn, and the answer is
/// the error that says so.
pub proof fn law_no_context_is_handed_out(
    prototype: ContextPrototype,
    win: u64,
    ext_found: bool,
    sgi_found: bool,
    outcomes: Seq<Outcome>,
)
    requires
        !cannot_be_robust(prototype.extensions@, prototype.opengl.robustness),
        outcomes.len() == (if prototype.opengl.version is Latest {
            11int
        } else {
            1
        }),
        forall|i: int| 0 <= i < outcomes.len() ==> (#[trigger] outcomes[i]).context == 0,
    ensures
        ({
            let dialogue = run::<Finishing>(
                prototype.first_step(win),
                replies_until_made(ext_found, sgi_found, outcomes),
            );
            &&& begins_with_attempts(dialogue.calls, prototype, outcomes)
            &&& dialogue.calls.len() == 1 + 3 * outcomes.len()
            &&& dialogue.ends_with(Err(CreationError::OsError("GL context creation failed"@)))
        }),
{
    let finishing = prototype.finishing(win);
    let calls = run::<Finishing>(
        prototype.first_step(win),
        replies_until_made(ext_found, sgi_found, outcomes),
    ).calls;
    lemma_request_asks_in_turn(prototype, win, 0);
    lemma_attempts_from_start(finishing, ext_found, sgi_found, outcomes);
    assert(calls =~= seq![CallModel::LoadExtraFunctions] + attempt_calls(finishing, 0, outcomes)
        + seq![]);
    lemma_begins_with_attempts(calls, prototype, win, outcomes, seq![]);
}

/// Where the context must be robust and the screen does not know how, libGL is asked for
/// no context: in each attempt errors begin to be dropped, and that is all.
pub proof fn law_context_that_cannot_be_robust_is_not_asked_for(
    prototype: ContextPrototype,
    win: u64,
    ext_found: bool,
    sgi_found: bool,
    handlers: Seq<usize>,
)
    requires
        cannot_be_robust(prototype.extensions@, prototype.opengl.robustness),
        handlers.len() == (if prototype.opengl.version is Latest {
            11int
        } else {
            1
        }),
    ensures
        ({
            let dialogue = run::<Finishing>(
                prototype.first_step(win),
                seq![
                    Reply::ExtraFunctions {
                        swap_interval_ext: ext_found,
                        swap_interval_sgi: sgi_found,
                    },
                ] + handlers.map_values(|handler: usize| Reply::Handler(handler)),
            );
            &&& dialogue.calls.len() == 1 + handlers.len()
            &&& dialogue.calls[0] == CallModel::LoadExtraFunctions
            &&& forall|i: int|
                1 <= i < dialogue.calls.len() ==> #[trigger] dialogue.calls[i]
                    == (CallModel::SetErrorHandler { handler: ErrorHandler::Silent })
            &&& dialogue.ends_with(Err(CreationError::RobustnessNotSupported))
        }),
{
    lemma_request_asks_in_turn(prototype, win, 0);
    let finishing = prototype.finishing(win);
    let first = prototype.first_step(win);
    let interval = finishing.interval(ext_found, sgi_found);
    let head = seq![
        Reply::ExtraFunctions { swap_interval_ext: ext_found, swap_interval_sgi: sgi_found },
    ];
    assert(run::<Finishing>(first, head).calls =~= seq![CallModel::LoadExtraFunctions] && run::<
        Finishing,
    >(first, head).last == finishing.trying(interval, 0)) by {
        reveal_with_fuel(run, 2);
    }
    law_run_in_parts::<Finishing>(
        first,
        head,
        handlers.map_values(|handler: usize| Reply::Handler(handler)),
    );
    lemma_refusals(finishing, interval, 0, handlers);
}

} // verus!
