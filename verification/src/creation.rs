//! Making one context of one version.

use vstd::prelude::*;
use vstd::pervasive::unreached;

use libc::c_int;

use crate::attribute_list::{
    AttributeList,
    decoded,
    encoded,
    is_closed,
    law_list_is_closed,
    law_list_reads_back,
    law_value_is_found,
    names_are_distinct,
    value_of,
};
use crate::extensions::{check_ext, has_extension};
use crate::protocol::{
    Call,
    CallModel,
    ErrorHandler,
    Machine,
    Reply,
    Step,
    run,
    step_model,
    step_wf,
};
use crate::tokens;
use crate::tokens::{
    GLX_CONTEXT_COMPATIBILITY_PROFILE_BIT_ARB,
    GLX_CONTEXT_CORE_PROFILE_BIT_ARB,
    GLX_CONTEXT_DEBUG_BIT_ARB,
    GLX_CONTEXT_FLAGS_ARB,
    GLX_CONTEXT_MAJOR_VERSION_ARB,
    GLX_CONTEXT_MINOR_VERSION_ARB,
    GLX_CONTEXT_PROFILE_MASK_ARB,
    GLX_CONTEXT_RESET_NOTIFICATION_STRATEGY_ARB,
    GLX_CONTEXT_ROBUST_ACCESS_BIT_ARB,
    GLX_LOSE_CONTEXT_ON_RESET_ARB,
    GLX_NO_RESET_NOTIFICATION_ARB,
};
use crate::types::{CreationError, GlProfile, Robustness, VisualInfo};

verus! {

/// Whether a context is to be robust, if that can be had.
pub open spec fn asks_to_be_robust(robustness: Robustness) -> bool {
    match robustness {
        Robustness::NotRobust | Robustness::NoError => false,
        Robustness::RobustNoResetNotification
        | Robustness::TryRobustNoResetNotification
        | Robustness::RobustLoseContextOnReset
        | Robustness::TryRobustLoseContextOnReset => true,
    }
}

/// Whether a context is to be robust or not to be at all.
pub open spec fn must_be_robust(robustness: Robustness) -> bool {
    robustness is RobustNoResetNotification || robustness is RobustLoseContextOnReset
}

pub open spec fn version_pairs(version: (u8, u8)) -> Seq<(c_int, c_int)> {
    seq![
        (GLX_CONTEXT_MAJOR_VERSION_ARB, version.0 as c_int),
        (GLX_CONTEXT_MINOR_VERSION_ARB, version.1 as c_int),
    ]
}

pub open spec fn profile_pair(profile: Option<GlProfile>) -> Seq<(c_int, c_int)> {
    match profile {
        Some(GlProfile::Compatibility) => seq![
            (GLX_CONTEXT_PROFILE_MASK_ARB, GLX_CONTEXT_COMPATIBILITY_PROFILE_BIT_ARB),
        ],
        Some(GlProfile::Core) => seq![
            (GLX_CONTEXT_PROFILE_MASK_ARB, GLX_CONTEXT_CORE_PROFILE_BIT_ARB),
        ],
        None => seq![],
    }
}

/// What a robust context does when the graphics hardware is reset.
pub open spec fn reset_pair(robustness: Robustness) -> Seq<(c_int, c_int)> {
    match robustness {
        Robustness::RobustNoResetNotification | Robustness::TryRobustNoResetNotification => seq![
            (GLX_CONTEXT_RESET_NOTIFICATION_STRATEGY_ARB, GLX_NO_RESET_NOTIFICATION_ARB),
        ],
        Robustness::RobustLoseContextOnReset | Robustness::TryRobustLoseContextOnReset => seq![
            (GLX_CONTEXT_RESET_NOTIFICATION_STRATEGY_ARB, GLX_LOSE_CONTEXT_ON_RESET_ARB),
        ],
        Robustness::NotRobust | Robustness::NoError => seq![],
    }
}

/// The flags of a context: one bit for robust access, one for debugging.
pub open spec fn context_flags(robust: bool, debug: bool) -> int {
    (if robust {
        GLX_CONTEXT_ROBUST_ACCESS_BIT_ARB as int
    } else {
        0
    }) + (if debug {
        GLX_CONTEXT_DEBUG_BIT_ARB as int
    } else {
        0
    })
}

/// Every attribute of the context that is asked for, in order. `robustness_known` says
/// whether the screen knows of robust contexts.
pub open spec fn context_pairs(
    version: (u8, u8),
    profile: Option<GlProfile>,
    debug: bool,
    robustness: Robustness,
    robustness_known: bool,
) -> Seq<(c_int, c_int)> {
    let robust = robustness_known && asks_to_be_robust(robustness);
    version_pairs(version) + profile_pair(profile) + (if robust {
        reset_pair(robustness)
    } else {
        seq![]
    }) + seq![(GLX_CONTEXT_FLAGS_ARB, context_flags(robust, debug) as c_int)]
}

/// The attribute list that `glXCreateContextAttribsARB` takes, or the error that
/// robustness cannot be had where it must.
pub open spec fn context_list(
    version: (u8, u8),
    profile: Option<GlProfile>,
    debug: bool,
    robustness: Robustness,
    robustness_known: bool,
) -> Result<Seq<c_int>, CreationError<Seq<char>>> {
    if must_be_robust(robustness) && !robustness_known {
        Err(CreationError::RobustnessNotSupported)
    } else {
        Ok(encoded(context_pairs(version, profile, debug, robustness, robustness_known)))
    }
}

/// Writes the attributes of a context.
pub fn context_attributes(
    version: (u8, u8),
    profile: Option<GlProfile>,
    debug: bool,
    robustness: Robustness,
    robustness_known: bool,
) -> (list: Result<Vec<c_int>, CreationError>)
    ensures
        match list {
            Ok(values) => context_list(version, profile, debug, robustness, robustness_known)
                == Ok::<Seq<c_int>, CreationError<Seq<char>>>(values@),
            Err(error) => context_list(version, profile, debug, robustness, robustness_known)
                == Err::<Seq<c_int>, CreationError<Seq<char>>>(error.model()),
        },
{
    let mut attributes = AttributeList::with_capacity(9);

    attributes.push(tokens::context_major_version_arb(), version.0 as c_int);
    attributes.push(tokens::context_minor_version_arb(), version.1 as c_int);
    assert(attributes.pairs() =~= version_pairs(version));

    let ghost done = attributes.pairs();
    if let Some(profile) = profile {
        let flag: c_int = match profile {
            GlProfile::Compatibility => tokens::context_compatibility_profile_bit_arb(),
            GlProfile::Core => tokens::context_core_profile_bit_arb(),
        };
        attributes.push(tokens::context_profile_mask_arb(), flag);
    }
    assert(attributes.pairs() =~= done + profile_pair(profile));

    let ghost done = attributes.pairs();
    let mut flags: c_int = 0;
    if robustness_known {
        match robustness {
            Robustness::RobustNoResetNotification | Robustness::TryRobustNoResetNotification => {
                attributes.push(
                    tokens::context_reset_notification_strategy_arb(),
                    tokens::no_reset_notification_arb(),
                );
                flags = flags | tokens::context_robust_access_bit_arb();
            },
            Robustness::RobustLoseContextOnReset | Robustness::TryRobustLoseContextOnReset => {
                attributes.push(
                    tokens::context_reset_notification_strategy_arb(),
                    tokens::lose_context_on_reset_arb(),
                );
                flags = flags | tokens::context_robust_access_bit_arb();
            },
            Robustness::NotRobust => (),
            Robustness::NoError => (),
        }
    } else {
        match robustness {
            Robustness::RobustNoResetNotification | Robustness::RobustLoseContextOnReset => {
                return Err(CreationError::RobustnessNotSupported);
            },
            _ => (),
        }
    }
    let ghost robust = robustness_known && asks_to_be_robust(robustness);
    assert(attributes.pairs() =~= done + (if robust {
        reset_pair(robustness)
    } else {
        seq![]
    }));
    assert(0i32 | 4 == 4) by (bit_vector);

    if debug {
        flags = flags | tokens::context_debug_bit_arb();
    }
    assert(0i32 | 1 == 1) by (bit_vector);
    assert(4i32 | 1 == 5) by (bit_vector);

    let ghost done = attributes.pairs();
    attributes.push(tokens::context_flags_arb(), flags);
    assert(attributes.pairs() =~= done + seq![
        (GLX_CONTEXT_FLAGS_ARB, context_flags(robust, debug) as c_int),
    ]);

    Ok(attributes.close())
}

/// libGL reads all of the attributes of a context (no name is zero, so none is taken
/// for the end of the list), and none is given twice.
pub proof fn law_context_list_is_read_whole(
    version: (u8, u8),
    profile: Option<GlProfile>,
    debug: bool,
    robustness: Robustness,
    robustness_known: bool,
)
    requires
        !must_be_robust(robustness) || robustness_known,
    ensures
        ({
            let pairs = context_pairs(version, profile, debug, robustness, robustness_known);
            let list = context_list(version, profile, debug, robustness, robustness_known);
            names_are_distinct(pairs) && list is Ok && decoded(list->Ok_0) == pairs
        }),
{
    law_list_reads_back(context_pairs(version, profile, debug, robustness, robustness_known));
}

/// Everything that the making of a context depends on.
#[derive(Clone, Copy, PartialEq, Eq, Debug)]
pub struct ContextRequest {
    pub display: usize,
    pub fb_config: usize,
    pub visual_infos: VisualInfo,
    /// The context to share with, or zero.
    pub share: usize,
    /// Whether a context can be asked for by its attributes.
    pub attributes_known: bool,
    /// Whether the screen knows of robust contexts.
    pub robustness_known: bool,
    pub version: (u8, u8),
    pub profile: Option<GlProfile>,
    pub debug: bool,
    pub robustness: Robustness,
}

impl ContextRequest {
    /// Whether the request is turned down before libGL is asked.
    pub open spec fn is_refused(self) -> bool {
        self.attributes_known && !self.robustness_known && must_be_robust(self.robustness)
    }

    /// The call that makes the context.
    pub open spec fn call(self) -> CallModel {
        if self.attributes_known {
            Call::CreateContextAttribs {
                display: self.display,
                fb_config: self.fb_config,
                share: self.share,
                direct: 1,
                attribs: encoded(
                    context_pairs(
                        self.version,
                        self.profile,
                        self.debug,
                        self.robustness,
                        self.robustness_known,
                    ),
                ),
            }
        } else {
            Call::CreateContext {
                display: self.display,
                visual_infos: self.visual_infos,
                share: self.share,
                direct: 1,
            }
        }
    }

    /// Where the making of the context begins.
    pub open spec fn first(self) -> Step<
        Creating,
        Result<usize, CreationError<Seq<char>>>,
        CallModel,
    > {
        Step::Ask(
            Creating::Silencing(self),
            Call::SetErrorHandler { handler: ErrorHandler::Silent },
        )
    }

    /// The request for a context on a screen with the given extensions.
    pub fn new(
        extensions: &str,
        version: (u8, u8),
        profile: Option<GlProfile>,
        debug: bool,
        robustness: Robustness,
        share: usize,
        display: usize,
        fb_config: usize,
        visual_infos: &VisualInfo,
    ) -> (request: ContextRequest)
        ensures
            request == context_request(
                extensions@,
                version,
                profile,
                debug,
                robustness,
                share,
                display,
                fb_config,
                *visual_infos,
            ),
    {
        ContextRequest {
            display,
            fb_config,
            visual_infos: *visual_infos,
            share,
            attributes_known: check_ext(extensions, "GLX_ARB_create_context"),
            robustness_known: check_ext(extensions, "GLX_ARB_create_context_robustness"),
            version,
            profile,
            debug,
            robustness,
        }
    }

    /// Begins to make the context.
    pub fn start(self) -> (step: Step<Creating, Result<usize, CreationError>>)
        ensures
            step_wf(step),
            step_model(step) == self.first(),
    {
        Step::Ask(
            Creating::Silencing(self),
            Call::SetErrorHandler { handler: ErrorHandler::Silent },
        )
    }
}

/// The making of a context. The errors that the X server reports meanwhile are
/// dropped.
#[derive(Clone, Copy, PartialEq, Eq, Debug)]
pub enum Creating {
    /// The error handler is being replaced.
    Silencing(ContextRequest),
    /// The context is being made; the handler at `previous` was in place before.
    Creating { previous: usize },
    /// The error handler is being put back; `context` was made, or zero.
    Restoring { context: usize },
}

/// What became of a context that was to be made.
pub open spec fn created(context: usize) -> Result<usize, CreationError<Seq<char>>> {
    if context == 0 {
        Err(CreationError::OsError("GL context creation failed"@))
    } else {
        Ok(context)
    }
}

impl Machine for Creating {
    type Out = Result<usize, CreationError>;

    type Answer = Result<usize, CreationError<Seq<char>>>;

    open spec fn answer(out: Self::Out) -> Self::Answer {
        match out {
            Ok(context) => Ok(context),
            Err(error) => Err(error.model()),
        }
    }

    open spec fn wf(self) -> bool {
        true
    }

    open spec fn accepts(self, reply: Reply) -> bool {
        match self {
            Creating::Silencing(_) => reply is Handler,
            Creating::Creating { .. } => reply is Address,
            Creating::Restoring { .. } => reply is Handler,
        }
    }

    open spec fn step(self, reply: Reply) -> Step<Self, Self::Answer, CallModel> {
        match (self, reply) {
            (Creating::Silencing(request), Reply::Handler(previous)) => if request.is_refused() {
                Step::Done(Err(CreationError::RobustnessNotSupported))
            } else {
                Step::Ask(Creating::Creating { previous }, request.call())
            },
            (Creating::Creating { previous }, Reply::Address(context)) => Step::Ask(
                Creating::Restoring { context },
                Call::SetErrorHandler { handler: ErrorHandler::Previous(previous) },
            ),
            (Creating::Restoring { context }, Reply::Handler(_)) => Step::Done(created(context)),
            _ => arbitrary(),
        }
    }

    fn ready(&self, reply: &Reply) -> (ready: bool) {
        match self {
            Creating::Silencing(_) => matches!(reply, Reply::Handler(_)),
            Creating::Creating { .. } => matches!(reply, Reply::Address(_)),
            Creating::Restoring { .. } => matches!(reply, Reply::Handler(_)),
        }
    }

    fn next(self, reply: Reply) -> (step: Step<Self, Self::Out>) {
        match (self, reply) {
            (Creating::Silencing(request), Reply::Handler(previous)) => {
                if request.attributes_known {
                    match context_attributes(
                        request.version,
                        request.profile,
                        request.debug,
                        request.robustness,
                        request.robustness_known,
                    ) {
                        Ok(attribs) => Step::Ask(
                            Creating::Creating { previous },
                            Call::CreateContextAttribs {
                                display: request.display,
                                fb_config: request.fb_config,
                                share: request.share,
                                direct: 1,
                                attribs,
                            },
                        ),
                        Err(error) => Step::Done(Err(error)),
                    }
                } else {
                    Step::Ask(
                        Creating::Creating { previous },
                        Call::CreateContext {
                            display: request.display,
                            visual_infos: request.visual_infos,
                            share: request.share,
                            direct: 1,
                        },
                    )
                }
            },
            (Creating::Creating { previous }, Reply::Address(context)) => Step::Ask(
                Creating::Restoring { context },
                Call::SetErrorHandler { handler: ErrorHandler::Previous(previous) },
            ),
            (Creating::Restoring { context }, Reply::Handler(_)) => {
                if context == 0 {
                    Step::Done(
                        Err(CreationError::OsError("GL context creation failed".to_string())),
                    )
                } else {
                    Step::Done(Ok(context))
                }
            },
            _ => unreached(),
        }
    }
}

/// The request for a context on a screen with the given extensions.
pub open spec fn context_request(
    extensions: Seq<char>,
    version: (u8, u8),
    profile: Option<GlProfile>,
    debug: bool,
    robustness: Robustness,
    share: usize,
    display: usize,
    fb_config: usize,
    visual_infos: VisualInfo,
) -> ContextRequest {
    ContextRequest {
        display,
        fb_config,
        visual_infos,
        share,
        attributes_known: has_extension(extensions, "GLX_ARB_create_context"@),
        robustness_known: has_extension(extensions, "GLX_ARB_create_context_robustness"@),
        version,
        profile,
        debug,
        robustness,
    }
}

/// Begins to make a context of one version on a screen with the given extensions.
pub fn create_context(
    extensions: &str,
    version: (u8, u8),
    profile: Option<GlProfile>,
    debug: bool,
    robustness: Robustness,
    share: usize,
    display: usize,
    fb_config: usize,
    visual_infos: &VisualInfo,
) -> (step: Step<Creating, Result<usize, CreationError>>)
    ensures
        step_wf(step),
        step_model(step) == context_request(
            extensions@,
            version,
            profile,
            debug,
            robustness,
            share,
            display,
            fb_config,
            *visual_infos,
        ).first(),
{
    ContextRequest::new(
        extensions,
        version,
        profile,
        debug,
        robustness,
        share,
        display,
        fb_config,
        visual_infos,
    ).start()
}

/// The replies to the calls that make a context.
pub open spec fn creation_replies(previous: usize, context: usize, silent: usize) -> Seq<Reply> {
    seq![Reply::Handler(previous), Reply::Address(context), Reply::Handler(silent)]
}

/// A context is made by one call, with the errors of the X server dropped while it
/// is made and the handler that was in place before put back behind it.
pub proof fn law_handler_is_put_back(
    request: ContextRequest,
    previous: usize,
    context: usize,
    silent: usize,
)
    requires
        !request.is_refused(),
    ensures
        ({
            let dialogue = run::<Creating>(
                request.first(),
                creation_replies(previous, context, silent),
            );
            &&& dialogue.calls == seq![
                CallModel::SetErrorHandler { handler: ErrorHandler::Silent },
                request.call(),
                CallModel::SetErrorHandler { handler: ErrorHandler::Previous(previous) },
            ]
            &&& dialogue.ends_with(created(context))
        }),
{
    reveal_with_fuel(run, 4);
    let replies = creation_replies(previous, context, silent);
    assert(replies.drop_first()[0] == replies[1]);
    assert(replies.drop_first().drop_first()[0] == replies[2]);
}

/// A robustness that must be had and is not known is refused without a call that
/// makes a context. The errors of the X server stay dropped.
pub proof fn law_unknown_robustness_is_refused(request: ContextRequest, previous: usize)
    requires
        request.is_refused(),
    ensures
        ({
            let dialogue = run::<Creating>(request.first(), seq![Reply::Handler(previous)]);
            &&& dialogue.calls == seq![CallModel::SetErrorHandler { handler: ErrorHandler::Silent }]
            &&& dialogue.ends_with(Err(CreationError::RobustnessNotSupported))
        }),
{
    reveal_with_fuel(run, 2);
}

/// Whether a reader of `attribs` finds that a context is asked for with the given
/// version, profile, debugging and robustness, and with no other attribute.
/// `robustness_known` says whether the screen knows of robust contexts.
pub open spec fn describes(
    attribs: Seq<c_int>,
    version: (u8, u8),
    profile: Option<GlProfile>,
    debug: bool,
    robustness: Robustness,
    robustness_known: bool,
) -> bool {
    &&& is_closed(attribs)
    &&& value_of(attribs, GLX_CONTEXT_MAJOR_VERSION_ARB) == Some(version.0 as c_int)
    &&& value_of(attribs, GLX_CONTEXT_MINOR_VERSION_ARB) == Some(version.1 as c_int)
    &&& match profile {
        Some(GlProfile::Core) => value_of(attribs, GLX_CONTEXT_PROFILE_MASK_ARB) == Some(
            GLX_CONTEXT_CORE_PROFILE_BIT_ARB,
        ),
        Some(GlProfile::Compatibility) => value_of(attribs, GLX_CONTEXT_PROFILE_MASK_ARB) == Some(
            GLX_CONTEXT_COMPATIBILITY_PROFILE_BIT_ARB,
        ),
        None => value_of(attribs, GLX_CONTEXT_PROFILE_MASK_ARB) is None,
    }
    &&& ({
        let strategy = value_of(attribs, GLX_CONTEXT_RESET_NOTIFICATION_STRATEGY_ARB);
        let loses = robustness == Robustness::RobustLoseContextOnReset || robustness
            == Robustness::TryRobustLoseContextOnReset;
        let keeps = robustness == Robustness::RobustNoResetNotification || robustness
            == Robustness::TryRobustNoResetNotification;
        let robust_bit: int = if robustness_known && (loses || keeps) {
            GLX_CONTEXT_ROBUST_ACCESS_BIT_ARB as int
        } else {
            0
        };
        let debug_bit: int = if debug {
            GLX_CONTEXT_DEBUG_BIT_ARB as int
        } else {
            0
        };
        &&& robustness_known && loses <==> strategy == Some(GLX_LOSE_CONTEXT_ON_RESET_ARB)
        &&& robustness_known && keeps <==> strategy == Some(GLX_NO_RESET_NOTIFICATION_ARB)
        &&& !robustness_known || !(loses || keeps) ==> strategy is None
        &&& value_of(attribs, GLX_CONTEXT_FLAGS_ARB) is Some
        &&& value_of(attribs, GLX_CONTEXT_FLAGS_ARB)->0 == robust_bit + debug_bit
    })
    &&& forall|name: c_int|
        name != GLX_CONTEXT_MAJOR_VERSION_ARB && name != GLX_CONTEXT_MINOR_VERSION_ARB && name
            != GLX_CONTEXT_PROFILE_MASK_ARB && name != GLX_CONTEXT_RESET_NOTIFICATION_STRATEGY_ARB
            && name != GLX_CONTEXT_FLAGS_ARB ==> (#[trigger] value_of(attribs, name)) is None
}

proof fn lemma_context_found(pairs: Seq<(c_int, c_int)>, name: c_int)
    requires
        names_are_distinct(pairs),
        pairs.len() <= 5,
    ensures
        forall|i: int|
            0 <= i < pairs.len() && (#[trigger] pairs[i]).0 == name ==> value_of(
                encoded(pairs),
                name,
            ) == Some(pairs[i].1),
        (forall|i: int| 0 <= i < pairs.len() ==> (#[trigger] pairs[i]).0 != name) ==> value_of(
            encoded(pairs),
            name,
        ) is None,
{
    assert forall|i: int| 0 <= i < pairs.len() && (#[trigger] pairs[i]).0 == name implies value_of(
        encoded(pairs),
        name,
    ) == Some(pairs[i].1) by {
        law_value_is_found(pairs, name, pairs[i].1);
        assert(pairs.contains((name, pairs[i].1)));
    }
    if let Some(value) = value_of(encoded(pairs), name) {
        law_value_is_found(pairs, name, value);
    }
}

/// A reader of the attributes of a context finds the version, the profile, the debugging
/// and the robustness that were asked for. There are no such attributes exactly where
/// the context must be robust and the screen does not know how.
pub proof fn law_context_list_describes_what_is_asked_for(
    version: (u8, u8),
    profile: Option<GlProfile>,
    debug: bool,
    robustness: Robustness,
    robustness_known: bool,
)
    ensures
        ({
            let strict = robustness == Robustness::RobustNoResetNotification || robustness
                == Robustness::RobustLoseContextOnReset;
            match context_list(version, profile, debug, robustness, robustness_known) {
                Ok(attribs) => !(strict && !robustness_known) && describes(
                    attribs,
                    version,
                    profile,
                    debug,
                    robustness,
                    robustness_known,
                ),
                Err(error) => strict && !robustness_known && error is RobustnessNotSupported,
            }
        }),
{
    let pairs = context_pairs(version, profile, debug, robustness, robustness_known);
    if let Ok(attribs) = context_list(version, profile, debug, robustness, robustness_known) {
        law_context_list_is_read_whole(version, profile, debug, robustness, robustness_known);
        law_list_is_closed(pairs);
        let n = pairs.len();
        assert(n == 3 || n == 4 || n == 5);
        let last = pairs[n - 1];
        assert(last.0 == GLX_CONTEXT_FLAGS_ARB);
        assert(pairs[0].0 == GLX_CONTEXT_MAJOR_VERSION_ARB);
        assert(pairs[1].0 == GLX_CONTEXT_MINOR_VERSION_ARB);
        lemma_context_found(pairs, GLX_CONTEXT_MAJOR_VERSION_ARB);
        lemma_context_found(pairs, GLX_CONTEXT_MINOR_VERSION_ARB);
        lemma_context_found(pairs, GLX_CONTEXT_PROFILE_MASK_ARB);
        lemma_context_found(pairs, GLX_CONTEXT_RESET_NOTIFICATION_STRATEGY_ARB);
        lemma_context_found(pairs, GLX_CONTEXT_FLAGS_ARB);
        if profile is Some {
            assert(pairs[2].0 == GLX_CONTEXT_PROFILE_MASK_ARB);
        }
        if robustness_known && asks_to_be_robust(robustness) {
            assert(pairs[n - 2].0 == GLX_CONTEXT_RESET_NOTIFICATION_STRATEGY_ARB);
        }
        assert forall|name: c_int|
            name != GLX_CONTEXT_MAJOR_VERSION_ARB && name != GLX_CONTEXT_MINOR_VERSION_ARB && name
                != GLX_CONTEXT_PROFILE_MASK_ARB && name
                != GLX_CONTEXT_RESET_NOTIFICATION_STRATEGY_ARB && name
                != GLX_CONTEXT_FLAGS_ARB implies (#[trigger] value_of(attribs, name)) is None by {
            lemma_context_found(pairs, name);
        }
    }
}

/// Where the screen knows of robust contexts, it makes no difference whether robustness
/// must be had or is only to be tried; where it does not, trying is as good as not asking.
pub proof fn law_trying_is_asking_where_robustness_is_known(
    version: (u8, u8),
    profile: Option<GlProfile>,
    debug: bool,
)
    ensures
        context_list(version, profile, debug, Robustness::TryRobustNoResetNotification, true)
            == context_list(version, profile, debug, Robustness::RobustNoResetNotification, true),
        context_list(version, profile, debug, Robustness::TryRobustLoseContextOnReset, true)
            == context_list(version, profile, debug, Robustness::RobustLoseContextOnReset, true),
        context_list(version, profile, debug, Robustness::TryRobustNoResetNotification, false)
            == context_list(version, profile, debug, Robustness::NotRobust, false),
        context_list(version, profile, debug, Robustness::TryRobustLoseContextOnReset, false)
            == context_list(version, profile, debug, Robustness::NotRobust, false),
        context_list(version, profile, debug, Robustness::NoError, true) == context_list(
            version,
            profile,
            debug,
            Robustness::NotRobust,
            true,
        ),
{
}

/// Whether `call` makes a context as it is asked for: by its attributes where the screen
/// can do that, else for the visual alone.
pub open spec fn makes_context(
    call: CallModel,
    extensions: Seq<char>,
    version: (u8, u8),
    profile: Option<GlProfile>,
    debug: bool,
    robustness: Robustness,
    share: usize,
    display: usize,
    fb_config: usize,
    visual_infos: VisualInfo,
) -> bool {
    if has_extension(extensions, "GLX_ARB_create_context"@) {
        &&& call is CreateContextAttribs
        &&& call->CreateContextAttribs_display == display
        &&& call->CreateContextAttribs_fb_config == fb_config
        &&& call->CreateContextAttribs_share == share
        &&& call->CreateContextAttribs_direct == 1
        &&& describes(
            call->CreateContextAttribs_attribs,
            version,
            profile,
            debug,
            robustness,
            has_extension(extensions, "GLX_ARB_create_context_robustness"@),
        )
    } else {
        &&& call is CreateContext
        &&& call->CreateContext_display == display
        &&& call->CreateContext_visual_infos == visual_infos
        &&& call->CreateContext_share == share
        &&& call->CreateContext_direct == 1
    }
}

/// Whether no context can be made because it must be robust and the screen does not know
/// how, though contexts can be asked for by their attributes.
pub open spec fn cannot_be_robust(extensions: Seq<char>, robustness: Robustness) -> bool {
    &&& has_extension(extensions, "GLX_ARB_create_context"@)
    &&& !has_extension(extensions, "GLX_ARB_create_context_robustness"@)
    &&& robustness == Robustness::RobustNoResetNotification || robustness
        == Robustness::RobustLoseContextOnReset
}

/// A request says just what is asked for, and is refused just where the context cannot
/// be as robust as it must.
pub proof fn law_request_makes_what_is_asked_for(
    extensions: Seq<char>,
    version: (u8, u8),
    profile: Option<GlProfile>,
    debug: bool,
    robustness: Robustness,
    share: usize,
    display: usize,
    fb_config: usize,
    visual_infos: VisualInfo,
)
    ensures
        ({
            let request = context_request(
                extensions,
                version,
                profile,
                debug,
                robustness,
                share,
                display,
                fb_config,
                visual_infos,
            );
            &&& request.is_refused() <==> cannot_be_robust(extensions, robustness)
            &&& !cannot_be_robust(extensions, robustness) ==> makes_context(
                request.call(),
                extensions,
                version,
                profile,
                debug,
                robustness,
                share,
                display,
                fb_config,
                visual_infos,
            )
        }),
{
    law_context_list_describes_what_is_asked_for(
        version,
        profile,
        debug,
        robustness,
        has_extension(extensions, "GLX_ARB_create_context_robustness"@),
    );
}

/// What [`create_context`] does. The error handler is silenced, and that is all where the
/// context cannot be as robust as it must. Else one call makes the context that was asked
/// for, the handler from before is put back, and the answer is that context, or an error
/// if there is none.
pub proof fn law_context_is_made_as_asked(
    extensions: Seq<char>,
    version: (u8, u8),
    profile: Option<GlProfile>,
    debug: bool,
    robustness: Robustness,
    share: usize,
    display: usize,
    fb_config: usize,
    visual_infos: VisualInfo,
    previous: usize,
    context: usize,
    silent: usize,
)
    ensures
        ({
            let dialogue = run::<Creating>(
                context_request(
                    extensions,
                    version,
                    profile,
                    debug,
                    robustness,
                    share,
                    display,
                    fb_config,
                    visual_infos,
                ).first(),
                seq![Reply::Handler(previous), Reply::Address(context), Reply::Handler(silent)],
            );
            let silence = CallModel::SetErrorHandler { handler: ErrorHandler::Silent };
            if cannot_be_robust(extensions, robustness) {
                &&& dialogue.calls == seq![silence]
                &&& dialogue.ends_with(Err(CreationError::RobustnessNotSupported))
            } else {
                &&& dialogue.calls.len() == 3
                &&& dialogue.calls[0] == silence
                &&& makes_context(
                    dialogue.calls[1],
                    extensions,
                    version,
                    profile,
                    debug,
                    robustness,
                    share,
                    display,
                    fb_config,
                    visual_infos,
                )
                &&& dialogue.calls[2] == CallModel::SetErrorHandler {
                    handler: ErrorHandler::Previous(previous),
                }
                &&& context == 0 ==> dialogue.ends_with(
                    Err(CreationError::OsError("GL context creation failed"@)),
                )
                &&& context != 0 ==> dialogue.ends_with(Ok(context))
            }
        }),
{
    let request = context_request(
        extensions,
        version,
        profile,
        debug,
        robustness,
        share,
        display,
        fb_config,
        visual_infos,
    );
    law_request_makes_what_is_asked_for(
        extensions,
        version,
        profile,
        debug,
        robustness,
        share,
        display,
        fb_config,
        visual_infos,
    );
    if request.is_refused() {
        reveal_with_fuel(run, 2);
    } else {
        law_handler_is_put_back(request, previous, context, silent);
        assert(creation_replies(previous, context, silent) == seq![
            Reply::Handler(previous),
            Reply::Address(context),
            Reply::Handler(silent),
        ]);
    }
}

} // verus!
