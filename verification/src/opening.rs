//! From a screen to the prototype of a context: all that can be settled before there
//! is a window.

use vstd::prelude::*;
use vstd::pervasive::unreached;
use vstd::utf8::{decode_utf8, valid_utf8};

use libc::c_int;

use crate::context::Context;
use crate::fbconfig::{Choosing, choice, choose_fbconfig};
use crate::protocol::{
    Call,
    CallModel,
    Machine,
    Reply,
    Step,
    Visual,
    law_run_in_parts,
    run,
    step_model,
    step_wf,
};
use crate::types::{CreationError, GlAttributes, PixelFormat, PixelFormatRequirements, VisualInfo};

verus! {

/// Everything about a context but its window.
#[derive(PartialEq, Eq, Debug)]
pub struct ContextPrototype<'a> {
    /// The extensions that the screen offers.
    pub extensions: String,
    /// The connection to the X server.
    pub display: usize,
    pub opengl: &'a GlAttributes<&'a Context>,
    pub fb_config: usize,
    pub visual_infos: VisualInfo,
    pub pixel_format: PixelFormat,
}

impl<'a> ContextPrototype<'a> {
    /// The visual that the window is to have.
    pub fn get_visual_infos(&self) -> (infos: &VisualInfo)
        ensures
            *infos == self.visual_infos,
    {
        &self.visual_infos
    }
}

/// `String::from_utf8` of the standard library: the string whose UTF-8 encoding
/// `bytes` is. There is one exactly if `bytes` is valid UTF-8.
#[verifier::external_body]
fn string_from_utf8(bytes: Vec<u8>) -> (text: Option<String>)
    ensures
        text is Some <==> valid_utf8(bytes@),
        text matches Some(string) ==> string@ == decode_utf8(bytes@),
{
    match String::from_utf8(bytes) {
        Ok(string) => Some(string),
        Err(_) => None,
    }
}

/// The reply that an extension string is, given by its bytes if there is one. There is
/// no such reply where the bytes are not valid UTF-8.
pub fn extensions_reply(bytes: Option<Vec<u8>>) -> (reply: Option<Reply>)
    ensures
        match bytes {
            None => reply == Some(Reply::Extensions(None)),
            Some(bytes) => if valid_utf8(bytes@) {
                reply matches Some(Reply::Extensions(Some(text))) && text@ == decode_utf8(bytes@)
            } else {
                reply is None
            },
        },
{
    match bytes {
        None => Some(Reply::Extensions(None)),
        Some(bytes) => match string_from_utf8(bytes) {
            Some(text) => Some(Reply::Extensions(Some(text))),
            None => None,
        },
    }
}

/// How far the making of a prototype has come.
#[derive(PartialEq, Eq, Debug)]
pub enum OpeningStage {
    /// The version of GLX is being queried. Nothing is done with it.
    QueryingVersion,
    /// The extensions are being queried.
    QueryingExtensions,
    /// A configuration is being chosen.
    Choosing { extensions: String, choosing: Choosing },
    /// The visual of the configuration is being fetched.
    FetchingVisual { extensions: String, fb_config: usize, pixel_format: PixelFormat },
    /// That visual is being freed.
    FreeingVisual {
        extensions: String,
        fb_config: usize,
        pixel_format: PixelFormat,
        visual_infos: VisualInfo,
    },
}

/// The making of a prototype.
#[derive(PartialEq, Eq, Debug)]
pub struct Opening<'a, 'r> {
    pub display: usize,
    pub pf_reqs: &'r PixelFormatRequirements,
    pub opengl: &'a GlAttributes<&'a Context>,
    pub screen_id: c_int,
    pub transparent: bool,
    pub stage: OpeningStage,
}

impl<'a, 'r> Opening<'a, 'r> {
    /// Where the making of the prototype stands once the choice of a configuration
    /// stands at `choosing`.
    pub open spec fn chosen(
        self,
        extensions: String,
        choosing: Step<Choosing, Result<(usize, PixelFormat), ()>, CallModel>,
    ) -> Step<
        Opening<'a, 'r>,
        Result<ContextPrototype<'a>, CreationError<Seq<char>>>,
        CallModel,
    > {
        match choosing {
            Step::Ask(choosing, call) => Step::Ask(
                Opening { stage: OpeningStage::Choosing { extensions, choosing }, ..self },
                call,
            ),
            Step::Done(Ok((fb_config, pixel_format))) => Step::Ask(
                Opening {
                    stage: OpeningStage::FetchingVisual { extensions, fb_config, pixel_format },
                    ..self
                },
                Call::GetVisualFromFbConfig { display: self.display, fb_config },
            ),
            Step::Done(Err(_)) => Step::Done(Err(CreationError::NoAvailablePixelFormat)),
        }
    }

    fn with_choice(
        self,
        extensions: String,
        choosing: Step<Choosing, Result<(usize, PixelFormat), ()>>,
    ) -> (step: Step<Opening<'a, 'r>, Result<ContextPrototype<'a>, CreationError>>)
        requires
            step_wf(choosing),
        ensures
            match step {
                Step::Ask(machine, call) => {
                    &&& machine.stage matches OpeningStage::Choosing { choosing, .. }
                        ==> choosing.wf()
                    &&& self.chosen(extensions, step_model(choosing)) == Step::<
                        Opening<'a, 'r>,
                        Result<ContextPrototype<'a>, CreationError<Seq<char>>>,
                        CallModel,
                    >::Ask(machine, call.model())
                },
                Step::Done(out) => out matches Err(error) && self.chosen(
                    extensions,
                    step_model(choosing),
                ) == Step::<
                    Opening<'a, 'r>,
                    Result<ContextPrototype<'a>, CreationError<Seq<char>>>,
                    CallModel,
                >::Done(Err(error.model())),
            },
    {
        let display: usize = self.display;
        match choosing {
            Step::Ask(choosing, call) => Step::Ask(
                Opening {
                    display,
                    pf_reqs: self.pf_reqs,
                    opengl: self.opengl,
                    screen_id: self.screen_id,
                    transparent: self.transparent,
                    stage: OpeningStage::Choosing { extensions, choosing },
                },
                call,
            ),
            Step::Done(Ok((fb_config, pixel_format))) => Step::Ask(
                Opening {
                    display,
                    pf_reqs: self.pf_reqs,
                    opengl: self.opengl,
                    screen_id: self.screen_id,
                    transparent: self.transparent,
                    stage: OpeningStage::FetchingVisual { extensions, fb_config, pixel_format },
                },
                Call::GetVisualFromFbConfig { display, fb_config },
            ),
            Step::Done(Err(_)) => Step::Done(Err(CreationError::NoAvailablePixelFormat)),
        }
    }
}

impl<'a, 'r> Machine for Opening<'a, 'r> {
    type Out = Result<ContextPrototype<'a>, CreationError>;

    type Answer = Result<ContextPrototype<'a>, CreationError<Seq<char>>>;

    open spec fn answer(out: Self::Out) -> Self::Answer {
        match out {
            Ok(prototype) => Ok(prototype),
            Err(error) => Err(error.model()),
        }
    }

    open spec fn wf(self) -> bool {
        match self.stage {
            OpeningStage::Choosing { choosing, .. } => choosing.wf(),
            _ => true,
        }
    }

    open spec fn accepts(self, reply: Reply) -> bool {
        match self.stage {
            OpeningStage::QueryingVersion => reply is Done,
            OpeningStage::QueryingExtensions => reply is Extensions,
            OpeningStage::Choosing { choosing, .. } => choosing.accepts(reply),
            OpeningStage::FetchingVisual { .. } => reply is Visual,
            OpeningStage::FreeingVisual { .. } => reply is Done,
        }
    }

    open spec fn step(self, reply: Reply) -> Step<Self, Self::Answer, CallModel> {
        match (self.stage, reply) {
            (OpeningStage::QueryingVersion, Reply::Done) => Step::Ask(
                Opening { stage: OpeningStage::QueryingExtensions, ..self },
                Call::QueryExtensionsString { display: self.display, screen: self.screen_id },
            ),
            (OpeningStage::QueryingExtensions, Reply::Extensions(extensions)) => match extensions {
                Some(extensions) => self.chosen(
                    extensions,
                    choice(
                        extensions@,
                        self.display,
                        self.screen_id,
                        *self.pf_reqs,
                        self.transparent,
                    ),
                ),
                None => Step::Done(
                    Err(
                        CreationError::OsError(
                            "`glXQueryExtensionsString` found no glX extensions"@,
                        ),
                    ),
                ),
            },
            (OpeningStage::Choosing { extensions, choosing }, _) => self.chosen(
                extensions,
                choosing.step(reply),
            ),
            (
                OpeningStage::FetchingVisual { extensions, fb_config, pixel_format },
                Reply::Visual(visual),
            ) => match visual {
                Some(visual) => Step::Ask(
                    Opening {
                        stage: OpeningStage::FreeingVisual {
                            extensions,
                            fb_config,
                            pixel_format,
                            visual_infos: visual.info,
                        },
                        ..self
                    },
                    Call::Free { pointer: visual.pointer },
                ),
                None => Step::Done(
                    Err(
                        CreationError::OsError(
                            "`glXGetVisualFromFBConfig` failed: invalid `GLXFBConfig`"@,
                        ),
                    ),
                ),
            },
            (
                OpeningStage::FreeingVisual { extensions, fb_config, pixel_format, visual_infos },
                Reply::Done,
            ) => Step::Done(
                Ok(
                    ContextPrototype {
                        extensions,
                        display: self.display,
                        opengl: self.opengl,
                        fb_config,
                        visual_infos,
                        pixel_format,
                    },
                ),
            ),
            _ => arbitrary(),
        }
    }

    fn ready(&self, reply: &Reply) -> (ready: bool) {
        match &self.stage {
            OpeningStage::QueryingVersion => matches!(reply, Reply::Done),
            OpeningStage::QueryingExtensions => matches!(reply, Reply::Extensions(_)),
            OpeningStage::Choosing { choosing, .. } => choosing.ready(reply),
            OpeningStage::FetchingVisual { .. } => matches!(reply, Reply::Visual(_)),
            OpeningStage::FreeingVisual { .. } => matches!(reply, Reply::Done),
        }
    }

    fn next(self, reply: Reply) -> (step: Step<Self, Self::Out>) {
        let display: usize = self.display;
        let pf_reqs = self.pf_reqs;
        let opengl = self.opengl;
        let screen_id: c_int = self.screen_id;
        let transparent = self.transparent;
        match (self.stage, reply) {
            (OpeningStage::QueryingVersion, Reply::Done) => Step::Ask(
                Opening {
                    display,
                    pf_reqs,
                    opengl,
                    screen_id,
                    transparent,
                    stage: OpeningStage::QueryingExtensions,
                },
                Call::QueryExtensionsString { display, screen: screen_id },
            ),
            (OpeningStage::QueryingExtensions, Reply::Extensions(extensions)) => match extensions {
                Some(extensions) => {
                    let choosing = choose_fbconfig(
                        extensions.as_str(),
                        display,
                        screen_id,
                        pf_reqs,
                        transparent,
                    );
                    let opening = Opening {
                        display,
                        pf_reqs,
                        opengl,
                        screen_id,
                        transparent,
                        stage: OpeningStage::QueryingExtensions,
                    };
                    opening.with_choice(extensions, choosing)
                },
                None => Step::Done(
                    Err(
                        CreationError::OsError(
                            "`glXQueryExtensionsString` found no glX extensions".to_string(),
                        ),
                    ),
                ),
            },
            (OpeningStage::Choosing { extensions, choosing }, reply) => {
                let choosing = choosing.next(reply);
                let opening = Opening {
                    display,
                    pf_reqs,
                    opengl,
                    screen_id,
                    transparent,
                    stage: OpeningStage::QueryingExtensions,
                };
                opening.with_choice(extensions, choosing)
            },
            (
                OpeningStage::FetchingVisual { extensions, fb_config, pixel_format },
                Reply::Visual(visual),
            ) => match visual {
                Some(visual) => Step::Ask(
                    Opening {
                        display,
                        pf_reqs,
                        opengl,
                        screen_id,
                        transparent,
                        stage: OpeningStage::FreeingVisual {
                            extensions,
                            fb_config,
                            pixel_format,
                            visual_infos: visual.info,
                        },
                    },
                    Call::Free { pointer: visual.pointer },
                ),
                None => Step::Done(
                    Err(
                        CreationError::OsError(
                            "`glXGetVisualFromFBConfig` failed: invalid `GLXFBConfig`".to_string(),
                        ),
                    ),
                ),
            },
            (
                OpeningStage::FreeingVisual { extensions, fb_config, pixel_format, visual_infos },
                Reply::Done,
            ) => Step::Done(
                Ok(
                    ContextPrototype {
                        extensions,
                        display,
                        opengl,
                        fb_config,
                        visual_infos,
                        pixel_format,
                    },
                ),
            ),
            _ => unreached(),
        }
    }
}

/// Where the making of a prototype begins.
pub open spec fn opening<'a, 'r>(
    display: usize,
    pf_reqs: &'r PixelFormatRequirements,
    opengl: &'a GlAttributes<&'a Context>,
    screen_id: c_int,
    transparent: bool,
) -> Step<Opening<'a, 'r>, Result<ContextPrototype<'a>, CreationError<Seq<char>>>, CallModel> {
    Step::Ask(
        Opening {
            display,
            pf_reqs,
            opengl,
            screen_id,
            transparent,
            stage: OpeningStage::QueryingVersion,
        },
        Call::QueryVersion { display },
    )
}

impl Context {
    /// Begins to make the prototype of a context on a screen. It settles everything
    /// but the window, whose visual the prototype tells.
    pub fn new<'a, 'r>(
        display: usize,
        pf_reqs: &'r PixelFormatRequirements,
        opengl: &'a GlAttributes<&'a Context>,
        screen_id: c_int,
        transparent: bool,
    ) -> (step: Step<Opening<'a, 'r>, Result<ContextPrototype<'a>, CreationError>>)
        ensures
            step_wf(step),
            step_model(step) == opening(display, pf_reqs, opengl, screen_id, transparent),
    {
        // VirtualBox's OpenGL driver needs some call handled by it, and not by Mesa, to
        // occur before anything else: it patches Mesa when it is loaded. The easiest
        // such call is `glXQueryVersion`.
        Step::Ask(
            Opening {
                display,
                pf_reqs,
                opengl,
                screen_id,
                transparent,
                stage: OpeningStage::QueryingVersion,
            },
            Call::QueryVersion { display },
        )
    }
}

/// `glXQueryVersion` is called before anything else.
pub proof fn law_version_is_queried_first(
    display: usize,
    pf_reqs: &PixelFormatRequirements,
    opengl: &GlAttributes<&Context>,
    screen_id: c_int,
    transparent: bool,
    replies: Seq<Reply>,
)
    ensures
        ({
            let calls = run::<Opening>(
                opening(display, pf_reqs, opengl, screen_id, transparent),
                replies,
            ).calls;
            calls.len() > 0 ==> calls[0] == CallModel::QueryVersion { display }
        }),
{
}

/// The choice of a configuration goes on within the making of a prototype as it does
/// alone.
proof fn lemma_choice_within<'a, 'r>(
    opening: Opening<'a, 'r>,
    extensions: String,
    choosing: Step<Choosing, Result<(usize, PixelFormat), ()>, CallModel>,
    replies: Seq<Reply>,
)
    requires
        run::<Choosing>(choosing, replies).calls.len() == replies.len(),
    ensures
        ({
            let alone = run::<Choosing>(choosing, replies);
            let within = run::<Opening<'a, 'r>>(opening.chosen(extensions, choosing), replies);
            &&& within.calls == alone.calls
            &&& within.last == opening.chosen(extensions, alone.last)
        }),
    decreases replies.len(),
{
    if replies.len() > 0 {
        assert(choosing is Ask);
        let machine = choosing->Ask_0;
        let inner = Opening {
            stage: OpeningStage::Choosing { extensions, choosing: machine },
            ..opening
        };
        let next = machine.step(replies[0]);
        assert(inner.step(replies[0]) == opening.chosen(extensions, next));
        lemma_choice_within(opening, extensions, next, replies.drop_first());
    } else {
        assert(run::<Choosing>(choosing, replies).calls =~= seq![]);
        assert(run::<Opening<'a, 'r>>(opening.chosen(extensions, choosing), replies).calls
            =~= seq![]);
    }
}

/// The dialogue up to the end of the choice.
proof fn lemma_dialogue_of_choice<'a, 'r>(
    display: usize,
    pf_reqs: &'r PixelFormatRequirements,
    opengl: &'a GlAttributes<&'a Context>,
    screen_id: c_int,
    transparent: bool,
    extensions: String,
    replies: Seq<Reply>,
)
    requires
        run::<Choosing>(
            choice(extensions@, display, screen_id, *pf_reqs, transparent),
            replies,
        ).calls.len() == replies.len(),
    ensures
        ({
            let choosing = run::<Choosing>(
                choice(extensions@, display, screen_id, *pf_reqs, transparent),
                replies,
            );
            let machine = Opening {
                display,
                pf_reqs,
                opengl,
                screen_id,
                transparent,
                stage: OpeningStage::QueryingExtensions,
            };
            let dialogue = run::<Opening<'a, 'r>>(
                opening(display, pf_reqs, opengl, screen_id, transparent),
                seq![Reply::Done, Reply::Extensions(Some(extensions))] + replies,
            );
            &&& dialogue.calls == seq![
                CallModel::QueryVersion { display },
                CallModel::QueryExtensionsString { display, screen: screen_id },
            ] + choosing.calls
            &&& dialogue.last == machine.chosen(extensions, choosing.last)
        }),
{
    let first = opening(display, pf_reqs, opengl, screen_id, transparent);
    let head = seq![Reply::Done, Reply::Extensions(Some(extensions))];
    let machine = Opening {
        display,
        pf_reqs,
        opengl,
        screen_id,
        transparent,
        stage: OpeningStage::QueryingExtensions,
    };
    let begun = choice(extensions@, display, screen_id, *pf_reqs, transparent);
    assert(run::<Opening<'a, 'r>>(first, head).calls =~= seq![
        CallModel::QueryVersion { display },
        CallModel::QueryExtensionsString { display, screen: screen_id },
    ] && run::<Opening<'a, 'r>>(first, head).last == machine.chosen(extensions, begun)) by {
        reveal_with_fuel(run, 3);
        assert(head.drop_first()[0] == head[1]);
        assert(head.drop_first().drop_first() =~= seq![]);
    }
    law_run_in_parts::<Opening<'a, 'r>>(first, head, replies);
    lemma_choice_within(machine, extensions, begun, replies);
}

/// Once a configuration is chosen, its visual is fetched, copied and freed, and the
/// prototype holds what was found: the extensions, the configuration, its format and
/// its visual.
pub proof fn law_prototype_holds_what_was_found<'a, 'r>(
    display: usize,
    pf_reqs: &'r PixelFormatRequirements,
    opengl: &'a GlAttributes<&'a Context>,
    screen_id: c_int,
    transparent: bool,
    extensions: String,
    replies: Seq<Reply>,
    fb_config: usize,
    pixel_format: PixelFormat,
    visual: Visual,
)
    requires
        ({
            let choosing = run::<Choosing>(
                choice(extensions@, display, screen_id, *pf_reqs, transparent),
                replies,
            );
            &&& choosing.calls.len() == replies.len()
            &&& choosing.ends_with(Ok((fb_config, pixel_format)))
        }),
    ensures
        ({
            let choosing = run::<Choosing>(
                choice(extensions@, display, screen_id, *pf_reqs, transparent),
                replies,
            );
            let dialogue = run::<Opening<'a, 'r>>(
                opening(display, pf_reqs, opengl, screen_id, transparent),
                seq![Reply::Done, Reply::Extensions(Some(extensions))] + replies + seq![
                    Reply::Visual(Some(visual)),
                    Reply::Done,
                ],
            );
            &&& dialogue.calls == seq![
                CallModel::QueryVersion { display },
                CallModel::QueryExtensionsString { display, screen: screen_id },
            ] + choosing.calls + seq![
                CallModel::GetVisualFromFbConfig { display, fb_config },
                CallModel::Free { pointer: visual.pointer },
            ]
            &&& dialogue.ends_with(
                Ok(
                    ContextPrototype {
                        extensions,
                        display,
                        opengl,
                        fb_config,
                        visual_infos: visual.info,
                        pixel_format,
                    },
                ),
            )
        }),
{
    lemma_dialogue_of_choice(
        display,
        pf_reqs,
        opengl,
        screen_id,
        transparent,
        extensions,
        replies,
    );
    let first = opening(display, pf_reqs, opengl, screen_id, transparent);
    let head = seq![Reply::Done, Reply::Extensions(Some(extensions))] + replies;
    let tail = seq![Reply::Visual(Some(visual)), Reply::Done];
    law_run_in_parts::<Opening<'a, 'r>>(first, head, tail);
    let at_visual = run::<Opening<'a, 'r>>(first, head).last;
    assert(run::<Opening<'a, 'r>>(at_visual, tail).calls =~= seq![
        CallModel::GetVisualFromFbConfig { display, fb_config },
        CallModel::Free { pointer: visual.pointer },
    ] && run::<Opening<'a, 'r>>(at_visual, tail).ends_with(
        Ok(
            ContextPrototype {
                extensions,
                display,
                opengl,
                fb_config,
                visual_infos: visual.info,
                pixel_format,
            },
        ),
    )) by {
        reveal_with_fuel(run, 3);
        assert(tail.drop_first()[0] == tail[1]);
    }
}

/// Where no configuration can be chosen, the making of a prototype fails with the
/// error that says so, and with no call beyond those of the choice.
pub proof fn law_no_choice_is_an_error<'a, 'r>(
    display: usize,
    pf_reqs: &'r PixelFormatRequirements,
    opengl: &'a GlAttributes<&'a Context>,
    screen_id: c_int,
    transparent: bool,
    extensions: String,
    replies: Seq<Reply>,
)
    requires
        ({
            let choosing = run::<Choosing>(
                choice(extensions@, display, screen_id, *pf_reqs, transparent),
                replies,
            );
            &&& choosing.calls.len() == replies.len()
            &&& choosing.ends_with(Err(()))
        }),
    ensures
        ({
            let choosing = run::<Choosing>(
                choice(extensions@, display, screen_id, *pf_reqs, transparent),
                replies,
            );
            let dialogue = run::<Opening<'a, 'r>>(
                opening(display, pf_reqs, opengl, screen_id, transparent),
                seq![Reply::Done, Reply::Extensions(Some(extensions))] + replies,
            );
            &&& dialogue.calls == seq![
                CallModel::QueryVersion { display },
                CallModel::QueryExtensionsString { display, screen: screen_id },
            ] + choosing.calls
            &&& dialogue.ends_with(Err(CreationError::NoAvailablePixelFormat))
        }),
{
    lemma_dialogue_of_choice(
        display,
        pf_reqs,
        opengl,
        screen_id,
        transparent,
        extensions,
        replies,
    );
}

/// Where the screen has no extension string, the making of a prototype fails with the
/// error that says so, and nothing else is asked.
pub proof fn law_no_extension_string_is_an_error<'a, 'r>(
    display: usize,
    pf_reqs: &'r PixelFormatRequirements,
    opengl: &'a GlAttributes<&'a Context>,
    screen_id: c_int,
    transparent: bool,
)
    ensures
        ({
            let dialogue = run::<Opening<'a, 'r>>(
                opening(display, pf_reqs, opengl, screen_id, transparent),
                seq![Reply::Done, Reply::Extensions(None)],
            );
            &&& dialogue.calls == seq![
                CallModel::QueryVersion { display },
                CallModel::QueryExtensionsString { display, screen: screen_id },
            ]
            &&& dialogue.ends_with(
                Err(
                    CreationError::OsError("`glXQueryExtensionsString` found no glX extensions"@),
                ),
            )
        }),
{
    reveal_with_fuel(run, 3);
}

/// Where the configuration that was chosen has no visual, the making of a prototype fails
/// with the error that says so, and nothing is freed.
pub proof fn law_no_visual_is_an_error<'a, 'r>(
    display: usize,
    pf_reqs: &'r PixelFormatRequirements,
    opengl: &'a GlAttributes<&'a Context>,
    screen_id: c_int,
    transparent: bool,
    extensions: String,
    replies: Seq<Reply>,
    fb_config: usize,
    pixel_format: PixelFormat,
)
    requires
        ({
            let choosing = run::<Choosing>(
                choice(extensions@, display, screen_id, *pf_reqs, transparent),
                replies,
            );
            &&& choosing.calls.len() == replies.len()
            &&& choosing.ends_with(Ok((fb_config, pixel_format)))
        }),
    ensures
        ({
            let choosing = run::<Choosing>(
                choice(extensions@, display, screen_id, *pf_reqs, transparent),
                replies,
            );
            let dialogue = run::<Opening<'a, 'r>>(
                opening(display, pf_reqs, opengl, screen_id, transparent),
                seq![Reply::Done, Reply::Extensions(Some(extensions))] + replies + seq![
                    Reply::Visual(None),
                ],
            );
            &&& dialogue.calls == seq![
                CallModel::QueryVersion { display },
                CallModel::QueryExtensionsString { display, screen: screen_id },
            ] + choosing.calls + seq![CallModel::GetVisualFromFbConfig { display, fb_config }]
            &&& dialogue.ends_with(
                Err(
                    CreationError::OsError(
                        "`glXGetVisualFromFBConfig` failed: invalid `GLXFBConfig`"@,
                    ),
                ),
            )
        }),
{
    lemma_dialogue_of_choice(
        display,
        pf_reqs,
        opengl,
        screen_id,
        transparent,
        extensions,
        replies,
    );
    let first = opening(display, pf_reqs, opengl, screen_id, transparent);
    let head = seq![Reply::Done, Reply::Extensions(Some(extensions))] + replies;
    let tail = seq![Reply::Visual(None)];
    law_run_in_parts::<Opening<'a, 'r>>(first, head, tail);
    reveal_with_fuel(run, 2);
}

} // verus!
