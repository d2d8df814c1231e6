//! The dialogue with libGL and the X server.
//!
//! No operation of this library calls libGL or Xlib itself. It is a [`Machine`]: it
//! says which [`Call`] to make, is told the [`Reply`], and goes on until it has an
//! answer. Addresses, and the handles that are addresses, are plain numbers; zero is
//! the null pointer.

use vstd::prelude::*;

use libc::c_int;

use crate::types::VisualInfo;

verus! {

/// What is to become of errors that the X server reports.
#[derive(Clone, Copy, PartialEq, Eq, Debug)]
pub enum ErrorHandler {
    /// They are dropped.
    Silent,
    /// They go to the handler at this address, which was in place before.
    Previous(usize),
}

/// A call into libGL or Xlib. `A` holds an attribute list and `N` the bytes of a C
/// string; contracts speak of both as sequences.
#[derive(PartialEq, Eq, Debug)]
pub enum Call<A = Vec<c_int>, N = Vec<u8>> {
    /// Opens a shared library and looks up the functions of GLX in it.
    OpenLibrary { path: &'static str },
    /// `glXQueryVersion`.
    QueryVersion { display: usize },
    /// `glXQueryExtensionsString`.
    QueryExtensionsString { display: usize, screen: c_int },
    /// `glXChooseFBConfig`.
    ChooseFbConfig { display: usize, screen: c_int, attribs: A },
    /// `glXGetVisualFromFBConfig`.
    GetVisualFromFbConfig { display: usize, fb_config: usize },
    /// `glXGetFBConfigAttrib`.
    GetFbConfigAttrib { display: usize, fb_config: usize, attrib: c_int },
    /// `XFree`.
    Free { pointer: usize },
    /// Looks up the functions that not every libGL has.
    LoadExtraFunctions,
    /// `XSetErrorHandler`.
    SetErrorHandler { handler: ErrorHandler },
    /// `glXCreateContextAttribsARB`.
    CreateContextAttribs {
        display: usize,
        fb_config: usize,
        share: usize,
        direct: c_int,
        attribs: A,
    },
    /// `glXCreateContext`.
    CreateContext { display: usize, visual_infos: VisualInfo, share: usize, direct: c_int },
    /// `glXMakeCurrent`.
    MakeCurrent { display: usize, drawable: u64, context: usize },
    /// `glXGetCurrentContext`.
    GetCurrentContext,
    /// `glXGetProcAddress`.
    GetProcAddress { name: N },
    /// `glXSwapBuffers`.
    SwapBuffers { display: usize, drawable: u64 },
    /// `glXSwapIntervalEXT`.
    SwapIntervalExt { display: usize, drawable: u64, interval: c_int },
    /// `glXSwapIntervalSGI`.
    SwapIntervalSgi { interval: c_int },
    /// Takes the latest error that the X server reported on the connection.
    CheckErrors,
    /// A function of OpenGL without parameters and result, by its address.
    CallFunction { address: usize },
    /// `glXDestroyContext`.
    DestroyContext { display: usize, context: usize },
}

/// A call with its lists as sequences.
pub type CallModel = Call<Seq<c_int>, Seq<u8>>;

impl Call {
    /// The same call, with its lists as sequences.
    pub open spec fn model(self) -> CallModel {
        match self {
            Call::OpenLibrary { path } => Call::OpenLibrary { path },
            Call::QueryVersion { display } => Call::QueryVersion { display },
            Call::QueryExtensionsString { display, screen } => Call::QueryExtensionsString {
                display,
                screen,
            },
            Call::ChooseFbConfig { display, screen, attribs } => Call::ChooseFbConfig {
                display,
                screen,
                attribs: attribs@,
            },
            Call::GetVisualFromFbConfig { display, fb_config } => Call::GetVisualFromFbConfig {
                display,
                fb_config,
            },
            Call::GetFbConfigAttrib { display, fb_config, attrib } => Call::GetFbConfigAttrib {
                display,
                fb_config,
                attrib,
            },
            Call::Free { pointer } => Call::Free { pointer },
            Call::LoadExtraFunctions => Call::LoadExtraFunctions,
            Call::SetErrorHandler { handler } => Call::SetErrorHandler { handler },
            Call::CreateContextAttribs { display, fb_config, share, direct, attribs } =>
                Call::CreateContextAttribs {
                display,
                fb_config,
                share,
                direct,
                attribs: attribs@,
            },
            Call::CreateContext { display, visual_infos, share, direct } => Call::CreateContext {
                display,
                visual_infos,
                share,
                direct,
            },
            Call::MakeCurrent { display, drawable, context } => Call::MakeCurrent {
                display,
                drawable,
                context,
            },
            Call::GetCurrentContext => Call::GetCurrentContext,
            Call::GetProcAddress { name } => Call::GetProcAddress { name: name@ },
            Call::SwapBuffers { display, drawable } => Call::SwapBuffers { display, drawable },
            Call::SwapIntervalExt { display, drawable, interval } => Call::SwapIntervalExt {
                display,
                drawable,
                interval,
            },
            Call::SwapIntervalSgi { interval } => Call::SwapIntervalSgi { interval },
            Call::CheckErrors => Call::CheckErrors,
            Call::CallFunction { address } => Call::CallFunction { address },
            Call::DestroyContext { display, context } => Call::DestroyContext { display, context },
        }
    }
}

/// A visual that libGL handed out: where it lies, and what it holds.
#[derive(Clone, Copy, PartialEq, Eq, Debug)]
pub struct Visual {
    pub pointer: usize,
    pub info: VisualInfo,
}

/// What came of a call.
#[derive(PartialEq, Eq, Debug)]
pub enum Reply {
    /// The call was made; it gives nothing back that matters.
    Done,
    /// The address that was found, of a library, a function or a context.
    Address(usize),
    /// The extension string, if there is one.
    Extensions(Option<String>),
    /// The configurations in the list that lies at `list`.
    Configs { list: usize, configs: Vec<usize> },
    /// The visual, if there is one.
    Visual(Option<Visual>),
    /// The value of an attribute.
    Attrib(c_int),
    /// The error handler that was in place before.
    Handler(usize),
    /// Which of the functions to set the swap interval were found.
    ExtraFunctions { swap_interval_ext: bool, swap_interval_sgi: bool },
    /// Zero if the call failed.
    Status(c_int),
    /// The latest error, as it is printed for debugging.
    Errors(Result<(), String>),
}

/// Whether `reply` is of the kind that `call` gives back.
pub open spec fn answers(call: CallModel, reply: Reply) -> bool {
    match call {
        Call::OpenLibrary { .. } => reply is Address,
        Call::QueryVersion { .. } => reply is Done,
        Call::QueryExtensionsString { .. } => reply is Extensions,
        Call::ChooseFbConfig { .. } => reply is Configs,
        Call::GetVisualFromFbConfig { .. } => reply is Visual,
        Call::GetFbConfigAttrib { .. } => reply is Attrib,
        Call::Free { .. } => reply is Done,
        Call::LoadExtraFunctions => reply is ExtraFunctions,
        Call::SetErrorHandler { .. } => reply is Handler,
        Call::CreateContextAttribs { .. } => reply is Address,
        Call::CreateContext { .. } => reply is Address,
        Call::MakeCurrent { .. } => reply is Status,
        Call::GetCurrentContext => reply is Address,
        Call::GetProcAddress { .. } => reply is Address,
        Call::SwapBuffers { .. } => reply is Done,
        Call::SwapIntervalExt { .. } => reply is Done,
        Call::SwapIntervalSgi { .. } => reply is Done,
        Call::CheckErrors => reply is Errors,
        Call::CallFunction { .. } => reply is Done,
        Call::DestroyContext { .. } => reply is Done,
    }
}

/// Where an operation stands: it waits for the reply to a call, or it is over.
#[derive(PartialEq, Eq, Debug)]
pub enum Step<M, R, C = Call> {
    Ask(M, C),
    Done(R),
}

/// An operation that waits for a reply.
pub trait Machine: Sized {
    /// What the operation gives back in the end.
    type Out;

    /// The same, as contracts speak of it.
    type Answer;

    spec fn answer(out: Self::Out) -> Self::Answer;

    /// What holds of every state that the operation reaches.
    spec fn wf(self) -> bool;

    /// Whether `reply` can follow: it is of the kind that the call that was made gives
    /// back, and the operation knows what to do with it.
    spec fn accepts(self, reply: Reply) -> bool;

    /// Where the operation stands after `reply`.
    spec fn step(self, reply: Reply) -> Step<Self, Self::Answer, CallModel>;

    /// Tells whether `reply` can follow.
    fn ready(&self, reply: &Reply) -> (ready: bool)
        ensures
            ready == self.accepts(*reply),
    ;

    /// Goes on with `reply`.
    fn next(self, reply: Reply) -> (step: Step<Self, Self::Out>)
        requires
            self.wf(),
            self.accepts(reply),
        ensures
            match step {
                Step::Ask(machine, call) => machine.wf() && self.step(reply) == Step::<
                    Self,
                    Self::Answer,
                    CallModel,
                >::Ask(machine, call.model()),
                Step::Done(out) => self.step(reply) == Step::<
                    Self,
                    Self::Answer,
                    CallModel,
                >::Done(Self::answer(out)),
            },
    ;
}

/// A step as contracts speak of it.
pub open spec fn step_model<M: Machine>(step: Step<M, M::Out>) -> Step<
    M,
    M::Answer,
    CallModel,
> {
    match step {
        Step::Ask(machine, call) => Step::Ask(machine, call.model()),
        Step::Done(out) => Step::Done(M::answer(out)),
    }
}

/// Whether the state of a step, if it has one, is one that the operation reaches.
pub open spec fn step_wf<M: Machine, R, C>(step: Step<M, R, C>) -> bool {
    step matches Step::Ask(machine, _) ==> machine.wf()
}

/// A stretch of a dialogue: the calls that were answered, and where the operation
/// stands after them.
pub struct Run<M: Machine> {
    pub calls: Seq<CallModel>,
    pub last: Step<M, M::Answer, CallModel>,
}

impl<M: Machine> Run<M> {
    /// Whether the operation is over, with `answer`.
    pub open spec fn ends_with(self, answer: M::Answer) -> bool {
        self.last == Step::<M, M::Answer, CallModel>::Done(answer)
    }
}

/// The dialogue from `first` on in which the calls are answered by `replies` in
/// turn. It ends with the operation, with the replies, or at a reply that cannot
/// follow.
pub open spec fn run<M: Machine>(
    first: Step<M, M::Answer, CallModel>,
    replies: Seq<Reply>,
) -> Run<M>
    decreases replies.len(),
{
    match first {
        Step::Ask(machine, call) => if replies.len() > 0 && machine.accepts(replies[0]) {
            let rest = run::<M>(machine.step(replies[0]), replies.drop_first());
            Run { calls: seq![call] + rest.calls, last: rest.last }
        } else {
            Run { calls: seq![], last: first }
        },
        Step::Done(_) => Run { calls: seq![], last: first },
    }
}

/// A dialogue can be read in two parts.
pub proof fn law_run_in_parts<M: Machine>(
    first: Step<M, M::Answer, CallModel>,
    replies: Seq<Reply>,
    more: Seq<Reply>,
)
    requires
        run::<M>(first, replies).calls.len() == replies.len(),
    ensures
        run::<M>(first, replies + more).calls == run::<M>(first, replies).calls + run::<M>(
            run::<M>(first, replies).last,
            more,
        ).calls,
        run::<M>(first, replies + more).last == run::<M>(
            run::<M>(first, replies).last,
            more,
        ).last,
    decreases replies.len(),
{
    let all = replies + more;
    if replies.len() == 0 {
        assert(all =~= more);
        assert(run::<M>(first, replies).calls =~= seq![]);
    } else {
        assert(first is Ask);
        assert(all[0] == replies[0]);
        assert(all.drop_first() =~= replies.drop_first() + more);
        law_run_in_parts::<M>(first->Ask_0.step(replies[0]), replies.drop_first(), more);
    }
}

} // verus!
