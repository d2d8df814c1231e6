//! A context, and what can be done with it.

use vstd::prelude::*;
use vstd::pervasive::unreached;
use vstd::slice::slice_to_vec;
use vstd::string::StringExecFns;
use vstd::utf8::encode_utf8;

use crate::protocol::{Call, CallModel, Machine, Reply, Step, run, step_model, step_wf};
use crate::types::{Api, ContextError, PixelFormat};

verus! {

/// An OpenGL context that draws on a window.
#[derive(PartialEq, Eq, Debug)]
pub struct Context {
    /// The connection to the X server.
    pub display: usize,
    pub window: u64,
    /// The handle of the context in GLX.
    pub context: usize,
    pub pixel_format: PixelFormat,
}

/// How the latest error is printed for debugging.
pub open spec fn debug_text(errors: Result<(), String>) -> Seq<char> {
    match errors {
        Ok(_) => "Ok(())"@,
        Err(error) => "Err("@ + error@ + ")"@,
    }
}

fn debug_string(errors: Result<(), String>) -> (text: String)
    ensures
        text@ == debug_text(errors),
{
    match errors {
        Ok(_) => "Ok(())".to_string(),
        Err(error) => {
            let mut text = "Err(".to_string();
            text.append(error.as_str());
            text.append(")");
            text
        },
    }
}

/// The making current of a context.
#[derive(Clone, Copy, PartialEq, Eq, Debug)]
pub enum MakingCurrent {
    /// It is being made current.
    Making,
    /// That failed, and the reason is being fetched.
    Checking,
}

impl Machine for MakingCurrent {
    type Out = Result<(), ContextError>;

    type Answer = Result<(), ContextError<Seq<char>>>;

    open spec fn answer(out: Self::Out) -> Self::Answer {
        match out {
            Ok(_) => Ok(()),
            Err(error) => Err(error.model()),
        }
    }

    open spec fn wf(self) -> bool {
        true
    }

    open spec fn accepts(self, reply: Reply) -> bool {
        match self {
            MakingCurrent::Making => reply is Status,
            MakingCurrent::Checking => reply is Errors,
        }
    }

    open spec fn step(self, reply: Reply) -> Step<Self, Self::Answer, CallModel> {
        match (self, reply) {
            (MakingCurrent::Making, Reply::Status(status)) => if status == 0 {
                Step::Ask(MakingCurrent::Checking, Call::CheckErrors)
            } else {
                Step::Done(Ok(()))
            },
            (MakingCurrent::Checking, Reply::Errors(errors)) => Step::Done(
                Err(ContextError::OsError("`glXMakeCurrent` failed: "@ + debug_text(errors))),
            ),
            _ => arbitrary(),
        }
    }

    fn ready(&self, reply: &Reply) -> (ready: bool) {
        match self {
            MakingCurrent::Making => matches!(reply, Reply::Status(_)),
            MakingCurrent::Checking => matches!(reply, Reply::Errors(_)),
        }
    }

    fn next(self, reply: Reply) -> (step: Step<Self, Self::Out>) {
        match (self, reply) {
            (MakingCurrent::Making, Reply::Status(status)) => {
                if status == 0 {
                    Step::Ask(MakingCurrent::Checking, Call::CheckErrors)
                } else {
                    Step::Done(Ok(()))
                }
            },
            (MakingCurrent::Checking, Reply::Errors(errors)) => {
                let mut message = "`glXMakeCurrent` failed: ".to_string();
                message.append(debug_string(errors).as_str());
                Step::Done(Err(ContextError::OsError(message)))
            },
            _ => unreached(),
        }
    }
}

/// The question whether a context is the current one.
#[derive(Clone, Copy, PartialEq, Eq, Debug)]
pub struct AskingCurrent {
    /// The context that is asked about.
    pub context: usize,
}

impl Machine for AskingCurrent {
    type Out = bool;

    type Answer = bool;

    open spec fn answer(out: Self::Out) -> Self::Answer {
        out
    }

    open spec fn wf(self) -> bool {
        true
    }

    open spec fn accepts(self, reply: Reply) -> bool {
        reply is Address
    }

    open spec fn step(self, reply: Reply) -> Step<Self, Self::Answer, CallModel> {
        Step::Done(reply->Address_0 == self.context)
    }

    fn ready(&self, reply: &Reply) -> (ready: bool) {
        matches!(reply, Reply::Address(_))
    }

    fn next(self, reply: Reply) -> (step: Step<Self, Self::Out>) {
        match reply {
            Reply::Address(current) => Step::Done(current == self.context),
            _ => unreached(),
        }
    }
}

/// The search for a function of OpenGL.
#[derive(Clone, Copy, PartialEq, Eq, Debug)]
pub struct FetchingAddress;

impl Machine for FetchingAddress {
    type Out = usize;

    type Answer = usize;

    open spec fn answer(out: Self::Out) -> Self::Answer {
        out
    }

    open spec fn wf(self) -> bool {
        true
    }

    open spec fn accepts(self, reply: Reply) -> bool {
        reply is Address
    }

    open spec fn step(self, reply: Reply) -> Step<Self, Self::Answer, CallModel> {
        Step::Done(reply->Address_0)
    }

    fn ready(&self, reply: &Reply) -> (ready: bool) {
        matches!(reply, Reply::Address(_))
    }

    fn next(self, reply: Reply) -> (step: Step<Self, Self::Out>) {
        match reply {
            Reply::Address(address) => Step::Done(address),
            _ => unreached(),
        }
    }
}

/// The exchange of the buffers of a window.
#[derive(Clone, Copy, PartialEq, Eq, Debug)]
pub enum SwappingBuffers {
    /// They are being exchanged.
    Swapping,
    /// It is being checked whether that failed.
    Checking,
}

impl Machine for SwappingBuffers {
    type Out = Result<(), ContextError>;

    type Answer = Result<(), ContextError<Seq<char>>>;

    open spec fn answer(out: Self::Out) -> Self::Answer {
        match out {
            Ok(_) => Ok(()),
            Err(error) => Err(error.model()),
        }
    }

    open spec fn wf(self) -> bool {
        true
    }

    open spec fn accepts(self, reply: Reply) -> bool {
        match self {
            SwappingBuffers::Swapping => reply is Done,
            SwappingBuffers::Checking => reply is Errors,
        }
    }

    open spec fn step(self, reply: Reply) -> Step<Self, Self::Answer, CallModel> {
        match (self, reply) {
            (SwappingBuffers::Swapping, Reply::Done) => Step::Ask(
                SwappingBuffers::Checking,
                Call::CheckErrors,
            ),
            (SwappingBuffers::Checking, Reply::Errors(Ok(_))) => Step::Done(Ok(())),
            (SwappingBuffers::Checking, Reply::Errors(Err(error))) => Step::Done(
                Err(ContextError::OsError("`glXSwapBuffers` failed: "@ + error@)),
            ),
            _ => arbitrary(),
        }
    }

    fn ready(&self, reply: &Reply) -> (ready: bool) {
        match self {
            SwappingBuffers::Swapping => matches!(reply, Reply::Done),
            SwappingBuffers::Checking => matches!(reply, Reply::Errors(_)),
        }
    }

    fn next(self, reply: Reply) -> (step: Step<Self, Self::Out>) {
        match (self, reply) {
            (SwappingBuffers::Swapping, Reply::Done) => Step::Ask(
                SwappingBuffers::Checking,
                Call::CheckErrors,
            ),
            (SwappingBuffers::Checking, Reply::Errors(Ok(_))) => Step::Done(Ok(())),
            (SwappingBuffers::Checking, Reply::Errors(Err(error))) => {
                let mut message = "`glXSwapBuffers` failed: ".to_string();
                message.append(error.as_str());
                Step::Done(Err(ContextError::OsError(message)))
            },
            _ => unreached(),
        }
    }
}

/// The bytes of `name` as a C string.
pub open spec fn c_string(name: Seq<char>) -> Seq<u8> {
    encode_utf8(name).push(0)
}

pub(crate) fn c_bytes(name: &str) -> (bytes: Vec<u8>)
    ensures
        bytes@ == c_string(name@),
{
    let mut bytes: Vec<u8> = slice_to_vec(name.as_bytes());
    bytes.push(0);
    bytes
}

impl Context {
    /// Where the making current of the context begins.
    pub open spec fn making_current(self) -> Step<
        MakingCurrent,
        Result<(), ContextError<Seq<char>>>,
        CallModel,
    > {
        Step::Ask(
            MakingCurrent::Making,
            Call::MakeCurrent {
                display: self.display,
                drawable: self.window,
                context: self.context,
            },
        )
    }

    /// Begins to make the context the current one, with its window to draw on.
    pub fn make_current(&self) -> (step: Step<MakingCurrent, Result<(), ContextError>>)
        ensures
            step_wf(step),
            step_model(step) == self.making_current(),
    {
        Step::Ask(
            MakingCurrent::Making,
            Call::MakeCurrent {
                display: self.display,
                drawable: self.window,
                context: self.context,
            },
        )
    }

    /// Where the question whether the context is the current one begins.
    pub open spec fn asking_current(self) -> Step<AskingCurrent, bool, CallModel> {
        Step::Ask(AskingCurrent { context: self.context }, Call::GetCurrentContext)
    }

    /// Begins to ask whether the context is the current one.
    pub fn is_current(&self) -> (step: Step<AskingCurrent, bool>)
        ensures
            step_wf(step),
            step_model(step) == Step::<AskingCurrent, bool, CallModel>::Ask(
                AskingCurrent { context: self.context },
                Call::GetCurrentContext,
            ),
            step_model(step) == self.asking_current(),
    {
        Step::Ask(AskingCurrent { context: self.context }, Call::GetCurrentContext)
    }

    /// Where the search for the function of OpenGL whose name is `addr` begins.
    pub open spec fn fetching_address(self, addr: Seq<char>) -> Step<
        FetchingAddress,
        usize,
        CallModel,
    > {
        Step::Ask(FetchingAddress, Call::GetProcAddress { name: c_string(addr) })
    }

    /// Begins to look up the function of OpenGL whose name is `addr`.
    pub fn get_proc_address(&self, addr: &str) -> (step: Step<FetchingAddress, usize>)
        requires
            !encode_utf8(addr@).contains(0),
        ensures
            step_wf(step),
            step_model(step) == Step::<FetchingAddress, usize, CallModel>::Ask(
                FetchingAddress,
                Call::GetProcAddress { name: c_string(addr@) },
            ),
            step_model(step) == self.fetching_address(addr@),
    {
        Step::Ask(FetchingAddress, Call::GetProcAddress { name: c_bytes(addr) })
    }

    /// Where the exchange of the buffers begins.
    pub open spec fn swapping_buffers(self) -> Step<
        SwappingBuffers,
        Result<(), ContextError<Seq<char>>>,
        CallModel,
    > {
        Step::Ask(
            SwappingBuffers::Swapping,
            Call::SwapBuffers { display: self.display, drawable: self.window },
        )
    }

    /// Begins to exchange the buffers of the window.
    pub fn swap_buffers(&self) -> (step: Step<SwappingBuffers, Result<(), ContextError>>)
        ensures
            step_wf(step),
            step_model(step) == self.swapping_buffers(),
    {
        Step::Ask(
            SwappingBuffers::Swapping,
            Call::SwapBuffers { display: self.display, drawable: self.window },
        )
    }

    /// The API of the context.
    pub fn get_api(&self) -> (api: Api)
        ensures
            api == Api::OpenGl,
    {
        Api::OpenGl
    }

    /// The format of the framebuffer that the context draws on.
    pub fn get_pixel_format(&self) -> (format: PixelFormat)
        ensures
            format == self.pixel_format,
    {
        self.pixel_format
    }

    /// The handle of the context in GLX.
    pub fn raw_handle(&self) -> (handle: usize)
        ensures
            handle == self.context,
    {
        self.context
    }
}

/// A C reader of a name, who stops at the first zero, reads all of it and no more.
pub proof fn law_c_string_is_read_whole(name: Seq<char>)
    requires
        !encode_utf8(name).contains(0),
    ensures
        c_string(name).last() == 0,
        forall|i: int| 0 <= i < c_string(name).len() - 1 ==> #[trigger] c_string(name)[i] != 0,
        c_string(name).drop_last() == encode_utf8(name),
{
    assert(c_string(name).drop_last() =~= encode_utf8(name));
    assert forall|i: int| 0 <= i < c_string(name).len() - 1 implies #[trigger] c_string(name)[i]
        != 0 by {
        assert(c_string(name)[i] == encode_utf8(name)[i]);
    }
}

/// A context is made current by one call. The reason is asked for exactly where that
/// call fails, and the error holds it.
pub proof fn law_failure_to_make_current_is_explained(
    context: Context,
    status: i32,
    errors: Result<(), String>,
)
    ensures
        ({
            let bind = CallModel::MakeCurrent {
                display: context.display,
                drawable: context.window,
                context: context.context,
            };
            let dialogue = run::<MakingCurrent>(
                context.making_current(),
                seq![Reply::Status(status), Reply::Errors(errors)],
            );
            if status != 0 {
                dialogue.calls == seq![bind] && dialogue.ends_with(Ok(()))
            } else {
                &&& dialogue.calls == seq![bind, CallModel::CheckErrors]
                &&& dialogue.ends_with(
                    Err(
                        ContextError::OsError(
                            "`glXMakeCurrent` failed: "@ + debug_text(errors),
                        ),
                    ),
                )
            }
        }),
{
    reveal_with_fuel(run, 3);
}

/// Whether the buffers could be exchanged is always checked, and the answer is an
/// error exactly where the X server reported one.
pub proof fn law_swap_is_checked(context: Context, errors: Result<(), String>)
    ensures
        ({
            let dialogue = run::<SwappingBuffers>(
                context.swapping_buffers(),
                seq![Reply::Done, Reply::Errors(errors)],
            );
            &&& dialogue.calls == seq![
                CallModel::SwapBuffers { display: context.display, drawable: context.window },
                CallModel::CheckErrors,
            ]
            &&& dialogue.ends_with(
                match errors {
                    Ok(_) => Ok(()),
                    Err(error) => Err(
                        ContextError::OsError("`glXSwapBuffers` failed: "@ + error@),
                    ),
                },
            )
        }),
{
    reveal_with_fuel(run, 3);
}

/// A context is the current one exactly if its handle is the one that
/// `glXGetCurrentContext` gives back. No other call is made.
pub proof fn law_current_context_is_told_by_its_handle(context: Context, current: usize)
    ensures
        ({
            let dialogue = run::<AskingCurrent>(
                context.asking_current(),
                seq![Reply::Address(current)],
            );
            &&& dialogue.calls == seq![CallModel::GetCurrentContext]
            &&& dialogue.ends_with(current == context.context)
        }),
{
    reveal_with_fuel(run, 2);
}

/// Two contexts with different handles are never current at once.
pub proof fn law_one_context_is_current(context: Context, other: Context, current: usize)
    requires
        context.context != other.context,
    ensures
        ({
            let replies = seq![Reply::Address(current)];
            !(run::<AskingCurrent>(context.asking_current(), replies).ends_with(true) && run::<
                AskingCurrent,
            >(other.asking_current(), replies).ends_with(true))
        }),
{
    law_current_context_is_told_by_its_handle(context, current);
    law_current_context_is_told_by_its_handle(other, current);
}

/// The search for a function of OpenGL is one call with the whole name, which ends in a
/// zero, and the answer is the address that libGL gives back.
pub proof fn law_address_is_that_of_the_name(context: Context, addr: Seq<char>, address: usize)
    ensures
        ({
            let dialogue = run::<FetchingAddress>(
                context.fetching_address(addr),
                seq![Reply::Address(address)],
            );
            &&& dialogue.calls.len() == 1
            &&& dialogue.calls[0] is GetProcAddress
            &&& dialogue.calls[0]->GetProcAddress_name == encode_utf8(addr) + seq![0u8]
            &&& dialogue.ends_with(address)
        }),
{
    reveal_with_fuel(run, 2);
    assert(c_string(addr) =~= encode_utf8(addr) + seq![0u8]);
}

/// The error for a context that cannot be made current quotes what the X server reported,
/// or says that it reported nothing.
pub proof fn law_failure_to_make_current_is_quoted(context: Context, report: String)
    ensures
        ({
            let start = context.making_current();
            &&& run::<MakingCurrent>(
                start,
                seq![Reply::Status(0), Reply::Errors(Ok(()))],
            ).ends_with(
                Err(ContextError::OsError("`glXMakeCurrent` failed: "@ + "Ok(())"@)),
            )
            &&& run::<MakingCurrent>(
                start,
                seq![Reply::Status(0), Reply::Errors(Err(report))],
            ).ends_with(
                Err(
                    ContextError::OsError(
                        "`glXMakeCurrent` failed: "@ + ("Err("@ + report@ + ")"@),
                    ),
                ),
            )
        }),
{
    law_failure_to_make_current_is_explained(context, 0, Ok(()));
    law_failure_to_make_current_is_explained(context, 0, Err(report));
}

} // verus!
