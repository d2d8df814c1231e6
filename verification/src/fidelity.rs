//! What contracts say of calls and answers is what the calls and answers are.

use vstd::prelude::*;

use crate::context::{AskingCurrent, Context, FetchingAddress, MakingCurrent, SwappingBuffers};
use crate::creation::Creating;
use crate::destruction::{Destroying, DestructionError};
use crate::fbconfig::Choosing;
use crate::finishing::Finishing;
use crate::library::{Glx, LoadingLibrary};
use crate::opening::{ContextPrototype, Opening};
use crate::protocol::{Call, CallModel, Machine};
use crate::types::{ContextError, CreationError, PixelFormat};

verus! {

/// A call and its model are of the same kind, with the same arguments.
pub proof fn law_call_keeps_its_arguments(call: Call)
    ensures
        match call {
            Call::OpenLibrary { path } => call.model() == (CallModel::OpenLibrary { path }),
            Call::QueryVersion { display } => call.model() == (CallModel::QueryVersion {
                display,
            }),
            Call::QueryExtensionsString { display, screen } => call.model() == (
            CallModel::QueryExtensionsString { display, screen }),
            Call::ChooseFbConfig { display, screen, attribs } => {
                &&& call.model() is ChooseFbConfig
                &&& call.model()->ChooseFbConfig_display == display
                &&& call.model()->ChooseFbConfig_screen == screen
                &&& call.model()->ChooseFbConfig_attribs == attribs@
            },
            Call::GetVisualFromFbConfig { display, fb_config } => call.model() == (
            CallModel::GetVisualFromFbConfig { display, fb_config }),
            Call::GetFbConfigAttrib { display, fb_config, attrib } => call.model() == (
            CallModel::GetFbConfigAttrib { display, fb_config, attrib }),
            Call::Free { pointer } => call.model() == (CallModel::Free { pointer }),
            Call::LoadExtraFunctions => call.model() == CallModel::LoadExtraFunctions,
            Call::SetErrorHandler { handler } => call.model() == (CallModel::SetErrorHandler {
                handler,
            }),
            Call::CreateContextAttribs { display, fb_config, share, direct, attribs } => {
                &&& call.model() is CreateContextAttribs
                &&& call.model()->CreateContextAttribs_display == display
                &&& call.model()->CreateContextAttribs_fb_config == fb_config
                &&& call.model()->CreateContextAttribs_share == share
                &&& call.model()->CreateContextAttribs_direct == direct
                &&& call.model()->CreateContextAttribs_attribs == attribs@
            },
            Call::CreateContext { display, visual_infos, share, direct } => call.model() == (
            CallModel::CreateContext { display, visual_infos, share, direct }),
            Call::MakeCurrent { display, drawable, context } => call.model() == (
            CallModel::MakeCurrent { display, drawable, context }),
            Call::GetCurrentContext => call.model() == CallModel::GetCurrentContext,
            Call::GetProcAddress { name } => {
                &&& call.model() is GetProcAddress
                &&& call.model()->GetProcAddress_name == name@
            },
            Call::SwapBuffers { display, drawable } => call.model() == (CallModel::SwapBuffers {
                display,
                drawable,
            }),
            Call::SwapIntervalExt { display, drawable, interval } => call.model() == (
            CallModel::SwapIntervalExt { display, drawable, interval }),
            Call::SwapIntervalSgi { interval } => call.model() == (CallModel::SwapIntervalSgi {
                interval,
            }),
            Call::CheckErrors => call.model() == CallModel::CheckErrors,
            Call::CallFunction { address } => call.model() == (CallModel::CallFunction {
                address,
            }),
            Call::DestroyContext { display, context } => call.model() == (
            CallModel::DestroyContext { display, context }),
        },
{
}

/// An answer that is not an error is what contracts say it is.
pub proof fn law_success_is_told_as_it_is<'a, 'r>(
    library: Glx,
    chosen: (usize, PixelFormat),
    prototype: ContextPrototype<'a>,
    handle: usize,
    context: Context,
    current: bool,
    address: usize,
)
    ensures
        <LoadingLibrary as Machine>::answer(Ok(library)) == Ok::<Glx, ()>(library),
        <Choosing as Machine>::answer(Ok(chosen)) == Ok::<(usize, PixelFormat), ()>(chosen),
        <Opening<'a, 'r> as Machine>::answer(Ok(prototype)) == Ok::<
            ContextPrototype<'a>,
            CreationError<Seq<char>>,
        >(prototype),
        <Creating as Machine>::answer(Ok(handle)) == Ok::<usize, CreationError<Seq<char>>>(handle),
        <Finishing as Machine>::answer(Ok(context)) == Ok::<Context, CreationError<Seq<char>>>(
            context,
        ),
        <AskingCurrent as Machine>::answer(current) == current,
        <FetchingAddress as Machine>::answer(address) == address,
        <MakingCurrent as Machine>::answer(Ok(())) is Ok,
        <SwappingBuffers as Machine>::answer(Ok(())) is Ok,
        <Destroying as Machine>::answer(Ok(())) is Ok,
{
}

/// An answer that is an error is that error, with its message as a sequence of characters.
pub proof fn law_errors_are_told_as_they_are<'a, 'r>(
    creation: CreationError,
    failure: ContextError,
    destruction: DestructionError,
)
    ensures
        <LoadingLibrary as Machine>::answer(Err(())) is Err,
        <Choosing as Machine>::answer(Err(())) is Err,
        <Opening<'a, 'r> as Machine>::answer(Err(creation)) == Err::<
            ContextPrototype<'a>,
            CreationError<Seq<char>>,
        >(creation.model()),
        <Creating as Machine>::answer(Err(creation)) == Err::<usize, CreationError<Seq<char>>>(
            creation.model(),
        ),
        <Finishing as Machine>::answer(Err(creation)) == Err::<Context, CreationError<Seq<char>>>(
            creation.model(),
        ),
        <MakingCurrent as Machine>::answer(Err(failure)) == Err::<(), ContextError<Seq<char>>>(
            failure.model(),
        ),
        <SwappingBuffers as Machine>::answer(Err(failure)) == Err::<(), ContextError<Seq<char>>>(
            failure.model(),
        ),
        <Destroying as Machine>::answer(Err(destruction)) == Err::<
            (),
            DestructionError<Seq<char>>,
        >(destruction.model()),
{
}

} // verus!
