//! Every operation goes on whatever its calls give back, and comes to an end.

use vstd::prelude::*;

use libc::c_int;

use crate::context::{AskingCurrent, Context, FetchingAddress, MakingCurrent, SwappingBuffers};
use crate::creation::{ContextRequest, Creating};
use crate::destruction::{Destroying, DestroyingStage};
use crate::fbconfig::{Attrib, Choosing, ChoosingStage, choice, colors_fit};
use crate::finishing::{Finishing, FinishingStage, versions_to_try};
use crate::library::{Glx, LoadingLibrary};
use crate::opening::{ContextPrototype, Opening, OpeningStage, opening};
use crate::protocol::{Call, CallModel, Machine, Reply, Step, answers};
use crate::types::{GlAttributes, PixelFormatRequirements};

verus! {

/// Whether an operation can go on with every reply to its call, but perhaps with some
/// values of an attribute.
pub open spec fn can_go_on<M: Machine>(step: Step<M, M::Answer, CallModel>) -> bool {
    step matches Step::Ask(machine, call) ==> forall|reply: Reply| #[trigger]
        answers(call, reply) && !(reply is Attrib) ==> machine.accepts(reply)
}

/// Whether an operation has come nearer to its end: of two distances the first counts
/// for more.
pub open spec fn is_nearer(next: (nat, nat), last: (nat, nat)) -> bool {
    next.0 < last.0 || (next.0 == last.0 && next.1 < last.1)
}

/// How far the search for libGL is from its end.
pub open spec fn search_distance(machine: LoadingLibrary) -> (nat, nat) {
    match machine {
        LoadingLibrary::Versioned => (0, 1),
        LoadingLibrary::Unversioned => (0, 0),
    }
}

/// The search for libGL goes on whatever it is told, and ends.
pub proof fn law_search_goes_on(machine: LoadingLibrary, reply: Reply)
    requires
        machine.accepts(reply),
    ensures
        can_go_on::<LoadingLibrary>(Glx::search()),
        can_go_on::<LoadingLibrary>(machine.step(reply)),
        machine.step(reply) matches Step::Ask(next, _) ==> is_nearer(
            search_distance(next),
            search_distance(machine),
        ),
{
}

/// How far the making current of a context is from its end.
pub open spec fn making_current_distance(machine: MakingCurrent) -> (nat, nat) {
    match machine {
        MakingCurrent::Making => (0, 1),
        MakingCurrent::Checking => (0, 0),
    }
}

/// The making current of a context goes on whatever it is told, and ends.
pub proof fn law_making_current_goes_on(context: Context, machine: MakingCurrent, reply: Reply)
    requires
        machine.accepts(reply),
    ensures
        can_go_on::<MakingCurrent>(context.making_current()),
        can_go_on::<MakingCurrent>(machine.step(reply)),
        machine.step(reply) matches Step::Ask(next, _) ==> is_nearer(
            making_current_distance(next),
            making_current_distance(machine),
        ),
{
}

/// How far the exchange of buffers is from its end.
pub open spec fn swapping_distance(machine: SwappingBuffers) -> (nat, nat) {
    match machine {
        SwappingBuffers::Swapping => (0, 1),
        SwappingBuffers::Checking => (0, 0),
    }
}

/// The exchange of buffers goes on whatever it is told, and ends.
pub proof fn law_swapping_goes_on(context: Context, machine: SwappingBuffers, reply: Reply)
    requires
        machine.accepts(reply),
    ensures
        can_go_on::<SwappingBuffers>(context.swapping_buffers()),
        can_go_on::<SwappingBuffers>(machine.step(reply)),
        machine.step(reply) matches Step::Ask(next, _) ==> is_nearer(
            swapping_distance(next),
            swapping_distance(machine),
        ),
{
}

/// The questions for the current context and for a function end with their only reply.
pub proof fn law_questions_end(
    current: AskingCurrent,
    address: FetchingAddress,
    name: Seq<u8>,
    reply: Reply,
)
    ensures
        can_go_on::<AskingCurrent>(Step::Ask(current, Call::GetCurrentContext)),
        can_go_on::<FetchingAddress>(Step::Ask(address, Call::GetProcAddress { name })),
        current.step(reply) is Done,
        address.step(reply) is Done,
{
}

/// How far the making of one context is from its end.
pub open spec fn creation_distance(machine: Creating) -> (nat, nat) {
    match machine {
        Creating::Silencing(_) => (0, 2),
        Creating::Creating { .. } => (0, 1),
        Creating::Restoring { .. } => (0, 0),
    }
}

/// The making of one context goes on whatever it is told, and ends.
pub proof fn law_creation_goes_on(request: ContextRequest, machine: Creating, reply: Reply)
    requires
        machine.accepts(reply),
    ensures
        can_go_on::<Creating>(request.first()),
        can_go_on::<Creating>(machine.step(reply)),
        machine.step(reply) matches Step::Ask(next, _) ==> is_nearer(
            creation_distance(next),
            creation_distance(machine),
        ),
{
}

/// How far the destruction of a context is from its end.
pub open spec fn destruction_distance(machine: Destroying) -> (nat, nat) {
    match machine.stage {
        DestroyingStage::Binding(binding) => (1, making_current_distance(binding).1),
        DestroyingStage::Fetching => (0, 3),
        DestroyingStage::Flushing => (0, 2),
        DestroyingStage::Unbinding => (0, 1),
        DestroyingStage::Closing => (0, 0),
    }
}

/// The destruction of a context goes on whatever it is told, and ends.
pub proof fn law_destruction_goes_on(context: Context, machine: Destroying, reply: Reply)
    requires
        machine.accepts(reply),
    ensures
        can_go_on::<Destroying>(context.destruction()),
        can_go_on::<Destroying>(machine.step(reply)),
        machine.step(reply) matches Step::Ask(next, _) ==> is_nearer(
            destruction_distance(next),
            destruction_distance(machine),
        ),
{
}

/// How many attributes are read at most from `attrib` on.
pub open spec fn attribs_left(attrib: Attrib) -> nat {
    match attrib {
        Attrib::ConfigCaveat => 12,
        Attrib::RedSize => 11,
        Attrib::GreenSize => 10,
        Attrib::BlueSize => 9,
        Attrib::AlphaSize => 8,
        Attrib::DepthSize => 7,
        Attrib::StencilSize => 6,
        Attrib::Stereo => 5,
        Attrib::DoubleBuffer => 4,
        Attrib::SampleBuffers => 3,
        Attrib::Samples => 2,
        Attrib::SrgbCapableArb => 1,
        Attrib::SrgbCapableExt => 0,
    }
}

/// How far the choice of a configuration is from its end.
pub open spec fn choice_distance(machine: Choosing) -> (nat, nat) {
    match machine.stage {
        ChoosingStage::Listing => (3, 0),
        ChoosingStage::Inspecting { configs, index, .. } => (
            2,
            (2 * (configs@.len() - index) + 1) as nat,
        ),
        ChoosingStage::Releasing { configs, index, .. } => (
            2,
            (2 * (configs@.len() - index)) as nat,
        ),
        ChoosingStage::Freeing { .. } => (1, 0),
        ChoosingStage::Reading { attrib, .. } => (0, attribs_left(attrib)),
    }
}

/// The choice of a configuration goes on whatever it is told, and ends.
pub proof fn law_choice_goes_on(
    extensions: Seq<char>,
    display: usize,
    screen_id: c_int,
    reqs: PixelFormatRequirements,
    transparent: bool,
    machine: Choosing,
    reply: Reply,
)
    requires
        machine.wf(),
        machine.accepts(reply),
    ensures
        can_go_on::<Choosing>(choice(extensions, display, screen_id, reqs, transparent)),
        can_go_on::<Choosing>(machine.step(reply)),
        machine.step(reply) matches Step::Ask(next, _) ==> is_nearer(
            choice_distance(next),
            choice_distance(machine),
        ),
{
    if let ChoosingStage::Releasing { configs, .. } = machine.stage {
        assert(configs@.len() == configs.len());
    }
}

/// The value of an attribute is one that the choice can go on with, unless it is the
/// size of a color and the bits of the colors no longer fit a byte with it.
pub proof fn law_only_too_many_color_bits_stop_the_choice(machine: Choosing, value: c_int)
    requires
        machine.stage is Reading,
    ensures
        machine.accepts(Reply::Attrib(value)) <==> colors_fit(
            machine.stage->Reading_format,
            machine.stage->Reading_attrib,
            value,
        ),
{
}

/// How far the making of a prototype is from its end.
pub open spec fn opening_distance(machine: Opening) -> (nat, nat) {
    match machine.stage {
        OpeningStage::QueryingVersion => (6, 0),
        OpeningStage::QueryingExtensions => (5, 0),
        OpeningStage::Choosing { choosing, .. } => (
            choice_distance(choosing).0 + 1,
            choice_distance(choosing).1,
        ),
        OpeningStage::FetchingVisual { .. } => (0, 1),
        OpeningStage::FreeingVisual { .. } => (0, 0),
    }
}

/// The making of a prototype goes on whatever it is told, and ends.
pub proof fn law_opening_goes_on(
    display: usize,
    pf_reqs: &PixelFormatRequirements,
    opengl: &GlAttributes<&Context>,
    screen_id: c_int,
    transparent: bool,
    machine: Opening,
    reply: Reply,
)
    requires
        machine.wf(),
        machine.accepts(reply),
    ensures
        can_go_on::<Opening>(opening(display, pf_reqs, opengl, screen_id, transparent)),
        can_go_on::<Opening>(machine.step(reply)),
        machine.step(reply) matches Step::Ask(next, _) ==> is_nearer(
            opening_distance(next),
            opening_distance(machine),
        ),
{
    match machine.stage {
        OpeningStage::QueryingExtensions => {
            if let Reply::Extensions(Some(extensions)) = reply {
                let begun = choice(
                    extensions@,
                    machine.display,
                    machine.screen_id,
                    *machine.pf_reqs,
                    machine.transparent,
                );
                assert(can_go_on::<Choosing>(begun));
            }
        },
        OpeningStage::Choosing { choosing, .. } => {
            law_choice_goes_on(
                seq![],
                machine.display,
                machine.screen_id,
                *machine.pf_reqs,
                machine.transparent,
                choosing,
                reply,
            );
        },
        _ => {},
    }
}

/// How far the making of a context is from its end.
pub open spec fn finishing_distance(machine: Finishing) -> (nat, nat) {
    match machine.stage {
        FinishingStage::Loading => (2, 0),
        FinishingStage::Creating { attempt, creating, .. } => (
            1,
            (3 * (versions_to_try(machine.version).len() - attempt) + creation_distance(
                creating,
            ).1) as nat,
        ),
        FinishingStage::Binding { .. } => (0, 2),
        FinishingStage::Setting { .. } => (0, 1),
        FinishingStage::Unbinding { .. } => (0, 0),
    }
}

/// The making of a context goes on whatever it is told, and ends.
pub proof fn law_finishing_goes_on(
    prototype: ContextPrototype,
    win: u64,
    machine: Finishing,
    reply: Reply,
)
    requires
        machine.wf(),
        machine.accepts(reply),
    ensures
        can_go_on::<Finishing>(Step::Ask(prototype.finishing(win), Call::LoadExtraFunctions)),
        can_go_on::<Finishing>(machine.step(reply)),
        machine.step(reply) matches Step::Ask(next, _) ==> is_nearer(
            finishing_distance(next),
            finishing_distance(machine),
        ),
{
    if let FinishingStage::Creating { creating, .. } = machine.stage {
        law_creation_goes_on(machine.request, creating, reply);
    }
}

/// The sizes of the colors are counted in a byte: the size of a color can follow exactly
/// if the bits of the colors so far leave room for it. Any value of another attribute can
/// follow, and nothing but the value of an attribute.
pub proof fn law_colors_are_counted_in_a_byte(machine: Choosing, reply: Reply)
    requires
        machine.stage is Reading,
    ensures
        machine.accepts(reply) <==> {
            &&& reply is Attrib
            &&& machine.stage->Reading_attrib is RedSize || machine.stage->Reading_attrib
                is GreenSize || machine.stage->Reading_attrib is BlueSize
                ==> machine.stage->Reading_format.color_bits + reply->Attrib_0 as int % 256 <= 255
        },
{
}

/// Whether an operation takes no reply but those to its call.
pub open spec fn takes_only_answers<M: Machine>(
    step: Step<M, M::Answer, CallModel>,
) -> bool {
    step matches Step::Ask(machine, call) ==> forall|reply: Reply| #[trigger]
        machine.accepts(reply) ==> answers(call, reply)
}

/// The search for libGL and the operations on a context take no reply but those to their
/// calls.
pub proof fn law_operations_on_a_context_take_only_answers(
    context: Context,
    addr: Seq<char>,
    library: LoadingLibrary,
    making: MakingCurrent,
    swapping: SwappingBuffers,
    destroying: Destroying,
    reply: Reply,
)
    ensures
        takes_only_answers::<LoadingLibrary>(Glx::search()),
        library.accepts(reply) ==> takes_only_answers::<LoadingLibrary>(library.step(reply)),
        takes_only_answers::<MakingCurrent>(context.making_current()),
        making.accepts(reply) ==> takes_only_answers::<MakingCurrent>(making.step(reply)),
        takes_only_answers::<AskingCurrent>(context.asking_current()),
        takes_only_answers::<FetchingAddress>(context.fetching_address(addr)),
        takes_only_answers::<SwappingBuffers>(context.swapping_buffers()),
        swapping.accepts(reply) ==> takes_only_answers::<SwappingBuffers>(swapping.step(reply)),
        takes_only_answers::<Destroying>(context.destruction()),
        destroying.accepts(reply) ==> takes_only_answers::<Destroying>(destroying.step(reply)),
{
}

/// The making of a prototype and the choice in it take no reply but those to their calls.
pub proof fn law_making_of_a_prototype_takes_only_answers(
    extensions: Seq<char>,
    display: usize,
    pf_reqs: &PixelFormatRequirements,
    opengl: &GlAttributes<&Context>,
    screen_id: c_int,
    transparent: bool,
    choosing: Choosing,
    machine: Opening,
    reply: Reply,
)
    ensures
        takes_only_answers::<Choosing>(
            choice(extensions, display, screen_id, *pf_reqs, transparent),
        ),
        choosing.accepts(reply) ==> takes_only_answers::<Choosing>(choosing.step(reply)),
        takes_only_answers::<Opening>(opening(display, pf_reqs, opengl, screen_id, transparent)),
        machine.accepts(reply) ==> takes_only_answers::<Opening>(machine.step(reply)),
{
    assert(choosing.accepts(reply) ==> takes_only_answers::<Choosing>(choosing.step(reply)));
    match machine.stage {
        OpeningStage::QueryingExtensions => {
            if let Reply::Extensions(Some(extensions)) = reply {
                assert(takes_only_answers::<Choosing>(
                    choice(
                        extensions@,
                        machine.display,
                        machine.screen_id,
                        *machine.pf_reqs,
                        machine.transparent,
                    ),
                ));
            }
        },
        OpeningStage::Choosing { choosing, .. } => {
            assert(choosing.accepts(reply) ==> takes_only_answers::<Choosing>(
                choosing.step(reply),
            ));
        },
        _ => {},
    }
}

/// The making of a context takes no reply but those to its calls.
pub proof fn law_making_of_a_context_takes_only_answers(
    request: ContextRequest,
    prototype: ContextPrototype,
    win: u64,
    creating: Creating,
    machine: Finishing,
    reply: Reply,
)
    ensures
        takes_only_answers::<Creating>(request.first()),
        creating.accepts(reply) ==> takes_only_answers::<Creating>(creating.step(reply)),
        takes_only_answers::<Finishing>(prototype.first_step(win)),
        machine.accepts(reply) ==> takes_only_answers::<Finishing>(machine.step(reply)),
{
}

} // verus!
