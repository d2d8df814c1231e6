//! The end of a context.

use vstd::prelude::*;
use vstd::pervasive::unreached;
use vstd::utf8::encode_utf8;

use crate::context::{Context, MakingCurrent, c_bytes, c_string};
use crate::protocol::{Call, CallModel, Machine, Reply, Step, run, step_model, step_wf};
use crate::types::ContextError;

verus! {

/// Why a context could not be destroyed. `S` is as for [`ContextError`].
#[derive(PartialEq, Eq, Debug)]
pub enum DestructionError<S = String> {
    /// It could not be made current.
    NotCurrent(ContextError<S>),
    /// It has no `glFinish`.
    NoFinish,
}

impl DestructionError {
    /// The same error, with its message as a sequence of characters.
    pub open spec fn model(self) -> DestructionError<Seq<char>> {
        match self {
            DestructionError::NotCurrent(error) => DestructionError::NotCurrent(error.model()),
            DestructionError::NoFinish => DestructionError::NoFinish,
        }
    }
}

/// How far the destruction of a context has come.
#[derive(Clone, Copy, PartialEq, Eq, Debug)]
pub enum DestroyingStage {
    /// The context is being made current.
    Binding(MakingCurrent),
    /// `glFinish` is being looked up.
    Fetching,
    /// All that was drawn is being finished.
    Flushing,
    /// The context is being released: no context will be current.
    Unbinding,
    /// The context is being destroyed.
    Closing,
}

/// The destruction of a context.
#[derive(Clone, Copy, PartialEq, Eq, Debug)]
pub struct Destroying {
    pub display: usize,
    pub context: usize,
    pub stage: DestroyingStage,
}

impl Destroying {
    /// Where the destruction stands once the making current of the context stands at
    /// `binding`.
    pub open spec fn bound(
        self,
        binding: Step<MakingCurrent, Result<(), ContextError<Seq<char>>>, CallModel>,
    ) -> Step<Destroying, Result<(), DestructionError<Seq<char>>>, CallModel> {
        match binding {
            Step::Ask(machine, call) => Step::Ask(
                Destroying { stage: DestroyingStage::Binding(machine), ..self },
                call,
            ),
            Step::Done(Ok(_)) => Step::Ask(
                Destroying { stage: DestroyingStage::Fetching, ..self },
                Call::GetProcAddress { name: c_string("glFinish"@) },
            ),
            Step::Done(Err(error)) => Step::Done(Err(DestructionError::NotCurrent(error))),
        }
    }
}

impl Machine for Destroying {
    type Out = Result<(), DestructionError>;

    type Answer = Result<(), DestructionError<Seq<char>>>;

    open spec fn answer(out: Self::Out) -> Self::Answer {
        match out {
            Ok(_) => Ok(()),
            Err(error) => Err(error.model()),
        }
    }

    open spec fn wf(self) -> bool {
        true
    }

    open spec fn accepts(self, reply: Reply) -> bool {
        match self.stage {
            DestroyingStage::Binding(machine) => machine.accepts(reply),
            DestroyingStage::Fetching => reply is Address,
            DestroyingStage::Flushing => reply is Done,
            DestroyingStage::Unbinding => reply is Status,
            DestroyingStage::Closing => reply is Done,
        }
    }

    open spec fn step(self, reply: Reply) -> Step<Self, Self::Answer, CallModel> {
        match (self.stage, reply) {
            (DestroyingStage::Binding(machine), _) => self.bound(machine.step(reply)),
            (DestroyingStage::Fetching, Reply::Address(address)) => if address == 0 {
                Step::Done(Err(DestructionError::NoFinish))
            } else {
                Step::Ask(
                    Destroying { stage: DestroyingStage::Flushing, ..self },
                    Call::CallFunction { address },
                )
            },
            (DestroyingStage::Flushing, Reply::Done) => Step::Ask(
                Destroying { stage: DestroyingStage::Unbinding, ..self },
                Call::MakeCurrent { display: self.display, drawable: 0, context: 0 },
            ),
            (DestroyingStage::Unbinding, Reply::Status(_)) => Step::Ask(
                Destroying { stage: DestroyingStage::Closing, ..self },
                Call::DestroyContext { display: self.display, context: self.context },
            ),
            (DestroyingStage::Closing, Reply::Done) => Step::Done(Ok(())),
            _ => arbitrary(),
        }
    }

    fn ready(&self, reply: &Reply) -> (ready: bool) {
        match &self.stage {
            DestroyingStage::Binding(machine) => machine.ready(reply),
            DestroyingStage::Fetching => matches!(reply, Reply::Address(_)),
            DestroyingStage::Flushing => matches!(reply, Reply::Done),
            DestroyingStage::Unbinding => matches!(reply, Reply::Status(_)),
            DestroyingStage::Closing => matches!(reply, Reply::Done),
        }
    }

    fn next(self, reply: Reply) -> (step: Step<Self, Self::Out>) {
        let display: usize = self.display;
        let context: usize = self.context;
        match (self.stage, reply) {
            (DestroyingStage::Binding(machine), reply) => match machine.next(reply) {
                Step::Ask(machine, call) => Step::Ask(
                    Destroying { display, context, stage: DestroyingStage::Binding(machine) },
                    call,
                ),
                Step::Done(Ok(_)) => Step::Ask(
                    Destroying { display, context, stage: DestroyingStage::Fetching },
                    Call::GetProcAddress { name: c_bytes("glFinish") },
                ),
                Step::Done(Err(error)) => Step::Done(Err(DestructionError::NotCurrent(error))),
            },
            (DestroyingStage::Fetching, Reply::Address(address)) => {
                if address == 0 {
                    Step::Done(Err(DestructionError::NoFinish))
                } else {
                    Step::Ask(
                        Destroying { display, context, stage: DestroyingStage::Flushing },
                        Call::CallFunction { address },
                    )
                }
            },
            (DestroyingStage::Flushing, Reply::Done) => Step::Ask(
                Destroying { display, context, stage: DestroyingStage::Unbinding },
                Call::MakeCurrent { display, drawable: 0, context: 0 },
            ),
            (DestroyingStage::Unbinding, Reply::Status(_)) => Step::Ask(
                Destroying { display, context, stage: DestroyingStage::Closing },
                Call::DestroyContext { display, context },
            ),
            (DestroyingStage::Closing, Reply::Done) => Step::Done(Ok(())),
            _ => unreached(),
        }
    }
}

impl Context {
    /// Where the destruction of the context begins.
    pub open spec fn destruction(self) -> Step<
        Destroying,
        Result<(), DestructionError<Seq<char>>>,
        CallModel,
    > {
        Destroying {
            display: self.display,
            context: self.context,
            stage: DestroyingStage::Closing,
        }.bound(self.making_current())
    }

    /// Begins to destroy the context. Whatever was drawn is finished first, which
    /// takes the context to be current.
    pub fn destroy(&self) -> (step: Step<Destroying, Result<(), DestructionError>>)
        ensures
            step_wf(step),
            step_model(step) == self.destruction(),
    {
        match self.make_current() {
            Step::Ask(machine, call) => Step::Ask(
                Destroying {
                    display: self.display,
                    context: self.context,
                    stage: DestroyingStage::Binding(machine),
                },
                call,
            ),
            Step::Done(_) => unreached(),
        }
    }
}

/// A context is destroyed only after it was made current, what was drawn was
/// finished, and it was released again.
pub proof fn law_context_is_finished_before_it_is_destroyed(
    context: Context,
    status: i32,
    address: usize,
    released: i32,
)
    requires
        status != 0,
        address != 0,
    ensures
        ({
            let dialogue = run::<Destroying>(
                context.destruction(),
                seq![
                    Reply::Status(status),
                    Reply::Address(address),
                    Reply::Done,
                    Reply::Status(released),
                    Reply::Done,
                ],
            );
            &&& dialogue.calls == seq![
                CallModel::MakeCurrent {
                    display: context.display,
                    drawable: context.window,
                    context: context.context,
                },
                CallModel::GetProcAddress { name: c_string("glFinish"@) },
                CallModel::CallFunction { address },
                CallModel::MakeCurrent { display: context.display, drawable: 0, context: 0 },
                CallModel::DestroyContext { display: context.display, context: context.context },
            ]
            &&& dialogue.ends_with(Ok(()))
        }),
{
    reveal_with_fuel(run, 6);
}

/// A context that cannot be made current is left as it is.
pub proof fn law_context_that_cannot_be_current_is_not_destroyed(
    context: Context,
    errors: Result<(), String>,
)
    ensures
        ({
            let dialogue = run::<Destroying>(
                context.destruction(),
                seq![Reply::Status(0), Reply::Errors(errors)],
            );
            &&& dialogue.calls == seq![
                CallModel::MakeCurrent {
                    display: context.display,
                    drawable: context.window,
                    context: context.context,
                },
                CallModel::CheckErrors,
            ]
            &&& dialogue.last is Done
            &&& dialogue.last->Done_0 is Err
            &&& dialogue.last->Done_0->Err_0 is NotCurrent
        }),
{
    reveal_with_fuel(run, 3);
}

/// A context without `glFinish` is not destroyed. It was made current to find that out,
/// and is left so.
pub proof fn law_context_that_cannot_be_finished_is_not_destroyed(context: Context, status: i32)
    requires
        status != 0,
    ensures
        ({
            let dialogue = run::<Destroying>(
                context.destruction(),
                seq![Reply::Status(status), Reply::Address(0)],
            );
            &&& dialogue.calls.len() == 2
            &&& dialogue.calls[0] == CallModel::MakeCurrent {
                display: context.display,
                drawable: context.window,
                context: context.context,
            }
            &&& dialogue.calls[1] is GetProcAddress
            &&& dialogue.calls[1]->GetProcAddress_name == encode_utf8("glFinish"@) + seq![0u8]
            &&& dialogue.ends_with(Err(DestructionError::NoFinish))
        }),
{
    reveal_with_fuel(run, 3);
    assert(c_string("glFinish"@) =~= encode_utf8("glFinish"@) + seq![0u8]);
}

/// The error for a context that cannot be made current quotes what the X server reported,
/// or says that it reported nothing.
pub proof fn law_failure_to_destroy_is_quoted(context: Context, report: String)
    ensures
        ({
            let start = context.destruction();
            &&& run::<Destroying>(
                start,
                seq![Reply::Status(0), Reply::Errors(Ok(()))],
            ).ends_with(
                Err(
                    DestructionError::NotCurrent(
                        ContextError::OsError("`glXMakeCurrent` failed: "@ + "Ok(())"@),
                    ),
                ),
            )
            &&& run::<Destroying>(
                start,
                seq![Reply::Status(0), Reply::Errors(Err(report))],
            ).ends_with(
                Err(
                    DestructionError::NotCurrent(
                        ContextError::OsError(
                            "`glXMakeCurrent` failed: "@ + ("Err("@ + report@ + ")"@),
                        ),
                    ),
                ),
            )
        }),
{
    reveal_with_fuel(run, 3);
}

/// Whatever is replied, no context but this one is destroyed, and not before no context
/// is current.
pub proof fn law_only_a_released_context_is_destroyed(
    context: Context,
    replies: Seq<Reply>,
    i: int,
)
    requires
        0 <= i < run::<Destroying>(context.destruction(), replies).calls.len(),
        run::<Destroying>(context.destruction(), replies).calls[i] is DestroyContext,
    ensures
        ({
            let calls = run::<Destroying>(context.destruction(), replies).calls;
            &&& calls[i] == CallModel::DestroyContext {
                display: context.display,
                context: context.context,
            }
            &&& i == 4
            &&& calls[3] == CallModel::MakeCurrent {
                display: context.display,
                drawable: 0,
                context: 0,
            }
        }),
{
    reveal_with_fuel(run, 6);
}

/// An error of the destruction of a context and its model are of the same kind, with the
/// same message.
pub proof fn law_destruction_error_keeps_its_message(error: DestructionError)
    ensures
        error is NoFinish <==> error.model() is NoFinish,
        error is NotCurrent <==> error.model() is NotCurrent,
        error is NotCurrent ==> error.model()->NotCurrent_0->OsError_0
            == error->NotCurrent_0->OsError_0@,
{
}

} // verus!
