//! Finding libGL.

use vstd::prelude::*;
use vstd::pervasive::unreached;

use crate::protocol::{Call, CallModel, Machine, Reply, Step, run, step_model, step_wf};

verus! {

/// The functions of GLX, in a libGL that was opened.
#[derive(Clone, Copy, PartialEq, Eq, Debug)]
pub struct Glx {
    /// The handle of the library.
    pub library: usize,
}

/// The search for libGL.
#[derive(Clone, Copy, PartialEq, Eq, Debug)]
pub enum LoadingLibrary {
    /// `libGL.so.1` is being opened.
    Versioned,
    /// There is none, and `libGL.so` is being opened.
    Unversioned,
}

impl Machine for LoadingLibrary {
    type Out = Result<Glx, ()>;

    type Answer = Result<Glx, ()>;

    open spec fn answer(out: Self::Out) -> Self::Answer {
        out
    }

    open spec fn wf(self) -> bool {
        true
    }

    open spec fn accepts(self, reply: Reply) -> bool {
        reply is Address
    }

    open spec fn step(self, reply: Reply) -> Step<Self, Self::Answer, CallModel> {
        let library = reply->Address_0;
        if library != 0 {
            Step::Done(Ok(Glx { library }))
        } else if self is Versioned {
            Step::Ask(LoadingLibrary::Unversioned, Call::OpenLibrary { path: "libGL.so" })
        } else {
            Step::Done(Err(()))
        }
    }

    fn ready(&self, reply: &Reply) -> (ready: bool) {
        matches!(reply, Reply::Address(_))
    }

    fn next(self, reply: Reply) -> (step: Step<Self, Self::Out>) {
        match reply {
            Reply::Address(library) => {
                if library != 0 {
                    return Step::Done(Ok(Glx { library }));
                }
                match self {
                    LoadingLibrary::Versioned => Step::Ask(
                        LoadingLibrary::Unversioned,
                        Call::OpenLibrary { path: "libGL.so" },
                    ),
                    LoadingLibrary::Unversioned => Step::Done(Err(())),
                }
            },
            _ => unreached(),
        }
    }
}

impl Glx {
    /// Where the search begins.
    pub open spec fn search() -> Step<LoadingLibrary, Result<Glx, ()>, CallModel> {
        Step::Ask(LoadingLibrary::Versioned, Call::OpenLibrary { path: "libGL.so.1" })
    }

    /// Begins to look for libGL.
    pub fn new() -> (step: Step<LoadingLibrary, Result<Glx, ()>>)
        ensures
            step_wf(step),
            step_model(step) == Glx::search(),
    {
        Step::Ask(LoadingLibrary::Versioned, Call::OpenLibrary { path: "libGL.so.1" })
    }
}

/// `libGL.so.1` is taken if it can be opened, and `libGL.so` is not tried then. Else
/// `libGL.so` is taken if it can be opened. Else there is no libGL.
pub proof fn law_versioned_library_goes_first(first: usize, second: usize)
    ensures
        first != 0 ==> ({
            let dialogue = run::<LoadingLibrary>(Glx::search(), seq![Reply::Address(first)]);
            &&& dialogue.calls == seq![CallModel::OpenLibrary { path: "libGL.so.1" }]
            &&& dialogue.ends_with(Ok(Glx { library: first }))
        }),
        first == 0 ==> ({
            let dialogue = run::<LoadingLibrary>(
                Glx::search(),
                seq![Reply::Address(first), Reply::Address(second)],
            );
            &&& dialogue.calls == seq![
                CallModel::OpenLibrary { path: "libGL.so.1" },
                CallModel::OpenLibrary { path: "libGL.so" },
            ]
            &&& dialogue.ends_with(
                if second != 0 {
                    Ok(Glx { library: second })
                } else {
                    Err(())
                },
            )
        }),
{
    reveal_with_fuel(run, 3);
}

} // verus!
