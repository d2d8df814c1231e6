//! Choosing a framebuffer configuration.

use vstd::prelude::*;
use vstd::pervasive::unreached;

use libc::c_int;

use crate::descriptor::{
    can_ask_for,
    descriptor,
    fbconfig_descriptor,
    law_descriptor_fails_for_want_of_an_extension,
};
use crate::extensions::has_extension;
use crate::protocol::{
    Call,
    CallModel,
    Machine,
    Reply,
    Step,
    Visual,
    law_run_in_parts,
    run,
    step_model,
    step_wf,
};
use crate::tokens;
use crate::tokens::{
    GLX_ALPHA_SIZE,
    GLX_BLUE_SIZE,
    GLX_CONFIG_CAVEAT,
    GLX_DEPTH_SIZE,
    GLX_DOUBLEBUFFER,
    GLX_FRAMEBUFFER_SRGB_CAPABLE_ARB,
    GLX_FRAMEBUFFER_SRGB_CAPABLE_EXT,
    GLX_GREEN_SIZE,
    GLX_RED_SIZE,
    GLX_SAMPLES,
    GLX_SAMPLE_BUFFERS,
    GLX_SLOW_CONFIG,
    GLX_STENCIL_SIZE,
    GLX_STEREO,
};
use crate::types::{PixelFormat, PixelFormatRequirements};

verus! {

/// An attribute that is read of the configuration that was chosen.
#[derive(Clone, Copy, PartialEq, Eq, Debug, Structural)]
pub enum Attrib {
    ConfigCaveat,
    RedSize,
    GreenSize,
    BlueSize,
    AlphaSize,
    DepthSize,
    StencilSize,
    Stereo,
    DoubleBuffer,
    SampleBuffers,
    Samples,
    SrgbCapableArb,
    SrgbCapableExt,
}

impl Attrib {
    /// The name of the attribute in GLX.
    pub open spec fn name(self) -> c_int {
        match self {
            Attrib::ConfigCaveat => GLX_CONFIG_CAVEAT,
            Attrib::RedSize => GLX_RED_SIZE,
            Attrib::GreenSize => GLX_GREEN_SIZE,
            Attrib::BlueSize => GLX_BLUE_SIZE,
            Attrib::AlphaSize => GLX_ALPHA_SIZE,
            Attrib::DepthSize => GLX_DEPTH_SIZE,
            Attrib::StencilSize => GLX_STENCIL_SIZE,
            Attrib::Stereo => GLX_STEREO,
            Attrib::DoubleBuffer => GLX_DOUBLEBUFFER,
            Attrib::SampleBuffers => GLX_SAMPLE_BUFFERS,
            Attrib::Samples => GLX_SAMPLES,
            Attrib::SrgbCapableArb => GLX_FRAMEBUFFER_SRGB_CAPABLE_ARB,
            Attrib::SrgbCapableExt => GLX_FRAMEBUFFER_SRGB_CAPABLE_EXT,
        }
    }

    fn token(self) -> (token: c_int)
        ensures
            token == self.name(),
    {
        match self {
            Attrib::ConfigCaveat => tokens::config_caveat(),
            Attrib::RedSize => tokens::red_size(),
            Attrib::GreenSize => tokens::green_size(),
            Attrib::BlueSize => tokens::blue_size(),
            Attrib::AlphaSize => tokens::alpha_size(),
            Attrib::DepthSize => tokens::depth_size(),
            Attrib::StencilSize => tokens::stencil_size(),
            Attrib::Stereo => tokens::stereo(),
            Attrib::DoubleBuffer => tokens::doublebuffer(),
            Attrib::SampleBuffers => tokens::sample_buffers(),
            Attrib::Samples => tokens::samples(),
            Attrib::SrgbCapableArb => tokens::framebuffer_srgb_capable_arb(),
            Attrib::SrgbCapableExt => tokens::framebuffer_srgb_capable_ext(),
        }
    }
}

/// The low byte of `value`.
pub open spec fn low_byte(value: c_int) -> int {
    value as int % 0x100
}

/// The low two bytes of `value`.
pub open spec fn low_word(value: c_int) -> int {
    value as int % 0x1_0000
}

fn byte(value: c_int) -> (low: u8)
    ensures
        low == low_byte(value),
{
    assert(value as u8 == value % 0x100) by (bit_vector);
    #[verifier::truncate]
    (value as u8)
}

fn word(value: c_int) -> (low: u16)
    ensures
        low == low_word(value),
{
    assert(value as u16 == value % 0x1_0000) by (bit_vector);
    #[verifier::truncate]
    (value as u16)
}

/// The format of which nothing is known yet.
pub open spec fn unread_format() -> PixelFormat {
    PixelFormat {
        hardware_accelerated: false,
        color_bits: 0,
        alpha_bits: 0,
        depth_bits: 0,
        stencil_bits: 0,
        stereoscopy: false,
        double_buffer: false,
        multisampling: None,
        srgb: false,
    }
}

/// What is known of a format once `attrib` was read to be `value`.
pub open spec fn with_value(format: PixelFormat, attrib: Attrib, value: c_int) -> PixelFormat {
    match attrib {
        Attrib::ConfigCaveat => PixelFormat {
            hardware_accelerated: value != GLX_SLOW_CONFIG,
            ..format
        },
        Attrib::RedSize | Attrib::GreenSize | Attrib::BlueSize => PixelFormat {
            color_bits: (format.color_bits + low_byte(value)) as u8,
            ..format
        },
        Attrib::AlphaSize => PixelFormat { alpha_bits: low_byte(value) as u8, ..format },
        Attrib::DepthSize => PixelFormat { depth_bits: low_byte(value) as u8, ..format },
        Attrib::StencilSize => PixelFormat { stencil_bits: low_byte(value) as u8, ..format },
        Attrib::Stereo => PixelFormat { stereoscopy: value != 0, ..format },
        Attrib::DoubleBuffer => PixelFormat { double_buffer: value != 0, ..format },
        Attrib::SampleBuffers => format,
        Attrib::Samples => PixelFormat { multisampling: Some(low_word(value) as u16), ..format },
        Attrib::SrgbCapableArb | Attrib::SrgbCapableExt => PixelFormat {
            srgb: value != 0,
            ..format
        },
    }
}

/// The attribute that is read after `attrib` was read to be `value`, if any.
pub open spec fn following(attrib: Attrib, value: c_int) -> Option<Attrib> {
    match attrib {
        Attrib::ConfigCaveat => Some(Attrib::RedSize),
        Attrib::RedSize => Some(Attrib::GreenSize),
        Attrib::GreenSize => Some(Attrib::BlueSize),
        Attrib::BlueSize => Some(Attrib::AlphaSize),
        Attrib::AlphaSize => Some(Attrib::DepthSize),
        Attrib::DepthSize => Some(Attrib::StencilSize),
        Attrib::StencilSize => Some(Attrib::Stereo),
        Attrib::Stereo => Some(Attrib::DoubleBuffer),
        Attrib::DoubleBuffer => Some(Attrib::SampleBuffers),
        Attrib::SampleBuffers => if value != 0 {
            Some(Attrib::Samples)
        } else {
            Some(Attrib::SrgbCapableArb)
        },
        Attrib::Samples => Some(Attrib::SrgbCapableArb),
        Attrib::SrgbCapableArb => if value != 0 {
            None
        } else {
            Some(Attrib::SrgbCapableExt)
        },
        Attrib::SrgbCapableExt => None,
    }
}

/// Whether the bits of the colors read so far, `attrib` among them, fit a byte.
pub open spec fn colors_fit(format: PixelFormat, attrib: Attrib, value: c_int) -> bool {
    (attrib is RedSize || attrib is GreenSize || attrib is BlueSize) ==> format.color_bits
        + low_byte(value) <= 0xff
}

fn record(format: PixelFormat, attrib: Attrib, value: c_int) -> (next: PixelFormat)
    requires
        colors_fit(format, attrib, value),
    ensures
        next == with_value(format, attrib, value),
{
    let mut next = format;
    match attrib {
        Attrib::ConfigCaveat => {
            next.hardware_accelerated = value != tokens::slow_config();
        },
        Attrib::RedSize | Attrib::GreenSize | Attrib::BlueSize => {
            next.color_bits = format.color_bits + byte(value);
        },
        Attrib::AlphaSize => {
            next.alpha_bits = byte(value);
        },
        Attrib::DepthSize => {
            next.depth_bits = byte(value);
        },
        Attrib::StencilSize => {
            next.stencil_bits = byte(value);
        },
        Attrib::Stereo => {
            next.stereoscopy = value != 0;
        },
        Attrib::DoubleBuffer => {
            next.double_buffer = value != 0;
        },
        Attrib::SampleBuffers => (),
        Attrib::Samples => {
            next.multisampling = Some(word(value));
        },
        Attrib::SrgbCapableArb | Attrib::SrgbCapableExt => {
            next.srgb = value != 0;
        },
    }
    next
}

fn next_attrib(attrib: Attrib, value: c_int) -> (next: Option<Attrib>)
    ensures
        next == following(attrib, value),
{
    match attrib {
        Attrib::ConfigCaveat => Some(Attrib::RedSize),
        Attrib::RedSize => Some(Attrib::GreenSize),
        Attrib::GreenSize => Some(Attrib::BlueSize),
        Attrib::BlueSize => Some(Attrib::AlphaSize),
        Attrib::AlphaSize => Some(Attrib::DepthSize),
        Attrib::DepthSize => Some(Attrib::StencilSize),
        Attrib::StencilSize => Some(Attrib::Stereo),
        Attrib::Stereo => Some(Attrib::DoubleBuffer),
        Attrib::DoubleBuffer => Some(Attrib::SampleBuffers),
        Attrib::SampleBuffers => if value != 0 {
            Some(Attrib::Samples)
        } else {
            Some(Attrib::SrgbCapableArb)
        },
        Attrib::Samples => Some(Attrib::SrgbCapableArb),
        Attrib::SrgbCapableArb => if value != 0 {
            None
        } else {
            Some(Attrib::SrgbCapableExt)
        },
        Attrib::SrgbCapableExt => None,
    }
}

/// Whether a visual can show what lies behind it: it has 32 bits for red, green,
/// blue and alpha.
pub open spec fn is_deep(visual: Option<Visual>) -> bool {
    visual is Some && visual->0.info.depth == 32
}

/// Where a visual lies, or zero.
pub open spec fn pointer_of(visual: Option<Visual>) -> usize {
    match visual {
        Some(visual) => visual.pointer,
        None => 0,
    }
}

/// How far the choice of a configuration has come.
#[derive(PartialEq, Eq, Debug)]
pub enum ChoosingStage {
    /// The configurations that meet the requirements are being listed.
    Listing,
    /// The visual of the configuration at `index` is being fetched.
    Inspecting { list: usize, configs: Vec<usize>, index: usize },
    /// That visual is being freed.
    Releasing { list: usize, configs: Vec<usize>, index: usize, deep: bool },
    /// The list is being freed.
    Freeing { choice: Option<usize> },
    /// An attribute of the configuration that was chosen is being read.
    Reading { fb_config: usize, attrib: Attrib, format: PixelFormat },
}

/// The choice of a framebuffer configuration.
#[derive(PartialEq, Eq, Debug)]
pub struct Choosing {
    pub display: usize,
    /// Whether the configuration must be one that can show what lies behind it.
    pub transparent: bool,
    pub stage: ChoosingStage,
}

/// Where the choice stands when `attrib` is about to be read.
pub open spec fn reading(
    display: usize,
    transparent: bool,
    fb_config: usize,
    attrib: Attrib,
    format: PixelFormat,
) -> Step<Choosing, Result<(usize, PixelFormat), ()>, CallModel> {
    Step::Ask(
        Choosing {
            display,
            transparent,
            stage: ChoosingStage::Reading { fb_config, attrib, format },
        },
        Call::GetFbConfigAttrib { display, fb_config, attrib: attrib.name() },
    )
}

/// Where the choice stands when the visual of the configuration at `index` is about
/// to be fetched.
pub open spec fn inspecting(display: usize, list: usize, configs: Vec<usize>, index: int) -> Step<
    Choosing,
    Result<(usize, PixelFormat), ()>,
    CallModel,
> {
    Step::Ask(
        Choosing {
            display,
            transparent: true,
            stage: ChoosingStage::Inspecting { list, configs, index: index as usize },
        },
        Call::GetVisualFromFbConfig { display, fb_config: configs@[index] },
    )
}

/// Where the choice stands when it is made and the list is about to be freed.
pub open spec fn freeing(
    display: usize,
    transparent: bool,
    list: usize,
    choice: Option<usize>,
) -> Step<Choosing, Result<(usize, PixelFormat), ()>, CallModel> {
    Step::Ask(
        Choosing { display, transparent, stage: ChoosingStage::Freeing { choice } },
        Call::Free { pointer: list },
    )
}

fn read_attrib(
    display: usize,
    transparent: bool,
    fb_config: usize,
    attrib: Attrib,
    format: PixelFormat,
) -> (step: Step<Choosing, Result<(usize, PixelFormat), ()>>)
    ensures
        match step {
            Step::Ask(machine, call) => machine.stage is Reading && reading(
                display,
                transparent,
                fb_config,
                attrib,
                format,
            ) == Step::<Choosing, Result<(usize, PixelFormat), ()>, CallModel>::Ask(
                machine,
                call.model(),
            ),
            Step::Done(_) => false,
        },
{
    Step::Ask(
        Choosing {
            display,
            transparent,
            stage: ChoosingStage::Reading { fb_config, attrib, format },
        },
        Call::GetFbConfigAttrib { display, fb_config, attrib: attrib.token() },
    )
}

impl Machine for Choosing {
    type Out = Result<(usize, PixelFormat), ()>;

    type Answer = Result<(usize, PixelFormat), ()>;

    open spec fn answer(out: Self::Out) -> Self::Answer {
        out
    }

    open spec fn wf(self) -> bool {
        match self.stage {
            ChoosingStage::Inspecting { configs, index, .. }
            | ChoosingStage::Releasing { configs, index, .. } => self.transparent && index
                < configs@.len(),
            _ => true,
        }
    }

    open spec fn accepts(self, reply: Reply) -> bool {
        match self.stage {
            ChoosingStage::Listing => reply is Configs,
            ChoosingStage::Inspecting { .. } => reply is Visual,
            ChoosingStage::Releasing { .. } => reply is Done,
            ChoosingStage::Freeing { .. } => reply is Done,
            ChoosingStage::Reading { attrib, format, .. } => reply is Attrib && colors_fit(
                format,
                attrib,
                reply->Attrib_0,
            ),
        }
    }

    open spec fn step(self, reply: Reply) -> Step<Self, Self::Answer, CallModel> {
        match (self.stage, reply) {
            (ChoosingStage::Listing, Reply::Configs { list, configs }) => if list == 0
                || configs@.len() == 0 {
                Step::Done(Err(()))
            } else if self.transparent {
                inspecting(self.display, list, configs, 0)
            } else {
                freeing(self.display, self.transparent, list, Some(configs@[0]))
            },
            (ChoosingStage::Inspecting { list, configs, index }, Reply::Visual(visual)) =>
                Step::Ask(
                Choosing {
                    stage: ChoosingStage::Releasing {
                        list,
                        configs,
                        index,
                        deep: is_deep(visual),
                    },
                    ..self
                },
                Call::Free { pointer: pointer_of(visual) },
            ),
            (ChoosingStage::Releasing { list, configs, index, deep }, Reply::Done) => if deep {
                freeing(self.display, self.transparent, list, Some(configs@[index as int]))
            } else if index + 1 < configs@.len() {
                inspecting(self.display, list, configs, index + 1)
            } else {
                freeing(self.display, self.transparent, list, None)
            },
            (ChoosingStage::Freeing { choice }, Reply::Done) => match choice {
                Some(fb_config) => reading(
                    self.display,
                    self.transparent,
                    fb_config,
                    Attrib::ConfigCaveat,
                    unread_format(),
                ),
                None => Step::Done(Err(())),
            },
            (ChoosingStage::Reading { fb_config, attrib, format }, Reply::Attrib(value)) => match
                following(attrib, value) {
                Some(next) => reading(
                    self.display,
                    self.transparent,
                    fb_config,
                    next,
                    with_value(format, attrib, value),
                ),
                None => Step::Done(Ok((fb_config, with_value(format, attrib, value)))),
            },
            _ => arbitrary(),
        }
    }

    fn ready(&self, reply: &Reply) -> (ready: bool) {
        match &self.stage {
            ChoosingStage::Listing => matches!(reply, Reply::Configs { .. }),
            ChoosingStage::Inspecting { .. } => matches!(reply, Reply::Visual(_)),
            ChoosingStage::Releasing { .. } => matches!(reply, Reply::Done),
            ChoosingStage::Freeing { .. } => matches!(reply, Reply::Done),
            ChoosingStage::Reading { attrib, format, .. } => match reply {
                Reply::Attrib(value) => match attrib {
                    Attrib::RedSize | Attrib::GreenSize | Attrib::BlueSize => byte(*value) <= 0xff
                        - format.color_bits,
                    _ => true,
                },
                _ => false,
            },
        }
    }

    fn next(self, reply: Reply) -> (step: Step<Self, Self::Out>) {
        let display: usize = self.display;
        let transparent = self.transparent;
        match (self.stage, reply) {
            (ChoosingStage::Listing, Reply::Configs { list, configs }) => {
                if list == 0 {
                    return Step::Done(Err(()));
                }
                if configs.len() == 0 {
                    return Step::Done(Err(()));
                }
                let first: usize = configs[0];
                if transparent {
                    Step::Ask(
                        Choosing {
                            display,
                            transparent,
                            stage: ChoosingStage::Inspecting { list, configs, index: 0 },
                        },
                        Call::GetVisualFromFbConfig { display, fb_config: first },
                    )
                } else {
                    Step::Ask(
                        Choosing {
                            display,
                            transparent,
                            stage: ChoosingStage::Freeing { choice: Some(first) },
                        },
                        Call::Free { pointer: list },
                    )
                }
            },
            (ChoosingStage::Inspecting { list, configs, index }, Reply::Visual(visual)) => {
                // Transparency was requested, so only choose configs with 32
                // bits for RGBA.
                let deep = match visual {
                    Some(visual) => visual.info.depth == 32,
                    None => false,
                };
                let pointer: usize = match visual {
                    Some(visual) => visual.pointer,
                    None => 0,
                };
                Step::Ask(
                    Choosing {
                        display,
                        transparent,
                        stage: ChoosingStage::Releasing { list, configs, index, deep },
                    },
                    Call::Free { pointer },
                )
            },
            (ChoosingStage::Releasing { list, configs, index, deep }, Reply::Done) => {
                let count: usize = configs.len();
                if deep || index + 1 >= count {
                    let choice = if deep {
                        Some(configs[index])
                    } else {
                        None
                    };
                    Step::Ask(
                        Choosing {
                            display,
                            transparent,
                            stage: ChoosingStage::Freeing { choice },
                        },
                        Call::Free { pointer: list },
                    )
                } else {
                    let fb_config: usize = configs[index + 1];
                    Step::Ask(
                        Choosing {
                            display,
                            transparent,
                            stage: ChoosingStage::Inspecting { list, configs, index: index + 1 },
                        },
                        Call::GetVisualFromFbConfig { display, fb_config },
                    )
                }
            },
            (ChoosingStage::Freeing { choice }, Reply::Done) => match choice {
                Some(fb_config) => {
                    let format = PixelFormat {
                        hardware_accelerated: false,
                        color_bits: 0,
                        alpha_bits: 0,
                        depth_bits: 0,
                        stencil_bits: 0,
                        stereoscopy: false,
                        double_buffer: false,
                        multisampling: None,
                        srgb: false,
                    };
                    read_attrib(display, transparent, fb_config, Attrib::ConfigCaveat, format)
                },
                None => Step::Done(Err(())),
            },
            (ChoosingStage::Reading { fb_config, attrib, format }, Reply::Attrib(value)) => {
                let known = record(format, attrib, value);
                match next_attrib(attrib, value) {
                    Some(next) => read_attrib(display, transparent, fb_config, next, known),
                    None => Step::Done(Ok((fb_config, known))),
                }
            },
            _ => unreached(),
        }
    }
}

/// Where the choice begins.
pub open spec fn choice(
    extensions: Seq<char>,
    display: usize,
    screen_id: c_int,
    reqs: PixelFormatRequirements,
    transparent: bool,
) -> Step<Choosing, Result<(usize, PixelFormat), ()>, CallModel> {
    match descriptor(extensions, reqs) {
        Ok(attribs) => Step::Ask(
            Choosing { display, transparent, stage: ChoosingStage::Listing },
            Call::ChooseFbConfig { display, screen: screen_id, attribs },
        ),
        Err(_) => Step::Done(Err(())),
    }
}

/// Begins to choose a configuration of a screen that meets the requirements.
pub fn choose_fbconfig(
    extensions: &str,
    display: usize,
    screen_id: c_int,
    reqs: &PixelFormatRequirements,
    transparent: bool,
) -> (step: Step<Choosing, Result<(usize, PixelFormat), ()>>)
    ensures
        step_wf(step),
        step_model(step) == choice(extensions@, display, screen_id, *reqs, transparent),
{
    match fbconfig_descriptor(extensions, reqs) {
        Ok(attribs) => Step::Ask(
            Choosing { display, transparent, stage: ChoosingStage::Listing },
            Call::ChooseFbConfig { display, screen: screen_id, attribs },
        ),
        Err(_) => Step::Done(Err(())),
    }
}

/// The format that a configuration has whose attributes have the given values.
pub open spec fn pixel_format(values: spec_fn(Attrib) -> c_int) -> PixelFormat {
    PixelFormat {
        hardware_accelerated: values(Attrib::ConfigCaveat) != GLX_SLOW_CONFIG,
        color_bits: color_sum(values) as u8,
        alpha_bits: low_byte(values(Attrib::AlphaSize)) as u8,
        depth_bits: low_byte(values(Attrib::DepthSize)) as u8,
        stencil_bits: low_byte(values(Attrib::StencilSize)) as u8,
        stereoscopy: values(Attrib::Stereo) != 0,
        double_buffer: values(Attrib::DoubleBuffer) != 0,
        multisampling: if values(Attrib::SampleBuffers) != 0 {
            Some(low_word(values(Attrib::Samples)) as u16)
        } else {
            None
        },
        srgb: values(Attrib::SrgbCapableArb) != 0 || values(Attrib::SrgbCapableExt) != 0,
    }
}

/// The bits of all colors together.
pub open spec fn color_sum(values: spec_fn(Attrib) -> c_int) -> int {
    low_byte(values(Attrib::RedSize)) + low_byte(values(Attrib::GreenSize)) + low_byte(
        values(Attrib::BlueSize),
    )
}

/// The attributes that are read of every configuration.
pub open spec fn common_attribs() -> Seq<Attrib> {
    seq![
        Attrib::ConfigCaveat,
        Attrib::RedSize,
        Attrib::GreenSize,
        Attrib::BlueSize,
        Attrib::AlphaSize,
        Attrib::DepthSize,
        Attrib::StencilSize,
        Attrib::Stereo,
        Attrib::DoubleBuffer,
        Attrib::SampleBuffers,
    ]
}

/// The attributes that are read of a configuration with the given values, in order.
pub open spec fn attribs_read(values: spec_fn(Attrib) -> c_int) -> Seq<Attrib> {
    common_attribs() + (if values(Attrib::SampleBuffers) != 0 {
        seq![Attrib::Samples]
    } else {
        seq![]
    }) + seq![Attrib::SrgbCapableArb] + (if values(Attrib::SrgbCapableArb) == 0 {
        seq![Attrib::SrgbCapableExt]
    } else {
        seq![]
    })
}

/// The calls that read `attribs`.
pub open spec fn reading_calls(display: usize, fb_config: usize, attribs: Seq<Attrib>) -> Seq<
    CallModel,
> {
    attribs.map_values(
        |attrib: Attrib|
            CallModel::GetFbConfigAttrib { display, fb_config, attrib: attrib.name() },
    )
}

/// The replies that give the values of `attribs`.
pub open spec fn reading_replies(
    values: spec_fn(Attrib) -> c_int,
    attribs: Seq<Attrib>,
) -> Seq<Reply> {
    attribs.map_values(|attrib: Attrib| Reply::Attrib(values(attrib)))
}

/// What is known of a format once the attributes from the one at `from` on were read.
spec fn format_after(
    values: spec_fn(Attrib) -> c_int,
    attribs: Seq<Attrib>,
    from: int,
    format: PixelFormat,
) -> PixelFormat
    decreases attribs.len() - from,
{
    if from >= attribs.len() {
        format
    } else {
        format_after(
            values,
            attribs,
            from + 1,
            with_value(format, attribs[from], values(attribs[from])),
        )
    }
}

/// Whether no color overflows when the attributes from the one at `from` on are read.
spec fn all_fit(
    values: spec_fn(Attrib) -> c_int,
    attribs: Seq<Attrib>,
    from: int,
    format: PixelFormat,
) -> bool
    decreases attribs.len() - from,
{
    from >= attribs.len() || (colors_fit(format, attribs[from], values(attribs[from])) && all_fit(
        values,
        attribs,
        from + 1,
        with_value(format, attribs[from], values(attribs[from])),
    ))
}

/// Whether each attribute is the one to read after the one before it, and none is to
/// be read after the last.
spec fn are_chained(values: spec_fn(Attrib) -> c_int, attribs: Seq<Attrib>) -> bool {
    &&& forall|i: int, j: int|
        0 <= i < j < attribs.len() && j == i + 1 ==> following(
            #[trigger] attribs[i],
            values(attribs[i]),
        ) == Some(#[trigger] attribs[j])
    &&& following(attribs.last(), values(attribs.last())) is None
}

proof fn lemma_reading(
    display: usize,
    transparent: bool,
    fb_config: usize,
    values: spec_fn(Attrib) -> c_int,
    attribs: Seq<Attrib>,
    from: int,
    format: PixelFormat,
)
    requires
        0 <= from < attribs.len(),
        all_fit(values, attribs, from, format),
        are_chained(values, attribs),
    ensures
        ({
            let dialogue = run::<Choosing>(
                reading(display, transparent, fb_config, attribs[from], format),
                reading_replies(values, attribs.skip(from)),
            );
            &&& dialogue.calls == reading_calls(display, fb_config, attribs.skip(from))
            &&& dialogue.ends_with(Ok((fb_config, format_after(values, attribs, from, format))))
        }),
    decreases attribs.len() - from,
{
    reveal_with_fuel(run, 2);
    let rest = attribs.skip(from);
    let replies = reading_replies(values, rest);
    let value = values(attribs[from]);
    let next = with_value(format, attribs[from], value);
    assert(rest[0] == attribs[from]);
    assert(replies[0] == Reply::Attrib(value));
    assert(replies.drop_first() =~= reading_replies(values, attribs.skip(from + 1)));
    if from + 1 < attribs.len() {
        lemma_reading(display, transparent, fb_config, values, attribs, from + 1, next);
        assert(reading_calls(display, fb_config, rest) =~= seq![
            CallModel::GetFbConfigAttrib { display, fb_config, attrib: attribs[from].name() },
        ] + reading_calls(display, fb_config, attribs.skip(from + 1)));
    } else {
        assert(attribs.last() == attribs[from]);
        assert(reading_calls(display, fb_config, rest) =~= seq![
            CallModel::GetFbConfigAttrib { display, fb_config, attrib: attribs[from].name() },
        ]);
        assert(format_after(values, attribs, from + 1, next) == next);
    }
}

/// One attribute read.
proof fn lemma_read_one(
    values: spec_fn(Attrib) -> c_int,
    attribs: Seq<Attrib>,
    from: int,
    format: PixelFormat,
)
    requires
        0 <= from < attribs.len(),
        colors_fit(format, attribs[from], values(attribs[from])),
    ensures
        ({
            let next = with_value(format, attribs[from], values(attribs[from]));
            &&& format_after(values, attribs, from, format) == format_after(
                values,
                attribs,
                from + 1,
                next,
            )
            &&& all_fit(values, attribs, from + 1, next) ==> all_fit(values, attribs, from, format)
        }),
{
}

/// What is known of a format once the attributes that are read of every configuration
/// were read.
spec fn common_format(values: spec_fn(Attrib) -> c_int) -> PixelFormat {
    PixelFormat { multisampling: None, srgb: false, ..pixel_format(values) }
}

proof fn lemma_common_format(values: spec_fn(Attrib) -> c_int, attribs: Seq<Attrib>)
    requires
        attribs.len() >= 10,
        forall|i: int| 0 <= i < 10 ==> attribs[i] == common_attribs()[i],
        color_sum(values) <= 0xff,
    ensures
        format_after(values, attribs, 0, unread_format()) == format_after(
            values,
            attribs,
            10,
            common_format(values),
        ),
        all_fit(values, attribs, 10, common_format(values)) ==> all_fit(
            values,
            attribs,
            0,
            unread_format(),
        ),
{
    let f0 = unread_format();
    lemma_read_one(values, attribs, 0, f0);
    let f1 = with_value(f0, Attrib::ConfigCaveat, values(Attrib::ConfigCaveat));
    lemma_read_one(values, attribs, 1, f1);
    let f2 = with_value(f1, Attrib::RedSize, values(Attrib::RedSize));
    assert(f2.color_bits == low_byte(values(Attrib::RedSize)));
    lemma_read_one(values, attribs, 2, f2);
    let f3 = with_value(f2, Attrib::GreenSize, values(Attrib::GreenSize));
    assert(f3.color_bits == low_byte(values(Attrib::RedSize)) + low_byte(
        values(Attrib::GreenSize),
    ));
    lemma_read_one(values, attribs, 3, f3);
    let f4 = with_value(f3, Attrib::BlueSize, values(Attrib::BlueSize));
    assert(f4.color_bits == color_sum(values));
    lemma_read_one(values, attribs, 4, f4);
    let f5 = with_value(f4, Attrib::AlphaSize, values(Attrib::AlphaSize));
    lemma_read_one(values, attribs, 5, f5);
    let f6 = with_value(f5, Attrib::DepthSize, values(Attrib::DepthSize));
    lemma_read_one(values, attribs, 6, f6);
    let f7 = with_value(f6, Attrib::StencilSize, values(Attrib::StencilSize));
    lemma_read_one(values, attribs, 7, f7);
    let f8 = with_value(f7, Attrib::Stereo, values(Attrib::Stereo));
    lemma_read_one(values, attribs, 8, f8);
    let f9 = with_value(f8, Attrib::DoubleBuffer, values(Attrib::DoubleBuffer));
    lemma_read_one(values, attribs, 9, f9);
    assert(f9 == common_format(values));
}

proof fn lemma_format_after(values: spec_fn(Attrib) -> c_int)
    requires
        color_sum(values) <= 0xff,
    ensures
        format_after(values, attribs_read(values), 0, unread_format()) == pixel_format(values),
        all_fit(values, attribs_read(values), 0, unread_format()),
{
    let attribs = attribs_read(values);
    let f = common_format(values);
    lemma_common_format(values, attribs);
    let at: int = if values(Attrib::SampleBuffers) != 0 {
        11
    } else {
        10
    };
    let sampled = PixelFormat { multisampling: pixel_format(values).multisampling, ..f };
    if values(Attrib::SampleBuffers) != 0 {
        assert(attribs[10] == Attrib::Samples);
        lemma_read_one(values, attribs, 10, f);
    }
    assert(attribs[at] == Attrib::SrgbCapableArb);
    lemma_read_one(values, attribs, at, sampled);
    let arb = with_value(sampled, Attrib::SrgbCapableArb, values(Attrib::SrgbCapableArb));
    if values(Attrib::SrgbCapableArb) == 0 {
        assert(attribs[at + 1] == Attrib::SrgbCapableExt);
        lemma_read_one(values, attribs, at + 1, arb);
        assert(attribs.len() == at + 2);
    } else {
        assert(attribs.len() == at + 1);
    }
}

proof fn lemma_attribs_follow(values: spec_fn(Attrib) -> c_int)
    ensures
        are_chained(values, attribs_read(values)),
{
}

/// Of a configuration, just the attributes are read that its format depends on, and
/// the format is the one that their values give.
pub proof fn law_format_is_read(
    display: usize,
    transparent: bool,
    fb_config: usize,
    values: spec_fn(Attrib) -> c_int,
)
    requires
        color_sum(values) <= 0xff,
    ensures
        ({
            let dialogue = run::<Choosing>(
                reading(
                    display,
                    transparent,
                    fb_config,
                    Attrib::ConfigCaveat,
                    unread_format(),
                ),
                reading_replies(values, attribs_read(values)),
            );
            &&& dialogue.calls == reading_calls(display, fb_config, attribs_read(values))
            &&& dialogue.ends_with(Ok((fb_config, pixel_format(values))))
        }),
{
    let attribs = attribs_read(values);
    assert(attribs.skip(0) =~= attribs);
    lemma_format_after(values);
    lemma_attribs_follow(values);
    lemma_reading(display, transparent, fb_config, values, attribs, 0, unread_format());
}

/// The calls that fetch and free the visuals of the first configurations in a list,
/// one after the other.
pub open spec fn inspection_calls(
    display: usize,
    configs: Seq<usize>,
    visuals: Seq<Option<Visual>>,
) -> Seq<CallModel> {
    Seq::new(
        2 * visuals.len(),
        |i: int|
            if i % 2 == 0 {
                CallModel::GetVisualFromFbConfig { display, fb_config: configs[i / 2] }
            } else {
                CallModel::Free { pointer: pointer_of(visuals[i / 2]) }
            },
    )
}

/// The replies to these calls.
pub open spec fn inspection_replies(visuals: Seq<Option<Visual>>) -> Seq<Reply> {
    Seq::new(
        2 * visuals.len(),
        |i: int|
            if i % 2 == 0 {
                Reply::Visual(visuals[i / 2])
            } else {
                Reply::Done
            },
    )
}

/// Whether no visual but perhaps the last is deep.
pub open spec fn deep_at_last_only(visuals: Seq<Option<Visual>>) -> bool {
    forall|i: int| 0 <= i < visuals.len() - 1 ==> !is_deep(#[trigger] visuals[i])
}

proof fn lemma_inspection(
    display: usize,
    list: usize,
    configs: Vec<usize>,
    index: int,
    visuals: Seq<Option<Visual>>,
)
    requires
        0 <= index,
        0 < visuals.len(),
        index + visuals.len() <= configs@.len(),
        deep_at_last_only(visuals),
        is_deep(visuals.last()) || index + visuals.len() == configs@.len(),
    ensures
        ({
            let dialogue = run::<Choosing>(
                inspecting(display, list, configs, index),
                inspection_replies(visuals),
            );
            &&& dialogue.calls == inspection_calls(display, configs@.skip(index), visuals)
            &&& dialogue.last == freeing(
                display,
                true,
                list,
                if is_deep(visuals.last()) {
                    Some(configs@[index + visuals.len() - 1])
                } else {
                    None
                },
            )
        }),
    decreases visuals.len(),
{
    reveal_with_fuel(run, 3);
    assert(configs@.len() == configs.len());
    let replies = inspection_replies(visuals);
    let rest = visuals.drop_first();
    let calls = inspection_calls(display, configs@.skip(index), visuals);
    assert(replies[0] == Reply::Visual(visuals[0]));
    assert(replies.drop_first()[0] == replies[1]);
    assert(replies.drop_first().drop_first() =~= inspection_replies(rest));
    assert(calls =~= seq![
        CallModel::GetVisualFromFbConfig { display, fb_config: configs@[index] },
    ] + (seq![CallModel::Free { pointer: pointer_of(visuals[0]) }] + inspection_calls(
        display,
        configs@.skip(index + 1),
        rest,
    )));
    if rest.len() > 0 {
        assert(!is_deep(visuals[0]));
        assert forall|i: int| 0 <= i < rest.len() - 1 implies !is_deep(#[trigger] rest[i]) by {
            assert(rest[i] == visuals[i + 1]);
        }
        assert(rest.last() == visuals.last());
        lemma_inspection(display, list, configs, index + 1, rest);
    } else {
        assert(visuals.last() == visuals[0]);
        assert(inspection_replies(rest) =~= seq![]);
        assert(inspection_calls(display, configs@.skip(index + 1), rest) =~= seq![]);
    }
}

/// Nothing is chosen, and nothing freed, where libGL lists no configuration.
pub proof fn law_nothing_is_chosen_of_nothing(
    extensions: Seq<char>,
    display: usize,
    screen_id: c_int,
    reqs: PixelFormatRequirements,
    transparent: bool,
    list: usize,
    configs: Vec<usize>,
)
    requires
        can_ask_for(extensions, reqs),
        list == 0 || configs@.len() == 0,
    ensures
        ({
            let dialogue = run::<Choosing>(
                choice(extensions, display, screen_id, reqs, transparent),
                seq![Reply::Configs { list, configs }],
            );
            &&& dialogue.calls == seq![
                CallModel::ChooseFbConfig {
                    display,
                    screen: screen_id,
                    attribs: descriptor(extensions, reqs)->Ok_0,
                },
            ]
            &&& dialogue.ends_with(Err(()))
        }),
{
    reveal_with_fuel(run, 2);
}

/// The first configuration that libGL lists is chosen where it need not be
/// transparent. The list is freed, and the format of that configuration is read.
pub proof fn law_first_config_is_chosen(
    extensions: Seq<char>,
    display: usize,
    screen_id: c_int,
    reqs: PixelFormatRequirements,
    list: usize,
    configs: Vec<usize>,
    values: spec_fn(Attrib) -> c_int,
)
    requires
        can_ask_for(extensions, reqs),
        list != 0,
        configs@.len() > 0,
        color_sum(values) <= 0xff,
    ensures
        ({
            let dialogue = run::<Choosing>(
                choice(extensions, display, screen_id, reqs, false),
                seq![Reply::Configs { list, configs }, Reply::Done] + reading_replies(
                    values,
                    attribs_read(values),
                ),
            );
            &&& dialogue.calls == seq![
                CallModel::ChooseFbConfig {
                    display,
                    screen: screen_id,
                    attribs: descriptor(extensions, reqs)->Ok_0,
                },
                CallModel::Free { pointer: list },
            ] + reading_calls(display, configs@[0], attribs_read(values))
            &&& dialogue.ends_with(Ok((configs@[0], pixel_format(values))))
        }),
{
    let first = choice(extensions, display, screen_id, reqs, false);
    let head = seq![Reply::Configs { list, configs }, Reply::Done];
    assert(run::<Choosing>(first, head).calls =~= seq![
        CallModel::ChooseFbConfig {
            display,
            screen: screen_id,
            attribs: descriptor(extensions, reqs)->Ok_0,
        },
        CallModel::Free { pointer: list },
    ] && run::<Choosing>(first, head).last == reading(
        display,
        false,
        configs@[0],
        Attrib::ConfigCaveat,
        unread_format(),
    )) by {
        reveal_with_fuel(run, 3);
        assert(head.drop_first()[0] == Reply::Done);
    }
    law_run_in_parts::<Choosing>(first, head, reading_replies(values, attribs_read(values)));
    law_format_is_read(display, false, configs@[0], values);
}

proof fn lemma_transparent_choice(
    extensions: Seq<char>,
    display: usize,
    screen_id: c_int,
    reqs: PixelFormatRequirements,
    list: usize,
    configs: Vec<usize>,
    visuals: Seq<Option<Visual>>,
)
    requires
        can_ask_for(extensions, reqs),
        list != 0,
        0 < visuals.len() <= configs@.len(),
        deep_at_last_only(visuals),
        is_deep(visuals.last()) || visuals.len() == configs@.len(),
    ensures
        ({
            let replies = seq![Reply::Configs { list, configs }] + inspection_replies(visuals);
            let dialogue = run::<Choosing>(
                choice(extensions, display, screen_id, reqs, true),
                replies,
            );
            &&& dialogue.calls.len() == replies.len()
            &&& dialogue.calls == seq![
                CallModel::ChooseFbConfig {
                    display,
                    screen: screen_id,
                    attribs: descriptor(extensions, reqs)->Ok_0,
                },
            ] + inspection_calls(display, configs@, visuals)
            &&& dialogue.last == freeing(
                display,
                true,
                list,
                if is_deep(visuals.last()) {
                    Some(configs@[visuals.len() - 1])
                } else {
                    None
                },
            )
        }),
{
    let first = choice(extensions, display, screen_id, reqs, true);
    let head = seq![Reply::Configs { list, configs }];
    assert(run::<Choosing>(first, head).calls =~= seq![
        CallModel::ChooseFbConfig {
            display,
            screen: screen_id,
            attribs: descriptor(extensions, reqs)->Ok_0,
        },
    ] && run::<Choosing>(first, head).last == inspecting(display, list, configs, 0)) by {
        reveal_with_fuel(run, 2);
    }
    law_run_in_parts::<Choosing>(first, head, inspection_replies(visuals));
    lemma_inspection(display, list, configs, 0, visuals);
    assert(configs@.skip(0) =~= configs@);
}

/// Where the configuration must be transparent, the first that libGL lists with a
/// visual of 32 bits is chosen. Every visual that was looked at is freed, and so is
/// the list; then the format of that configuration is read.
pub proof fn law_first_deep_config_is_chosen(
    extensions: Seq<char>,
    display: usize,
    screen_id: c_int,
    reqs: PixelFormatRequirements,
    list: usize,
    configs: Vec<usize>,
    visuals: Seq<Option<Visual>>,
    values: spec_fn(Attrib) -> c_int,
)
    requires
        can_ask_for(extensions, reqs),
        list != 0,
        0 < visuals.len() <= configs@.len(),
        deep_at_last_only(visuals),
        is_deep(visuals.last()),
        color_sum(values) <= 0xff,
    ensures
        ({
            let fb_config = configs@[visuals.len() - 1];
            let dialogue = run::<Choosing>(
                choice(extensions, display, screen_id, reqs, true),
                seq![Reply::Configs { list, configs }] + inspection_replies(visuals) + seq![
                    Reply::Done,
                ] + reading_replies(values, attribs_read(values)),
            );
            &&& dialogue.calls == seq![
                CallModel::ChooseFbConfig {
                    display,
                    screen: screen_id,
                    attribs: descriptor(extensions, reqs)->Ok_0,
                },
            ] + inspection_calls(display, configs@, visuals) + seq![
                CallModel::Free { pointer: list },
            ] + reading_calls(display, fb_config, attribs_read(values))
            &&& dialogue.ends_with(Ok((fb_config, pixel_format(values))))
        }),
{
    let fb_config = configs@[visuals.len() - 1];
    let first = choice(extensions, display, screen_id, reqs, true);
    let listed = seq![Reply::Configs { list, configs }] + inspection_replies(visuals);
    let head = listed + seq![Reply::Done];
    let tail = reading_replies(values, attribs_read(values));
    lemma_transparent_choice(extensions, display, screen_id, reqs, list, configs, visuals);
    law_run_in_parts::<Choosing>(first, listed, seq![Reply::Done]);
    let at_free = freeing(display, true, list, Some(fb_config));
    let at_read = reading(display, true, fb_config, Attrib::ConfigCaveat, unread_format());
    assert(run::<Choosing>(at_free, seq![Reply::Done]).calls =~= seq![
        CallModel::Free { pointer: list },
    ] && run::<Choosing>(at_free, seq![Reply::Done]).last == at_read) by {
        reveal_with_fuel(run, 2);
    }
    assert(run::<Choosing>(first, head).calls.len() == head.len());
    law_run_in_parts::<Choosing>(first, head, tail);
    law_format_is_read(display, true, fb_config, values);
}

/// Where the configuration must be transparent and no visual has 32 bits, none is
/// chosen. Every visual is freed, and so is the list.
pub proof fn law_no_shallow_config_is_chosen(
    extensions: Seq<char>,
    display: usize,
    screen_id: c_int,
    reqs: PixelFormatRequirements,
    list: usize,
    configs: Vec<usize>,
    visuals: Seq<Option<Visual>>,
)
    requires
        can_ask_for(extensions, reqs),
        list != 0,
        0 < visuals.len() == configs@.len(),
        forall|i: int| 0 <= i < visuals.len() ==> !is_deep(#[trigger] visuals[i]),
    ensures
        ({
            let dialogue = run::<Choosing>(
                choice(extensions, display, screen_id, reqs, true),
                seq![Reply::Configs { list, configs }] + inspection_replies(visuals) + seq![
                    Reply::Done,
                ],
            );
            &&& dialogue.calls == seq![
                CallModel::ChooseFbConfig {
                    display,
                    screen: screen_id,
                    attribs: descriptor(extensions, reqs)->Ok_0,
                },
            ] + inspection_calls(display, configs@, visuals) + seq![
                CallModel::Free { pointer: list },
            ]
            &&& dialogue.ends_with(Err(()))
        }),
{
    let first = choice(extensions, display, screen_id, reqs, true);
    let listed = seq![Reply::Configs { list, configs }] + inspection_replies(visuals);
    lemma_transparent_choice(extensions, display, screen_id, reqs, list, configs, visuals);
    law_run_in_parts::<Choosing>(first, listed, seq![Reply::Done]);
    let at_free = freeing(display, true, list, None);
    assert(run::<Choosing>(at_free, seq![Reply::Done]).calls =~= seq![
        CallModel::Free { pointer: list },
    ] && run::<Choosing>(at_free, seq![Reply::Done]).ends_with(Err(()))) by {
        reveal_with_fuel(run, 2);
    }
}

/// What is read of a framebuffer configuration, attribute by attribute.
pub struct Readings {
    pub config_caveat: c_int,
    pub red_size: c_int,
    pub green_size: c_int,
    pub blue_size: c_int,
    pub alpha_size: c_int,
    pub depth_size: c_int,
    pub stencil_size: c_int,
    pub stereo: c_int,
    pub doublebuffer: c_int,
    pub sample_buffers: c_int,
    pub samples: c_int,
    pub srgb_capable_arb: c_int,
    pub srgb_capable_ext: c_int,
}

impl Readings {
    /// The attributes that are read, with what is read of them, in order. The samples are
    /// read only where there are any, and the second sign of sRGB only where the first is
    /// missing.
    pub open spec fn in_order(self) -> Seq<(c_int, c_int)> {
        seq![
            (GLX_CONFIG_CAVEAT, self.config_caveat),
            (GLX_RED_SIZE, self.red_size),
            (GLX_GREEN_SIZE, self.green_size),
            (GLX_BLUE_SIZE, self.blue_size),
            (GLX_ALPHA_SIZE, self.alpha_size),
            (GLX_DEPTH_SIZE, self.depth_size),
            (GLX_STENCIL_SIZE, self.stencil_size),
            (GLX_STEREO, self.stereo),
            (GLX_DOUBLEBUFFER, self.doublebuffer),
            (GLX_SAMPLE_BUFFERS, self.sample_buffers),
        ] + (if self.sample_buffers != 0 {
            seq![(GLX_SAMPLES, self.samples)]
        } else {
            seq![]
        }) + seq![(GLX_FRAMEBUFFER_SRGB_CAPABLE_ARB, self.srgb_capable_arb)] + (
        if self.srgb_capable_arb == 0 {
            seq![(GLX_FRAMEBUFFER_SRGB_CAPABLE_EXT, self.srgb_capable_ext)]
        } else {
            seq![]
        })
    }

    /// The calls that read them.
    pub open spec fn calls(self, display: usize, fb_config: usize) -> Seq<CallModel> {
        self.in_order().map_values(
            |reading: (c_int, c_int)|
                CallModel::GetFbConfigAttrib { display, fb_config, attrib: reading.0 },
        )
    }

    /// The replies to these calls.
    pub open spec fn replies(self) -> Seq<Reply> {
        self.in_order().map_values(|reading: (c_int, c_int)| Reply::Attrib(reading.1))
    }

    /// Whether the bits of red, green and blue together can be counted in a byte.
    pub open spec fn colors_can_be_counted(self) -> bool {
        self.red_size as int % 256 + self.green_size as int % 256 + self.blue_size as int % 256
            <= 255
    }

    /// Whether `format` is the format of a configuration of which this is read. Sizes are
    /// counted in a byte and samples in two.
    pub open spec fn are_shown_by(self, format: PixelFormat) -> bool {
        &&& format.hardware_accelerated <==> self.config_caveat != GLX_SLOW_CONFIG
        &&& format.color_bits == self.red_size as int % 256 + self.green_size as int % 256
            + self.blue_size as int % 256
        &&& format.alpha_bits == self.alpha_size as int % 256
        &&& format.depth_bits == self.depth_size as int % 256
        &&& format.stencil_bits == self.stencil_size as int % 256
        &&& format.stereoscopy <==> self.stereo != 0
        &&& format.double_buffer <==> self.doublebuffer != 0
        &&& format.multisampling is Some <==> self.sample_buffers != 0
        &&& format.multisampling matches Some(samples) ==> samples == self.samples as int % 65536
        &&& format.srgb <==> self.srgb_capable_arb != 0 || self.srgb_capable_ext != 0
    }

    spec fn values(self) -> spec_fn(Attrib) -> c_int {
        |attrib: Attrib|
            match attrib {
                Attrib::ConfigCaveat => self.config_caveat,
                Attrib::RedSize => self.red_size,
                Attrib::GreenSize => self.green_size,
                Attrib::BlueSize => self.blue_size,
                Attrib::AlphaSize => self.alpha_size,
                Attrib::DepthSize => self.depth_size,
                Attrib::StencilSize => self.stencil_size,
                Attrib::Stereo => self.stereo,
                Attrib::DoubleBuffer => self.doublebuffer,
                Attrib::SampleBuffers => self.sample_buffers,
                Attrib::Samples => self.samples,
                Attrib::SrgbCapableArb => self.srgb_capable_arb,
                Attrib::SrgbCapableExt => self.srgb_capable_ext,
            }
    }

    proof fn lemma_values(self, display: usize, fb_config: usize)
        requires
            self.colors_can_be_counted(),
        ensures
            color_sum(self.values()) <= 0xff,
            self.calls(display, fb_config) == reading_calls(
                display,
                fb_config,
                attribs_read(self.values()),
            ),
            self.replies() == reading_replies(self.values(), attribs_read(self.values())),
            self.are_shown_by(pixel_format(self.values())),
    {
        let values = self.values();
        let attribs = attribs_read(values);
        let pairs = self.in_order();
        assert(attribs.len() == pairs.len());
        assert forall|i: int| 0 <= i < pairs.len() implies #[trigger] pairs[i] == (
            attribs[i].name(),
            values(attribs[i]),
        ) by {
            if i < 10 {
                assert(attribs[i] == common_attribs()[i]);
            }
        }
        assert(self.calls(display, fb_config) =~= reading_calls(display, fb_config, attribs));
        assert(self.replies() =~= reading_replies(values, attribs));
    }
}

/// Where an extension is missing that a requirement calls for, nothing is chosen, and
/// libGL is not asked.
pub proof fn law_nothing_is_chosen_for_want_of_an_extension(
    extensions: Seq<char>,
    display: usize,
    screen_id: c_int,
    reqs: PixelFormatRequirements,
    transparent: bool,
    replies: Seq<Reply>,
)
    ensures
        ({
            let lacking = {
                ||| reqs.float_color_buffer && !has_extension(
                    extensions,
                    "GLX_ARB_fbconfig_float"@,
                )
                ||| reqs.multisampling is Some && !has_extension(
                    extensions,
                    "GLX_ARB_multisample"@,
                )
                ||| reqs.srgb && !has_extension(extensions, "GLX_ARB_framebuffer_sRGB"@)
                    && !has_extension(extensions, "GLX_EXT_framebuffer_sRGB"@)
            };
            let start = choice(extensions, display, screen_id, reqs, transparent);
            let dialogue = run::<Choosing>(start, replies);
            &&& lacking ==> dialogue.calls.len() == 0 && dialogue.ends_with(Err(()))
            &&& !lacking ==> {
                &&& start is Ask
                &&& start->Ask_1 is ChooseFbConfig
                &&& start->Ask_1->ChooseFbConfig_display == display
                &&& start->Ask_1->ChooseFbConfig_screen == screen_id
                &&& descriptor(extensions, reqs) == Ok::<Seq<c_int>, ()>(
                    start->Ask_1->ChooseFbConfig_attribs,
                )
            }
        }),
{
    law_descriptor_fails_for_want_of_an_extension(extensions, reqs);
}

/// Where libGL lists no configuration, none is chosen, and that one call was all.
pub proof fn law_nothing_is_chosen_of_an_empty_list(
    extensions: Seq<char>,
    display: usize,
    screen_id: c_int,
    reqs: PixelFormatRequirements,
    transparent: bool,
    list: usize,
    configs: Vec<usize>,
)
    requires
        descriptor(extensions, reqs) is Ok,
        list == 0 || configs@.len() == 0,
    ensures
        ({
            let dialogue = run::<Choosing>(
                choice(extensions, display, screen_id, reqs, transparent),
                seq![Reply::Configs { list, configs }],
            );
            dialogue.calls.len() == 1 && dialogue.ends_with(Err(()))
        }),
{
    law_nothing_is_chosen_of_nothing(
        extensions,
        display,
        screen_id,
        reqs,
        transparent,
        list,
        configs,
    );
}

/// A configuration that need not be transparent is the first that libGL lists. The list
/// is freed before the format is read, and the format shows what was read.
pub proof fn law_first_listed_config_is_chosen(
    extensions: Seq<char>,
    display: usize,
    screen_id: c_int,
    reqs: PixelFormatRequirements,
    list: usize,
    configs: Vec<usize>,
    readings: Readings,
)
    requires
        descriptor(extensions, reqs) is Ok,
        list != 0,
        configs@.len() > 0,
        readings.colors_can_be_counted(),
    ensures
        ({
            let dialogue = run::<Choosing>(
                choice(extensions, display, screen_id, reqs, false),
                seq![Reply::Configs { list, configs }, Reply::Done] + readings.replies(),
            );
            &&& dialogue.calls == seq![
                CallModel::ChooseFbConfig {
                    display,
                    screen: screen_id,
                    attribs: descriptor(extensions, reqs)->Ok_0,
                },
                CallModel::Free { pointer: list },
            ] + readings.calls(display, configs@[0])
            &&& dialogue.last is Done
            &&& dialogue.last->Done_0 is Ok
            &&& dialogue.last->Done_0->Ok_0.0 == configs@[0]
            &&& readings.are_shown_by(dialogue.last->Done_0->Ok_0.1)
        }),
{
    readings.lemma_values(display, configs@[0]);
    law_first_config_is_chosen(
        extensions,
        display,
        screen_id,
        reqs,
        list,
        configs,
        readings.values(),
    );
}

/// Whether the visual of each configuration in turn was fetched and freed again, from
/// the second call on.
pub open spec fn visuals_are_freed(
    calls: Seq<CallModel>,
    display: usize,
    configs: Seq<usize>,
    visuals: Seq<Option<Visual>>,
) -> bool {
    &&& calls.len() >= 1 + 2 * visuals.len()
    &&& forall|i: int|
        0 <= i < visuals.len() ==> {
            &&& calls[1 + 2 * i] == CallModel::GetVisualFromFbConfig {
                display,
                fb_config: configs[i],
            }
            &&& calls[2 + 2 * i] == CallModel::Free {
                pointer: match #[trigger] visuals[i] {
                    Some(visual) => visual.pointer,
                    None => 0,
                },
            }
        }
}

proof fn lemma_visuals_are_freed(
    calls: Seq<CallModel>,
    first: CallModel,
    display: usize,
    configs: Seq<usize>,
    visuals: Seq<Option<Visual>>,
    more: Seq<CallModel>,
)
    requires
        calls == seq![first] + inspection_calls(display, configs, visuals) + more,
        visuals.len() <= configs.len(),
    ensures
        visuals_are_freed(calls, display, configs, visuals),
        calls[0] == first,
        calls.skip((1 + 2 * visuals.len()) as int) == more,
{
    let inspections = inspection_calls(display, configs, visuals);
    assert(calls.skip((1 + 2 * visuals.len()) as int) =~= more);
    assert forall|i: int| 0 <= i < visuals.len() implies {
        &&& calls[1 + 2 * i] == CallModel::GetVisualFromFbConfig { display, fb_config: configs[i] }
        &&& calls[2 + 2 * i] == CallModel::Free {
            pointer: match #[trigger] visuals[i] {
                Some(visual) => visual.pointer,
                None => 0,
            },
        }
    } by {
        assert(calls[1 + 2 * i] == inspections[2 * i]);
        assert(calls[2 + 2 * i] == inspections[2 * i + 1]);
    }
}

/// A configuration that must be transparent is the first that libGL lists whose visual has
/// 32 bits. Each visual that was looked at is freed, and so is the list before the format
/// is read; the format shows what was read.
pub proof fn law_first_config_of_32_bits_is_chosen(
    extensions: Seq<char>,
    display: usize,
    screen_id: c_int,
    reqs: PixelFormatRequirements,
    list: usize,
    configs: Vec<usize>,
    visuals: Seq<Option<Visual>>,
    readings: Readings,
)
    requires
        descriptor(extensions, reqs) is Ok,
        list != 0,
        0 < visuals.len() <= configs@.len(),
        forall|i: int|
            0 <= i < visuals.len() - 1 ==> (#[trigger] visuals[i] matches Some(visual)
                ==> visual.info.depth != 32),
        visuals.last() is Some,
        visuals.last()->0.info.depth == 32,
        readings.colors_can_be_counted(),
    ensures
        ({
            let chosen = configs@[visuals.len() - 1];
            let dialogue = run::<Choosing>(
                choice(extensions, display, screen_id, reqs, true),
                seq![Reply::Configs { list, configs }] + inspection_replies(visuals) + seq![
                    Reply::Done,
                ] + readings.replies(),
            );
            &&& dialogue.calls[0] == CallModel::ChooseFbConfig {
                display,
                screen: screen_id,
                attribs: descriptor(extensions, reqs)->Ok_0,
            }
            &&& visuals_are_freed(dialogue.calls, display, configs@, visuals)
            &&& dialogue.calls.skip((1 + 2 * visuals.len()) as int) == seq![
                CallModel::Free { pointer: list },
            ] + readings.calls(display, chosen)
            &&& dialogue.last is Done
            &&& dialogue.last->Done_0 is Ok
            &&& dialogue.last->Done_0->Ok_0.0 == chosen
            &&& readings.are_shown_by(dialogue.last->Done_0->Ok_0.1)
        }),
{
    let chosen = configs@[visuals.len() - 1];
    let first = CallModel::ChooseFbConfig {
        display,
        screen: screen_id,
        attribs: descriptor(extensions, reqs)->Ok_0,
    };
    let more = seq![CallModel::Free { pointer: list }] + readings.calls(display, chosen);
    let calls = run::<Choosing>(
        choice(extensions, display, screen_id, reqs, true),
        seq![Reply::Configs { list, configs }] + inspection_replies(visuals) + seq![Reply::Done]
            + readings.replies(),
    ).calls;
    readings.lemma_values(display, chosen);
    law_first_deep_config_is_chosen(
        extensions,
        display,
        screen_id,
        reqs,
        list,
        configs,
        visuals,
        readings.values(),
    );
    assert(calls =~= seq![first] + inspection_calls(display, configs@, visuals) + more);
    lemma_visuals_are_freed(calls, first, display, configs@, visuals, more);
}

/// Where the configuration must be transparent and libGL lists none whose visual has 32
/// bits, none is chosen. Each visual is freed, and so is the list.
pub proof fn law_no_config_without_32_bits_is_chosen(
    extensions: Seq<char>,
    display: usize,
    screen_id: c_int,
    reqs: PixelFormatRequirements,
    list: usize,
    configs: Vec<usize>,
    visuals: Seq<Option<Visual>>,
)
    requires
        descriptor(extensions, reqs) is Ok,
        list != 0,
        0 < visuals.len() == configs@.len(),
        forall|i: int|
            0 <= i < visuals.len() ==> (#[trigger] visuals[i] matches Some(visual)
                ==> visual.info.depth != 32),
    ensures
        ({
            let dialogue = run::<Choosing>(
                choice(extensions, display, screen_id, reqs, true),
                seq![Reply::Configs { list, configs }] + inspection_replies(visuals) + seq![
                    Reply::Done,
                ],
            );
            &&& visuals_are_freed(dialogue.calls, display, configs@, visuals)
            &&& dialogue.calls.skip((1 + 2 * visuals.len()) as int) == seq![
                CallModel::Free { pointer: list },
            ]
            &&& dialogue.ends_with(Err(()))
        }),
{
    let first = CallModel::ChooseFbConfig {
        display,
        screen: screen_id,
        attribs: descriptor(extensions, reqs)->Ok_0,
    };
    let more = seq![CallModel::Free { pointer: list }];
    let calls = run::<Choosing>(
        choice(extensions, display, screen_id, reqs, true),
        seq![Reply::Configs { list, configs }] + inspection_replies(visuals) + seq![Reply::Done],
    ).calls;
    law_no_shallow_config_is_chosen(
        extensions,
        display,
        screen_id,
        reqs,
        list,
        configs,
        visuals,
    );
    lemma_visuals_are_freed(calls, first, display, configs@, visuals, more);
}

} // verus!
