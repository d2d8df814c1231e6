//! The list of attributes that a framebuffer configuration is chosen by.

use vstd::prelude::*;

use libc::c_int;

use crate::attribute_list::{
    AttributeList,
    decoded,
    encoded,
    is_closed,
    law_list_is_closed,
    law_list_reads_back,
    law_value_is_found,
    names_are_distinct,
    value_of,
};
use crate::extensions::{check_ext, has_extension};
use crate::tokens;
use crate::tokens::{
    GLX_ALPHA_SIZE,
    GLX_BLUE_SIZE,
    GLX_CONFIG_CAVEAT,
    GLX_CONTEXT_RELEASE_BEHAVIOR_ARB,
    GLX_CONTEXT_RELEASE_BEHAVIOR_NONE_ARB,
    GLX_DEPTH_SIZE,
    GLX_DONT_CARE,
    GLX_DOUBLEBUFFER,
    GLX_DRAWABLE_TYPE,
    GLX_FRAMEBUFFER_SRGB_CAPABLE_ARB,
    GLX_FRAMEBUFFER_SRGB_CAPABLE_EXT,
    GLX_GREEN_SIZE,
    GLX_RED_SIZE,
    GLX_RENDER_TYPE,
    GLX_RGBA_BIT,
    GLX_RGBA_FLOAT_BIT_ARB,
    GLX_SAMPLES_ARB,
    GLX_SAMPLE_BUFFERS_ARB,
    GLX_STENCIL_SIZE,
    GLX_STEREO,
    GLX_TRUE_COLOR,
    GLX_VISUAL_ID,
    GLX_WINDOW_BIT,
    GLX_X_RENDERABLE,
    GLX_X_VISUAL_TYPE,
};
use crate::types::{PixelFormatRequirements, ReleaseBehavior};

verus! {

/// The number that is left of `xid` in an `int`: its low 32 bits, as a signed number.
pub open spec fn low_int(xid: u64) -> int {
    let low = xid % 0x1_0000_0000;
    if low < 0x8000_0000 {
        low as int
    } else {
        low - 0x1_0000_0000
    }
}

/// The bits of red, green and blue that `color` bits are split into.
pub open spec fn color_split(color: u8) -> (int, int, int) {
    (
        color as int / 3,
        color as int / 3 + if color % 3 != 0 {
            1int
        } else {
            0
        },
        color as int / 3 + if color % 3 == 2 {
            1int
        } else {
            0
        },
    )
}

/// One pair if `size` is given, else none.
pub open spec fn size_pair(name: c_int, size: Option<u8>) -> Seq<(c_int, c_int)> {
    match size {
        Some(bits) => seq![(name, bits as c_int)],
        None => seq![],
    }
}

pub open spec fn visual_pair(reqs: PixelFormatRequirements) -> Seq<(c_int, c_int)> {
    match reqs.x11_visual_xid {
        Some(xid) => seq![(GLX_VISUAL_ID, low_int(xid) as c_int)],
        None => seq![],
    }
}

pub open spec fn color_pairs(reqs: PixelFormatRequirements) -> Seq<(c_int, c_int)> {
    match reqs.color_bits {
        Some(color) => seq![
            (GLX_RED_SIZE, color_split(color).0 as c_int),
            (GLX_GREEN_SIZE, color_split(color).1 as c_int),
            (GLX_BLUE_SIZE, color_split(color).2 as c_int),
        ],
        None => seq![],
    }
}

pub open spec fn sample_pairs(reqs: PixelFormatRequirements) -> Seq<(c_int, c_int)> {
    match reqs.multisampling {
        Some(samples) => seq![
            (
                GLX_SAMPLE_BUFFERS_ARB,
                if samples == 0 {
                    0
                } else {
                    1
                },
            ),
            (GLX_SAMPLES_ARB, samples as c_int),
        ],
        None => seq![],
    }
}

/// The attribute for sRGB is named by the ARB's extension where the screen has it,
/// else by the EXT's.
pub open spec fn srgb_pair(extensions: Seq<char>, reqs: PixelFormatRequirements) -> Seq<
    (c_int, c_int),
> {
    if !reqs.srgb {
        seq![]
    } else if has_extension(extensions, "GLX_ARB_framebuffer_sRGB"@) {
        seq![(GLX_FRAMEBUFFER_SRGB_CAPABLE_ARB, 1)]
    } else {
        seq![(GLX_FRAMEBUFFER_SRGB_CAPABLE_EXT, 1)]
    }
}

/// A release without a flush is asked for only where the screen knows of it.
pub open spec fn release_pair(extensions: Seq<char>, reqs: PixelFormatRequirements) -> Seq<
    (c_int, c_int),
> {
    if reqs.release_behavior is Nothing && has_extension(
        extensions,
        "GLX_ARB_context_flush_control"@,
    ) {
        seq![(GLX_CONTEXT_RELEASE_BEHAVIOR_ARB, GLX_CONTEXT_RELEASE_BEHAVIOR_NONE_ARB)]
    } else {
        seq![]
    }
}

pub open spec fn screen_pairs() -> Seq<(c_int, c_int)> {
    seq![(GLX_X_RENDERABLE, 1), (GLX_X_VISUAL_TYPE, GLX_TRUE_COLOR)]
}

pub open spec fn drawable_pairs(reqs: PixelFormatRequirements) -> Seq<(c_int, c_int)> {
    seq![
        (GLX_DRAWABLE_TYPE, GLX_WINDOW_BIT),
        (
            GLX_RENDER_TYPE,
            if reqs.float_color_buffer {
                GLX_RGBA_FLOAT_BIT_ARB
            } else {
                GLX_RGBA_BIT
            },
        ),
    ]
}

/// Two buffers, unless one was asked for.
pub open spec fn double_buffer_pair(reqs: PixelFormatRequirements) -> Seq<(c_int, c_int)> {
    seq![
        (
            GLX_DOUBLEBUFFER,
            if reqs.double_buffer == Some(false) {
                0
            } else {
                1
            },
        ),
    ]
}

pub open spec fn stereo_pair(reqs: PixelFormatRequirements) -> Seq<(c_int, c_int)> {
    seq![
        (
            GLX_STEREO,
            if reqs.stereoscopy {
                1
            } else {
                0
            },
        ),
    ]
}

/// A configuration may be slow or not conformant.
pub open spec fn caveat_pair() -> Seq<(c_int, c_int)> {
    seq![(GLX_CONFIG_CAVEAT, GLX_DONT_CARE)]
}

/// Every attribute that is asked for, in order.
pub open spec fn descriptor_pairs(extensions: Seq<char>, reqs: PixelFormatRequirements) -> Seq<
    (c_int, c_int),
> {
    screen_pairs() + visual_pair(reqs) + drawable_pairs(reqs) + color_pairs(reqs) + size_pair(
        GLX_ALPHA_SIZE,
        reqs.alpha_bits,
    ) + size_pair(GLX_DEPTH_SIZE, reqs.depth_bits) + size_pair(GLX_STENCIL_SIZE, reqs.stencil_bits)
        + double_buffer_pair(reqs) + sample_pairs(reqs) + stereo_pair(reqs) + srgb_pair(
        extensions,
        reqs,
    ) + release_pair(extensions, reqs) + caveat_pair()
}

/// Whether the screen has the extensions that the requirements call for.
pub open spec fn can_ask_for(extensions: Seq<char>, reqs: PixelFormatRequirements) -> bool {
    &&& reqs.float_color_buffer ==> has_extension(extensions, "GLX_ARB_fbconfig_float"@)
    &&& reqs.multisampling is Some ==> has_extension(extensions, "GLX_ARB_multisample"@)
    &&& reqs.srgb ==> has_extension(extensions, "GLX_ARB_framebuffer_sRGB"@) || has_extension(
        extensions,
        "GLX_EXT_framebuffer_sRGB"@,
    )
}

/// The descriptor for `reqs`, or an error where an extension is missing that some
/// requirement calls for.
pub open spec fn descriptor(extensions: Seq<char>, reqs: PixelFormatRequirements) -> Result<
    Seq<c_int>,
    (),
> {
    if can_ask_for(extensions, reqs) {
        Ok(encoded(descriptor_pairs(extensions, reqs)))
    } else {
        Err(())
    }
}

fn visual_id(xid: u64) -> (id: c_int)
    ensures
        id == low_int(xid),
{
    proof {
        let low = (xid % 0x1_0000_0000) as u64;
        assert(low < 0x8000_0000 ==> xid as i32 == low) by (bit_vector)
            requires
                low == xid % 0x1_0000_0000,
        ;
        assert(low >= 0x8000_0000 ==> xid as i32 == low - 0x1_0000_0000) by (bit_vector)
            requires
                low == xid % 0x1_0000_0000,
        ;
    }
    #[verifier::truncate]
    (xid as c_int)
}

/// Writes what is asked of the drawable and of the way it is drawn on, and `true`;
/// or `false` where no such thing can be asked for.
fn push_render_type(out: &mut AttributeList, extensions: &str, reqs: &PixelFormatRequirements) -> (
known: bool)
    requires
        old(out).wf(),
    ensures
        final(out).wf(),
        known == (reqs.float_color_buffer ==> has_extension(
            extensions@,
            "GLX_ARB_fbconfig_float"@,
        )),
        known ==> final(out).pairs() == old(out).pairs() + drawable_pairs(*reqs),
{
    out.push(tokens::drawable_type(), tokens::window_bit());
    if reqs.float_color_buffer {
        if check_ext(extensions, "GLX_ARB_fbconfig_float") {
            out.push(tokens::render_type(), tokens::rgba_float_bit_arb());
        } else {
            return false;
        }
    } else {
        out.push(tokens::render_type(), tokens::rgba_bit());
    }
    assert(out.pairs() =~= old(out).pairs() + drawable_pairs(*reqs));
    true
}

/// Writes how many bits each color, the alpha channel, the depth and the stencil
/// buffer are to have.
fn push_sizes(out: &mut AttributeList, reqs: &PixelFormatRequirements)
    requires
        old(out).wf(),
    ensures
        final(out).wf(),
        final(out).pairs() == old(out).pairs() + color_pairs(*reqs) + size_pair(
            GLX_ALPHA_SIZE,
            reqs.alpha_bits,
        ) + size_pair(GLX_DEPTH_SIZE, reqs.depth_bits) + size_pair(
            GLX_STENCIL_SIZE,
            reqs.stencil_bits,
        ),
{
    if let Some(color) = reqs.color_bits {
        let third: u8 = color / 3;
        let green: u8 = third + if color % 3 != 0 {
            1
        } else {
            0
        };
        let blue: u8 = third + if color % 3 == 2 {
            1
        } else {
            0
        };
        out.push(tokens::red_size(), third as c_int);
        out.push(tokens::green_size(), green as c_int);
        out.push(tokens::blue_size(), blue as c_int);
    }
    assert(out.pairs() =~= old(out).pairs() + color_pairs(*reqs));

    let ghost done = out.pairs();
    if let Some(alpha) = reqs.alpha_bits {
        out.push(tokens::alpha_size(), alpha as c_int);
    }
    assert(out.pairs() =~= done + size_pair(GLX_ALPHA_SIZE, reqs.alpha_bits));

    let ghost done = out.pairs();
    if let Some(depth) = reqs.depth_bits {
        out.push(tokens::depth_size(), depth as c_int);
    }
    assert(out.pairs() =~= done + size_pair(GLX_DEPTH_SIZE, reqs.depth_bits));

    let ghost done = out.pairs();
    if let Some(stencil) = reqs.stencil_bits {
        out.push(tokens::stencil_size(), stencil as c_int);
    }
    assert(out.pairs() =~= done + size_pair(GLX_STENCIL_SIZE, reqs.stencil_bits));
}

/// Writes the buffering, and how many samples a pixel is to have, and `true`; or
/// `false` where samples cannot be asked for.
fn push_buffers(out: &mut AttributeList, extensions: &str, reqs: &PixelFormatRequirements) -> (
known: bool)
    requires
        old(out).wf(),
    ensures
        final(out).wf(),
        known == (reqs.multisampling is Some ==> has_extension(
            extensions@,
            "GLX_ARB_multisample"@,
        )),
        known ==> final(out).pairs() == old(out).pairs() + double_buffer_pair(*reqs)
            + sample_pairs(*reqs),
{
    let double_buffer = reqs.double_buffer.unwrap_or(true);
    out.push(
        tokens::doublebuffer(),
        if double_buffer {
            1
        } else {
            0
        },
    );
    assert(out.pairs() =~= old(out).pairs() + double_buffer_pair(*reqs));

    let ghost done = out.pairs();
    if let Some(multisampling) = reqs.multisampling {
        if check_ext(extensions, "GLX_ARB_multisample") {
            out.push(
                tokens::sample_buffers_arb(),
                if multisampling == 0 {
                    0
                } else {
                    1
                },
            );
            out.push(tokens::samples_arb(), multisampling as c_int);
        } else {
            return false;
        }
    }
    assert(out.pairs() =~= done + sample_pairs(*reqs));
    true
}

/// Writes whether the buffer is to be stereoscopic and able to hold sRGB colors, and
/// `true`; or `false` where sRGB cannot be asked for.
fn push_colorspace(out: &mut AttributeList, extensions: &str, reqs: &PixelFormatRequirements) -> (
known: bool)
    requires
        old(out).wf(),
    ensures
        final(out).wf(),
        known == (reqs.srgb ==> has_extension(extensions@, "GLX_ARB_framebuffer_sRGB"@)
            || has_extension(extensions@, "GLX_EXT_framebuffer_sRGB"@)),
        known ==> final(out).pairs() == old(out).pairs() + stereo_pair(*reqs) + srgb_pair(
            extensions@,
            *reqs,
        ),
{
    out.push(
        tokens::stereo(),
        if reqs.stereoscopy {
            1
        } else {
            0
        },
    );
    assert(out.pairs() =~= old(out).pairs() + stereo_pair(*reqs));

    let ghost done = out.pairs();
    if reqs.srgb {
        if check_ext(extensions, "GLX_ARB_framebuffer_sRGB") {
            out.push(tokens::framebuffer_srgb_capable_arb(), 1);
        } else if check_ext(extensions, "GLX_EXT_framebuffer_sRGB") {
            out.push(tokens::framebuffer_srgb_capable_ext(), 1);
        } else {
            return false;
        }
    }
    assert(out.pairs() =~= done + srgb_pair(extensions@, *reqs));
    true
}

/// Writes the descriptor for `reqs`, which `glXChooseFBConfig` takes.
pub fn fbconfig_descriptor(extensions: &str, reqs: &PixelFormatRequirements) -> (list: Result<
    Vec<c_int>,
    (),
>)
    ensures
        match list {
            Ok(values) => descriptor(extensions@, *reqs) == Ok::<Seq<c_int>, ()>(values@),
            Err(_) => descriptor(extensions@, *reqs) == Err::<Seq<c_int>, ()>(()),
        },
{
    let mut out = AttributeList::with_capacity(37);

    out.push(tokens::x_renderable(), 1);
    out.push(tokens::x_visual_type(), tokens::true_color());
    assert(out.pairs() =~= screen_pairs());

    let ghost done = out.pairs();
    if let Some(xid) = reqs.x11_visual_xid {
        out.push(tokens::visual_id(), visual_id(xid));
    }
    assert(out.pairs() =~= done + visual_pair(*reqs));

    if !push_render_type(&mut out, extensions, reqs) {
        return Err(());
    }
    push_sizes(&mut out, reqs);
    if !push_buffers(&mut out, extensions, reqs) {
        return Err(());
    }
    if !push_colorspace(&mut out, extensions, reqs) {
        return Err(());
    }

    let ghost done = out.pairs();
    match reqs.release_behavior {
        ReleaseBehavior::Flush => (),
        ReleaseBehavior::Nothing => {
            if check_ext(extensions, "GLX_ARB_context_flush_control") {
                out.push(
                    tokens::context_release_behavior_arb(),
                    tokens::context_release_behavior_none_arb(),
                );
            }
        },
    }
    assert(out.pairs() =~= done + release_pair(extensions@, *reqs));

    let ghost done = out.pairs();
    out.push(tokens::config_caveat(), tokens::dont_care());
    assert(out.pairs() =~= done + caveat_pair());

    Ok(out.close())
}

/// The bits of the three colors add up to what was asked for, and no two of them are
/// more than one apart.
pub proof fn law_color_split_adds_up(color: u8)
    ensures
        color_split(color).0 + color_split(color).1 + color_split(color).2 == color,
        0 <= color_split(color).0 <= color_split(color).2 <= color_split(color).1
            <= color_split(color).0 + 1,
{
}

/// The place of an attribute among those that a descriptor can hold, in the order in
/// which they are written.
spec fn place(name: c_int) -> int {
    if name == GLX_X_RENDERABLE {
        1
    } else if name == GLX_X_VISUAL_TYPE {
        2
    } else if name == GLX_VISUAL_ID {
        3
    } else if name == GLX_DRAWABLE_TYPE {
        4
    } else if name == GLX_RENDER_TYPE {
        5
    } else if name == GLX_RED_SIZE {
        6
    } else if name == GLX_GREEN_SIZE {
        7
    } else if name == GLX_BLUE_SIZE {
        8
    } else if name == GLX_ALPHA_SIZE {
        9
    } else if name == GLX_DEPTH_SIZE {
        10
    } else if name == GLX_STENCIL_SIZE {
        11
    } else if name == GLX_DOUBLEBUFFER {
        12
    } else if name == GLX_SAMPLE_BUFFERS_ARB {
        13
    } else if name == GLX_SAMPLES_ARB {
        14
    } else if name == GLX_STEREO {
        15
    } else if name == GLX_FRAMEBUFFER_SRGB_CAPABLE_ARB {
        16
    } else if name == GLX_CONTEXT_RELEASE_BEHAVIOR_ARB {
        17
    } else if name == GLX_CONFIG_CAVEAT {
        18
    } else {
        0
    }
}

/// Whether the places of the names in `pairs` rise, and lie from `low` up to `high`.
spec fn rises(pairs: Seq<(c_int, c_int)>, low: int, high: int) -> bool {
    &&& pairs.len() <= high - low
    &&& forall|i: int| 0 <= i < pairs.len() ==> low <= place((#[trigger] pairs[i]).0) < high
    &&& forall|i: int, j: int|
        0 <= i < j < pairs.len() ==> place((#[trigger] pairs[i]).0) < place(
            (#[trigger] pairs[j]).0,
        )
}

proof fn lemma_rises_add(
    a: Seq<(c_int, c_int)>,
    b: Seq<(c_int, c_int)>,
    low: int,
    mid: int,
    high: int,
)
    requires
        rises(a, low, mid),
        rises(b, mid, high),
        low <= mid <= high,
    ensures
        rises(a + b, low, high),
{
    let all = a + b;
    assert forall|i: int| 0 <= i < all.len() implies low <= place((#[trigger] all[i]).0) < high by {
        if i < a.len() {
            assert(all[i] == a[i]);
        } else {
            assert(all[i] == b[i - a.len()]);
        }
    }
    assert forall|i: int, j: int| 0 <= i < j < all.len() implies place((#[trigger] all[i]).0)
        < place((#[trigger] all[j]).0) by {
        if j < a.len() {
            assert(all[i] == a[i] && all[j] == a[j]);
        } else if i < a.len() {
            assert(all[i] == a[i] && all[j] == b[j - a.len()]);
        } else {
            assert(all[i] == b[i - a.len()] && all[j] == b[j - a.len()]);
        }
    }
}

proof fn lemma_descriptor_rises(extensions: Seq<char>, reqs: PixelFormatRequirements)
    ensures
        rises(descriptor_pairs(extensions, reqs), 1, 19),
{
    let p = screen_pairs();
    let p1 = p + visual_pair(reqs);
    lemma_rises_add(p, visual_pair(reqs), 1, 3, 4);
    let p2 = p1 + drawable_pairs(reqs);
    lemma_rises_add(p1, drawable_pairs(reqs), 1, 4, 6);
    let p3 = p2 + color_pairs(reqs);
    lemma_rises_add(p2, color_pairs(reqs), 1, 6, 9);
    let alpha = size_pair(GLX_ALPHA_SIZE, reqs.alpha_bits);
    let p4 = p3 + alpha;
    lemma_rises_add(p3, alpha, 1, 9, 10);
    let depth = size_pair(GLX_DEPTH_SIZE, reqs.depth_bits);
    let p5 = p4 + depth;
    lemma_rises_add(p4, depth, 1, 10, 11);
    let stencil = size_pair(GLX_STENCIL_SIZE, reqs.stencil_bits);
    let p6 = p5 + stencil;
    lemma_rises_add(p5, stencil, 1, 11, 12);
    let p7 = p6 + double_buffer_pair(reqs);
    lemma_rises_add(p6, double_buffer_pair(reqs), 1, 12, 13);
    let p8 = p7 + sample_pairs(reqs);
    lemma_rises_add(p7, sample_pairs(reqs), 1, 13, 15);
    let p9 = p8 + stereo_pair(reqs);
    lemma_rises_add(p8, stereo_pair(reqs), 1, 15, 16);
    let p10 = p9 + srgb_pair(extensions, reqs);
    lemma_rises_add(p9, srgb_pair(extensions, reqs), 1, 16, 17);
    let p11 = p10 + release_pair(extensions, reqs);
    lemma_rises_add(p10, release_pair(extensions, reqs), 1, 17, 18);
    lemma_rises_add(p11, caveat_pair(), 1, 18, 19);
}

/// A descriptor never asks for one attribute twice, libGL reads all of it (no name
/// is zero, so none is taken for its end), and it fits the room that is set aside
/// for it.
pub proof fn law_descriptor_is_read_whole(extensions: Seq<char>, reqs: PixelFormatRequirements)
    requires
        can_ask_for(extensions, reqs),
    ensures
        names_are_distinct(descriptor_pairs(extensions, reqs)),
        descriptor(extensions, reqs) is Ok,
        decoded(descriptor(extensions, reqs)->Ok_0) == descriptor_pairs(extensions, reqs),
        descriptor(extensions, reqs)->Ok_0.len() <= 37,
{
    lemma_descriptor_rises(extensions, reqs);
    let pairs = descriptor_pairs(extensions, reqs);
    assert forall|i: int| 0 <= i < pairs.len() implies (#[trigger] pairs[i]).0 != 0 by {
        assert(place(pairs[i].0) >= 1);
    }
    law_list_reads_back(pairs);
}

/// Whether some piece of a descriptor holds the pair `(name, value)`.
spec fn is_asked(
    extensions: Seq<char>,
    reqs: PixelFormatRequirements,
    name: c_int,
    value: c_int,
) -> bool {
    let pair = (name, value);
    ||| screen_pairs().contains(pair)
    ||| visual_pair(reqs).contains(pair)
    ||| drawable_pairs(reqs).contains(pair)
    ||| color_pairs(reqs).contains(pair)
    ||| size_pair(GLX_ALPHA_SIZE, reqs.alpha_bits).contains(pair)
    ||| size_pair(GLX_DEPTH_SIZE, reqs.depth_bits).contains(pair)
    ||| size_pair(GLX_STENCIL_SIZE, reqs.stencil_bits).contains(pair)
    ||| double_buffer_pair(reqs).contains(pair)
    ||| sample_pairs(reqs).contains(pair)
    ||| stereo_pair(reqs).contains(pair)
    ||| srgb_pair(extensions, reqs).contains(pair)
    ||| release_pair(extensions, reqs).contains(pair)
    ||| caveat_pair().contains(pair)
}

proof fn lemma_contains_add(a: Seq<(c_int, c_int)>, b: Seq<(c_int, c_int)>, pair: (c_int, c_int))
    ensures
        (a + b).contains(pair) <==> a.contains(pair) || b.contains(pair),
{
    let all = a + b;
    if a.contains(pair) {
        let i = choose|i: int| 0 <= i < a.len() && a[i] == pair;
        assert(all[i] == pair);
    }
    if b.contains(pair) {
        let i = choose|i: int| 0 <= i < b.len() && b[i] == pair;
        assert(all[a.len() + i] == pair);
    }
    if all.contains(pair) {
        let i = choose|i: int| 0 <= i < all.len() && all[i] == pair;
        if i < a.len() {
            assert(a[i] == pair);
        } else {
            assert(b[i - a.len()] == pair);
        }
    }
}

proof fn lemma_descriptor_contains(
    extensions: Seq<char>,
    reqs: PixelFormatRequirements,
    name: c_int,
    value: c_int,
)
    ensures
        descriptor_pairs(extensions, reqs).contains((name, value)) <==> is_asked(
            extensions,
            reqs,
            name,
            value,
        ),
{
    let pair = (name, value);
    let p = screen_pairs();
    let p1 = p + visual_pair(reqs);
    lemma_contains_add(p, visual_pair(reqs), pair);
    let p2 = p1 + drawable_pairs(reqs);
    lemma_contains_add(p1, drawable_pairs(reqs), pair);
    let p3 = p2 + color_pairs(reqs);
    lemma_contains_add(p2, color_pairs(reqs), pair);
    let alpha = size_pair(GLX_ALPHA_SIZE, reqs.alpha_bits);
    let p4 = p3 + alpha;
    lemma_contains_add(p3, alpha, pair);
    let depth = size_pair(GLX_DEPTH_SIZE, reqs.depth_bits);
    let p5 = p4 + depth;
    lemma_contains_add(p4, depth, pair);
    let stencil = size_pair(GLX_STENCIL_SIZE, reqs.stencil_bits);
    let p6 = p5 + stencil;
    lemma_contains_add(p5, stencil, pair);
    let p7 = p6 + double_buffer_pair(reqs);
    lemma_contains_add(p6, double_buffer_pair(reqs), pair);
    let p8 = p7 + sample_pairs(reqs);
    lemma_contains_add(p7, sample_pairs(reqs), pair);
    let p9 = p8 + stereo_pair(reqs);
    lemma_contains_add(p8, stereo_pair(reqs), pair);
    let p10 = p9 + srgb_pair(extensions, reqs);
    lemma_contains_add(p9, srgb_pair(extensions, reqs), pair);
    let p11 = p10 + release_pair(extensions, reqs);
    lemma_contains_add(p10, release_pair(extensions, reqs), pair);
    lemma_contains_add(p11, caveat_pair(), pair);
}

/// What the pieces hold, written out.
spec fn is_listed(
    extensions: Seq<char>,
    reqs: PixelFormatRequirements,
    name: c_int,
    value: c_int,
) -> bool {
    ||| name == GLX_X_RENDERABLE && value == 1
    ||| name == GLX_X_VISUAL_TYPE && value == GLX_TRUE_COLOR
    ||| reqs.x11_visual_xid is Some && name == GLX_VISUAL_ID && value == low_int(
        reqs.x11_visual_xid->0,
    )
    ||| name == GLX_DRAWABLE_TYPE && value == GLX_WINDOW_BIT
    ||| name == GLX_RENDER_TYPE && value == drawable_pairs(reqs)[1].1
    ||| reqs.color_bits is Some && name == GLX_RED_SIZE && value == color_pairs(reqs)[0].1
    ||| reqs.color_bits is Some && name == GLX_GREEN_SIZE && value == color_pairs(reqs)[1].1
    ||| reqs.color_bits is Some && name == GLX_BLUE_SIZE && value == color_pairs(reqs)[2].1
    ||| reqs.alpha_bits is Some && name == GLX_ALPHA_SIZE && value == reqs.alpha_bits->0
    ||| reqs.depth_bits is Some && name == GLX_DEPTH_SIZE && value == reqs.depth_bits->0
    ||| reqs.stencil_bits is Some && name == GLX_STENCIL_SIZE && value == reqs.stencil_bits->0
    ||| name == GLX_DOUBLEBUFFER && value == double_buffer_pair(reqs)[0].1
    ||| reqs.multisampling is Some && name == GLX_SAMPLE_BUFFERS_ARB && value == sample_pairs(
        reqs,
    )[0].1
    ||| reqs.multisampling is Some && name == GLX_SAMPLES_ARB && value == reqs.multisampling->0
    ||| name == GLX_STEREO && value == stereo_pair(reqs)[0].1
    ||| reqs.srgb && name == GLX_FRAMEBUFFER_SRGB_CAPABLE_ARB && value == 1
    ||| release_pair(extensions, reqs).len() > 0 && name == GLX_CONTEXT_RELEASE_BEHAVIOR_ARB
        && value == GLX_CONTEXT_RELEASE_BEHAVIOR_NONE_ARB
    ||| name == GLX_CONFIG_CAVEAT && value == GLX_DONT_CARE
}

proof fn lemma_one(pairs: Seq<(c_int, c_int)>, pair: (c_int, c_int))
    requires
        pairs.len() <= 3,
    ensures
        pairs.contains(pair) <==> (pairs.len() > 0 && pairs[0] == pair) || (pairs.len() > 1
            && pairs[1] == pair) || (pairs.len() > 2 && pairs[2] == pair),
{
}

proof fn lemma_asked_is_listed(
    extensions: Seq<char>,
    reqs: PixelFormatRequirements,
    name: c_int,
    value: c_int,
)
    ensures
        is_asked(extensions, reqs, name, value) == is_listed(extensions, reqs, name, value),
{
    let pair = (name, value);
    lemma_one(screen_pairs(), pair);
    lemma_one(visual_pair(reqs), pair);
    lemma_one(drawable_pairs(reqs), pair);
    lemma_one(color_pairs(reqs), pair);
    lemma_one(size_pair(GLX_ALPHA_SIZE, reqs.alpha_bits), pair);
    lemma_one(size_pair(GLX_DEPTH_SIZE, reqs.depth_bits), pair);
    lemma_one(size_pair(GLX_STENCIL_SIZE, reqs.stencil_bits), pair);
    lemma_one(double_buffer_pair(reqs), pair);
    lemma_one(sample_pairs(reqs), pair);
    lemma_one(stereo_pair(reqs), pair);
    lemma_one(srgb_pair(extensions, reqs), pair);
    lemma_one(release_pair(extensions, reqs), pair);
    lemma_one(caveat_pair(), pair);
}

/// A reader of the descriptor finds `expected` under `name`, if the pieces hold that and
/// nothing else under it.
proof fn lemma_found(
    extensions: Seq<char>,
    reqs: PixelFormatRequirements,
    name: c_int,
    expected: Option<c_int>,
)
    requires
        forall|value: c_int| #[trigger]
            is_listed(extensions, reqs, name, value) <==> expected == Some(value),
    ensures
        value_of(encoded(descriptor_pairs(extensions, reqs)), name) == expected,
{
    let pairs = descriptor_pairs(extensions, reqs);
    let found = value_of(encoded(pairs), name);
    lemma_descriptor_rises(extensions, reqs);
    assert forall|i: int| 0 <= i < pairs.len() implies (#[trigger] pairs[i]).0 != 0 by {
        assert(place(pairs[i].0) >= 1);
    }
    if let Some(value) = found {
        law_value_is_found(pairs, name, value);
        lemma_descriptor_contains(extensions, reqs, name, value);
        lemma_asked_is_listed(extensions, reqs, name, value);
    }
    if let Some(value) = expected {
        assert(is_listed(extensions, reqs, name, value));
        law_value_is_found(pairs, name, value);
        lemma_descriptor_contains(extensions, reqs, name, value);
        lemma_asked_is_listed(extensions, reqs, name, value);
    }
}

/// There is no descriptor exactly where a floating-point buffer, samples or sRGB are
/// required and the screen lacks the extension that each of them takes.
pub proof fn law_descriptor_fails_for_want_of_an_extension(
    extensions: Seq<char>,
    reqs: PixelFormatRequirements,
)
    ensures
        descriptor(extensions, reqs) is Err <==> {
            ||| reqs.float_color_buffer && !has_extension(extensions, "GLX_ARB_fbconfig_float"@)
            ||| reqs.multisampling is Some && !has_extension(extensions, "GLX_ARB_multisample"@)
            ||| reqs.srgb && !has_extension(extensions, "GLX_ARB_framebuffer_sRGB"@)
                && !has_extension(extensions, "GLX_EXT_framebuffer_sRGB"@)
        },
{
}

/// What a reader of a descriptor finds on the screen and the kind of drawable: a true
/// color visual that X can render on, for windows, of floating-point colors exactly if
/// they are required, whatever its caveats; the very visual that is named, if one is.
pub proof fn law_descriptor_asks_for_the_drawable(
    extensions: Seq<char>,
    reqs: PixelFormatRequirements,
)
    requires
        descriptor(extensions, reqs) is Ok,
    ensures
        ({
            let list = descriptor(extensions, reqs)->Ok_0;
            &&& value_of(list, GLX_X_RENDERABLE) == Some(1i32)
            &&& value_of(list, GLX_X_VISUAL_TYPE) == Some(GLX_TRUE_COLOR)
            &&& value_of(list, GLX_DRAWABLE_TYPE) == Some(GLX_WINDOW_BIT)
            &&& reqs.float_color_buffer ==> value_of(list, GLX_RENDER_TYPE) == Some(
                GLX_RGBA_FLOAT_BIT_ARB,
            )
            &&& !reqs.float_color_buffer ==> value_of(list, GLX_RENDER_TYPE) == Some(GLX_RGBA_BIT)
            &&& value_of(list, GLX_CONFIG_CAVEAT) == Some(GLX_DONT_CARE)
            &&& match reqs.x11_visual_xid {
                Some(xid) => value_of(list, GLX_VISUAL_ID) matches Some(id) && (xid - id)
                    % 0x1_0000_0000 == 0,
                None => value_of(list, GLX_VISUAL_ID) is None,
            }
        }),
{
    lemma_found(extensions, reqs, GLX_X_RENDERABLE, Some(1));
    lemma_found(extensions, reqs, GLX_X_VISUAL_TYPE, Some(GLX_TRUE_COLOR));
    lemma_found(extensions, reqs, GLX_DRAWABLE_TYPE, Some(GLX_WINDOW_BIT));
    lemma_found(
        extensions,
        reqs,
        GLX_RENDER_TYPE,
        Some(
            if reqs.float_color_buffer {
                GLX_RGBA_FLOAT_BIT_ARB
            } else {
                GLX_RGBA_BIT
            },
        ),
    );
    lemma_found(extensions, reqs, GLX_CONFIG_CAVEAT, Some(GLX_DONT_CARE));
    match reqs.x11_visual_xid {
        Some(xid) => {
            let id = low_int(xid) as c_int;
            lemma_found(extensions, reqs, GLX_VISUAL_ID, Some(id));
            assert((xid - id) % 0x1_0000_0000 == 0);
        },
        None => {
            lemma_found(extensions, reqs, GLX_VISUAL_ID, None);
        },
    }
}

/// What a reader of a descriptor finds on sizes: each that is required, as it is
/// required, and no other. The bits of the three colors add up to the bits of color, as
/// evenly as can be, with green first and blue second to get what is left over.
pub proof fn law_descriptor_asks_for_the_sizes(
    extensions: Seq<char>,
    reqs: PixelFormatRequirements,
)
    requires
        descriptor(extensions, reqs) is Ok,
    ensures
        ({
            let list = descriptor(extensions, reqs)->Ok_0;
            &&& match reqs.color_bits {
                Some(color) => {
                    &&& value_of(list, GLX_RED_SIZE) is Some
                    &&& value_of(list, GLX_GREEN_SIZE) is Some
                    &&& value_of(list, GLX_BLUE_SIZE) is Some
                    &&& ({
                        let red = value_of(list, GLX_RED_SIZE)->0;
                        let green = value_of(list, GLX_GREEN_SIZE)->0;
                        let blue = value_of(list, GLX_BLUE_SIZE)->0;
                        red + green + blue == color && red <= blue <= green <= red + 1
                    })
                },
                None => {
                    &&& value_of(list, GLX_RED_SIZE) is None
                    &&& value_of(list, GLX_GREEN_SIZE) is None
                    &&& value_of(list, GLX_BLUE_SIZE) is None
                },
            }
            &&& match reqs.alpha_bits {
                Some(bits) => value_of(list, GLX_ALPHA_SIZE) == Some(bits as c_int),
                None => value_of(list, GLX_ALPHA_SIZE) is None,
            }
            &&& match reqs.depth_bits {
                Some(bits) => value_of(list, GLX_DEPTH_SIZE) == Some(bits as c_int),
                None => value_of(list, GLX_DEPTH_SIZE) is None,
            }
            &&& match reqs.stencil_bits {
                Some(bits) => value_of(list, GLX_STENCIL_SIZE) == Some(bits as c_int),
                None => value_of(list, GLX_STENCIL_SIZE) is None,
            }
        }),
{
    match reqs.color_bits {
        Some(color) => {
            lemma_found(extensions, reqs, GLX_RED_SIZE, Some(color_pairs(reqs)[0].1));
            lemma_found(extensions, reqs, GLX_GREEN_SIZE, Some(color_pairs(reqs)[1].1));
            lemma_found(extensions, reqs, GLX_BLUE_SIZE, Some(color_pairs(reqs)[2].1));
        },
        None => {
            lemma_found(extensions, reqs, GLX_RED_SIZE, None);
            lemma_found(extensions, reqs, GLX_GREEN_SIZE, None);
            lemma_found(extensions, reqs, GLX_BLUE_SIZE, None);
        },
    }
    lemma_size_found(extensions, reqs);
}

proof fn lemma_size_found(extensions: Seq<char>, reqs: PixelFormatRequirements)
    ensures
        ({
            let list = encoded(descriptor_pairs(extensions, reqs));
            &&& value_of(list, GLX_ALPHA_SIZE) == (match reqs.alpha_bits {
                Some(bits) => Some(bits as c_int),
                None => None,
            })
            &&& value_of(list, GLX_DEPTH_SIZE) == (match reqs.depth_bits {
                Some(bits) => Some(bits as c_int),
                None => None,
            })
            &&& value_of(list, GLX_STENCIL_SIZE) == (match reqs.stencil_bits {
                Some(bits) => Some(bits as c_int),
                None => None,
            })
        }),
{
    lemma_found(
        extensions,
        reqs,
        GLX_ALPHA_SIZE,
        match reqs.alpha_bits {
            Some(bits) => Some(bits as c_int),
            None => None,
        },
    );
    lemma_found(
        extensions,
        reqs,
        GLX_DEPTH_SIZE,
        match reqs.depth_bits {
            Some(bits) => Some(bits as c_int),
            None => None,
        },
    );
    lemma_found(
        extensions,
        reqs,
        GLX_STENCIL_SIZE,
        match reqs.stencil_bits {
            Some(bits) => Some(bits as c_int),
            None => None,
        },
    );
}

/// What a reader of a descriptor finds on buffers: one buffer exactly if that was
/// required, else two; stereo exactly if it is required; sRGB only if it is required;
/// as many samples as are required, in a sample buffer unless they are none; and a
/// release without a flush exactly if that is required and the screen knows of it.
pub proof fn law_descriptor_asks_for_the_buffers(
    extensions: Seq<char>,
    reqs: PixelFormatRequirements,
)
    requires
        descriptor(extensions, reqs) is Ok,
    ensures
        ({
            let list = descriptor(extensions, reqs)->Ok_0;
            &&& reqs.double_buffer == Some(true) ==> value_of(list, GLX_DOUBLEBUFFER) == Some(1i32)
            &&& reqs.double_buffer is None ==> value_of(list, GLX_DOUBLEBUFFER) == Some(1i32)
            &&& reqs.double_buffer == Some(false) ==> value_of(list, GLX_DOUBLEBUFFER) == Some(
                0i32,
            )
            &&& reqs.stereoscopy ==> value_of(list, GLX_STEREO) == Some(1i32)
            &&& !reqs.stereoscopy ==> value_of(list, GLX_STEREO) == Some(0i32)
            &&& reqs.srgb && has_extension(extensions, "GLX_ARB_framebuffer_sRGB"@)
                ==> value_of(list, GLX_FRAMEBUFFER_SRGB_CAPABLE_ARB) == Some(1i32)
            &&& reqs.srgb && !has_extension(extensions, "GLX_ARB_framebuffer_sRGB"@)
                ==> value_of(list, GLX_FRAMEBUFFER_SRGB_CAPABLE_EXT) == Some(1i32)
            &&& !reqs.srgb ==> value_of(list, GLX_FRAMEBUFFER_SRGB_CAPABLE_ARB) is None
            &&& !reqs.srgb ==> value_of(list, GLX_FRAMEBUFFER_SRGB_CAPABLE_EXT) is None
            &&& match reqs.multisampling {
                Some(samples) => {
                    &&& value_of(list, GLX_SAMPLES_ARB) == Some(samples as c_int)
                    &&& samples == 0 ==> value_of(list, GLX_SAMPLE_BUFFERS_ARB) == Some(0i32)
                    &&& samples != 0 ==> value_of(list, GLX_SAMPLE_BUFFERS_ARB) == Some(1i32)
                },
                None => value_of(list, GLX_SAMPLES_ARB) is None && value_of(
                    list,
                    GLX_SAMPLE_BUFFERS_ARB,
                ) is None,
            }
            &&& if reqs.release_behavior is Nothing && has_extension(
                extensions,
                "GLX_ARB_context_flush_control"@,
            ) {
                value_of(list, GLX_CONTEXT_RELEASE_BEHAVIOR_ARB) == Some(
                    GLX_CONTEXT_RELEASE_BEHAVIOR_NONE_ARB,
                )
            } else {
                value_of(list, GLX_CONTEXT_RELEASE_BEHAVIOR_ARB) is None
            }
        }),
{
    lemma_found(extensions, reqs, GLX_DOUBLEBUFFER, Some(double_buffer_pair(reqs)[0].1));
    lemma_found(extensions, reqs, GLX_STEREO, Some(stereo_pair(reqs)[0].1));
    lemma_found(
        extensions,
        reqs,
        GLX_FRAMEBUFFER_SRGB_CAPABLE_ARB,
        if reqs.srgb {
            Some(1)
        } else {
            None
        },
    );
    match reqs.multisampling {
        Some(samples) => {
            lemma_found(extensions, reqs, GLX_SAMPLES_ARB, Some(samples as c_int));
            lemma_found(extensions, reqs, GLX_SAMPLE_BUFFERS_ARB, Some(sample_pairs(reqs)[0].1));
        },
        None => {
            lemma_found(extensions, reqs, GLX_SAMPLES_ARB, None);
            lemma_found(extensions, reqs, GLX_SAMPLE_BUFFERS_ARB, None);
        },
    }
    lemma_found(
        extensions,
        reqs,
        GLX_CONTEXT_RELEASE_BEHAVIOR_ARB,
        if release_pair(extensions, reqs).len() > 0 {
            Some(GLX_CONTEXT_RELEASE_BEHAVIOR_NONE_ARB)
        } else {
            None
        },
    );
}

/// A descriptor is closed by a zero in the place of a name, and by no earlier one, and
/// gives no name twice.
pub proof fn law_descriptor_is_closed(extensions: Seq<char>, reqs: PixelFormatRequirements)
    requires
        descriptor(extensions, reqs) is Ok,
    ensures
        is_closed(descriptor(extensions, reqs)->Ok_0),
{
    law_descriptor_is_read_whole(extensions, reqs);
    law_list_is_closed(descriptor_pairs(extensions, reqs));
}

/// A reader of a descriptor finds no other attribute in it.
pub proof fn law_descriptor_asks_for_nothing_else(
    extensions: Seq<char>,
    reqs: PixelFormatRequirements,
    name: c_int,
)
    requires
        descriptor(extensions, reqs) is Ok,
        !seq![
            GLX_X_RENDERABLE,
            GLX_X_VISUAL_TYPE,
            GLX_VISUAL_ID,
            GLX_DRAWABLE_TYPE,
            GLX_RENDER_TYPE,
            GLX_RED_SIZE,
            GLX_GREEN_SIZE,
            GLX_BLUE_SIZE,
            GLX_ALPHA_SIZE,
            GLX_DEPTH_SIZE,
            GLX_STENCIL_SIZE,
            GLX_DOUBLEBUFFER,
            GLX_SAMPLE_BUFFERS_ARB,
            GLX_SAMPLES_ARB,
            GLX_STEREO,
            GLX_FRAMEBUFFER_SRGB_CAPABLE_ARB,
            GLX_CONTEXT_RELEASE_BEHAVIOR_ARB,
            GLX_CONFIG_CAVEAT,
        ].contains(name),
    ensures
        value_of(descriptor(extensions, reqs)->Ok_0, name) is None,
{
    let known = seq![
        GLX_X_RENDERABLE,
        GLX_X_VISUAL_TYPE,
        GLX_VISUAL_ID,
        GLX_DRAWABLE_TYPE,
        GLX_RENDER_TYPE,
        GLX_RED_SIZE,
        GLX_GREEN_SIZE,
        GLX_BLUE_SIZE,
        GLX_ALPHA_SIZE,
        GLX_DEPTH_SIZE,
        GLX_STENCIL_SIZE,
        GLX_DOUBLEBUFFER,
        GLX_SAMPLE_BUFFERS_ARB,
        GLX_SAMPLES_ARB,
        GLX_STEREO,
        GLX_FRAMEBUFFER_SRGB_CAPABLE_ARB,
        GLX_CONTEXT_RELEASE_BEHAVIOR_ARB,
        GLX_CONFIG_CAVEAT,
    ];
    assert forall|i: int| 0 <= i < known.len() implies #[trigger] known[i] != name by {}
    assert(known[0] != name && known[1] != name && known[2] != name && known[3] != name);
    assert(known[4] != name && known[5] != name && known[6] != name && known[7] != name);
    assert(known[8] != name && known[9] != name && known[10] != name && known[11] != name);
    assert(known[12] != name && known[13] != name && known[14] != name && known[15] != name);
    assert(known[16] != name && known[17] != name);
    lemma_found(extensions, reqs, name, None);
}

} // verus!
