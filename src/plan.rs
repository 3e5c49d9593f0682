use vstd::prelude::*;
use crate::flags::Flags;

verus! {

/// Scissor rectangle in window pixels, as the GL scissor call takes it.
#[derive(Clone, Copy, Debug, PartialEq, Eq, Structural)]
pub struct ScissorRect {
    pub x: i32,
    pub y: i32,
    pub width: i32,
    pub height: i32,
}

impl ScissorRect {
    /// The quarter of a `width` by `height` screen that starts one pixel in
    /// from the lower-left corner.
    pub fn quarter_screen(width: u32, height: u32) -> (r: ScissorRect)
        ensures
            r.x == 1,
            r.y == 1,
            r.width == width / 2,
            r.height == height / 2,
    {
        ScissorRect { x: 1, y: 1, width: (width / 2) as i32, height: (height / 2) as i32 }
    }
}

/// One GPU command of a sample.
#[derive(Clone, Copy, Debug, PartialEq, Eq, Structural)]
pub enum GlCommand {
    /// Start the elapsed-time query `query`.
    BeginTimer { query: u32 },
    /// End the running elapsed-time query.
    EndTimer,
    /// Turn the scissor test on.
    EnableScissor,
    /// Set the scissor rectangle.
    Scissor { rect: ScissorRect },
    /// Turn the scissor test off.
    DisableScissor,
    /// Clear the color buffer, and the depth buffer too where `depth` holds.
    Clear { depth: bool },
    /// Draw the full-screen triangle `instances` times.
    DrawFullScreen { instances: i32 },
}

/// How one scenario takes each of its samples.
#[derive(Clone, Copy, Debug, PartialEq, Eq, Structural)]
pub struct SampleSetup {
    /// Clear the depth buffer along with the color buffer.
    pub clear_depth: bool,
    /// Instances of the full-screen triangle per draw.
    pub instances: i32,
    /// What the timer query brackets.
    pub flags: Flags,
    /// Where set, the clear is limited to this rectangle.
    pub scissor: Option<ScissorRect>,
}

/// The clear of a sample, with the scissor test around it where one is set.
pub open spec fn clear_commands(setup: SampleSetup) -> Seq<GlCommand> {
    match setup.scissor {
        Some(rect) => seq![
            GlCommand::EnableScissor,
            GlCommand::Scissor { rect },
            GlCommand::Clear { depth: setup.clear_depth },
            GlCommand::DisableScissor,
        ],
        None => seq![GlCommand::Clear { depth: setup.clear_depth }],
    }
}

/// The draw of a sample.
pub open spec fn draw_commands(setup: SampleSetup) -> Seq<GlCommand> {
    seq![GlCommand::DrawFullScreen { instances: setup.instances }]
}

/// What runs before the timer query starts.
pub open spec fn before_timer(setup: SampleSetup) -> Seq<GlCommand> {
    if setup.flags.times_clear() {
        Seq::empty()
    } else {
        clear_commands(setup)
    }
}

/// What the timer query measures.
pub open spec fn timed(setup: SampleSetup) -> Seq<GlCommand> {
    (if setup.flags.times_clear() {
        clear_commands(setup)
    } else {
        Seq::empty()
    }) + (if setup.flags.times_draw() {
        draw_commands(setup)
    } else {
        Seq::empty()
    })
}

/// What runs after the timer query ends.
pub open spec fn after_timer(setup: SampleSetup) -> Seq<GlCommand> {
    if setup.flags.times_draw() {
        Seq::empty()
    } else {
        draw_commands(setup)
    }
}

/// The commands of one sample whose elapsed time goes to `query`.
pub open spec fn sample_plan(setup: SampleSetup, query: u32) -> Seq<GlCommand> {
    before_timer(setup) + seq![GlCommand::BeginTimer { query }] + timed(setup) + seq![
        GlCommand::EndTimer,
    ] + after_timer(setup)
}

/// The elapsed-time query of a sample measures the clear exactly when the
/// flags say to time the clear, and the draw exactly when they say to time
/// the draw; whatever the flags, the sample clears and draws.
pub proof fn lemma_flags_select_timed(setup: SampleSetup, query: u32)
    ensures
        timed(setup).contains(GlCommand::Clear { depth: setup.clear_depth })
            <==> setup.flags.times_clear(),
        timed(setup).contains(GlCommand::DrawFullScreen { instances: setup.instances })
            <==> setup.flags.times_draw(),
        sample_plan(setup, query).contains(GlCommand::Clear { depth: setup.clear_depth }),
        sample_plan(setup, query).contains(GlCommand::DrawFullScreen { instances: setup.instances }),
{
    let clear = GlCommand::Clear { depth: setup.clear_depth };
    let draw = GlCommand::DrawFullScreen { instances: setup.instances };
    let c = clear_commands(setup);
    let d = draw_commands(setup);
    let ci: int = if setup.scissor is Some { 2 } else { 0 };
    assert(c[ci] == clear);
    assert(!c.contains(draw));
    assert(d[0] == draw);
    assert(!d.contains(clear));
    let t = timed(setup);
    let p = sample_plan(setup, query);
    let b = before_timer(setup);
    if setup.flags.times_clear() {
        assert(t[ci] == clear);
        assert(p[b.len() + 1int + ci] == clear);
    } else {
        assert(p[ci] == clear);
        assert(!t.contains(clear)) by {
            if setup.flags.times_draw() {
                assert(t =~= d);
            } else {
                assert(t =~= Seq::<GlCommand>::empty());
            }
        }
    }
    let tc: int = if setup.flags.times_clear() { c.len() as int } else { 0 };
    if setup.flags.times_draw() {
        assert(t[tc] == draw);
        assert(p[b.len() + 1int + tc] == draw);
    } else {
        assert(p[b.len() + 1 + t.len() + 1int] == draw);
        assert(!t.contains(draw)) by {
            if setup.flags.times_clear() {
                assert(t =~= c);
            } else {
                assert(t =~= Seq::<GlCommand>::empty());
            }
        }
    }
}

fn push_clear(cmds: &mut Vec<GlCommand>, setup: &SampleSetup)
    ensures
        final(cmds)@ == old(cmds)@ + clear_commands(*setup),
{
    match setup.scissor {
        Some(rect) => {
            cmds.push(GlCommand::EnableScissor);
            cmds.push(GlCommand::Scissor { rect });
            cmds.push(GlCommand::Clear { depth: setup.clear_depth });
            cmds.push(GlCommand::DisableScissor);
        },
        None => {
            cmds.push(GlCommand::Clear { depth: setup.clear_depth });
        },
    }
    assert(cmds@ =~= old(cmds)@ + clear_commands(*setup));
}

/// The GPU commands of one sample, in order: the clear and the draw, with
/// the elapsed-time query `query` started before the clear or after it, and
/// ended before the draw or after it, as the setup's flags say.
pub fn sample_commands(setup: &SampleSetup, query: u32) -> (r: Vec<GlCommand>)
    ensures
        r@ == sample_plan(*setup, query),
{
    let mut cmds: Vec<GlCommand> = Vec::new();
    let times_clear = setup.flags.contains(Flags::clear());
    let times_draw = setup.flags.contains(Flags::draw());
    proof {
        let b = setup.flags.bits;
        assert(b & 1u32 == 1u32 <==> b & 1u32 != 0) by (bit_vector);
        assert(b & 2u32 == 2u32 <==> b & 2u32 != 0) by (bit_vector);
    }
    if !times_clear {
        push_clear(&mut cmds, setup);
    }
    assert(cmds@ =~= before_timer(*setup));
    cmds.push(GlCommand::BeginTimer { query });
    let ghost start = cmds@;
    if times_clear {
        push_clear(&mut cmds, setup);
    }
    if times_draw {
        cmds.push(GlCommand::DrawFullScreen { instances: setup.instances });
    }
    assert(cmds@ =~= start + timed(*setup));
    cmds.push(GlCommand::EndTimer);
    if !times_draw {
        cmds.push(GlCommand::DrawFullScreen { instances: setup.instances });
    }
    assert(cmds@ =~= sample_plan(*setup, query));
    cmds
}

} // verus!
