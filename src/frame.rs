use vstd::prelude::*;
use crate::pipeline::{Program, QUAD_VERTICES};

verus! {

/// The image a render pass draws into.
#[derive(Clone, Copy, Debug, PartialEq, Eq, Structural)]
pub enum Target {
    /// The fixed-size offscreen image.
    Offscreen,
    /// The image acquired from the surface for this frame.
    Presentable,
}

/// A color with eight bits per channel.
#[derive(Clone, Copy, Debug, PartialEq, Eq, Structural)]
pub struct Rgba8 {
    pub r: u8,
    pub g: u8,
    pub b: u8,
    pub a: u8,
}

/// The color that both passes clear their target to.
pub open spec fn opaque_blue() -> Rgba8 {
    Rgba8 { r: 0, g: 0, b: 255, a: 255 }
}

/// A binding set that a pass binds.
#[derive(Clone, Copy, Debug, PartialEq, Eq, Structural)]
pub enum BindingRef {
    /// The sprite atlas with the shared sampler.
    SpriteAtlas,
    /// The offscreen target with the shared sampler.
    OffscreenTarget,
    /// The uniform binding set of the object at this index.
    Object(usize),
}

/// One step of a frame. A pass clears its target to `clear` and keeps what it
/// draws.
#[derive(Clone, Copy, Debug, PartialEq, Eq, Structural)]
pub enum Command {
    Acquire,
    BeginPass { target: Target, clear: Rgba8 },
    SetPipeline(Program),
    SetBindings { slot: u32, set: BindingRef },
    Draw { vertices: u32, instances: u32 },
    EndPass,
    Submit,
    Present,
}

/// Where a frame stands.
#[derive(Clone, Copy, Debug, PartialEq, Eq, Structural)]
pub enum FramePhase {
    Idle,
    Acquired,
    Pass1Recorded,
    Pass2Recorded,
    Submitted,
}

/// The start of a pass into `target`, cleared to opaque blue.
pub open spec fn begin(target: Target) -> Command {
    Command::BeginPass { target, clear: opaque_blue() }
}

fn begin_pass(target: Target) -> (c: Command)
    ensures
        c == begin(target),
{
    Command::BeginPass { target, clear: Rgba8 { r: 0, g: 0, b: 255, a: 255 } }
}

/// One quad draw.
pub open spec fn quad_draw() -> Command {
    Command::Draw { vertices: QUAD_VERTICES, instances: 1 }
}

/// The commands that bind and draw the objects, two per object, in list order.
pub open spec fn object_draws(n: nat) -> Seq<Command> {
    Seq::new(
        2 * n,
        |k: int|
            if k % 2 == 0 {
                Command::SetBindings { slot: 1, set: BindingRef::Object((k / 2) as usize) }
            } else {
                quad_draw()
            },
    )
}

/// The framebuffer pass over `n` objects.
pub open spec fn framebuffer_pass(n: nat) -> Seq<Command> {
    seq![
        begin(Target::Offscreen),
        Command::SetPipeline(Program::Framebuffer),
        Command::SetBindings { slot: 0, set: BindingRef::SpriteAtlas },
    ] + object_draws(n) + seq![Command::EndPass]
}

/// The post-process pass.
pub open spec fn post_process_pass() -> Seq<Command> {
    seq![
        begin(Target::Presentable),
        Command::SetPipeline(Program::PostProcess),
        Command::SetBindings { slot: 0, set: BindingRef::OffscreenTarget },
        quad_draw(),
        Command::EndPass,
    ]
}

/// A whole frame over `n` objects.
pub open spec fn frame_commands(n: nat) -> Seq<Command> {
    seq![Command::Acquire] + framebuffer_pass(n) + post_process_pass() + seq![
        Command::Submit,
        Command::Present,
    ]
}

/// Whether `c` starts a pass into `t`, whatever it clears to.
pub open spec fn begins_pass_into(c: Command, t: Target) -> bool {
    c matches Command::BeginPass { target, .. } && target == t
}

/// In every frame the post-process pass is recorded after the framebuffer
/// pass, and samples the very image that the framebuffer pass drew in the same
/// frame: the offscreen target is written by one pass only, the post-process
/// pass binds it, and nothing is submitted before both passes are recorded.
pub proof fn lemma_pass_order(n: nat)
    ensures
        ({
            let c = frame_commands(n);
            let post_begin = 1 + framebuffer_pass(n).len() as int;
            &&& c[1] == begin(Target::Offscreen)
            &&& c[post_begin] == begin(Target::Presentable)
            &&& c[post_begin - 1] == Command::EndPass
            &&& c[post_begin + 1] == Command::SetPipeline(Program::PostProcess)
            &&& c[post_begin + 2] == (Command::SetBindings { slot: 0, set: BindingRef::OffscreenTarget })
            &&& forall|k: int|
                0 <= k < c.len() ==> (begins_pass_into(#[trigger] c[k], Target::Offscreen) <==> k
                    == 1)
            &&& forall|k: int|
                0 <= k < c.len() ==> (begins_pass_into(#[trigger] c[k], Target::Presentable)
                    <==> k == post_begin)
            &&& forall|k: int|
                0 <= k < c.len() ==> (#[trigger] c[k] == Command::Submit <==> k == c.len() - 2)
        }),
{
    let c = frame_commands(n);
    let d = object_draws(n);
    assert forall|k: int| 0 <= k < d.len() implies !(#[trigger] d[k] is BeginPass) && d[k]
        != Command::Submit by {}
    assert forall|k: int| 4 <= k < 4 + d.len() implies #[trigger] c[k] == d[k - 4] by {}
}

/// The framebuffer pass binds and draws every object exactly once, in list
/// order: the binding set of object `i` just before the `i`-th quad draw.
pub proof fn lemma_objects_drawn_in_order(n: nat)
    ensures
        frame_commands(n).len() == 2 * n + 12,
        forall|i: int|
            0 <= i < n ==> #[trigger] frame_commands(n)[4 + 2 * i] == (Command::SetBindings {
                slot: 1,
                set: BindingRef::Object(i as usize),
            }) && frame_commands(n)[5 + 2 * i] == quad_draw(),
        forall|k: int| 0 <= k < 4 ==> !(#[trigger] frame_commands(n)[k] is Draw),
        frame_commands(n)[4 + 2 * n as int] == Command::EndPass,
{
    let c = frame_commands(n);
    let d = object_draws(n);
    assert forall|i: int| 0 <= i < n implies #[trigger] c[4 + 2 * i] == (Command::SetBindings {
        slot: 1,
        set: BindingRef::Object(i as usize),
    }) && c[5 + 2 * i] == quad_draw() by {
        assert(c[4 + 2 * i] == d[2 * i]);
        assert(c[5 + 2 * i] == d[2 * i + 1]);
        assert((2 * i) / 2 == i);
    }
}

/// Records the commands of one frame, one phase at a time.
pub struct FrameRecorder {
    pub phase: FramePhase,
    pub commands: Vec<Command>,
}

impl FrameRecorder {
    /// A recorder with nothing recorded.
    pub fn new() -> (r: FrameRecorder)
        ensures
            r.phase == FramePhase::Idle,
            r.commands@ == Seq::<Command>::empty(),
    {
        FrameRecorder { phase: FramePhase::Idle, commands: Vec::new() }
    }

    /// Acquires the image to present.
    pub fn acquire(&mut self)
        requires
            old(self).phase == FramePhase::Idle,
        ensures
            final(self).phase == FramePhase::Acquired,
            final(self).commands@ == old(self).commands@.push(Command::Acquire),
    {
        self.commands.push(Command::Acquire);
        self.phase = FramePhase::Acquired;
    }

    /// Records the framebuffer pass: the objects in list order, each bound at
    /// slot 1 and drawn once, with the sprite atlas bound at slot 0.
    pub fn record_framebuffer_pass(&mut self, n: usize)
        requires
            old(self).phase == FramePhase::Acquired,
        ensures
            final(self).phase == FramePhase::Pass1Recorded,
            final(self).commands@ == old(self).commands@ + framebuffer_pass(n as nat),
    {
        let ghost start = self.commands@;
        self.commands.push(begin_pass(Target::Offscreen));
        self.commands.push(Command::SetPipeline(Program::Framebuffer));
        self.commands.push(Command::SetBindings { slot: 0, set: BindingRef::SpriteAtlas });
        let ghost head = self.commands@;
        let mut i: usize = 0;
        while i < n
            invariant
                i <= n,
                head.len() == start.len() + 3,
                self.commands@ == head + object_draws(i as nat),
            decreases n - i,
        {
            self.commands.push(Command::SetBindings { slot: 1, set: BindingRef::Object(i) });
            self.commands.push(Command::Draw { vertices: QUAD_VERTICES, instances: 1 });
            proof {
                let d = object_draws((i + 1) as nat);
                assert(d =~= object_draws(i as nat).push(
                    Command::SetBindings { slot: 1, set: BindingRef::Object(i) },
                ).push(quad_draw())) by {
                    assert forall|k: int| 0 <= k < d.len() implies d[k] == object_draws(
                        i as nat,
                    ).push(Command::SetBindings { slot: 1, set: BindingRef::Object(i) }).push(
                        quad_draw(),
                    )[k] by {
                        if k == 2 * i {
                            assert((k / 2) as usize == i);
                        }
                    }
                }
            }
            i = i + 1;
        }
        self.commands.push(Command::EndPass);
        self.phase = FramePhase::Pass1Recorded;
        assert(self.commands@ =~= start + framebuffer_pass(n as nat));
    }

    /// Records the post-process pass: the offscreen target bound at slot 0
    /// and composited onto the presentable image by one quad draw.
    pub fn record_post_process_pass(&mut self)
        requires
            old(self).phase == FramePhase::Pass1Recorded,
        ensures
            final(self).phase == FramePhase::Pass2Recorded,
            final(self).commands@ == old(self).commands@ + post_process_pass(),
    {
        let ghost start = self.commands@;
        self.commands.push(begin_pass(Target::Presentable));
        self.commands.push(Command::SetPipeline(Program::PostProcess));
        self.commands.push(Command::SetBindings { slot: 0, set: BindingRef::OffscreenTarget });
        self.commands.push(Command::Draw { vertices: QUAD_VERTICES, instances: 1 });
        self.commands.push(Command::EndPass);
        self.phase = FramePhase::Pass2Recorded;
        assert(self.commands@ =~= start + post_process_pass());
    }

    /// Submits both passes as one ordered submission.
    pub fn submit(&mut self)
        requires
            old(self).phase == FramePhase::Pass2Recorded,
        ensures
            final(self).phase == FramePhase::Submitted,
            final(self).commands@ == old(self).commands@.push(Command::Submit),
    {
        self.commands.push(Command::Submit);
        self.phase = FramePhase::Submitted;
    }

    /// Presents the acquired image, which ends the frame.
    pub fn present(&mut self)
        requires
            old(self).phase == FramePhase::Submitted,
        ensures
            final(self).phase == FramePhase::Idle,
            final(self).commands@ == old(self).commands@.push(Command::Present),
    {
        self.commands.push(Command::Present);
        self.phase = FramePhase::Idle;
    }
}

/// The commands of one frame that draws `n` objects.
pub fn plan_frame(n: usize) -> (r: Vec<Command>)
    ensures
        r@ == frame_commands(n as nat),
{
    let mut rec = FrameRecorder::new();
    rec.acquire();
    rec.record_framebuffer_pass(n);
    rec.record_post_process_pass();
    rec.submit();
    rec.present();
    assert(rec.commands@ =~= frame_commands(n as nat));
    rec.commands
}

} // verus!
