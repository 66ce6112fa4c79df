use crate::resource::IndexFormat;
use vstd::prelude::*;

verus! {

/// The three passes of a frame.
#[derive(Clone, Copy, Debug, PartialEq, Eq, Structural)]
pub enum PassKind {
    Scene,
    Composite,
    Ui,
}

/// A colour, each channel in thousandths of full intensity.
#[derive(Clone, Copy, Debug, PartialEq, Eq, Structural)]
pub struct Color {
    pub r: u32,
    pub g: u32,
    pub b: u32,
    pub a: u32,
}

/// What happens to a target when a pass begins.
#[derive(Clone, Copy, Debug, PartialEq, Eq, Structural)]
pub enum LoadOp {
    Clear(Color),
    Load,
}

/// Where a pass writes colour: the image acquired from the surface, with
/// the extent that the surface is configured to, or a texture view of the
/// registry, named by its handle.
#[derive(Clone, Copy, Debug, PartialEq, Eq, Structural)]
pub enum Attachment {
    Surface { width: u32, height: u32 },
    View(usize),
}

/// The name of a texture of the user interface.
#[derive(Clone, Copy, Debug, PartialEq, Eq, Structural)]
pub enum TextureId {
    Managed(u64),
    User(u64),
}

/// One recorded step of a frame. Resources are named by their handles. A
/// pass with a depth view clears depth to 1 when it begins.
#[derive(Clone, Copy, Debug, PartialEq, Eq, Structural)]
pub enum Command {
    BeginRenderPass { pass: PassKind, color: Attachment, depth: Option<usize>, load: LoadOp },
    SetPipeline { pipeline: usize },
    SetBindGroup { index: u32, bind_group: usize },
    SetVertexBuffer { slot: u32, buffer: usize },
    SetIndexBuffer { buffer: usize, format: IndexFormat },
    /// Draws one instance of the indices from 0 up to `index_count`.
    DrawIndexed { index_count: u32 },
    EndRenderPass,
    UpdateUiTexture { id: TextureId },
    /// Uploads the geometry of the user interface, for a screen of this
    /// extent.
    UpdateUiBuffers { width: u32, height: u32 },
    RenderUi,
    FreeUiTexture { id: TextureId },
}

/// The recording scope of one frame.
#[derive(Debug)]
pub struct CommandEncoder {
    pub label: String,
    pub commands: Vec<Command>,
}

impl CommandEncoder {
    pub fn new(label: &str) -> (r: Self)
        ensures
            r.label@ == label@,
            r.commands@ == Seq::<Command>::empty(),
    {
        CommandEncoder { label: String::from_str(label), commands: Vec::new() }
    }

    pub fn push(&mut self, command: Command)
        ensures
            final(self).label == old(self).label,
            final(self).commands@ == old(self).commands@.push(command),
    {
        self.commands.push(command);
    }

    /// Records `commands` after what is already recorded.
    pub fn extend(&mut self, commands: &Vec<Command>)
        ensures
            final(self).label == old(self).label,
            final(self).commands@ == old(self).commands@ + commands@,
    {
        let ghost before = self.commands@;
        let mut i: usize = 0;
        while i < commands.len()
            invariant
                i <= commands@.len(),
                self.label == old(self).label,
                self.commands@ == before + commands@.subrange(0, i as int),
            decreases commands@.len() - i,
        {
            self.commands.push(commands[i]);
            assert(self.commands@ =~= before + commands@.subrange(0, i + 1));
            i += 1;
        }
        assert(commands@.subrange(0, i as int) =~= commands@);
    }

    /// Closes the scope and hands out what was recorded, in order.
    pub fn finish(self) -> (r: Vec<Command>)
        ensures
            r@ == self.commands@,
    {
        self.commands
    }
}

} // verus!
