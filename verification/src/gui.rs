use crate::encoder::{Attachment, Command, CommandEncoder, LoadOp, PassKind, TextureId};
use crate::resource::{PhysicalSize, TextureFormat};
use vstd::prelude::*;

verus! {

/// What a frame of the user interface asks of its textures: those to
/// upload, new or changed, and those to let go of.
#[derive(Debug)]
pub struct TexturesDelta {
    pub set: Vec<TextureId>,
    pub free: Vec<TextureId>,
}

/// One upload for each texture of `set`, in order.
pub open spec fn uploads(set: Seq<TextureId>) -> Seq<Command> {
    Seq::new(set.len(), |i: int| Command::UpdateUiTexture { id: set[i] })
}

/// One release for each texture of `free`, in order.
pub open spec fn releases(free: Seq<TextureId>) -> Seq<Command> {
    Seq::new(free.len(), |i: int| Command::FreeUiTexture { id: free[i] })
}

/// What draws the user interface over what the surface already shows: the
/// geometry is uploaded for a screen of the surface's extent, and a pass
/// that loads the surface's image, and so keeps it, renders it.
pub open spec fn overlay(width: u32, height: u32) -> Seq<Command> {
    seq![
        Command::UpdateUiBuffers { width, height },
        Command::BeginRenderPass {
            pass: PassKind::Ui,
            color: Attachment::Surface { width, height },
            depth: None,
            load: LoadOp::Load,
        },
        Command::RenderUi,
        Command::EndRenderPass,
    ]
}

/// The pass of the user interface: the uploads, the overlay, the releases.
pub open spec fn ui_pass(set: Seq<TextureId>, free: Seq<TextureId>, width: u32, height: u32) -> Seq<
    Command,
> {
    uploads(set) + overlay(width, height) + releases(free)
}

/// In the pass of the user interface every upload stands before the
/// rendering, and every release after it; and the pass begins by loading,
/// not by clearing.
pub proof fn lemma_ui_order(set: Seq<TextureId>, free: Seq<TextureId>, width: u32, height: u32)
    ensures
        ui_pass(set, free, width, height).len() == set.len() + 4 + free.len(),
        ui_pass(set, free, width, height)[set.len() as int + 2] == Command::RenderUi,
        forall|i: int|
            0 <= i < ui_pass(set, free, width, height).len() ==> (#[trigger] ui_pass(
                set,
                free,
                width,
                height,
            )[i] is UpdateUiTexture <==> i < set.len()),
        forall|i: int|
            0 <= i < ui_pass(set, free, width, height).len() ==> (#[trigger] ui_pass(
                set,
                free,
                width,
                height,
            )[i] is FreeUiTexture <==> i >= set.len() + 4),
        ui_pass(set, free, width, height)[set.len() as int + 1] == (Command::BeginRenderPass {
            pass: PassKind::Ui,
            color: Attachment::Surface { width, height },
            depth: None,
            load: LoadOp::Load,
        }),
{
    let pass = ui_pass(set, free, width, height);
    let mid = overlay(width, height);
    assert(mid.len() == 4);
    assert forall|i: int| 0 <= i < pass.len() implies (#[trigger] pass[i] is UpdateUiTexture <==> i
        < set.len()) by {
        if i < set.len() {
            assert(pass[i] == uploads(set)[i]);
        } else if i < set.len() + 4 {
            assert(pass[i] == mid[i - set.len()]);
        } else {
            assert(pass[i] == releases(free)[i - set.len() - 4]);
        }
    }
    assert forall|i: int| 0 <= i < pass.len() implies (#[trigger] pass[i] is FreeUiTexture <==> i
        >= set.len() + 4) by {
        if i < set.len() {
            assert(pass[i] == uploads(set)[i]);
        } else if i < set.len() + 4 {
            assert(pass[i] == mid[i - set.len()]);
        } else {
            assert(pass[i] == releases(free)[i - set.len() - 4]);
        }
    }
    assert(pass[set.len() as int + 2] == mid[2]);
    assert(pass[set.len() as int + 1] == mid[1]);
}

/// The overlay of the immediate-mode user interface: what its renderer was
/// made for.
#[derive(Clone, Copy, Debug, PartialEq, Eq, Structural)]
pub struct Gui {
    pub target_color_format: TextureFormat,
    pub target_depth_format: Option<TextureFormat>,
    pub msaa_samples: u32,
}

impl Gui {
    /// An overlay that renders one sample per pixel into targets of the
    /// given formats.
    pub fn new(target_color_format: TextureFormat, target_depth_format: Option<TextureFormat>) -> (r:
        Self)
        ensures
            r == (Gui { target_color_format, target_depth_format, msaa_samples: 1 }),
    {
        Gui { target_color_format, target_depth_format, msaa_samples: 1 }
    }

    /// Records the pass of the user interface into `encoder`, for a surface
    /// of the extent `screen`: see `ui_pass`.
    pub fn draw(&self, encoder: &mut CommandEncoder, screen: PhysicalSize, textures: &TexturesDelta)
        ensures
            final(encoder).label == old(encoder).label,
            final(encoder).commands@ == old(encoder).commands@ + ui_pass(
                textures.set@,
                textures.free@,
                screen.width,
                screen.height,
            ),
    {
        let ghost before = encoder.commands@;
        let mut i: usize = 0;
        while i < textures.set.len()
            invariant
                i <= textures.set@.len(),
                encoder.label == old(encoder).label,
                encoder.commands@ == before + uploads(textures.set@.subrange(0, i as int)),
            decreases textures.set@.len() - i,
        {
            encoder.push(Command::UpdateUiTexture { id: textures.set[i] });
            assert(encoder.commands@ =~= before + uploads(textures.set@.subrange(0, i + 1)));
            i += 1;
        }
        assert(textures.set@.subrange(0, i as int) =~= textures.set@);
        encoder.push(Command::UpdateUiBuffers { width: screen.width, height: screen.height });
        encoder.push(
            Command::BeginRenderPass {
                pass: PassKind::Ui,
                color: Attachment::Surface { width: screen.width, height: screen.height },
                depth: None,
                load: LoadOp::Load,
            },
        );
        encoder.push(Command::RenderUi);
        encoder.push(Command::EndRenderPass);
        let ghost drawn = encoder.commands@;
        assert(drawn =~= before + uploads(textures.set@) + overlay(screen.width, screen.height));
        let mut j: usize = 0;
        while j < textures.free.len()
            invariant
                j <= textures.free@.len(),
                encoder.label == old(encoder).label,
                encoder.commands@ == drawn + releases(textures.free@.subrange(0, j as int)),
            decreases textures.free@.len() - j,
        {
            encoder.push(Command::FreeUiTexture { id: textures.free[j] });
            assert(encoder.commands@ =~= drawn + releases(textures.free@.subrange(0, j + 1)));
            j += 1;
        }
        assert(textures.free@.subrange(0, j as int) =~= textures.free@);
        assert(encoder.commands@ =~= before + ui_pass(
            textures.set@,
            textures.free@,
            screen.width,
            screen.height,
        ));
    }
}

} // verus!
