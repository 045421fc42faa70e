//! The overlay pass: the order in which the textures and draw primitives of
//! one UI frame reach the GPU.

use vstd::prelude::*;

verus! {

/// Names a texture of the overlay: one that the UI manages itself, or one that
/// the application registered.
#[derive(Clone, Copy, Debug, PartialEq, Eq, Structural)]
pub enum TextureId {
    Managed(u64),
    User(u64),
}

/// What the overlay pass reads of the output of a UI frame: the textures to
/// create or update and the textures to free, each list in the order in which
/// the UI reported them. The draw primitives and the images stay with the
/// host; an upload names its image by its place in `texture_additions`.
#[derive(Debug)]
pub struct UiFrameOutput {
    pub texture_additions: Vec<TextureId>,
    pub texture_removals: Vec<TextureId>,
}

/// One operation of the overlay compositor.
#[derive(Clone, Copy, Debug, PartialEq, Eq, Structural)]
pub enum OverlayOp {
    /// Create or update texture `id` from the image at `index` of the additions.
    UploadTexture { index: usize, id: TextureId },
    /// Switch off the scissor test that an earlier pass may have left on.
    DisableScissor,
    /// Draw the primitives of the frame, in their order, on a surface of this size.
    Paint { width: u32, height: u32 },
    /// Free texture `id`.
    FreeTexture { id: TextureId },
}

/// One upload per addition, in order.
pub open spec fn uploads(additions: Seq<TextureId>) -> Seq<OverlayOp> {
    Seq::new(
        additions.len(),
        |i: int| OverlayOp::UploadTexture { index: i as usize, id: additions[i] },
    )
}

/// One free per removal, in order.
pub open spec fn frees(removals: Seq<TextureId>) -> Seq<OverlayOp> {
    Seq::new(removals.len(), |i: int| OverlayOp::FreeTexture { id: removals[i] })
}

/// The overlay pass of a frame: every upload, then the paint with the scissor
/// test off, then every free.
pub open spec fn overlay_pass(
    additions: Seq<TextureId>,
    removals: Seq<TextureId>,
    width: u32,
    height: u32,
) -> Seq<OverlayOp> {
    uploads(additions) + seq![OverlayOp::DisableScissor, OverlayOp::Paint { width, height }]
        + frees(removals)
}

/// The place of the paint in the overlay pass.
pub open spec fn paint_position(additions: Seq<TextureId>) -> int {
    additions.len() as int + 1
}

/// The textures that exist after `ops`, of those in `before`: an upload adds
/// its texture, a free takes its texture away.
pub open spec fn textures_after(before: Set<TextureId>, ops: Seq<OverlayOp>) -> Set<TextureId>
    decreases ops.len(),
{
    if ops.len() == 0 {
        before
    } else {
        let earlier = textures_after(before, ops.drop_last());
        match ops.last() {
            OverlayOp::UploadTexture { id, .. } => earlier.insert(id),
            OverlayOp::FreeTexture { id } => earlier.remove(id),
            _ => earlier,
        }
    }
}

/// Plans the overlay pass for the output of one UI frame on a surface of
/// `width` by `height` pixels.
pub fn compose(output: &UiFrameOutput, width: u32, height: u32) -> (ops: Vec<OverlayOp>)
    ensures
        ops@ == overlay_pass(
            output.texture_additions@,
            output.texture_removals@,
            width,
            height,
        ),
{
    let ghost additions = output.texture_additions@;
    let ghost removals = output.texture_removals@;
    let mut ops: Vec<OverlayOp> = Vec::new();
    let mut i: usize = 0;
    while i < output.texture_additions.len()
        invariant
            additions == output.texture_additions@,
            i <= additions.len(),
            ops@ == uploads(additions.take(i as int)),
        decreases additions.len() - i,
    {
        ops.push(OverlayOp::UploadTexture { index: i, id: output.texture_additions[i] });
        i = i + 1;
        assert(ops@ =~= uploads(additions.take(i as int)));
    }
    assert(additions.take(i as int) =~= additions);
    ops.push(OverlayOp::DisableScissor);
    ops.push(OverlayOp::Paint { width, height });
    let ghost painted = ops@;
    assert(painted =~= uploads(additions) + seq![
        OverlayOp::DisableScissor,
        OverlayOp::Paint { width, height },
    ]);
    let mut j: usize = 0;
    while j < output.texture_removals.len()
        invariant
            removals == output.texture_removals@,
            j <= removals.len(),
            ops@ == painted + frees(removals.take(j as int)),
        decreases removals.len() - j,
    {
        ops.push(OverlayOp::FreeTexture { id: output.texture_removals[j] });
        j = j + 1;
        assert(ops@ =~= painted + frees(removals.take(j as int)));
    }
    assert(removals.take(j as int) =~= removals);
    ops
}

/// In the overlay pass the paint stands once, after every upload and before
/// every free; the uploads and the frees are those of the UI output, in its
/// order.
pub proof fn lemma_pass_order(
    additions: Seq<TextureId>,
    removals: Seq<TextureId>,
    width: u32,
    height: u32,
)
    ensures
        ({
            let pass = overlay_pass(additions, removals, width, height);
            let paint = paint_position(additions);
            &&& pass.len() == additions.len() + 2 + removals.len()
            &&& pass[paint - 1] == OverlayOp::DisableScissor
            &&& pass[paint] == (OverlayOp::Paint { width, height })
            &&& forall|i: int|
                0 <= i < additions.len() ==> #[trigger] pass[i] == (OverlayOp::UploadTexture {
                    index: i as usize,
                    id: additions[i],
                })
            &&& forall|i: int|
                0 <= i < removals.len() ==> #[trigger] pass[paint + 1 + i] == (
                OverlayOp::FreeTexture { id: removals[i] })
            &&& forall|i: int|
                0 <= i < pass.len() && #[trigger] pass[i] is UploadTexture ==> i < paint
            &&& forall|i: int| 0 <= i < pass.len() && #[trigger] pass[i] is FreeTexture ==> paint < i
            &&& forall|i: int| 0 <= i < pass.len() && #[trigger] pass[i] is Paint ==> i == paint
        }),
{
}

/// `textures_after` reads a list one operation at a time.
proof fn lemma_textures_after_push(before: Set<TextureId>, ops: Seq<OverlayOp>, op: OverlayOp)
    ensures
        textures_after(before, ops.push(op)) == match op {
            OverlayOp::UploadTexture { id, .. } => textures_after(before, ops).insert(id),
            OverlayOp::FreeTexture { id } => textures_after(before, ops).remove(id),
            _ => textures_after(before, ops),
        },
{
    assert(ops.push(op).drop_last() =~= ops);
}

/// Uploads alone only add textures.
proof fn lemma_textures_after_uploads(before: Set<TextureId>, additions: Seq<TextureId>)
    ensures
        textures_after(before, uploads(additions)) == before.union(additions.to_set()),
    decreases additions.len(),
{
    if additions.len() == 0 {
        assert(before.union(additions.to_set()) =~= before);
    } else {
        let head = additions.drop_last();
        let last = additions.last();
        lemma_textures_after_uploads(before, head);
        let op = OverlayOp::UploadTexture { index: head.len() as usize, id: last };
        assert(uploads(additions) =~= uploads(head).push(op));
        lemma_textures_after_push(before, uploads(head), op);
        assert(additions =~= head.push(last));
        assert forall|id: TextureId| additions.contains(id) <==> (head.contains(id) || id == last) by {
            if additions.contains(id) {
                let k = choose|k: int| 0 <= k < additions.len() && additions[k] == id;
                if k < head.len() {
                    assert(head[k] == id);
                }
            }
            if head.contains(id) {
                let k = choose|k: int| 0 <= k < head.len() && head[k] == id;
                assert(additions[k] == id);
            }
            assert(additions[additions.len() - 1] == last);
        }
        assert(before.union(head.to_set()).insert(last) =~= before.union(additions.to_set()));
    }
}

/// The textures after the uploads, the paint and the first `n` frees.
proof fn lemma_textures_after_frees(
    before: Set<TextureId>,
    additions: Seq<TextureId>,
    removals: Seq<TextureId>,
    width: u32,
    height: u32,
    n: int,
)
    requires
        0 <= n <= removals.len(),
    ensures
        ({
            let pass = overlay_pass(additions, removals, width, height);
            let paint = paint_position(additions);
            let after = textures_after(before, pass.take(paint + 1 + n));
            forall|id: TextureId|
                after.contains(id) <==> (before.contains(id) || additions.contains(id))
                    && !removals.take(n).contains(id)
        }),
    decreases n,
{
    let pass = overlay_pass(additions, removals, width, height);
    let paint = paint_position(additions);
    if n == 0 {
        lemma_textures_at_paint(before, additions, removals, width, height);
        assert(removals.take(0) =~= Seq::<TextureId>::empty());
    } else {
        lemma_textures_after_frees(before, additions, removals, width, height, n - 1);
        let op = OverlayOp::FreeTexture { id: removals[n - 1] };
        assert(pass.take(paint + 1 + n) =~= pass.take(paint + n).push(op));
        lemma_textures_after_push(before, pass.take(paint + n), op);
        let shorter = removals.take(n - 1);
        let longer = removals.take(n);
        assert(longer =~= shorter.push(removals[n - 1]));
        assert forall|id: TextureId| longer.contains(id) <==> (shorter.contains(id) || id
            == removals[n - 1]) by {
            if longer.contains(id) {
                let k = choose|k: int| 0 <= k < longer.len() && longer[k] == id;
                if k < n - 1 {
                    assert(shorter[k] == id);
                }
            }
            if shorter.contains(id) {
                let k = choose|k: int| 0 <= k < shorter.len() && shorter[k] == id;
                assert(longer[k] == id);
            }
            assert(longer[n - 1] == removals[n - 1]);
        }
    }
}

/// Up to and including the paint, the pass has only added textures.
proof fn lemma_textures_at_paint(
    before: Set<TextureId>,
    additions: Seq<TextureId>,
    removals: Seq<TextureId>,
    width: u32,
    height: u32,
)
    ensures
        ({
            let pass = overlay_pass(additions, removals, width, height);
            let paint = paint_position(additions);
            &&& textures_after(before, pass.take(paint)) == before.union(additions.to_set())
            &&& textures_after(before, pass.take(paint + 1)) == before.union(additions.to_set())
        }),
{
    let pass = overlay_pass(additions, removals, width, height);
    let paint = paint_position(additions);
    lemma_textures_after_uploads(before, additions);
    assert(pass.take(paint) =~= uploads(additions).push(OverlayOp::DisableScissor));
    lemma_textures_after_push(before, uploads(additions), OverlayOp::DisableScissor);
    assert(pass.take(paint + 1) =~= pass.take(paint).push(OverlayOp::Paint { width, height }));
    lemma_textures_after_push(before, pass.take(paint), OverlayOp::Paint { width, height });
}

/// When the primitives of a frame are painted, every texture that existed
/// before the frame or that the frame uploads exists: no texture is freed
/// ahead of the paint that may still draw with it. After the whole pass
/// exactly those of them exist that the frame does not free.
pub proof fn lemma_texture_lifecycle(
    before: Set<TextureId>,
    additions: Seq<TextureId>,
    removals: Seq<TextureId>,
    width: u32,
    height: u32,
)
    ensures
        ({
            let pass = overlay_pass(additions, removals, width, height);
            let paint = paint_position(additions);
            &&& textures_after(before, pass.take(paint)) == before.union(additions.to_set())
            &&& textures_after(before, pass.take(paint + 1)) == before.union(additions.to_set())
            &&& forall|id: TextureId|
                textures_after(before, pass).contains(id) <==> (before.contains(id)
                    || additions.contains(id)) && !removals.contains(id)
        }),
{
    let pass = overlay_pass(additions, removals, width, height);
    let paint = paint_position(additions);
    lemma_textures_at_paint(before, additions, removals, width, height);
    lemma_textures_after_frees(before, additions, removals, width, height, removals.len() as int);
    assert(pass.take(paint + 1 + removals.len()) =~= pass);
    assert(removals.take(removals.len() as int) =~= removals);
}

} // verus!
