//! Laws of the resource state machines, stated over the transition
//! functions that the device's operations are specified by.
use vstd::prelude::*;
use crate::batch::{
    Texture2DBatch, Texture2DInstance, color_stream, lemma_stream_update, lemma_widths,
    transform_stream, uv_transform_stream, transform_of, color_of, uv_transform_of,
};
use crate::error::LifecycleError;
use crate::image_texture::ImageTexture;
use crate::shader::ShaderProgram;

verus! {

/// The moves an image texture may make: pre-upload to resident with the same
/// size, and resident to disposed.
pub open spec fn texture_successor(before: ImageTexture, after: ImageTexture) -> bool {
    match (before, after) {
        (ImageTexture::PreLoad { dimensions: d, .. }, ImageTexture::Loaded { dimensions: e, .. }) =>
            d == e,
        (ImageTexture::Loaded { .. }, ImageTexture::Disposed) => true,
        _ => false,
    }
}

/// The moves a batch may make: collecting to resident, and resident to
/// disposed, each with the same instances.
pub open spec fn batch_successor(before: Texture2DBatch, after: Texture2DBatch) -> bool {
    &&& after.instances() == before.instances()
    &&& match (before, after) {
        (Texture2DBatch::PreLoad { .. }, Texture2DBatch::Loaded { .. }) => true,
        (Texture2DBatch::Loaded { .. }, Texture2DBatch::Disposed { .. }) => true,
        _ => false,
    }
}

/// The moves a shader program may make: source state to built or disposed,
/// and built to disposed.
pub open spec fn program_successor(before: ShaderProgram, after: ShaderProgram) -> bool {
    match (before, after) {
        (ShaderProgram::PreBuild { .. }, ShaderProgram::Builded { .. }) => true,
        (ShaderProgram::PreBuild { .. }, ShaderProgram::Disposed) => true,
        (ShaderProgram::Builded { .. }, ShaderProgram::Disposed) => true,
        _ => false,
    }
}

/// Every operation on a well-formed image texture either moves it to a
/// well-formed successor or is refused and leaves it unchanged.
pub proof fn lemma_texture_closed(t: ImageTexture, id: u32)
    requires
        t.wf(),
    ensures
        t.after_load(id).wf(),
        t.load_refusal(id) is None ==> texture_successor(t, t.after_load(id)),
        t.load_refusal(id) is Some ==> t.after_load(id) == t,
        t.after_dispose().wf(),
        t.dispose_refusal() is None ==> texture_successor(t, t.after_dispose()),
        t.dispose_refusal() is Some ==> t.after_dispose() == t,
{
}

/// Every operation on a well-formed batch either moves it to a well-formed
/// successor, or (an update) keeps it resident with its buffers, or is
/// refused and leaves it unchanged.
pub proof fn lemma_batch_closed(
    b: Texture2DBatch,
    mbo: u32,
    cbo: u32,
    uvto: u32,
    updated: Texture2DBatch,
    i: int,
    v: Texture2DInstance,
)
    requires
        b.wf(),
        updated.updated_from(b, i, v),
        b is Loaded ==> 0 <= i < b.instances().len(),
    ensures
        b.after_load(mbo, cbo, uvto).wf(),
        b.load_refusal(mbo, cbo, uvto) is None ==> batch_successor(b, b.after_load(mbo, cbo, uvto)),
        b.load_refusal(mbo, cbo, uvto) is Some ==> b.after_load(mbo, cbo, uvto) == b,
        b.after_dispose().wf(),
        b.resident_refusal() is None ==> batch_successor(b, b.after_dispose()),
        b.resident_refusal() is Some ==> b.after_dispose() == b,
        updated.wf(),
        b.resident_refusal() is Some ==> updated == b,
{
}

/// Every operation on a well-formed shader program either moves it to a
/// well-formed successor or is refused and leaves it unchanged; disposal of
/// a program that is not yet disposed always succeeds.
pub proof fn lemma_program_closed(p: ShaderProgram, program_id: u32, linked: bool)
    requires
        p.wf(),
    ensures
        p.after_build(program_id, linked).wf(),
        p.build_refusal(program_id, linked) is None ==> program_successor(
            p,
            p.after_build(program_id, linked),
        ),
        p.build_refusal(program_id, linked) is Some ==> p.after_build(program_id, linked) == p,
        p.dispose_refusal() is None ==> program_successor(p, ShaderProgram::Disposed),
        p.dispose_refusal() is Some ==> p is Disposed,
{
}

/// Uploading a pre-upload texture and disposing it leaves it disposed; a
/// second disposal is refused as already disposed and changes nothing.
pub proof fn lemma_texture_round_trip(t: ImageTexture, id: u32)
    requires
        t is PreLoad,
        t->data@.len() > 0,
        id != 0,
    ensures
        t.load_refusal(id) is None,
        t.after_load(id).dispose_refusal() is None,
        t.after_load(id).after_dispose() is Disposed,
        t.after_load(id).after_dispose().dispose_refusal() == Some(LifecycleError::AlreadyDisposed),
        t.after_load(id).after_dispose().after_dispose() == t.after_load(id).after_dispose(),
{
}

/// Replacing instance `i` of a resident batch of `n` instances changes that
/// record alone, keeps the buffers, and keeps the three GPU streams equal to
/// the old streams with the instance's words written at its offset; doing
/// the same replacement again changes nothing further.
pub proof fn lemma_batch_update(
    b: Texture2DBatch,
    i: int,
    v: Texture2DInstance,
    once: Texture2DBatch,
    twice: Texture2DBatch,
)
    requires
        b is Loaded,
        0 <= i < b.instances().len(),
        once.updated_from(b, i, v),
        twice.updated_from(once, i, v),
    ensures
        once.instances().len() == b.instances().len(),
        once.instances()[i] == v,
        forall|j: int|
            0 <= j < b.instances().len() && j != i ==> #[trigger] once.instances()[j]
                == b.instances()[j],
        once->mbo == b->mbo && once->cbo == b->cbo && once->uvto == b->uvto,
        transform_stream(once.instances()) == transform_stream(b.instances()).take(16 * i)
            + v.transform@ + transform_stream(b.instances()).skip(16 * i + 16),
        color_stream(once.instances()) == color_stream(b.instances()).take(4 * i) + v.color@
            + color_stream(b.instances()).skip(4 * i + 4),
        uv_transform_stream(once.instances()) == uv_transform_stream(b.instances()).take(4 * i)
            + v.uv_transform@ + uv_transform_stream(b.instances()).skip(4 * i + 4),
        twice is Loaded,
        twice.instances() == once.instances(),
        twice->mbo == once->mbo && twice->cbo == once->cbo && twice->uvto == once->uvto,
{
    lemma_widths();
    let s = b.instances();
    lemma_stream_update(s, |x: Texture2DInstance| transform_of(x), 16, i, v);
    lemma_stream_update(s, |x: Texture2DInstance| color_of(x), 4, i, v);
    lemma_stream_update(s, |x: Texture2DInstance| uv_transform_of(x), 4, i, v);
    assert(s.update(i, v).update(i, v) =~= s.update(i, v));
}

} // verus!
