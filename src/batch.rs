use vstd::prelude::*;
use crate::error::LifecycleError;

verus! {

/// The IEEE-754 single-precision bit pattern of `1.0`.
pub const ONE_F32_BITS: u32 = 0x3F80_0000;

/// The largest number of instances one batch may hold: an instanced draw
/// takes its instance count as a signed 32-bit integer.
pub const MAX_BATCH_INSTANCES: usize = 0x7FFF_FFFF;

/// Bytes in one 32-bit word.
pub const WORD_BYTES: u64 = 4;

/// One sprite of an instanced batch. Every component is a 32-bit float held
/// as its IEEE-754 bit pattern, which is what the GPU buffers receive.
#[derive(Clone, Copy, Debug, PartialEq)]
pub struct Texture2DInstance {
    /// A 4x4 transform matrix in column-major order.
    pub transform: [u32; 16],
    /// An RGBA tint.
    pub color: [u32; 4],
    /// Scale and offset of the texture window: `[sx, sy, ox, oy]`.
    pub uv_transform: [u32; 4],
    pub visible: bool,
}

/// The extra per-instance vector: `[1.0, 0, 0, 0]` when visible, else all zero.
pub open spec fn extras_words(visible: bool) -> Seq<u32> {
    seq![if visible { ONE_F32_BITS } else { 0u32 }, 0u32, 0u32, 0u32]
}

impl Texture2DInstance {
    pub fn new(transform: [u32; 16], color: [u32; 4], uv_transform: [u32; 4], visible: bool) -> (r:
        Texture2DInstance)
        ensures
            r == (Texture2DInstance { transform, color, uv_transform, visible }),
    {
        Texture2DInstance { transform, color, uv_transform, visible }
    }

    pub fn create_extras_vec4(&self) -> (r: [u32; 4])
        ensures
            r@ == extras_words(self.visible),
    {
        let first: u32 = if self.visible {
            ONE_F32_BITS
        } else {
            0
        };
        let r = [first, 0u32, 0u32, 0u32];
        assert(r@ =~= extras_words(self.visible));
        r
    }

    /// The window that covers the whole texture: scale one, offset zero.
    pub fn default_uv_transform() -> (r: [u32; 4])
        ensures
            r@ == seq![ONE_F32_BITS, ONE_F32_BITS, 0u32, 0u32],
    {
        let r = [ONE_F32_BITS, ONE_F32_BITS, 0u32, 0u32];
        assert(r@ =~= seq![ONE_F32_BITS, ONE_F32_BITS, 0u32, 0u32]);
        r
    }
}

/// The words of one stream: `f` of each instance, one after the other.
pub open spec fn stream(s: Seq<Texture2DInstance>, f: spec_fn(Texture2DInstance) -> Seq<u32>) -> Seq<
    u32,
>
    decreases s.len(),
{
    if s.len() == 0 {
        Seq::empty()
    } else {
        stream(s.drop_last(), f) + f(s.last())
    }
}

pub open spec fn transform_of(x: Texture2DInstance) -> Seq<u32> {
    x.transform@
}

pub open spec fn color_of(x: Texture2DInstance) -> Seq<u32> {
    x.color@
}

pub open spec fn uv_transform_of(x: Texture2DInstance) -> Seq<u32> {
    x.uv_transform@
}

pub open spec fn extras_of(x: Texture2DInstance) -> Seq<u32> {
    extras_words(x.visible)
}

/// Whether every instance gives `w` words to the stream.
pub open spec fn uniform_width(f: spec_fn(Texture2DInstance) -> Seq<u32>, w: nat) -> bool {
    forall|x: Texture2DInstance| #[trigger] f(x).len() == w
}

pub proof fn lemma_widths()
    ensures
        uniform_width(|x: Texture2DInstance| transform_of(x), 16),
        uniform_width(|x: Texture2DInstance| color_of(x), 4),
        uniform_width(|x: Texture2DInstance| uv_transform_of(x), 4),
        uniform_width(|x: Texture2DInstance| extras_of(x), 4),
{
}

/// A stream holds `w` words per instance.
pub proof fn lemma_stream_len(s: Seq<Texture2DInstance>, f: spec_fn(Texture2DInstance) -> Seq<u32>, w: nat)
    requires
        uniform_width(f, w),
    ensures
        stream(s, f).len() == w * s.len(),
    decreases s.len(),
{
    if s.len() > 0 {
        lemma_stream_len(s.drop_last(), f, w);
        assert(f(s.last()).len() == w);
        assert(w * s.len() == w * (s.len() - 1) + w) by (nonlinear_arith);
    }
}

/// Word `k` of instance `i` stands at `w * i + k` in its stream.
pub proof fn lemma_stream_index(
    s: Seq<Texture2DInstance>,
    f: spec_fn(Texture2DInstance) -> Seq<u32>,
    w: nat,
    i: int,
    k: int,
)
    requires
        uniform_width(f, w),
        0 <= i < s.len(),
        0 <= k < w,
    ensures
        stream(s, f)[w * i + k] == f(s[i])[k],
    decreases s.len(),
{
    let n = s.len() as int;
    lemma_stream_len(s.drop_last(), f, w);
    assert(f(s.last()).len() == w);
    if i < n - 1 {
        assert(w * i + k < w * (n - 1)) by (nonlinear_arith)
            requires
                0 <= i < n - 1,
                0 <= k < w,
        ;
        lemma_stream_index(s.drop_last(), f, w, i, k);
    } else {
        assert(w * i == w * (n - 1));
    }
}

/// Replacing instance `i` of a stream's instances replaces exactly the
/// `w` words at `w * i` and keeps every other word.
pub proof fn lemma_stream_update(
    s: Seq<Texture2DInstance>,
    f: spec_fn(Texture2DInstance) -> Seq<u32>,
    w: nat,
    i: int,
    v: Texture2DInstance,
)
    requires
        uniform_width(f, w),
        0 <= i < s.len(),
    ensures
        stream(s.update(i, v), f) == stream(s, f).take(w * i) + f(v) + stream(s, f).skip(w * i + w),
    decreases s.len(),
{
    let n = s.len() as int;
    let p = stream(s.drop_last(), f);
    lemma_stream_len(s.drop_last(), f, w);
    assert(f(s.last()).len() == w);
    assert(f(v).len() == w);
    assert(stream(s, f) == p + f(s.last()));
    if i == n - 1 {
        assert(s.update(i, v).drop_last() =~= s.drop_last());
        assert(s.update(i, v).last() == v);
        assert(w * i == w * (n - 1));
        assert((p + f(s.last())).take(w * i) =~= p);
        assert((p + f(s.last())).skip(w * i + w) =~= Seq::<u32>::empty());
        assert(stream(s.update(i, v), f) =~= p + f(v));
    } else {
        assert(s.update(i, v).drop_last() =~= s.drop_last().update(i, v));
        assert(s.update(i, v).last() == s.last());
        lemma_stream_update(s.drop_last(), f, w, i, v);
        assert(w * i + w <= w * (n - 1)) by (nonlinear_arith)
            requires
                0 <= i < n - 1,
        ;
        assert(0 <= w * i) by (nonlinear_arith)
            requires
                0 <= i,
        ;
        assert((p + f(s.last())).take(w * i) =~= p.take(w * i));
        assert((p + f(s.last())).skip(w * i + w) =~= p.skip(w * i + w) + f(s.last()));
        assert(stream(s.update(i, v), f) =~= p.take(w * i) + f(v) + p.skip(w * i + w) + f(s.last()));
    }
}

/// A stream built by appending one instance's words to the stream of a prefix.
pub proof fn lemma_stream_push(s: Seq<Texture2DInstance>, f: spec_fn(Texture2DInstance) -> Seq<u32>, j: int)
    requires
        0 <= j < s.len(),
    ensures
        stream(s.take(j + 1), f) == stream(s.take(j), f) + f(s[j]),
{
    assert(s.take(j + 1).drop_last() =~= s.take(j));
}

pub open spec fn transform_stream(s: Seq<Texture2DInstance>) -> Seq<u32> {
    stream(s, |x: Texture2DInstance| transform_of(x))
}

pub open spec fn color_stream(s: Seq<Texture2DInstance>) -> Seq<u32> {
    stream(s, |x: Texture2DInstance| color_of(x))
}

pub open spec fn uv_transform_stream(s: Seq<Texture2DInstance>) -> Seq<u32> {
    stream(s, |x: Texture2DInstance| uv_transform_of(x))
}

pub open spec fn extras_stream(s: Seq<Texture2DInstance>) -> Seq<u32> {
    stream(s, |x: Texture2DInstance| extras_of(x))
}

/// A batch of sprites drawn with one instanced call. The order of the
/// instances is their draw order and their index in the GPU streams.
#[derive(Clone, Debug)]
pub enum Texture2DBatch {
    /// Instances are being collected; no GPU buffers exist yet.
    PreLoad { instances: Vec<Texture2DInstance> },
    /// The transform, color and texture-window streams live in `mbo`, `cbo`
    /// and `uvto`.
    Loaded { instances: Vec<Texture2DInstance>, mbo: u32, cbo: u32, uvto: u32 },
    /// The buffers are released; the instances stay for inspection.
    Disposed { instances: Vec<Texture2DInstance> },
}

impl Texture2DBatch {
    pub open spec fn instances(&self) -> Seq<Texture2DInstance> {
        match self {
            Texture2DBatch::PreLoad { instances } => instances@,
            Texture2DBatch::Loaded { instances, .. } => instances@,
            Texture2DBatch::Disposed { instances } => instances@,
        }
    }

    /// A resident batch names three live buffers and fits one instanced draw.
    pub open spec fn wf(&self) -> bool {
        match self {
            Texture2DBatch::Loaded { instances, mbo, cbo, uvto } => *mbo != 0 && *cbo != 0 && *uvto
                != 0 && instances@.len() <= MAX_BATCH_INSTANCES,
            _ => true,
        }
    }

    /// The refusal, if any, that loading into the given buffers meets.
    pub open spec fn load_refusal(self, mbo: u32, cbo: u32, uvto: u32) -> Option<LifecycleError> {
        if !(self is PreLoad) {
            Some(LifecycleError::NotPreLoad)
        } else if mbo == 0 || cbo == 0 || uvto == 0 {
            Some(LifecycleError::NullHandle)
        } else if self.instances().len() > MAX_BATCH_INSTANCES {
            Some(LifecycleError::BufferTooLarge)
        } else {
            None
        }
    }

    /// The state that loading into the given buffers leads to.
    pub open spec fn after_load(self, mbo: u32, cbo: u32, uvto: u32) -> Texture2DBatch {
        match self {
            Texture2DBatch::PreLoad { instances } => if self.load_refusal(mbo, cbo, uvto) is None {
                Texture2DBatch::Loaded { instances, mbo, cbo, uvto }
            } else {
                self
            },
            _ => self,
        }
    }

    /// Whether this batch is what replacing instance `i` of `before` with `v`
    /// leads to: a resident batch keeps its buffers and changes that one
    /// instance; a batch in any other state is left as it was.
    pub open spec fn updated_from(self, before: Texture2DBatch, i: int, v: Texture2DInstance) -> bool {
        match before {
            Texture2DBatch::Loaded { mbo, cbo, uvto, .. } => self matches Texture2DBatch::Loaded {
                mbo: m,
                cbo: c,
                uvto: u,
                ..
            } && m == mbo && c == cbo && u == uvto && self.instances() == before.instances().update(
                i,
                v,
            ),
            _ => self == before,
        }
    }

    /// The refusal, if any, that an update or a disposal meets.
    pub open spec fn resident_refusal(self) -> Option<LifecycleError> {
        match self {
            Texture2DBatch::Loaded { .. } => None,
            Texture2DBatch::Disposed { .. } => Some(LifecycleError::AlreadyDisposed),
            _ => Some(LifecycleError::NotLoaded),
        }
    }

    /// The state that disposal leads to.
    pub open spec fn after_dispose(self) -> Texture2DBatch {
        match self {
            Texture2DBatch::Loaded { instances, .. } => Texture2DBatch::Disposed { instances },
            _ => self,
        }
    }

    /// An empty batch collecting instances.
    pub fn new() -> (r: Texture2DBatch)
        ensures
            r is PreLoad,
            r.instances().len() == 0,
    {
        Texture2DBatch::PreLoad { instances: Vec::new() }
    }

    /// Appends an instance to a batch that is still collecting and returns
    /// the number of instances it then holds. A batch in another state, or
    /// one already holding `MAX_BATCH_INSTANCES`, is left unchanged and
    /// `-1` is returned.
    pub fn add_instance(
        &mut self,
        transform: [u32; 16],
        color: [u32; 4],
        uv_transform: [u32; 4],
        visible: bool,
    ) -> (r: i32)
        ensures
            if *old(self) is PreLoad && old(self).instances().len() < MAX_BATCH_INSTANCES {
                &&& *final(self) is PreLoad
                &&& final(self).instances() == old(self).instances().push(
                    Texture2DInstance { transform, color, uv_transform, visible },
                )
                &&& r == final(self).instances().len()
            } else {
                r == -1 && *final(self) == *old(self)
            },
    {
        match self {
            Texture2DBatch::PreLoad { instances } => {
                if instances.len() >= MAX_BATCH_INSTANCES {
                    return -1;
                }
                instances.push(Texture2DInstance::new(transform, color, uv_transform, visible));
                instances.len() as i32
            },
            _ => -1,
        }
    }

    /// The four per-instance streams of `instances`: sixteen transform words,
    /// four color words, four texture-window words and four extra words per
    /// instance, in instance order.
    pub fn create_buffers(instances: &Vec<Texture2DInstance>) -> (r: (
        Vec<u32>,
        Vec<u32>,
        Vec<u32>,
        Vec<u32>,
    ))
        ensures
            r.0@ == transform_stream(instances@),
            r.1@ == color_stream(instances@),
            r.2@ == uv_transform_stream(instances@),
            r.3@ == extras_stream(instances@),
    {
        let mut transform_buffer: Vec<u32> = Vec::new();
        let mut color_buffer: Vec<u32> = Vec::new();
        let mut uv_transform_buffer: Vec<u32> = Vec::new();
        let mut extras_buffer: Vec<u32> = Vec::new();
        let mut j: usize = 0;
        while j < instances.len()
            invariant
                j <= instances@.len(),
                transform_buffer@ == transform_stream(instances@.take(j as int)),
                color_buffer@ == color_stream(instances@.take(j as int)),
                uv_transform_buffer@ == uv_transform_stream(instances@.take(j as int)),
                extras_buffer@ == extras_stream(instances@.take(j as int)),
            decreases instances@.len() - j,
        {
            let instance = instances[j];
            let extras = instance.create_extras_vec4();
            append_words(&mut transform_buffer, &instance.transform);
            append_words(&mut color_buffer, &instance.color);
            append_words(&mut uv_transform_buffer, &instance.uv_transform);
            append_words(&mut extras_buffer, &extras);
            proof {
                lemma_stream_push(instances@, |x: Texture2DInstance| transform_of(x), j as int);
                lemma_stream_push(instances@, |x: Texture2DInstance| color_of(x), j as int);
                lemma_stream_push(instances@, |x: Texture2DInstance| uv_transform_of(x), j as int);
                lemma_stream_push(instances@, |x: Texture2DInstance| extras_of(x), j as int);
            }
            j = j + 1;
        }
        assert(instances@.take(instances@.len() as int) =~= instances@);
        (transform_buffer, color_buffer, uv_transform_buffer, extras_buffer)
    }
}

/// Appends the words of a fixed-size vector to `buffer`.
fn append_words<const N: usize>(buffer: &mut Vec<u32>, a: &[u32; N])
    ensures
        final(buffer)@ == old(buffer)@ + a@,
{
    let mut i: usize = 0;
    while i < N
        invariant
            i <= N,
            buffer@ == old(buffer)@ + a@.take(i as int),
        decreases N - i,
    {
        buffer.push(a[i]);
        assert(a@.take(i + 1) =~= a@.take(i as int).push(a@[i as int]));
        assert(old(buffer)@ + a@.take(i + 1) =~= (old(buffer)@ + a@.take(i as int)).push(a@[i as int]));
        i = i + 1;
    }
    assert(a@.take(N as int) =~= a@);
}

} // verus!
