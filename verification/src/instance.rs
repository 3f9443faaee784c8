use crate::arena::Arena;
use crate::assets::AssetServer;
use crate::gpu::{
    packed_size, BufferWrite, VertexAttribute, VertexBufferLayout, VertexFormat, VertexStepMode,
};
use crate::handle::{ArenaError, Handle};
use vstd::prelude::*;

verus! {

/// A column-major 4x4 matrix, each entry an IEEE-754 single-precision bit pattern.
pub type Matrix = [[u32; 4]; 4];

/// Bit pattern of the single-precision number one.
pub const ONE: u32 = 0x3F80_0000;

/// Number of 32-bit words one raw instance occupies in an instance buffer.
pub const RAW_WORDS: usize = 21;

/// One placed copy of a mesh.
///
/// Position, rotation and colour are carried as IEEE-754 single-precision bit
/// patterns; the arena moves them around but never computes with them.
#[derive(Clone, Copy, Debug, PartialEq, Eq)]
pub struct Instance {
    pub position: [u32; 3],
    pub rotation: [u32; 4],
    pub color: [u32; 4],
    pub is_world_space: bool,
    pub prefab_index: Handle,
    pub enabled: bool,
}

/// The tightly packed form of an instance that is written to an instance buffer.
#[derive(Clone, Copy, Debug, PartialEq, Eq)]
pub struct InstanceRaw {
    pub model: Matrix,
    pub color: [u32; 4],
    pub is_world_space: u32,
}

impl InstanceRaw {
    /// The raw instance with the given model matrix and colour, and the
    /// world-space flag packed as 1 or 0.
    pub open spec fn pack(model: Matrix, color: [u32; 4], is_world_space: bool) -> InstanceRaw {
        InstanceRaw { model, color, is_world_space: if is_world_space { 1u32 } else { 0u32 } }
    }

    /// Packs a model matrix, a colour and the world-space flag.
    pub fn new(model: Matrix, color: [u32; 4], is_world_space: bool) -> (raw: InstanceRaw)
        ensures
            raw == InstanceRaw::pack(model, color, is_world_space),
    {
        InstanceRaw { model, color, is_world_space: if is_world_space { 1 } else { 0 } }
    }

    /// The shapes of the attributes of a raw instance, in buffer order:
    /// the four matrix columns, the colour, the world-space flag.
    pub open spec fn formats() -> Seq<VertexFormat> {
        seq![
            VertexFormat::Float32x4,
            VertexFormat::Float32x4,
            VertexFormat::Float32x4,
            VertexFormat::Float32x4,
            VertexFormat::Float32x4,
            VertexFormat::Uint32,
        ]
    }

    /// The attributes of a raw instance: tightly packed, feeding the
    /// shader locations from 5 on.
    pub open spec fn attributes() -> Seq<VertexAttribute> {
        seq![
            VertexAttribute { offset: 0, shader_location: 5, format: VertexFormat::Float32x4 },
            VertexAttribute { offset: 16, shader_location: 6, format: VertexFormat::Float32x4 },
            VertexAttribute { offset: 32, shader_location: 7, format: VertexFormat::Float32x4 },
            VertexAttribute { offset: 48, shader_location: 8, format: VertexFormat::Float32x4 },
            VertexAttribute { offset: 64, shader_location: 9, format: VertexFormat::Float32x4 },
            VertexAttribute { offset: 80, shader_location: 10, format: VertexFormat::Uint32 },
        ]
    }

    /// How raw instances lie in an instance buffer: one per instance,
    /// `RAW_WORDS` words apart, the attributes without gaps.
    pub fn desc() -> (layout: VertexBufferLayout)
        ensures
            layout.array_stride == 4 * RAW_WORDS,
            layout.array_stride == packed_size(InstanceRaw::formats()),
            layout.step_mode == VertexStepMode::Instance,
            layout.attributes@ == InstanceRaw::attributes(),
    {
        let mut formats: Vec<VertexFormat> = Vec::new();
        formats.push(VertexFormat::Float32x4);
        formats.push(VertexFormat::Float32x4);
        formats.push(VertexFormat::Float32x4);
        formats.push(VertexFormat::Float32x4);
        formats.push(VertexFormat::Float32x4);
        formats.push(VertexFormat::Uint32);
        let layout = VertexBufferLayout::tightly_packed(&formats, 5, VertexStepMode::Instance);
        proof {
            let all = InstanceRaw::formats();
            assert(formats@ =~= all);
            assert(all.take(0) =~= Seq::<VertexFormat>::empty());
            assert(all.take(1).drop_last() =~= all.take(0));
            assert(all.take(2).drop_last() =~= all.take(1));
            assert(all.take(3).drop_last() =~= all.take(2));
            assert(all.take(4).drop_last() =~= all.take(3));
            assert(all.take(5).drop_last() =~= all.take(4));
            assert(all.drop_last() =~= all.take(5));
            assert(packed_size(all.take(0)) == 0);
            assert(packed_size(all.take(1)) == 16);
            assert(packed_size(all.take(2)) == 32);
            assert(packed_size(all.take(3)) == 48);
            assert(packed_size(all.take(4)) == 64);
            assert(packed_size(all.take(5)) == 80);
            assert(packed_size(all) == 84);
            assert(layout.attributes@ =~= InstanceRaw::attributes());
        }
        layout
    }

    /// The words of this raw instance in buffer order: the four matrix
    /// columns, the colour, the world-space flag.
    pub open spec fn words(self) -> Seq<u32> {
        self.model[0]@ + self.model[1]@ + self.model[2]@ + self.model[3]@ + self.color@
            + seq![self.is_world_space]
    }

    /// Appends this raw instance to `out` in buffer order.
    pub fn write_words(&self, out: &mut Vec<u32>)
        ensures
            final(out)@ == old(out)@ + self.words(),
    {
        let ghost before = out@;
        let mut col: usize = 0;
        while col < 4
            invariant
                col <= 4,
                out@.len() == before.len() + 4 * col,
                forall|i: int| 0 <= i < before.len() ==> out@[i] == before[i],
                forall|c: int, r: int|
                    0 <= c < col && 0 <= r < 4 ==> out@[before.len() + 4 * c + r]
                        == #[trigger] self.model[c][r],
            decreases 4 - col,
        {
            let column = self.model[col];
            out.push(column[0]);
            out.push(column[1]);
            out.push(column[2]);
            out.push(column[3]);
            col += 1;
        }
        out.push(self.color[0]);
        out.push(self.color[1]);
        out.push(self.color[2]);
        out.push(self.color[3]);
        out.push(self.is_world_space);
        assert(out@ =~= before + self.words());
    }
}

impl Instance {
    /// The instance every new instance starts from: at the origin, not
    /// rotated, white, in world space, enabled, belonging to no batch.
    pub open spec fn initial() -> Instance {
        Instance {
            position: [0u32, 0u32, 0u32],
            rotation: [0u32, 0u32, 0u32, ONE],
            color: [ONE, ONE, ONE, ONE],
            is_world_space: true,
            prefab_index: Handle::unassigned(),
            enabled: true,
        }
    }

    /// What `to_raw` yields for this instance and its model matrix.
    pub open spec fn raw(self, model: Matrix) -> Option<InstanceRaw> {
        if self.enabled {
            Some(InstanceRaw::pack(model, self.color, self.is_world_space))
        } else {
            None
        }
    }

    /// The raw form of this instance, or nothing when it is disabled.
    ///
    /// `model` is the instance's model matrix, the rotation followed by the
    /// translation to its position, computed by the caller.
    pub fn to_raw(&self, model: Matrix) -> (raw: Option<InstanceRaw>)
        ensures
            raw == self.raw(model),
    {
        if self.enabled {
            Some(InstanceRaw::new(model, self.color, self.is_world_space))
        } else {
            None
        }
    }

    /// Rewrites the batch this instance belongs to with `instances`.
    ///
    /// On success the batch counts `instances.len()` live instances and the
    /// returned request, once performed, puts them at the start of the
    /// batch's buffer. The update is refused, and nothing changes, when the
    /// instance's handle names no live batch, when the batch was created
    /// static, or when there are more instances than its buffer holds.
    pub fn update(&self, instances: Vec<InstanceRaw>, server: &mut AssetServer) -> (result: Result<
        BufferWrite,
        ArenaError,
    >)
        requires
            old(server).wf(),
        ensures
            final(server).wf(),
            final(server).same_assets(old(server)),
            match result {
                Ok(write) => old(server).arena().updated(
                    final(server).arena(),
                    self.prefab_index,
                    instances@.len() as u32,
                ) && write.buffer == old(server).arena().prefab(self.prefab_index).buffer
                    && write.offset == 0 && write.contents@ == batch_words(instances@),
                Err(error) => old(server).arena().update_refusal(
                    self.prefab_index,
                    instances@.len(),
                ) == Some(error) && final(server).arena() == old(server).arena(),
            },
    {
        server.update(self.prefab_index, &instances)
    }

    /// The x and y of the position.
    pub fn pos_2d(&self) -> (xy: [u32; 2])
        ensures
            xy@ == seq![self.position[0], self.position[1]],
    {
        let xy = [self.position[0], self.position[1]];
        assert(xy@ =~= seq![self.position[0], self.position[1]]);
        xy
    }

    /// The position.
    pub fn pos(&self) -> (xyz: [u32; 3])
        ensures
            xyz == self.position,
    {
        self.position
    }
}

/// Number of enabled instances in a list.
pub open spec fn live_count(instances: Seq<Instance>) -> nat
    decreases instances.len(),
{
    if instances.len() == 0 {
        0
    } else {
        live_count(instances.drop_last()) + if instances.last().enabled {
            1nat
        } else {
            0nat
        }
    }
}

/// The raw forms of the enabled instances of a list, in the list's order;
/// `models[i]` is the model matrix of `instances[i]`.
pub open spec fn raw_batch(instances: Seq<Instance>, models: Seq<Matrix>) -> Seq<InstanceRaw>
    decreases instances.len(),
{
    if instances.len() == 0 {
        Seq::empty()
    } else {
        let rest = raw_batch(instances.drop_last(), models.drop_last());
        match instances.last().raw(models.last()) {
            Some(raw) => rest.push(raw),
            None => rest,
        }
    }
}

/// The words of a list of raw instances, one instance after the other.
pub open spec fn batch_words(raws: Seq<InstanceRaw>) -> Seq<u32>
    decreases raws.len(),
{
    if raws.len() == 0 {
        Seq::empty()
    } else {
        batch_words(raws.drop_last()) + raws.last().words()
    }
}

/// A batch holds exactly one raw instance per enabled instance.
pub proof fn lemma_raw_batch_len(instances: Seq<Instance>, models: Seq<Matrix>)
    requires
        models.len() == instances.len(),
    ensures
        raw_batch(instances, models).len() == live_count(instances),
        live_count(instances) <= instances.len(),
    decreases instances.len(),
{
    if instances.len() > 0 {
        lemma_raw_batch_len(instances.drop_last(), models.drop_last());
    }
}

/// Every raw instance of a batch is the raw form of an enabled instance of
/// the list, and the batch keeps the list's order.
pub proof fn lemma_raw_batch_sources(instances: Seq<Instance>, models: Seq<Matrix>) -> (source: Seq<
    int,
>)
    requires
        models.len() == instances.len(),
    ensures
        source.len() == raw_batch(instances, models).len(),
        forall|j: int|
            0 <= j < source.len() ==> 0 <= #[trigger] source[j] < instances.len()
                && instances[source[j]].enabled && Some(raw_batch(instances, models)[j])
                == instances[source[j]].raw(models[source[j]]),
        forall|j: int, k: int| 0 <= j < k < source.len() ==> source[j] < source[k],
        forall|i: int|
            0 <= i < instances.len() && instances[i].enabled ==> exists|j: int|
                0 <= j < source.len() && source[j] == i,
    decreases instances.len(),
{
    if instances.len() == 0 {
        Seq::empty()
    } else {
        let head = instances.drop_last();
        let rest = lemma_raw_batch_sources(head, models.drop_last());
        let last = instances.len() - 1;
        if instances.last().enabled {
            let source = rest.push(last);
            assert forall|i: int| 0 <= i < instances.len() && instances[i].enabled implies exists|
                j: int,
            |
                0 <= j < source.len() && source[j] == i by {
                if i == last {
                    assert(source[source.len() - 1] == i);
                } else {
                    assert(head[i].enabled);
                    let j = choose|j: int| 0 <= j < rest.len() && rest[j] == i;
                    assert(source[j] == i);
                }
            }
            source
        } else {
            assert forall|i: int| 0 <= i < instances.len() && instances[i].enabled implies exists|
                j: int,
            |
                0 <= j < rest.len() && rest[j] == i by {
                assert(head[i].enabled);
            }
            rest
        }
    }
}

/// An update uploads exactly the enabled instances: after a batch was
/// rewritten with the raw forms of a list of instances, it counts as many
/// live instances as the list has enabled ones, and the words written are
/// those of the enabled instances alone.
pub proof fn lemma_update_counts_enabled(
    pre: Arena,
    post: Arena,
    handle: Handle,
    instances: Seq<Instance>,
    models: Seq<Matrix>,
    count: u32,
)
    requires
        models.len() == instances.len(),
        count == raw_batch(instances, models).len(),
        pre.updated(post, handle, count),
    ensures
        post.live(handle),
        post.prefab(handle).length == live_count(instances),
        batch_words(raw_batch(instances, models)).len() == RAW_WORDS * live_count(instances),
{
    lemma_raw_batch_len(instances, models);
    lemma_batch_words_len(raw_batch(instances, models));
}

/// A batch occupies `RAW_WORDS` words per raw instance.
pub proof fn lemma_batch_words_len(raws: Seq<InstanceRaw>)
    ensures
        batch_words(raws).len() == RAW_WORDS * raws.len(),
    decreases raws.len(),
{
    if raws.len() > 0 {
        lemma_batch_words_len(raws.drop_last());
    }
}

/// Converts the enabled instances of a list to their raw forms, dropping
/// the disabled ones. `models[i]` is the model matrix of `instances[i]`.
pub fn to_raw_batch(instances: &Vec<Instance>, models: &Vec<Matrix>) -> (raws: Vec<InstanceRaw>)
    requires
        models@.len() == instances@.len(),
    ensures
        raws@ == raw_batch(instances@, models@),
        raws@.len() == live_count(instances@),
        raws@.len() <= instances@.len(),
{
    let mut raws: Vec<InstanceRaw> = Vec::new();
    let mut i: usize = 0;
    while i < instances.len()
        invariant
            i <= instances@.len(),
            models@.len() == instances@.len(),
            raws@ == raw_batch(instances@.take(i as int), models@.take(i as int)),
        decreases instances@.len() - i,
    {
        proof {
            assert(instances@.take(i + 1).drop_last() =~= instances@.take(i as int));
            assert(models@.take(i + 1).drop_last() =~= models@.take(i as int));
        }
        match instances[i].to_raw(models[i]) {
            Some(raw) => raws.push(raw),
            None => {},
        }
        i += 1;
    }
    proof {
        assert(instances@.take(i as int) =~= instances@);
        assert(models@.take(i as int) =~= models@);
        lemma_raw_batch_len(instances@, models@);
    }
    raws
}

/// The layout and the buffer order agree: each attribute of a raw
/// instance lies in the instance's words at the offset the layout gives
/// it, and spans the bytes of its shape.
pub proof fn lemma_layout_matches_words(raw: InstanceRaw, attribute: int)
    requires
        0 <= attribute < 6,
    ensures
        raw.words().len() == RAW_WORDS,
        raw.words().subrange(
            InstanceRaw::attributes()[attribute].offset as int / 4,
            InstanceRaw::attributes()[attribute].offset as int / 4
                + InstanceRaw::attributes()[attribute].format.size() as int / 4,
        ) == if attribute < 4 {
            raw.model[attribute]@
        } else if attribute == 4 {
            raw.color@
        } else {
            seq![raw.is_world_space]
        },
{
    let words = raw.words();
    if attribute == 0 {
        assert(words.subrange(0, 4) =~= raw.model[0]@);
    } else if attribute == 1 {
        assert(words.subrange(4, 8) =~= raw.model[1]@);
    } else if attribute == 2 {
        assert(words.subrange(8, 12) =~= raw.model[2]@);
    } else if attribute == 3 {
        assert(words.subrange(12, 16) =~= raw.model[3]@);
    } else if attribute == 4 {
        assert(words.subrange(16, 20) =~= raw.color@);
    } else {
        assert(words.subrange(20, 21) =~= seq![raw.is_world_space]);
    }
}

/// `count` words that are all zero.
pub open spec fn zeros(count: nat) -> Seq<u32> {
    Seq::new(count, |i: int| 0u32)
}

/// The words of an instance buffer allocated for `capacity` instances
/// that holds the given raw instances: their words, then zeros up to
/// the buffer's size.
pub open spec fn allocation_words(raws: Seq<InstanceRaw>, capacity: nat) -> Seq<u32> {
    batch_words(raws) + zeros((RAW_WORDS * (capacity - raws.len())) as nat)
}

/// Lays a list of raw instances out as the words of an instance buffer
/// that has room for `capacity` instances.
pub fn padded_words(raws: &Vec<InstanceRaw>, capacity: usize) -> (words: Vec<u32>)
    requires
        raws@.len() <= capacity,
    ensures
        words@ == allocation_words(raws@, capacity as nat),
        words@.len() == RAW_WORDS * capacity,
{
    let mut words = raw_words(raws);
    let mut filled: usize = raws.len();
    while filled < capacity
        invariant
            raws@.len() <= filled <= capacity,
            words@ == allocation_words(raws@, filled as nat),
        decreases capacity - filled,
    {
        let mut word: usize = 0;
        while word < RAW_WORDS
            invariant
                raws@.len() <= filled < capacity,
                word <= RAW_WORDS,
                words@ == batch_words(raws@) + zeros(
                    (RAW_WORDS * (filled - raws@.len()) + word) as nat,
                ),
            decreases RAW_WORDS - word,
        {
            words.push(0);
            word += 1;
            assert(words@ =~= batch_words(raws@) + zeros(
                (RAW_WORDS * (filled - raws@.len()) + word) as nat,
            ));
        }
        filled += 1;
    }
    proof {
        lemma_batch_words_len(raws@);
    }
    words
}

/// Lays a list of raw instances out as the words of an instance buffer.
pub fn raw_words(raws: &Vec<InstanceRaw>) -> (words: Vec<u32>)
    ensures
        words@ == batch_words(raws@),
        words@.len() == RAW_WORDS * raws@.len(),
{
    let mut words: Vec<u32> = Vec::new();
    let mut i: usize = 0;
    while i < raws.len()
        invariant
            i <= raws@.len(),
            words@ == batch_words(raws@.take(i as int)),
        decreases raws@.len() - i,
    {
        proof {
            assert(raws@.take(i + 1).drop_last() =~= raws@.take(i as int));
        }
        raws[i].write_words(&mut words);
        i += 1;
    }
    proof {
        assert(raws@.take(i as int) =~= raws@);
        lemma_batch_words_len(raws@);
    }
    words
}

impl Default for Instance {
    fn default() -> (instance: Instance)
        ensures
            instance == Instance::initial(),
    {
        Instance {
            position: [0, 0, 0],
            rotation: [0, 0, 0, ONE],
            color: [ONE, ONE, ONE, ONE],
            is_world_space: true,
            prefab_index: Handle::none(),
            enabled: true,
        }
    }
}

} // verus!
