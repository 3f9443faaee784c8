use vstd::prelude::*;

verus! {

/// Names one buffer on the graphics device.
#[derive(Clone, Copy, Debug, PartialEq, Eq, Structural)]
pub struct BufferId(pub u64);

/// Names one bind group (a compiled material) on the graphics device.
#[derive(Clone, Copy, Debug, PartialEq, Eq, Structural)]
pub struct BindGroupId(pub u64);

/// What a buffer may be used for once it exists.
#[derive(Clone, Copy, Debug, PartialEq, Eq, Structural)]
pub enum BufferUsage {
    /// Read as vertex data only; its contents can never be rewritten.
    Vertex,
    /// Read as index data only.
    Index,
    /// Read as vertex data and open to later writes.
    VertexCopyDst,
}

impl BufferUsage {
    /// The usage an instance buffer is created with: open to later writes
    /// exactly when the batch is going to be updated.
    pub open spec fn for_instances(is_updating: bool) -> BufferUsage {
        if is_updating {
            BufferUsage::VertexCopyDst
        } else {
            BufferUsage::Vertex
        }
    }

    /// The usage an instance buffer is created with.
    pub fn instance_usage(is_updating: bool) -> (usage: BufferUsage)
        ensures
            usage == BufferUsage::for_instances(is_updating),
    {
        if is_updating {
            BufferUsage::VertexCopyDst
        } else {
            BufferUsage::Vertex
        }
    }

    /// Whether a buffer with this usage accepts writes after its creation.
    pub open spec fn writable(self) -> bool {
        self == BufferUsage::VertexCopyDst
    }

    /// Whether a buffer with this usage accepts writes after its creation.
    pub fn is_writable(&self) -> (writable: bool)
        ensures
            writable == self.writable(),
    {
        match self {
            BufferUsage::VertexCopyDst => true,
            _ => false,
        }
    }
}

/// A request to create a buffer holding `contents`, 32-bit words in buffer order.
#[derive(Debug)]
pub struct BufferInit {
    pub buffer: BufferId,
    pub contents: Vec<u32>,
    pub usage: BufferUsage,
}

/// A request to overwrite a buffer with `contents`, starting `offset` bytes in.
#[derive(Debug)]
pub struct BufferWrite {
    pub buffer: BufferId,
    pub offset: u64,
    pub contents: Vec<u32>,
}

/// The four bytes of a word, least significant first.
pub open spec fn word_le(word: u32) -> Seq<u8> {
    seq![
        (word % 256) as u8,
        (word / 256 % 256) as u8,
        (word / 65536 % 256) as u8,
        (word / 16777216) as u8,
    ]
}

/// The bytes of a list of words, word after word, each word least
/// significant byte first or, where `big_endian` is set, most
/// significant byte first.
pub open spec fn word_bytes(words: Seq<u32>, big_endian: bool) -> Seq<u8>
    decreases words.len(),
{
    if words.len() == 0 {
        Seq::empty()
    } else {
        word_bytes(words.drop_last(), big_endian) + if big_endian {
            word_le(words.last()).reverse()
        } else {
            word_le(words.last())
        }
    }
}

/// `bytemuck::cast_slice` from words to bytes: the memory of the words
/// read as bytes, a cast that cannot fail. Every word gives four bytes,
/// in the byte order of the machine, which is the same for all of them.
#[verifier::external_body]
fn cast_words(words: &Vec<u32>) -> (bytes: Vec<u8>)
    ensures
        bytes@.len() == 4 * words@.len(),
        bytes@ == word_bytes(words@, false) || bytes@ == word_bytes(words@, true),
{
    bytemuck::cast_slice::<u32, u8>(words.as_slice()).to_vec()
}

impl BufferInit {
    /// The contents as the bytes that are handed to the device, in the
    /// byte order of the machine.
    pub fn bytes(&self) -> (bytes: Vec<u8>)
        ensures
            bytes@.len() == 4 * self.contents@.len(),
            bytes@ == word_bytes(self.contents@, false) || bytes@ == word_bytes(
                self.contents@,
                true,
            ),
    {
        cast_words(&self.contents)
    }
}

impl BufferWrite {
    /// The contents as the bytes that are handed to the device, in the
    /// byte order of the machine.
    pub fn bytes(&self) -> (bytes: Vec<u8>)
        ensures
            bytes@.len() == 4 * self.contents@.len(),
            bytes@ == word_bytes(self.contents@, false) || bytes@ == word_bytes(
                self.contents@,
                true,
            ),
    {
        cast_words(&self.contents)
    }
}

/// Whether a vertex buffer advances once per vertex or once per instance.
#[derive(Clone, Copy, Debug, PartialEq, Eq, Structural)]
pub enum VertexStepMode {
    Vertex,
    Instance,
}

/// The shape of one vertex attribute.
#[derive(Clone, Copy, Debug, PartialEq, Eq, Structural)]
pub enum VertexFormat {
    /// Two single-precision numbers.
    Float32x2,
    /// Three single-precision numbers.
    Float32x3,
    /// Four single-precision numbers.
    Float32x4,
    /// One unsigned 32-bit number.
    Uint32,
}

/// One attribute of a vertex buffer: where in an element it starts, the
/// shader location it feeds, and its shape.
#[derive(Clone, Copy, Debug, PartialEq, Eq, Structural)]
pub struct VertexAttribute {
    pub offset: u64,
    pub shader_location: u32,
    pub format: VertexFormat,
}

/// How the elements of a vertex buffer are laid out.
#[derive(Debug)]
pub struct VertexBufferLayout {
    /// Bytes from one element to the next.
    pub array_stride: u64,
    pub step_mode: VertexStepMode,
    pub attributes: Vec<VertexAttribute>,
}

impl VertexFormat {
    /// Bytes an attribute of this shape occupies.
    pub open spec fn size(self) -> nat {
        match self {
            VertexFormat::Float32x2 => 8,
            VertexFormat::Float32x3 => 12,
            VertexFormat::Float32x4 => 16,
            VertexFormat::Uint32 => 4,
        }
    }

    /// Bytes an attribute of this shape occupies.
    pub fn byte_size(&self) -> (bytes: u64)
        ensures
            bytes == self.size(),
    {
        match self {
            VertexFormat::Float32x2 => 8,
            VertexFormat::Float32x3 => 12,
            VertexFormat::Float32x4 => 16,
            VertexFormat::Uint32 => 4,
        }
    }
}

/// Bytes that attributes of the given shapes occupy, one after the other.
pub open spec fn packed_size(formats: Seq<VertexFormat>) -> nat
    decreases formats.len(),
{
    if formats.len() == 0 {
        0
    } else {
        packed_size(formats.drop_last()) + formats.last().size()
    }
}

/// The attributes of the given shapes laid out without gaps: each starts
/// where the one before it ends, and they feed consecutive shader
/// locations from `first_location` on.
pub open spec fn packed(formats: Seq<VertexFormat>, first_location: u32) -> Seq<VertexAttribute> {
    Seq::new(
        formats.len(),
        |i: int|
            VertexAttribute {
                offset: packed_size(formats.take(i)) as u64,
                shader_location: (first_location + i) as u32,
                format: formats[i],
            },
    )
}

/// Attributes occupy at most sixteen bytes each.
pub proof fn lemma_packed_size_bound(formats: Seq<VertexFormat>)
    ensures
        packed_size(formats) <= 16 * formats.len(),
    decreases formats.len(),
{
    if formats.len() > 0 {
        lemma_packed_size_bound(formats.drop_last());
    }
}

impl VertexBufferLayout {
    /// The layout of elements that hold attributes of the given shapes
    /// and nothing else, without gaps.
    pub fn tightly_packed(formats: &Vec<VertexFormat>, first_location: u32, step_mode: VertexStepMode)
        -> (layout: VertexBufferLayout)
        requires
            first_location + formats@.len() <= u32::MAX,
            16 * formats@.len() <= u64::MAX,
        ensures
            layout.array_stride == packed_size(formats@),
            layout.step_mode == step_mode,
            layout.attributes@ == packed(formats@, first_location),
    {
        let mut attributes: Vec<VertexAttribute> = Vec::new();
        let mut offset: u64 = 0;
        let mut i: usize = 0;
        while i < formats.len()
            invariant
                i <= formats@.len(),
                first_location + formats@.len() <= u32::MAX,
                16 * formats@.len() <= u64::MAX,
                offset == packed_size(formats@.take(i as int)),
                attributes@ == packed(formats@, first_location).take(i as int),
            decreases formats@.len() - i,
        {
            proof {
                assert(formats@.take(i + 1).drop_last() =~= formats@.take(i as int));
                lemma_packed_size_bound(formats@.take(i + 1));
            }
            attributes.push(
                VertexAttribute {
                    offset,
                    shader_location: first_location + i as u32,
                    format: formats[i],
                },
            );
            offset = offset + formats[i].byte_size();
            i += 1;
            assert(attributes@ =~= packed(formats@, first_location).take(i as int));
        }
        proof {
            assert(formats@.take(i as int) =~= formats@);
            assert(packed(formats@, first_location).take(i as int) =~= packed(
                formats@,
                first_location,
            ));
        }
        VertexBufferLayout { array_stride: offset, step_mode, attributes }
    }
}

} // verus!
