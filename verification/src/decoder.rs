use crate::document::{AccessorModel, ComponentType, Document, DocumentModel, Shape};
use crate::elements::{group2, group3, group_pairs, group_triples};
use crate::error::Error;
use crate::word::{read_word, words_at};
use vstd::prelude::*;

verus! {

/// A decoded array. Numbers of single precision are given as their binary32
/// bit patterns.
#[derive(Clone, Debug, PartialEq, Eq)]
pub enum Elements {
    /// Unsigned 32-bit scalars.
    Scalars(Vec<u32>),
    /// Pairs of single-precision numbers.
    Pairs(Vec<[u32; 2]>),
    /// Triples of single-precision numbers.
    Triples(Vec<[u32; 3]>),
}

/// The mathematical content of [`Elements`].
pub ghost enum ElementsModel {
    Scalars(Seq<u32>),
    Pairs(Seq<[u32; 2]>),
    Triples(Seq<[u32; 3]>),
}

impl View for Elements {
    type V = ElementsModel;

    open spec fn view(&self) -> ElementsModel {
        match self {
            Elements::Scalars(v) => ElementsModel::Scalars(v@),
            Elements::Pairs(v) => ElementsModel::Pairs(v@),
            Elements::Triples(v) => ElementsModel::Triples(v@),
        }
    }
}

/// The combinations of component type and shape that can be decoded:
/// single-precision triples and pairs, and unsigned 32-bit scalars.
pub open spec fn supported(component_type: ComponentType, shape: Shape) -> bool {
    ||| component_type == ComponentType::F32 && shape == Shape::Vec3
    ||| component_type == ComponentType::F32 && shape == Shape::Vec2
    ||| component_type == ComponentType::U32 && shape == Shape::Scalar
}

/// Where in the binary chunk the elements of accessor `index` start, or why
/// they cannot be decoded. The checks come in this order:
///
/// 1. the accessor exists (`OutOfBounds`), is not sparse, names a buffer
///    view, and has a supported combination of component type and shape
///    (`UnsupportedFeature`);
/// 2. the buffer view exists (`OutOfBounds`) and its stride is absent or the
///    size of one element (`UnsupportedFeature`);
/// 3. the buffer exists (`OutOfBounds`) and has no URI
///    (`UnsupportedExternalBuffer`);
/// 4. the container has a binary chunk (`MissingBinaryChunk`) and the
///    elements end inside it (`OutOfBounds`).
pub open spec fn locate(doc: DocumentModel, blob_len: int, index: int) -> Result<int, Error> {
    if !(0 <= index < doc.accessors.len()) {
        Err(Error::OutOfBounds)
    } else {
        let a = doc.accessors[index];
        if a.sparse || a.buffer_view is None || !supported(a.component_type, a.shape) {
            Err(Error::UnsupportedFeature)
        } else if a.buffer_view->0 >= doc.buffer_views.len() {
            Err(Error::OutOfBounds)
        } else {
            let v = doc.buffer_views[a.buffer_view->0 as int];
            if v.byte_stride is Some && v.byte_stride->0 != a.element_size() {
                Err(Error::UnsupportedFeature)
            } else if v.buffer >= doc.buffers.len() {
                Err(Error::OutOfBounds)
            } else if doc.buffers[v.buffer as int].uri is Some {
                Err(Error::UnsupportedExternalBuffer)
            } else if blob_len == 0 {
                Err(Error::MissingBinaryChunk)
            } else if v.byte_offset + a.byte_offset + a.byte_len() > blob_len {
                Err(Error::OutOfBounds)
            } else {
                Ok(v.byte_offset + a.byte_offset)
            }
        }
    }
}

/// The `a.count` elements of a supported accessor whose data start at byte
/// `start` of `blob`: consecutive little-endian words, grouped by the arity
/// of the shape.
pub open spec fn elements_at(blob: Seq<u8>, start: int, a: AccessorModel) -> ElementsModel {
    if a.shape == Shape::Vec3 {
        ElementsModel::Triples(group3(words_at(blob, start, 3 * a.count)))
    } else if a.shape == Shape::Vec2 {
        ElementsModel::Pairs(group2(words_at(blob, start, 2 * a.count)))
    } else {
        ElementsModel::Scalars(words_at(blob, start, a.count as int))
    }
}

/// What decoding accessor `index` of `doc` against `blob` gives.
pub open spec fn decode_spec(doc: DocumentModel, blob: Seq<u8>, index: int) -> Result<
    ElementsModel,
    Error,
> {
    match locate(doc, blob.len() as int, index) {
        Ok(start) => Ok(elements_at(blob, start, doc.accessors[index])),
        Err(e) => Err(e),
    }
}

/// The number of elements in a decoded array.
pub open spec fn element_count(e: ElementsModel) -> nat {
    match e {
        ElementsModel::Scalars(s) => s.len(),
        ElementsModel::Pairs(s) => s.len(),
        ElementsModel::Triples(s) => s.len(),
    }
}

/// A decoded array has exactly as many elements as its accessor counts.
pub proof fn lemma_decode_count(doc: DocumentModel, blob: Seq<u8>, index: int)
    requires
        decode_spec(doc, blob, index) is Ok,
    ensures
        element_count(decode_spec(doc, blob, index)->Ok_0) == doc.accessors[index].count,
{
}

/// The `n` little-endian words that start at byte `start` of `s`.
pub fn read_words(s: &[u8], start: usize, n: usize) -> (out: Vec<u32>)
    requires
        start + 4 * n <= s@.len(),
    ensures
        out@ == words_at(s@, start as int, n as int),
{
    let total: usize = s.len();
    let mut out: Vec<u32> = Vec::new();
    let mut k: usize = 0;
    while k < n
        invariant
            k <= n,
            start + 4 * n <= s@.len() == total,
            out@.len() == k,
            forall|j: int| 0 <= j < k ==> out@[j] == words_at(s@, start as int, n as int)[j],
        decreases n - k,
    {
        out.push(read_word(s, start + 4 * k));
        k += 1;
    }
    assert(out@ =~= words_at(s@, start as int, n as int));
    out
}

/// Where the elements of accessor `index` start in a binary chunk of
/// `blob_len` bytes.
pub fn locate_accessor(doc: &Document, blob_len: usize, index: usize) -> (r: Result<usize, Error>)
    ensures
        match locate(doc@, blob_len as int, index as int) {
            Ok(start) => r == Ok::<usize, Error>(start as usize) && start + doc@.accessors[index as int].byte_len()
                <= blob_len,
            Err(e) => r == Err::<usize, Error>(e),
        },
{
    if index >= doc.accessors.len() {
        return Err(Error::OutOfBounds);
    }
    let a = &doc.accessors[index];
    assert(doc@.accessors[index as int] == a@);
    if a.sparse {
        return Err(Error::UnsupportedFeature);
    }
    let view_index: usize = match a.buffer_view {
        Some(v) => v as usize,
        None => {
            return Err(Error::UnsupportedFeature);
        },
    };
    let size: u64 = match (a.component_type, a.shape) {
        (ComponentType::F32, Shape::Vec3) => 12,
        (ComponentType::F32, Shape::Vec2) => 8,
        (ComponentType::U32, Shape::Scalar) => 4,
        _ => {
            return Err(Error::UnsupportedFeature);
        },
    };
    assert(size == a@.element_size());
    if view_index >= doc.buffer_views.len() {
        return Err(Error::OutOfBounds);
    }
    let v = &doc.buffer_views[view_index];
    match v.byte_stride {
        Some(stride) => {
            if stride as u64 != size {
                return Err(Error::UnsupportedFeature);
            }
        },
        None => {},
    }
    let buffer_index: usize = v.buffer as usize;
    if buffer_index >= doc.buffers.len() {
        return Err(Error::OutOfBounds);
    }
    let buffer = &doc.buffers[buffer_index];
    assert(doc@.buffers[buffer_index as int] == buffer@);
    if buffer.uri.is_some() {
        return Err(Error::UnsupportedExternalBuffer);
    }
    if blob_len == 0 {
        return Err(Error::MissingBinaryChunk);
    }
    let start: u64 = v.byte_offset as u64 + a.byte_offset as u64;
    let len: u64 = a.count as u64 * size;
    if start + len > blob_len as u64 {
        return Err(Error::OutOfBounds);
    }
    Ok(start as usize)
}

/// Decodes the elements of accessor `index` out of the binary chunk `blob`.
///
/// Returns exactly `count` elements in the order in which they lie in the
/// chunk, each component read as a little-endian word. Single-precision
/// triples and pairs and unsigned 32-bit scalars are decoded; every other
/// combination is refused with `UnsupportedFeature`. See [`locate`] for the
/// other errors and their order.
pub fn decode(doc: &Document, blob: &[u8], index: usize) -> (r: Result<Elements, Error>)
    ensures
        match decode_spec(doc@, blob@, index as int) {
            Ok(e) => r is Ok && r->Ok_0@ == e,
            Err(e) => r == Err::<Elements, Error>(e),
        },
{
    let start: usize = match locate_accessor(doc, blob.len(), index) {
        Ok(start) => start,
        Err(e) => {
            return Err(e);
        },
    };
    let a = &doc.accessors[index];
    assert(doc@.accessors[index as int] == a@);
    let count: usize = a.count as usize;
    match a.shape {
        Shape::Vec3 => {
            assert(a@.component_type.spec_size() == 4 && a@.shape.spec_arity() == 3);
            assert(a@.byte_len() == a.count * 12);
            let ws = read_words(blob, start, 3 * count);
            Ok(Elements::Triples(group_triples(ws.as_slice())))
        },
        Shape::Vec2 => {
            assert(a@.component_type.spec_size() == 4 && a@.shape.spec_arity() == 2);
            assert(a@.byte_len() == a.count * 8);
            let ws = read_words(blob, start, 2 * count);
            Ok(Elements::Pairs(group_pairs(ws.as_slice())))
        },
        _ => {
            assert(a@.component_type.spec_size() == 4 && a@.shape.spec_arity() == 1);
            assert(a@.byte_len() == a.count * 4);
            Ok(Elements::Scalars(read_words(blob, start, count)))
        },
    }
}

} // verus!
