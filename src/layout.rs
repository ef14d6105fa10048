//! Byte layout of the interleaved vertex record shared by every mesh.
//!
//! A vertex is stored as position (4 floats), normal (4 floats), texture
//! coordinate (2 floats), shininess (1 float) and specular colour (4 bytes),
//! packed in that order without padding. The shader reads each attribute at
//! the offset given here, with the whole record as stride.
use vstd::prelude::*;

verus! {

/// Bytes taken by one single-precision float component.
pub const FLOAT_BYTES: usize = 4;

/// Bytes taken by one 16-bit element index.
pub const INDEX_BYTES: usize = 2;

/// Bytes of one whole vertex record.
pub const VERTEX_STRIDE: usize = 48;

/// The attributes of a vertex, in storage order.
#[derive(Clone, Copy, Debug, PartialEq, Eq, Structural)]
pub enum Attribute {
    Position,
    Normal,
    Texcoord,
    Shininess,
    Specular,
}

/// The scalar type in which an attribute is stored.
#[derive(Clone, Copy, Debug, PartialEq, Eq, Structural)]
pub enum ComponentType {
    Float,
    UnsignedByte,
}

/// Rank of an attribute in storage order.
pub open spec fn spec_rank(a: Attribute) -> nat {
    match a {
        Attribute::Position => 0,
        Attribute::Normal => 1,
        Attribute::Texcoord => 2,
        Attribute::Shininess => 3,
        Attribute::Specular => 4,
    }
}

/// Number of components stored for an attribute.
pub open spec fn spec_stored_components(a: Attribute) -> nat {
    match a {
        Attribute::Position => 4,
        Attribute::Normal => 4,
        Attribute::Texcoord => 2,
        Attribute::Shininess => 1,
        Attribute::Specular => 4,
    }
}

/// Number of components the shader reads from an attribute: the `w` of
/// position and normal is stored but not read.
pub open spec fn spec_read_components(a: Attribute) -> nat {
    match a {
        Attribute::Position => 3,
        Attribute::Normal => 3,
        Attribute::Texcoord => 2,
        Attribute::Shininess => 1,
        Attribute::Specular => 4,
    }
}

pub open spec fn spec_component_type(a: Attribute) -> ComponentType {
    match a {
        Attribute::Specular => ComponentType::UnsignedByte,
        _ => ComponentType::Float,
    }
}

pub open spec fn spec_component_bytes(c: ComponentType) -> nat {
    match c {
        ComponentType::Float => 4,
        ComponentType::UnsignedByte => 1,
    }
}

/// Bytes an attribute occupies in the record.
pub open spec fn spec_attribute_bytes(a: Attribute) -> nat {
    spec_stored_components(a) * spec_component_bytes(spec_component_type(a))
}

/// Offset of an attribute: the bytes of all attributes stored before it.
pub open spec fn spec_attribute_offset(a: Attribute) -> nat {
    let pos = spec_attribute_bytes(Attribute::Position);
    let nrm = spec_attribute_bytes(Attribute::Normal);
    let tex = spec_attribute_bytes(Attribute::Texcoord);
    let shi = spec_attribute_bytes(Attribute::Shininess);
    match a {
        Attribute::Position => 0,
        Attribute::Normal => pos,
        Attribute::Texcoord => pos + nrm,
        Attribute::Shininess => pos + nrm + tex,
        Attribute::Specular => pos + nrm + tex + shi,
    }
}

/// Whether the shader receives the components scaled into `[0, 1]`.
pub open spec fn spec_normalized(a: Attribute) -> bool {
    spec_component_type(a) == ComponentType::UnsignedByte
}

pub fn stored_components(a: Attribute) -> (r: usize)
    ensures
        r == spec_stored_components(a),
{
    match a {
        Attribute::Position => 4,
        Attribute::Normal => 4,
        Attribute::Texcoord => 2,
        Attribute::Shininess => 1,
        Attribute::Specular => 4,
    }
}

pub fn read_components(a: Attribute) -> (r: usize)
    ensures
        r == spec_read_components(a),
        r <= spec_stored_components(a),
{
    match a {
        Attribute::Position => 3,
        Attribute::Normal => 3,
        Attribute::Texcoord => 2,
        Attribute::Shininess => 1,
        Attribute::Specular => 4,
    }
}

pub fn component_type(a: Attribute) -> (r: ComponentType)
    ensures
        r == spec_component_type(a),
{
    match a {
        Attribute::Specular => ComponentType::UnsignedByte,
        _ => ComponentType::Float,
    }
}

pub fn component_bytes(c: ComponentType) -> (r: usize)
    ensures
        r == spec_component_bytes(c),
{
    match c {
        ComponentType::Float => FLOAT_BYTES,
        ComponentType::UnsignedByte => 1,
    }
}

pub fn attribute_bytes(a: Attribute) -> (r: usize)
    ensures
        r == spec_attribute_bytes(a),
{
    stored_components(a) * component_bytes(component_type(a))
}

pub fn normalized(a: Attribute) -> (r: bool)
    ensures
        r == spec_normalized(a),
{
    match component_type(a) {
        ComponentType::UnsignedByte => true,
        ComponentType::Float => false,
    }
}

/// Byte offset of an attribute inside the vertex record.
pub fn attribute_offset(a: Attribute) -> (r: usize)
    ensures
        r == spec_attribute_offset(a),
        r + spec_attribute_bytes(a) <= VERTEX_STRIDE,
{
    let pos = attribute_bytes(Attribute::Position);
    let nrm = attribute_bytes(Attribute::Normal);
    let tex = attribute_bytes(Attribute::Texcoord);
    let shi = attribute_bytes(Attribute::Shininess);
    match a {
        Attribute::Position => 0,
        Attribute::Normal => pos,
        Attribute::Texcoord => pos + nrm,
        Attribute::Shininess => pos + nrm + tex,
        Attribute::Specular => pos + nrm + tex + shi,
    }
}

/// Bytes of one vertex record: the attributes end exactly at the stride.
pub fn vertex_stride() -> (r: usize)
    ensures
        r == VERTEX_STRIDE,
        r == spec_attribute_offset(Attribute::Specular) + spec_attribute_bytes(Attribute::Specular),
{
    VERTEX_STRIDE
}

/// The record is packed: attributes follow one another in storage order
/// with no gap and no overlap, the first starts at byte 0 and the last ends
/// at the stride.
pub proof fn lemma_layout_packed(a: Attribute, b: Attribute)
    ensures
        spec_attribute_offset(Attribute::Position) == 0,
        spec_rank(b) == spec_rank(a) + 1 ==> spec_attribute_offset(b) == spec_attribute_offset(a)
            + spec_attribute_bytes(a),
        spec_rank(a) < spec_rank(b) ==> spec_attribute_offset(a) + spec_attribute_bytes(a)
            <= spec_attribute_offset(b),
        spec_attribute_offset(a) + spec_attribute_bytes(a) <= VERTEX_STRIDE,
        spec_attribute_offset(Attribute::Specular) + spec_attribute_bytes(Attribute::Specular)
            == VERTEX_STRIDE,
{
}

} // verus!
