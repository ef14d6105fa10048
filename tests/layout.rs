use flagmesh::layout::{
    attribute_bytes, attribute_offset, component_type, normalized, read_components,
    stored_components, vertex_stride, Attribute, ComponentType, VERTEX_STRIDE,
};

#[test]
fn attribute_offsets_are_packed() {
    assert_eq!(attribute_offset(Attribute::Position), 0);
    assert_eq!(attribute_offset(Attribute::Normal), 16);
    assert_eq!(attribute_offset(Attribute::Texcoord), 32);
    assert_eq!(attribute_offset(Attribute::Shininess), 40);
    assert_eq!(attribute_offset(Attribute::Specular), 44);
}

#[test]
fn stride_is_whole_record() {
    assert_eq!(vertex_stride(), 48);
    assert_eq!(VERTEX_STRIDE, 48);
    let end = attribute_offset(Attribute::Specular) + attribute_bytes(Attribute::Specular);
    assert_eq!(end, vertex_stride());
}

#[test]
fn each_attribute_ends_where_next_begins() {
    let order = [
        Attribute::Position,
        Attribute::Normal,
        Attribute::Texcoord,
        Attribute::Shininess,
        Attribute::Specular,
    ];
    for w in order.windows(2) {
        assert_eq!(attribute_offset(w[0]) + attribute_bytes(w[0]), attribute_offset(w[1]));
    }
}

#[test]
fn component_counts_and_types() {
    assert_eq!(stored_components(Attribute::Position), 4);
    assert_eq!(read_components(Attribute::Position), 3);
    assert_eq!(read_components(Attribute::Normal), 3);
    assert_eq!(read_components(Attribute::Texcoord), 2);
    assert_eq!(read_components(Attribute::Shininess), 1);
    assert_eq!(read_components(Attribute::Specular), 4);
    assert_eq!(component_type(Attribute::Specular), ComponentType::UnsignedByte);
    assert_eq!(component_type(Attribute::Shininess), ComponentType::Float);
    assert_eq!(attribute_bytes(Attribute::Specular), 4);
    assert_eq!(attribute_bytes(Attribute::Texcoord), 8);
}

#[test]
fn only_specular_is_normalized() {
    assert!(normalized(Attribute::Specular));
    assert!(!normalized(Attribute::Position));
    assert!(!normalized(Attribute::Normal));
    assert!(!normalized(Attribute::Texcoord));
    assert!(!normalized(Attribute::Shininess));
}
