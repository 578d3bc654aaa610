use jlrs::value::datatype::{
    Any, CodeInfo, CodeInstance, Concrete, DataType, Expr, FieldLayout, GlobalRef, GotoNode,
    Immutable, ImmutableDatatype, Intrinsic, LineNode, Method, MethodInstance, Mutable,
    MutableDatatype, NamedTuple, NewVarNode, PhiCNode, PhiNode, PiNode, Pointer, QuoteNode, Slot,
    Task, Tuple, TypeTag, UpsilonNode,
};

fn plain(tag: TypeTag, mutable: bool, concrete: bool) -> DataType {
    DataType::new(tag, 8, 8, mutable, concrete, true, false, Vec::new(), String::from("T"))
}

#[test]
fn immutable_tuple_properties() {
    let fields = vec![
        FieldLayout { size: 8, offset: 0, is_pointer: false },
        FieldLayout { size: 8, offset: 8, is_pointer: true },
    ];
    let t = DataType::new(
        TypeTag::TupleType,
        16,
        8,
        false,
        true,
        true,
        false,
        fields,
        String::from("Tuple"),
    );
    assert!(t.is::<Tuple>());
    assert!(!t.is::<NamedTuple>());
    assert!(!t.is::<Mutable>());
    assert!(t.is::<Immutable>());
    assert!(t.is::<ImmutableDatatype>());
    assert!(!t.is::<MutableDatatype>());
    assert!(t.is::<Concrete>());
    assert_eq!(t.size(), 16);
    assert_eq!(t.nbits(), 128);
    assert_eq!(t.align(), 8);
    assert_eq!(t.nfields(), 2);
    assert_eq!(t.field_size(0), 8);
    assert_eq!(t.field_offset(1), 8);
    assert!(!t.is_pointer_field(0));
    assert!(t.is_pointer_field(1));
    assert!(t.isinlinealloc());
    assert!(!t.isbits());
    assert_eq!(t.name().as_str(), "Tuple");
}

#[test]
fn mutable_datatype_checks() {
    let t = plain(TypeTag::OtherType, true, true);
    assert!(t.is::<Mutable>());
    assert!(t.is::<MutableDatatype>());
    assert!(!t.is::<Immutable>());
    assert!(!t.is::<ImmutableDatatype>());
}

#[test]
fn slot_matches_both_slot_types() {
    let numbered = plain(TypeTag::SlotNumberType, false, true);
    let typed = plain(TypeTag::TypedSlotType, false, true);
    let other = plain(TypeTag::OtherType, false, true);
    assert!(numbered.is::<Slot>());
    assert!(typed.is::<Slot>());
    assert!(!other.is::<Slot>());
}

#[test]
fn wellknown_type_markers() {
    assert!(plain(TypeTag::AnyType, false, false).is::<Any>());
    assert!(plain(TypeTag::ExprType, true, true).is::<Expr>());
    assert!(plain(TypeTag::GlobalRefType, false, true).is::<GlobalRef>());
    assert!(plain(TypeTag::GotoNodeType, false, true).is::<GotoNode>());
    assert!(plain(TypeTag::PiNodeType, false, true).is::<PiNode>());
    assert!(plain(TypeTag::PhiNodeType, true, true).is::<PhiNode>());
    assert!(plain(TypeTag::PhiCNodeType, true, true).is::<PhiCNode>());
    assert!(plain(TypeTag::UpsilonNodeType, true, true).is::<UpsilonNode>());
    assert!(plain(TypeTag::QuoteNodeType, false, true).is::<QuoteNode>());
    assert!(plain(TypeTag::NewVarNodeType, false, true).is::<NewVarNode>());
    assert!(plain(TypeTag::LineNumberNodeType, false, true).is::<LineNode>());
    assert!(plain(TypeTag::MethodInstanceType, true, true).is::<MethodInstance>());
    assert!(plain(TypeTag::CodeInstanceType, true, true).is::<CodeInstance>());
    assert!(plain(TypeTag::CodeInfoType, true, true).is::<CodeInfo>());
    assert!(plain(TypeTag::MethodType, true, true).is::<Method>());
    assert!(plain(TypeTag::TaskType, true, true).is::<Task>());
    assert!(plain(TypeTag::PointerType, false, true).is::<Pointer>());
    assert!(plain(TypeTag::IntrinsicType, false, true).is::<Intrinsic>());
    assert!(!plain(TypeTag::OtherType, false, true).is::<Expr>());
    assert!(!plain(TypeTag::ExprType, true, true).is::<GotoNode>());
}

#[test]
fn bits_type_properties() {
    let t = DataType::new(
        TypeTag::OtherType,
        4,
        4,
        false,
        true,
        true,
        true,
        Vec::new(),
        String::from("Int32"),
    );
    assert!(t.isbits());
    assert_eq!(t.nbits(), 32);
    assert_eq!(t.nfields(), 0);
}
