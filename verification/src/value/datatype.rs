//! Datatype descriptors and property checks.
//!
//! The foreign runtime attaches type information to every value. This module
//! models a datatype descriptor as the plain facts the library reads from it:
//! its size and alignment, its field layout, its mutability, and which
//! well-known type it is, if any. The [`JuliaTypecheck`] markers each answer
//! one question about a descriptor through [`DataType::is`].

use vstd::prelude::*;

verus! {

/// The well-known types a descriptor can be recognised as, beyond the plain
/// layout facts it carries.
#[derive(Clone, Copy, Debug, PartialEq, Eq, Structural)]
pub enum TypeTag {
    /// The type of all values.
    AnyType,
    /// A compound expression node in parsed foreign code.
    ExprType,
    /// A reference to a global binding.
    GlobalRefType,
    /// A goto node in lowered code.
    GotoNodeType,
    /// A pi node in typed intermediate code.
    PiNodeType,
    /// A phi node in typed intermediate code.
    PhiNodeType,
    /// A phi-c node in typed intermediate code.
    PhiCNodeType,
    /// An upsilon node in typed intermediate code.
    UpsilonNodeType,
    /// A quote node.
    QuoteNodeType,
    /// A new-variable node.
    NewVarNodeType,
    /// A line-number node.
    LineNumberNodeType,
    /// A slot number in lowered code.
    SlotNumberType,
    /// A typed slot in lowered code.
    TypedSlotType,
    /// A method instance.
    MethodInstanceType,
    /// A code instance.
    CodeInstanceType,
    /// Lowered source code.
    CodeInfoType,
    /// A method definition.
    MethodType,
    /// A task.
    TaskType,
    /// A raw pointer type.
    PointerType,
    /// An intrinsic function.
    IntrinsicType,
    /// A tuple type.
    TupleType,
    /// A named-tuple type.
    NamedTupleType,
    /// None of the well-known types.
    OtherType,
}

/// The layout facts of one field of a datatype.
#[derive(Clone, Copy, Debug, PartialEq, Eq, Structural)]
pub struct FieldLayout {
    /// The size of the field in bytes.
    pub size: u32,
    /// The offset of the field in bytes.
    pub offset: u32,
    /// Whether the field is stored as a pointer.
    pub is_pointer: bool,
}

/// Type information of a foreign value, modelled as the plain facts the
/// library reads from the foreign descriptor.
pub struct DataType {
    tag: TypeTag,
    size: i32,
    align: u16,
    mutable: bool,
    concrete: bool,
    inline_alloc: bool,
    bits: bool,
    fields: Vec<FieldLayout>,
    name: String,
}

impl DataType {
    /// Which well-known type this descriptor is, if any.
    pub closed spec fn spec_tag(&self) -> TypeTag {
        self.tag
    }

    /// The size in bytes of a value of this type.
    pub closed spec fn spec_size(&self) -> i32 {
        self.size
    }

    /// The alignment in bytes of a value of this type.
    pub closed spec fn spec_align(&self) -> u16 {
        self.align
    }

    /// Whether the fields of a value of this type can be modified.
    pub closed spec fn spec_mutable(&self) -> bool {
        self.mutable
    }

    /// Whether this type is concrete.
    pub closed spec fn spec_concrete(&self) -> bool {
        self.concrete
    }

    /// Whether values of this type store their data inline.
    pub closed spec fn spec_inline_alloc(&self) -> bool {
        self.inline_alloc
    }

    /// Whether this is a bits type.
    pub closed spec fn spec_bits(&self) -> bool {
        self.bits
    }

    /// The field layouts of this type.
    pub closed spec fn spec_fields(&self) -> Seq<FieldLayout> {
        self.fields@
    }

    /// The name of this type.
    pub closed spec fn spec_name(&self) -> Seq<char> {
        self.name@
    }

    /// A descriptor is well formed when the size in bits of a value fits its
    /// integer width.
    pub closed spec fn wf(&self) -> bool {
        8 * self.size <= i32::MAX
    }

    /// Builds a descriptor from the facts it carries.
    pub fn new(
        tag: TypeTag,
        size: i32,
        align: u16,
        mutable: bool,
        concrete: bool,
        inline_alloc: bool,
        bits: bool,
        fields: Vec<FieldLayout>,
        name: String,
    ) -> (t: DataType)
        requires
            8 * size <= i32::MAX,
        ensures
            t.wf(),
            t.spec_tag() == tag,
            t.spec_size() == size,
            t.spec_align() == align,
            t.spec_mutable() == mutable,
            t.spec_concrete() == concrete,
            t.spec_inline_alloc() == inline_alloc,
            t.spec_bits() == bits,
            t.spec_fields() == fields@,
            t.spec_name() == name@,
    {
        DataType { tag, size, align, mutable, concrete, inline_alloc, bits, fields, name }
    }

    /// Performs the given typecheck.
    pub fn is<T: JuliaTypecheck>(&self) -> (r: bool)
        ensures
            r == T::spec_typecheck(self),
    {
        T::julia_typecheck(self)
    }

    /// Returns the size of a value of this type in bytes.
    pub fn size(&self) -> (r: i32)
        ensures
            r == self.spec_size(),
    {
        self.size
    }

    /// Returns the alignment of a value of this type in bytes.
    pub fn align(&self) -> (r: u16)
        ensures
            r == self.spec_align(),
    {
        self.align
    }

    /// Returns the size of a value of this type in bits.
    pub fn nbits(&self) -> (r: i32)
        requires
            self.wf(),
            self.spec_size() >= 0,
        ensures
            r == 8 * self.spec_size(),
    {
        self.size * 8
    }

    /// Returns the number of fields of a value of this type.
    pub fn nfields(&self) -> (r: usize)
        ensures
            r == self.spec_fields().len(),
    {
        self.fields.len()
    }

    /// Returns true if a value of this type stores its data inline.
    pub fn isinlinealloc(&self) -> (r: bool)
        ensures
            r == self.spec_inline_alloc(),
    {
        self.inline_alloc
    }

    /// Returns true if this is a bits type.
    pub fn isbits(&self) -> (r: bool)
        ensures
            r == self.spec_bits(),
    {
        self.bits
    }

    /// Returns the name of this type.
    pub fn name(&self) -> (r: &String)
        ensures
            r@ == self.spec_name(),
    {
        &self.name
    }

    /// Returns the size in bytes of the field at `idx`.
    pub fn field_size(&self, idx: usize) -> (r: u32)
        requires
            idx < self.spec_fields().len(),
        ensures
            r == self.spec_fields()[idx as int].size,
    {
        self.fields[idx].size
    }

    /// Returns the offset in bytes of the field at `idx`.
    pub fn field_offset(&self, idx: usize) -> (r: u32)
        requires
            idx < self.spec_fields().len(),
        ensures
            r == self.spec_fields()[idx as int].offset,
    {
        self.fields[idx].offset
    }

    /// Returns true if the field at `idx` is stored as a pointer.
    pub fn is_pointer_field(&self, idx: usize) -> (r: bool)
        requires
            idx < self.spec_fields().len(),
        ensures
            r == self.spec_fields()[idx as int].is_pointer,
    {
        self.fields[idx].is_pointer
    }
}

/// A property of a datatype descriptor that can be checked with
/// [`DataType::is`].
pub trait JuliaTypecheck {
    /// What the typecheck means on the descriptor's model.
    spec fn spec_typecheck(t: &DataType) -> bool;

    /// Performs the typecheck.
    fn julia_typecheck(t: &DataType) -> (r: bool)
        ensures
            r == Self::spec_typecheck(t),
    ;
}

/// Checks whether a value of the type is a tuple.
pub struct Tuple;

impl JuliaTypecheck for Tuple {
    open spec fn spec_typecheck(t: &DataType) -> bool {
        t.spec_tag() == TypeTag::TupleType
    }

    fn julia_typecheck(t: &DataType) -> (r: bool) {
        matches!(t.tag, TypeTag::TupleType)
    }
}

/// Checks whether the type is the type of all values; true of every value.
pub struct Any;

impl JuliaTypecheck for Any {
    open spec fn spec_typecheck(t: &DataType) -> bool {
        t.spec_tag() == TypeTag::AnyType
    }

    fn julia_typecheck(t: &DataType) -> (r: bool) {
        matches!(t.tag, TypeTag::AnyType)
    }
}

/// Checks whether a value of the type is a named tuple.
pub struct NamedTuple;

impl JuliaTypecheck for NamedTuple {
    open spec fn spec_typecheck(t: &DataType) -> bool {
        t.spec_tag() == TypeTag::NamedTupleType
    }

    fn julia_typecheck(t: &DataType) -> (r: bool) {
        matches!(t.tag, TypeTag::NamedTupleType)
    }
}

/// Checks whether the fields of a value of the type can be modified.
pub struct Mutable;

impl JuliaTypecheck for Mutable {
    open spec fn spec_typecheck(t: &DataType) -> bool {
        t.spec_mutable()
    }

    fn julia_typecheck(t: &DataType) -> (r: bool) {
        t.mutable
    }
}

/// Checks whether the type is a mutable datatype.
pub struct MutableDatatype;

impl JuliaTypecheck for MutableDatatype {
    open spec fn spec_typecheck(t: &DataType) -> bool {
        t.spec_mutable()
    }

    fn julia_typecheck(t: &DataType) -> (r: bool) {
        t.mutable
    }
}

/// Checks whether the fields of a value of the type cannot be modified.
pub struct Immutable;

impl JuliaTypecheck for Immutable {
    open spec fn spec_typecheck(t: &DataType) -> bool {
        !t.spec_mutable()
    }

    fn julia_typecheck(t: &DataType) -> (r: bool) {
        !t.mutable
    }
}

/// Checks whether the type is an immutable datatype.
pub struct ImmutableDatatype;

impl JuliaTypecheck for ImmutableDatatype {
    open spec fn spec_typecheck(t: &DataType) -> bool {
        !t.spec_mutable()
    }

    fn julia_typecheck(t: &DataType) -> (r: bool) {
        !t.mutable
    }
}

/// Checks whether a value of the type is a slot, typed or untyped.
pub struct Slot;

impl JuliaTypecheck for Slot {
    open spec fn spec_typecheck(t: &DataType) -> bool {
        t.spec_tag() == TypeTag::SlotNumberType || t.spec_tag() == TypeTag::TypedSlotType
    }

    fn julia_typecheck(t: &DataType) -> (r: bool) {
        matches!(t.tag, TypeTag::SlotNumberType | TypeTag::TypedSlotType)
    }
}

/// Checks whether a value of the type is a compound expression node.
pub struct Expr;

impl JuliaTypecheck for Expr {
    open spec fn spec_typecheck(t: &DataType) -> bool {
        t.spec_tag() == TypeTag::ExprType
    }

    fn julia_typecheck(t: &DataType) -> (r: bool) {
        matches!(t.tag, TypeTag::ExprType)
    }
}

/// Checks whether a value of the type is a global reference.
pub struct GlobalRef;

impl JuliaTypecheck for GlobalRef {
    open spec fn spec_typecheck(t: &DataType) -> bool {
        t.spec_tag() == TypeTag::GlobalRefType
    }

    fn julia_typecheck(t: &DataType) -> (r: bool) {
        matches!(t.tag, TypeTag::GlobalRefType)
    }
}

/// Checks whether a value of the type is a goto node.
pub struct GotoNode;

impl JuliaTypecheck for GotoNode {
    open spec fn spec_typecheck(t: &DataType) -> bool {
        t.spec_tag() == TypeTag::GotoNodeType
    }

    fn julia_typecheck(t: &DataType) -> (r: bool) {
        matches!(t.tag, TypeTag::GotoNodeType)
    }
}

/// Checks whether a value of the type is a pi node.
pub struct PiNode;

impl JuliaTypecheck for PiNode {
    open spec fn spec_typecheck(t: &DataType) -> bool {
        t.spec_tag() == TypeTag::PiNodeType
    }

    fn julia_typecheck(t: &DataType) -> (r: bool) {
        matches!(t.tag, TypeTag::PiNodeType)
    }
}

/// Checks whether a value of the type is a phi node.
pub struct PhiNode;

impl JuliaTypecheck for PhiNode {
    open spec fn spec_typecheck(t: &DataType) -> bool {
        t.spec_tag() == TypeTag::PhiNodeType
    }

    fn julia_typecheck(t: &DataType) -> (r: bool) {
        matches!(t.tag, TypeTag::PhiNodeType)
    }
}

/// Checks whether a value of the type is a phi-c node.
pub struct PhiCNode;

impl JuliaTypecheck for PhiCNode {
    open spec fn spec_typecheck(t: &DataType) -> bool {
        t.spec_tag() == TypeTag::PhiCNodeType
    }

    fn julia_typecheck(t: &DataType) -> (r: bool) {
        matches!(t.tag, TypeTag::PhiCNodeType)
    }
}

/// Checks whether a value of the type is an upsilon node.
pub struct UpsilonNode;

impl JuliaTypecheck for UpsilonNode {
    open spec fn spec_typecheck(t: &DataType) -> bool {
        t.spec_tag() == TypeTag::UpsilonNodeType
    }

    fn julia_typecheck(t: &DataType) -> (r: bool) {
        matches!(t.tag, TypeTag::UpsilonNodeType)
    }
}

/// Checks whether a value of the type is a quote node.
pub struct QuoteNode;

impl JuliaTypecheck for QuoteNode {
    open spec fn spec_typecheck(t: &DataType) -> bool {
        t.spec_tag() == TypeTag::QuoteNodeType
    }

    fn julia_typecheck(t: &DataType) -> (r: bool) {
        matches!(t.tag, TypeTag::QuoteNodeType)
    }
}

/// Checks whether a value of the type is a new-variable node.
pub struct NewVarNode;

impl JuliaTypecheck for NewVarNode {
    open spec fn spec_typecheck(t: &DataType) -> bool {
        t.spec_tag() == TypeTag::NewVarNodeType
    }

    fn julia_typecheck(t: &DataType) -> (r: bool) {
        matches!(t.tag, TypeTag::NewVarNodeType)
    }
}

/// Checks whether a value of the type is a line-number node.
pub struct LineNode;

impl JuliaTypecheck for LineNode {
    open spec fn spec_typecheck(t: &DataType) -> bool {
        t.spec_tag() == TypeTag::LineNumberNodeType
    }

    fn julia_typecheck(t: &DataType) -> (r: bool) {
        matches!(t.tag, TypeTag::LineNumberNodeType)
    }
}

/// Checks whether a value of the type is a method instance.
pub struct MethodInstance;

impl JuliaTypecheck for MethodInstance {
    open spec fn spec_typecheck(t: &DataType) -> bool {
        t.spec_tag() == TypeTag::MethodInstanceType
    }

    fn julia_typecheck(t: &DataType) -> (r: bool) {
        matches!(t.tag, TypeTag::MethodInstanceType)
    }
}

/// Checks whether a value of the type is a code instance.
pub struct CodeInstance;

impl JuliaTypecheck for CodeInstance {
    open spec fn spec_typecheck(t: &DataType) -> bool {
        t.spec_tag() == TypeTag::CodeInstanceType
    }

    fn julia_typecheck(t: &DataType) -> (r: bool) {
        matches!(t.tag, TypeTag::CodeInstanceType)
    }
}

/// Checks whether a value of the type is lowered source code.
pub struct CodeInfo;

impl JuliaTypecheck for CodeInfo {
    open spec fn spec_typecheck(t: &DataType) -> bool {
        t.spec_tag() == TypeTag::CodeInfoType
    }

    fn julia_typecheck(t: &DataType) -> (r: bool) {
        matches!(t.tag, TypeTag::CodeInfoType)
    }
}

/// Checks whether a value of the type is a method.
pub struct Method;

impl JuliaTypecheck for Method {
    open spec fn spec_typecheck(t: &DataType) -> bool {
        t.spec_tag() == TypeTag::MethodType
    }

    fn julia_typecheck(t: &DataType) -> (r: bool) {
        matches!(t.tag, TypeTag::MethodType)
    }
}

/// Checks whether a value of the type is a task.
pub struct Task;

impl JuliaTypecheck for Task {
    open spec fn spec_typecheck(t: &DataType) -> bool {
        t.spec_tag() == TypeTag::TaskType
    }

    fn julia_typecheck(t: &DataType) -> (r: bool) {
        matches!(t.tag, TypeTag::TaskType)
    }
}

/// Checks whether a value of the type is a raw pointer.
pub struct Pointer;

impl JuliaTypecheck for Pointer {
    open spec fn spec_typecheck(t: &DataType) -> bool {
        t.spec_tag() == TypeTag::PointerType
    }

    fn julia_typecheck(t: &DataType) -> (r: bool) {
        matches!(t.tag, TypeTag::PointerType)
    }
}

/// Checks whether a value of the type is an intrinsic function.
pub struct Intrinsic;

impl JuliaTypecheck for Intrinsic {
    open spec fn spec_typecheck(t: &DataType) -> bool {
        t.spec_tag() == TypeTag::IntrinsicType
    }

    fn julia_typecheck(t: &DataType) -> (r: bool) {
        matches!(t.tag, TypeTag::IntrinsicType)
    }
}

/// Checks whether the type is concrete.
pub struct Concrete;

impl JuliaTypecheck for Concrete {
    open spec fn spec_typecheck(t: &DataType) -> bool {
        t.spec_concrete()
    }

    fn julia_typecheck(t: &DataType) -> (r: bool) {
        t.concrete
    }
}

} // verus!
