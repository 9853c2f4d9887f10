//! The description of an exported type's shape.
//!
//! A [`Schema`] is a tree: leaves are primitives, text and sequence kinds;
//! inner nodes are structs and enums, which carry the schemas of their fields.
//! Each type has a view in which text is a `Seq<char>` and lists are `Seq`s;
//! contracts throughout the crate are stated over those views.

use vstd::prelude::*;

verus! {

/// The identity of a named type: its name and the module that declares it.
#[derive(Debug, PartialEq, Eq, Hash)]
pub struct TypeName {
    pub name: String,
    pub module: String,
}

/// The view of [`TypeName`].
pub struct TypeNameView {
    pub name: Seq<char>,
    pub module: Seq<char>,
}

impl View for TypeName {
    type V = TypeNameView;

    open spec fn view(&self) -> TypeNameView {
        TypeNameView { name: self.name@, module: self.module@ }
    }
}

/// An integer type that an enum may declare for its discriminant.
#[derive(Clone, Copy, Debug, PartialEq, Eq, Hash)]
pub enum Primitive {
    I8,
    I16,
    I32,
    I64,
    ISize,
    U8,
    U16,
    U32,
    U64,
    USize,
}

/// One field of a struct or of an enum variant. Fields of tuple-like
/// aggregates have no name.
#[derive(Debug, PartialEq, Eq, Hash)]
pub struct Field {
    pub name: Option<String>,
    pub schema: Schema,
}

/// Which of the four struct forms a [`Struct`] was declared in.
#[derive(Clone, Copy, Debug, PartialEq, Eq, Hash)]
pub enum StructKind {
    /// `struct S { a: A, b: B }`
    Named,
    /// `struct S;`
    Unit,
    /// `struct S(A);`
    Newtype,
    /// `struct S(A, B);`
    Tuple,
}

/// A struct, in any of its four forms.
#[derive(Debug, PartialEq, Eq, Hash)]
pub struct Struct {
    pub name: TypeName,
    pub kind: StructKind,
    pub fields: Vec<Field>,
}

/// One variant of an enum.
#[derive(Debug, PartialEq, Eq, Hash)]
pub enum Variant {
    /// A variant without fields; `discriminant` is the literal it was
    /// declared with, as written in the source, if it had one.
    Unit { name: String, discriminant: Option<String> },
    Tuple { name: String, fields: Vec<Field> },
    Struct { name: String, fields: Vec<Field> },
}

/// An enum. `repr` is the integer type it declares for its discriminant,
/// if it declares one.
#[derive(Debug, PartialEq, Eq, Hash)]
pub struct Enum {
    pub name: TypeName,
    pub variants: Vec<Variant>,
    pub repr: Option<Primitive>,
}

/// A growable sequence type, named by the type that implements it.
#[derive(Debug, PartialEq, Eq, Hash)]
pub struct Sequence {
    pub name: TypeName,
    pub element: Schema,
}

/// An array of a fixed number of elements.
#[derive(Debug, PartialEq, Eq, Hash)]
pub struct Array {
    pub element: Schema,
    pub len: usize,
}

/// The shape of a type.
#[derive(Debug, PartialEq, Eq, Hash)]
pub enum Schema {
    Unit,
    Bool,
    Char,
    I8,
    I16,
    I32,
    I64,
    I128,
    ISize,
    U8,
    U16,
    U32,
    U64,
    U128,
    USize,
    F32,
    F64,
    /// Owned, growable text.
    String,
    /// A borrowed view of text.
    Str,
    /// A borrowed view of a run of elements.
    Slice(Box<Schema>),
    /// An owned, growable sequence.
    Sequence(Box<Sequence>),
    Struct(Struct),
    Enum(Enum),
    Array(Box<Array>),
    Option(Box<Schema>),
    Tuple(Vec<Schema>),
    Mapping { key: Box<Schema>, value: Box<Schema> },
}

/// The view of [`Field`].
pub struct FieldView {
    pub name: Option<Seq<char>>,
    pub schema: SchemaView,
}

/// The view of [`Struct`].
pub struct StructView {
    pub name: TypeNameView,
    pub kind: StructKind,
    pub fields: Seq<FieldView>,
}

/// The view of [`Variant`].
pub enum VariantView {
    Unit { name: Seq<char>, discriminant: Option<Seq<char>> },
    Tuple { name: Seq<char>, fields: Seq<FieldView> },
    Struct { name: Seq<char>, fields: Seq<FieldView> },
}

/// The view of [`Enum`].
pub struct EnumView {
    pub name: TypeNameView,
    pub variants: Seq<VariantView>,
    pub repr: Option<Primitive>,
}

/// The view of [`Sequence`].
pub struct SequenceView {
    pub name: TypeNameView,
    pub element: SchemaView,
}

/// The view of [`Array`].
pub struct ArrayView {
    pub element: SchemaView,
    pub len: usize,
}

/// The view of [`Schema`].
pub enum SchemaView {
    Unit,
    Bool,
    Char,
    I8,
    I16,
    I32,
    I64,
    I128,
    ISize,
    U8,
    U16,
    U32,
    U64,
    U128,
    USize,
    F32,
    F64,
    String,
    Str,
    Slice(Box<SchemaView>),
    Sequence(Box<SequenceView>),
    Struct(StructView),
    Enum(EnumView),
    Array(Box<ArrayView>),
    Option(Box<SchemaView>),
    Tuple(Seq<SchemaView>),
    Mapping { key: Box<SchemaView>, value: Box<SchemaView> },
}

/// The view of an optional text.
pub open spec fn text_view(text: Option<String>) -> Option<Seq<char>> {
    match text {
        Some(t) => Some(t@),
        None => None,
    }
}

/// The view of a field.
pub open spec fn field_view(field: Field) -> FieldView
    decreases field,
{
    FieldView { name: text_view(field.name), schema: schema_view(field.schema) }
}

/// The views of a list of fields, in order.
pub open spec fn fields_view(fields: Vec<Field>) -> Seq<FieldView>
    decreases fields,
{
    Seq::new(
        fields.len() as nat,
        |i: int|
            if 0 <= i < fields.len() {
                field_view(fields[i])
            } else {
                arbitrary()
            },
    )
}

/// The views of a list of schemas, in order.
pub open spec fn schemas_view(schemas: Vec<Schema>) -> Seq<SchemaView>
    decreases schemas,
{
    Seq::new(
        schemas.len() as nat,
        |i: int|
            if 0 <= i < schemas.len() {
                schema_view(schemas[i])
            } else {
                arbitrary()
            },
    )
}

/// The view of a variant.
pub open spec fn variant_view(variant: Variant) -> VariantView
    decreases variant,
{
    match variant {
        Variant::Unit { name, discriminant } => VariantView::Unit {
            name: name@,
            discriminant: text_view(discriminant),
        },
        Variant::Tuple { name, fields } => VariantView::Tuple {
            name: name@,
            fields: fields_view(fields),
        },
        Variant::Struct { name, fields } => VariantView::Struct {
            name: name@,
            fields: fields_view(fields),
        },
    }
}

/// The views of a list of variants, in order.
pub open spec fn variants_view(variants: Vec<Variant>) -> Seq<VariantView>
    decreases variants,
{
    Seq::new(
        variants.len() as nat,
        |i: int|
            if 0 <= i < variants.len() {
                variant_view(variants[i])
            } else {
                arbitrary()
            },
    )
}

/// The view of a schema: the same tree, with every text and every list
/// replaced by its view.
pub open spec fn schema_view(schema: Schema) -> SchemaView
    decreases schema,
{
    match schema {
        Schema::Unit => SchemaView::Unit,
        Schema::Bool => SchemaView::Bool,
        Schema::Char => SchemaView::Char,
        Schema::I8 => SchemaView::I8,
        Schema::I16 => SchemaView::I16,
        Schema::I32 => SchemaView::I32,
        Schema::I64 => SchemaView::I64,
        Schema::I128 => SchemaView::I128,
        Schema::ISize => SchemaView::ISize,
        Schema::U8 => SchemaView::U8,
        Schema::U16 => SchemaView::U16,
        Schema::U32 => SchemaView::U32,
        Schema::U64 => SchemaView::U64,
        Schema::U128 => SchemaView::U128,
        Schema::USize => SchemaView::USize,
        Schema::F32 => SchemaView::F32,
        Schema::F64 => SchemaView::F64,
        Schema::String => SchemaView::String,
        Schema::Str => SchemaView::Str,
        Schema::Slice(element) => SchemaView::Slice(Box::new(schema_view(*element))),
        Schema::Sequence(sequence) => SchemaView::Sequence(
            Box::new(
                SequenceView { name: sequence.name@, element: schema_view(sequence.element) },
            ),
        ),
        Schema::Struct(s) => SchemaView::Struct(
            StructView { name: s.name@, kind: s.kind, fields: fields_view(s.fields) },
        ),
        Schema::Enum(e) => SchemaView::Enum(
            EnumView { name: e.name@, variants: variants_view(e.variants), repr: e.repr },
        ),
        Schema::Array(array) => SchemaView::Array(
            Box::new(ArrayView { element: schema_view(array.element), len: array.len }),
        ),
        Schema::Option(inner) => SchemaView::Option(Box::new(schema_view(*inner))),
        Schema::Tuple(items) => SchemaView::Tuple(schemas_view(items)),
        Schema::Mapping { key, value } => SchemaView::Mapping {
            key: Box::new(schema_view(*key)),
            value: Box::new(schema_view(*value)),
        },
    }
}

impl VariantView {
    /// The name of the variant.
    pub open spec fn name(self) -> Seq<char> {
        match self {
            VariantView::Unit { name, .. } => name,
            VariantView::Tuple { name, .. } => name,
            VariantView::Struct { name, .. } => name,
        }
    }

    /// Whether the variant has no fields.
    pub open spec fn is_unit(self) -> bool {
        self is Unit
    }

    /// The fields of the variant, in declaration order; none for a unit
    /// variant.
    pub open spec fn fields(self) -> Seq<FieldView> {
        match self {
            VariantView::Unit { .. } => Seq::empty(),
            VariantView::Tuple { fields, .. } => fields,
            VariantView::Struct { fields, .. } => fields,
        }
    }
}

impl EnumView {
    /// Whether any variant of the enum carries fields.
    pub open spec fn has_data(self) -> bool {
        exists|i: int| 0 <= i < self.variants.len() && !(#[trigger] self.variants[i]).is_unit()
    }
}

impl SchemaView {
    /// The identity of the type that the schema describes, for the kinds
    /// that are declared under a name.
    pub open spec fn declared_name(self) -> Option<TypeNameView> {
        match self {
            SchemaView::Struct(s) => Some(s.name),
            SchemaView::Enum(e) => Some(e.name),
            SchemaView::Sequence(s) => Some(s.name),
            _ => None,
        }
    }
}

impl View for Field {
    type V = FieldView;

    open spec fn view(&self) -> FieldView {
        field_view(*self)
    }
}

impl View for Variant {
    type V = VariantView;

    open spec fn view(&self) -> VariantView {
        variant_view(*self)
    }
}

impl View for Struct {
    type V = StructView;

    open spec fn view(&self) -> StructView {
        StructView { name: self.name@, kind: self.kind, fields: fields_view(self.fields) }
    }
}

impl View for Enum {
    type V = EnumView;

    open spec fn view(&self) -> EnumView {
        EnumView { name: self.name@, variants: variants_view(self.variants), repr: self.repr }
    }
}

impl View for Sequence {
    type V = SequenceView;

    open spec fn view(&self) -> SequenceView {
        SequenceView { name: self.name@, element: schema_view(self.element) }
    }
}

impl View for Array {
    type V = ArrayView;

    open spec fn view(&self) -> ArrayView {
        ArrayView { element: schema_view(self.element), len: self.len }
    }
}

impl View for Schema {
    type V = SchemaView;

    open spec fn view(&self) -> SchemaView {
        schema_view(*self)
    }
}

impl TypeName {
    /// The identity of the type `name` declared in `module`.
    pub fn new(name: String, module: String) -> (r: TypeName)
        ensures
            r@ == (TypeNameView { name: name@, module: module@ }),
    {
        TypeName { name, module }
    }

    /// Whether two names denote the same type.
    pub fn same(&self, other: &TypeName) -> (b: bool)
        ensures
            b == (self@ == other@),
    {
        self.name == other.name && self.module == other.module
    }

}

impl Clone for TypeName {
    fn clone(&self) -> (r: TypeName)
        ensures
            r@ == self@,
    {
        TypeName { name: self.name.clone(), module: self.module.clone() }
    }
}

impl Variant {
    /// The name of the variant.
    pub fn name(&self) -> (r: &String)
        ensures
            r@ == self@.name(),
    {
        match self {
            Variant::Unit { name, .. } => name,
            Variant::Tuple { name, .. } => name,
            Variant::Struct { name, .. } => name,
        }
    }

    /// Whether the variant has no fields.
    pub fn is_unit(&self) -> (b: bool)
        ensures
            b == self@.is_unit(),
    {
        match self {
            Variant::Unit { .. } => true,
            _ => false,
        }
    }

    /// The fields of a variant that has a field list.
    pub fn fields(&self) -> (r: Option<&Vec<Field>>)
        ensures
            r is None <==> self@.is_unit(),
            r matches Some(fields) ==> fields_view(*fields) == self@.fields(),
    {
        match self {
            Variant::Unit { .. } => None,
            Variant::Tuple { fields, .. } => Some(fields),
            Variant::Struct { fields, .. } => Some(fields),
        }
    }
}

impl Enum {
    /// Whether any variant of the enum carries fields.
    pub fn has_data(&self) -> (b: bool)
        ensures
            b == self@.has_data(),
    {
        let mut i: usize = 0;
        while i < self.variants.len()
            invariant
                i <= self.variants.len(),
                forall|j: int| 0 <= j < i ==> (#[trigger] self@.variants[j]).is_unit(),
            decreases self.variants.len() - i,
        {
            if !self.variants[i].is_unit() {
                assert(!self@.variants[i as int].is_unit());
                return true;
            }
            i += 1;
        }
        false
    }
}

impl Schema {
    /// The identity of the type that the schema describes, for the kinds
    /// that are declared under a name.
    pub fn declared_name(&self) -> (r: Option<&TypeName>)
        ensures
            r is Some == self@.declared_name() is Some,
            r matches Some(name) ==> self@.declared_name() == Some(name@),
    {
        match self {
            Schema::Struct(s) => Some(&s.name),
            Schema::Enum(e) => Some(&e.name),
            Schema::Sequence(s) => Some(&s.name),
            _ => None,
        }
    }
}

/// Copies an optional text.
pub fn clone_text(text: &Option<String>) -> (r: Option<String>)
    ensures
        text_view(r) == text_view(*text),
{
    match text {
        Some(text) => Some(text.clone()),
        None => None,
    }
}

fn clone_fields(fields: &Vec<Field>) -> (r: Vec<Field>)
    ensures
        fields_view(r) == fields_view(*fields),
    decreases fields,
{
    let mut copies: Vec<Field> = Vec::new();
    let mut i: usize = 0;
    while i < fields.len()
        invariant
            i <= fields.len(),
            copies.len() == i,
            forall|j: int| 0 <= j < i ==> field_view(#[trigger] copies[j]) == field_view(fields[j]),
        decreases fields.len() - i,
    {
        let field = &fields[i];
        copies.push(Field { name: clone_text(&field.name), schema: field.schema.copy() });
        i += 1;
    }
    assert(fields_view(copies) =~= fields_view(*fields));
    copies
}

fn clone_schemas(schemas: &Vec<Schema>) -> (r: Vec<Schema>)
    ensures
        schemas_view(r) == schemas_view(*schemas),
    decreases schemas,
{
    let mut copies: Vec<Schema> = Vec::new();
    let mut i: usize = 0;
    while i < schemas.len()
        invariant
            i <= schemas.len(),
            copies.len() == i,
            forall|j: int| 0 <= j < i ==> schema_view(#[trigger] copies[j]) == schema_view(schemas[j]),
        decreases schemas.len() - i,
    {
        copies.push(schemas[i].copy());
        i += 1;
    }
    assert(schemas_view(copies) =~= schemas_view(*schemas));
    copies
}

fn clone_variants(variants: &Vec<Variant>) -> (r: Vec<Variant>)
    ensures
        variants_view(r) == variants_view(*variants),
    decreases variants,
{
    let mut copies: Vec<Variant> = Vec::new();
    let mut i: usize = 0;
    while i < variants.len()
        invariant
            i <= variants.len(),
            copies.len() == i,
            forall|j: int|
                0 <= j < i ==> variant_view(#[trigger] copies[j]) == variant_view(variants[j]),
        decreases variants.len() - i,
    {
        copies.push(variants[i].copy());
        i += 1;
    }
    assert(variants_view(copies) =~= variants_view(*variants));
    copies
}

impl Variant {
    fn copy(&self) -> (r: Variant)
        ensures
            r@ == self@,
        decreases self,
    {
        match self {
            Variant::Unit { name, discriminant } => Variant::Unit {
                name: name.clone(),
                discriminant: clone_text(discriminant),
            },
            Variant::Tuple { name, fields } => Variant::Tuple {
                name: name.clone(),
                fields: clone_fields(fields),
            },
            Variant::Struct { name, fields } => Variant::Struct {
                name: name.clone(),
                fields: clone_fields(fields),
            },
        }
    }
}

impl Schema {
    fn copy(&self) -> (r: Schema)
        ensures
            r@ == self@,
        decreases self,
    {
        match self {
            Schema::Unit => Schema::Unit,
            Schema::Bool => Schema::Bool,
            Schema::Char => Schema::Char,
            Schema::I8 => Schema::I8,
            Schema::I16 => Schema::I16,
            Schema::I32 => Schema::I32,
            Schema::I64 => Schema::I64,
            Schema::I128 => Schema::I128,
            Schema::ISize => Schema::ISize,
            Schema::U8 => Schema::U8,
            Schema::U16 => Schema::U16,
            Schema::U32 => Schema::U32,
            Schema::U64 => Schema::U64,
            Schema::U128 => Schema::U128,
            Schema::USize => Schema::USize,
            Schema::F32 => Schema::F32,
            Schema::F64 => Schema::F64,
            Schema::String => Schema::String,
            Schema::Str => Schema::Str,
            Schema::Slice(element) => Schema::Slice(Box::new(element.copy())),
            Schema::Sequence(sequence) => Schema::Sequence(
                Box::new(
                    Sequence {
                        name: sequence.name.clone(),
                        element: sequence.element.copy(),
                    },
                ),
            ),
            Schema::Struct(s) => Schema::Struct(
                Struct {
                    name: s.name.clone(),
                    kind: s.kind,
                    fields: clone_fields(&s.fields),
                },
            ),
            Schema::Enum(e) => Schema::Enum(
                Enum {
                    name: e.name.clone(),
                    variants: clone_variants(&e.variants),
                    repr: e.repr,
                },
            ),
            Schema::Array(array) => Schema::Array(
                Box::new(Array { element: array.element.copy(), len: array.len }),
            ),
            Schema::Option(inner) => Schema::Option(Box::new(inner.copy())),
            Schema::Tuple(items) => Schema::Tuple(clone_schemas(items)),
            Schema::Mapping { key, value } => Schema::Mapping {
                key: Box::new(key.copy()),
                value: Box::new(value.copy()),
            },
        }
    }
}

impl Clone for Schema {
    fn clone(&self) -> (r: Schema)
        ensures
            r@ == self@,
    {
        self.copy()
    }
}

impl Clone for Field {
    fn clone(&self) -> (r: Field)
        ensures
            r@ == self@,
    {
        Field { name: clone_text(&self.name), schema: self.schema.copy() }
    }
}

impl Clone for Variant {
    fn clone(&self) -> (r: Variant)
        ensures
            r@ == self@,
    {
        self.copy()
    }
}

impl Clone for Struct {
    fn clone(&self) -> (r: Struct)
        ensures
            r@ == self@,
    {
        Struct { name: self.name.clone(), kind: self.kind, fields: clone_fields(&self.fields) }
    }
}

impl Clone for Enum {
    fn clone(&self) -> (r: Enum)
        ensures
            r@ == self@,
    {
        Enum {
            name: self.name.clone(),
            variants: clone_variants(&self.variants),
            repr: self.repr,
        }
    }
}

impl Clone for Sequence {
    fn clone(&self) -> (r: Sequence)
        ensures
            r@ == self@,
    {
        Sequence { name: self.name.clone(), element: self.element.copy() }
    }
}

impl Clone for Array {
    fn clone(&self) -> (r: Array)
        ensures
            r@ == self@,
    {
        Array { element: self.element.copy(), len: self.len }
    }
}

} // verus!
