//! The runtime value model: plain script values and the types that describe their layout.

use vstd::prelude::*;

verus! {

/// Mathematical model of a script type.
pub enum TypeModel {
    Int,
    Float,
    Bool,
    String,
    Unit,
    Tuple(Seq<TypeModel>),
    Struct(StructModel),
    Enum(EnumModel),
    External(u32),
}

/// Mathematical model of a named struct definition: its allocated type id,
/// its name and its fields in definition order.
pub struct StructModel {
    pub type_id: u32,
    pub name: Seq<char>,
    pub field_names: Seq<Seq<char>>,
    pub field_types: Seq<TypeModel>,
}

/// Mathematical model of an enum definition whose variants carry no payload.
pub struct EnumModel {
    pub name: Seq<char>,
    pub variants: Seq<Seq<char>>,
}

/// Mathematical model of a script value.
pub enum ValueModel {
    Unit,
    Int(i32),
    Float(i32),
    Bool(bool),
    String(Seq<char>),
    Tuple(Seq<ValueModel>),
    Struct(Seq<ValueModel>),
    EnumVariant(u8),
    Handle(u32, usize),
}

/// A script value held as plain data.
///
/// `Float` holds the raw fixed-point number. `Struct` holds the field slots in
/// definition order. `EnumVariant` holds the index of a payload-free variant in
/// its enum. `Handle` stands for an opaque native value: the number of its
/// external type and the host's index for the payload.
#[derive(Debug, PartialEq, Eq)]
pub enum ScriptValue {
    Unit,
    Int(i32),
    Float(i32),
    Bool(bool),
    String(String),
    Tuple(Vec<ScriptValue>),
    Struct(Vec<ScriptValue>),
    EnumVariant(u8),
    Handle(u32, usize),
}

/// One named field of a struct definition.
#[derive(Debug, PartialEq, Eq)]
pub struct StructField {
    pub name: String,
    pub field_type: ScriptType,
}

/// A named struct definition. Field order is definition order: it is both the
/// order of the value's slots and the order of the serialized layout.
#[derive(Debug, PartialEq, Eq)]
pub struct StructType {
    pub type_id: u32,
    pub name: String,
    pub fields: Vec<StructField>,
}

/// An enum definition whose variants carry no payload; a variant's index is
/// its position in `variants`.
#[derive(Debug, Clone, PartialEq, Eq)]
pub struct EnumType {
    pub name: String,
    pub variants: Vec<String>,
}

/// A script type held as plain data.
#[derive(Debug, PartialEq, Eq)]
pub enum ScriptType {
    Int,
    Float,
    Bool,
    String,
    Unit,
    Tuple(Vec<ScriptType>),
    Struct(StructType),
    Enum(EnumType),
    External(u32),
}

impl View for ScriptValue {
    type V = ValueModel;

    open spec fn view(&self) -> ValueModel
        decreases self,
    {
        match self {
            ScriptValue::Unit => ValueModel::Unit,
            ScriptValue::Int(i) => ValueModel::Int(*i),
            ScriptValue::Float(raw) => ValueModel::Float(*raw),
            ScriptValue::Bool(b) => ValueModel::Bool(*b),
            ScriptValue::String(s) => ValueModel::String(s@),
            ScriptValue::Tuple(items) => ValueModel::Tuple(views(items@)),
            ScriptValue::Struct(fields) => ValueModel::Struct(views(fields@)),
            ScriptValue::EnumVariant(index) => ValueModel::EnumVariant(*index),
            ScriptValue::Handle(type_number, payload) => ValueModel::Handle(*type_number, *payload),
        }
    }
}

impl View for EnumType {
    type V = EnumModel;

    open spec fn view(&self) -> EnumModel {
        EnumModel {
            name: self.name@,
            variants: Seq::new(self.variants@.len(), |i: int| self.variants@[i]@),
        }
    }
}

impl View for ScriptType {
    type V = TypeModel;

    open spec fn view(&self) -> TypeModel
        decreases self,
    {
        match self {
            ScriptType::Int => TypeModel::Int,
            ScriptType::Float => TypeModel::Float,
            ScriptType::Bool => TypeModel::Bool,
            ScriptType::String => TypeModel::String,
            ScriptType::Unit => TypeModel::Unit,
            ScriptType::Tuple(items) => TypeModel::Tuple(type_views(items@)),
            ScriptType::Struct(definition) => TypeModel::Struct(
                StructModel {
                    type_id: definition.type_id,
                    name: definition.name@,
                    field_names: field_names(definition.fields@),
                    field_types: field_type_views(definition.fields@),
                },
            ),
            ScriptType::Enum(definition) => TypeModel::Enum(definition@),
            ScriptType::External(type_number) => TypeModel::External(*type_number),
        }
    }
}

impl View for StructType {
    type V = StructModel;

    open spec fn view(&self) -> StructModel {
        StructModel {
            type_id: self.type_id,
            name: self.name@,
            field_names: field_names(self.fields@),
            field_types: field_type_views(self.fields@),
        }
    }
}

/// Whether `value` is a value of type `ty`: same shape, slot by slot.
pub open spec fn conforms(value: ValueModel, ty: TypeModel) -> bool
    decreases value,
{
    match (value, ty) {
        (ValueModel::Unit, TypeModel::Unit) => true,
        (ValueModel::Int(_), TypeModel::Int) => true,
        (ValueModel::Float(_), TypeModel::Float) => true,
        (ValueModel::Bool(_), TypeModel::Bool) => true,
        (ValueModel::String(_), TypeModel::String) => true,
        (ValueModel::Tuple(items), TypeModel::Tuple(types)) => conforms_all(items, types),
        (ValueModel::Struct(fields), TypeModel::Struct(definition)) => conforms_all(
            fields,
            definition.field_types,
        ),
        (ValueModel::EnumVariant(index), TypeModel::Enum(definition)) => index
            < definition.variants.len(),
        (ValueModel::Handle(type_number, _), TypeModel::External(expected)) => type_number
            == expected,
        _ => false,
    }
}

/// Whether the values are, position by position, values of the types.
pub open spec fn conforms_all(values: Seq<ValueModel>, types: Seq<TypeModel>) -> bool
    decreases values,
{
    if values.len() == 0 {
        types.len() == 0
    } else {
        types.len() > 0 && conforms(values[0], types[0]) && conforms_all(
            values.skip(1),
            types.skip(1),
        )
    }
}


/// The models of a run of value slots.
pub open spec fn views(items: Seq<ScriptValue>) -> Seq<ValueModel>
    decreases items,
{
    if items.len() == 0 {
        Seq::empty()
    } else {
        views(items.drop_last()).push(items.last()@)
    }
}

/// The models of a run of types.
pub open spec fn type_views(items: Seq<ScriptType>) -> Seq<TypeModel>
    decreases items,
{
    if items.len() == 0 {
        Seq::empty()
    } else {
        type_views(items.drop_last()).push(items.last()@)
    }
}

/// The field types of a struct definition, in definition order.
pub open spec fn field_type_views(fields: Seq<StructField>) -> Seq<TypeModel>
    decreases fields,
{
    if fields.len() == 0 {
        Seq::empty()
    } else {
        field_type_views(fields.drop_last()).push(fields.last().field_type@)
    }
}

/// The field names of a struct definition, in definition order.
pub open spec fn field_names(fields: Seq<StructField>) -> Seq<Seq<char>> {
    Seq::new(fields.len(), |i: int| fields[i].name@)
}

/// The models of a run of slots are the slots' models, position by position.
pub proof fn lemma_views(items: Seq<ScriptValue>)
    ensures
        views(items).len() == items.len(),
        forall|i: int| 0 <= i < items.len() ==> #[trigger] views(items)[i] == items[i]@,
    decreases items.len(),
{
    if items.len() > 0 {
        lemma_views(items.drop_last());
        assert(views(items) == views(items.drop_last()).push(items.last()@));
    }
}

/// The models of a run of types are the types' models, position by position.
pub proof fn lemma_type_views(items: Seq<ScriptType>)
    ensures
        type_views(items).len() == items.len(),
        forall|i: int| 0 <= i < items.len() ==> #[trigger] type_views(items)[i] == items[i]@,
    decreases items.len(),
{
    if items.len() > 0 {
        lemma_type_views(items.drop_last());
        assert(type_views(items) == type_views(items.drop_last()).push(items.last()@));
    }
}

/// The field types of a definition are its fields' types, position by position.
pub proof fn lemma_field_type_views(fields: Seq<StructField>)
    ensures
        field_type_views(fields).len() == fields.len(),
        forall|i: int|
            0 <= i < fields.len() ==> #[trigger] field_type_views(fields)[i]
                == fields[i].field_type@,
    decreases fields.len(),
{
    if fields.len() > 0 {
        lemma_field_type_views(fields.drop_last());
        assert(field_type_views(fields) == field_type_views(fields.drop_last()).push(
            fields.last().field_type@,
        ));
    }
}


impl ScriptValue {
    /// A copy of the value, slot by slot.
    pub fn duplicate(&self) -> (copy: ScriptValue)
        ensures
            copy@ == self@,
        decreases self,
    {
        match self {
            ScriptValue::Unit => ScriptValue::Unit,
            ScriptValue::Int(i) => ScriptValue::Int(*i),
            ScriptValue::Float(raw) => ScriptValue::Float(*raw),
            ScriptValue::Bool(b) => ScriptValue::Bool(*b),
            ScriptValue::String(s) => ScriptValue::String(s.clone()),
            ScriptValue::Tuple(items) => ScriptValue::Tuple(duplicate_all(items)),
            ScriptValue::Struct(fields) => ScriptValue::Struct(duplicate_all(fields)),
            ScriptValue::EnumVariant(index) => ScriptValue::EnumVariant(*index),
            ScriptValue::Handle(type_number, payload) => ScriptValue::Handle(
                *type_number,
                *payload,
            ),
        }
    }
}

/// Copies of a run of slots.
pub fn duplicate_all(values: &Vec<ScriptValue>) -> (copies: Vec<ScriptValue>)
    ensures
        views(copies@) == views(values@),
        copies@.len() == values@.len(),
    decreases values,
{
    let mut copies: Vec<ScriptValue> = Vec::new();
    let mut i: usize = 0;
    while i < values.len()
        invariant
            i <= values.len(),
            copies@.len() == i,
            forall|j: int| 0 <= j < i ==> (#[trigger] copies@[j])@ == values@[j]@,
        decreases values.len() - i,
    {
        let copy = values[i].duplicate();
        copies.push(copy);
        i += 1;
    }
    proof {
        lemma_views(copies@);
        lemma_views(values@);
        assert(views(copies@) =~= views(values@));
    }
    copies
}

/// The model of a struct type whose definition is in hand.
pub proof fn lemma_view_type_slots(ty: &ScriptType)
    ensures
        ty matches ScriptType::Struct(definition) ==> ty@ == TypeModel::Struct(definition@),
{
}


impl ScriptType {
    /// A copy of the type.
    pub fn duplicate(&self) -> (copy: ScriptType)
        ensures
            copy@ == self@,
        decreases self,
    {
        match self {
            ScriptType::Int => ScriptType::Int,
            ScriptType::Float => ScriptType::Float,
            ScriptType::Bool => ScriptType::Bool,
            ScriptType::String => ScriptType::String,
            ScriptType::Unit => ScriptType::Unit,
            ScriptType::Tuple(items) => ScriptType::Tuple(duplicate_types(items)),
            ScriptType::Struct(definition) => {
                let fields = duplicate_fields(&definition.fields);
                let copy = ScriptType::Struct(
                    StructType {
                        type_id: definition.type_id,
                        name: definition.name.clone(),
                        fields,
                    },
                );
                assert(copy@->Struct_0.field_names =~= self@->Struct_0.field_names);
                copy
            },
            ScriptType::Enum(definition) => ScriptType::Enum(definition.duplicate()),
            ScriptType::External(type_number) => ScriptType::External(*type_number),
        }
    }
}

impl EnumType {
    /// A copy of the definition.
    pub fn duplicate(&self) -> (copy: EnumType)
        ensures
            copy@ == self@,
    {
        let mut variants: Vec<String> = Vec::new();
        let mut i: usize = 0;
        while i < self.variants.len()
            invariant
                i <= self.variants.len(),
                variants@.len() == i,
                forall|j: int| 0 <= j < i ==> (#[trigger] variants@[j])@ == self.variants@[j]@,
            decreases self.variants.len() - i,
        {
            variants.push(self.variants[i].clone());
            i += 1;
        }
        let copy = EnumType { name: self.name.clone(), variants };
        assert(copy@.variants =~= self@.variants);
        copy
    }
}

impl StructType {
    /// A copy of the definition.
    pub fn duplicate(&self) -> (copy: StructType)
        ensures
            copy@ == self@,
    {
        let fields = duplicate_fields(&self.fields);
        let copy = StructType { type_id: self.type_id, name: self.name.clone(), fields };
        assert(copy@.field_names =~= self@.field_names);
        copy
    }
}

fn duplicate_types(types: &Vec<ScriptType>) -> (copies: Vec<ScriptType>)
    ensures
        type_views(copies@) == type_views(types@),
    decreases types,
{
    let mut copies: Vec<ScriptType> = Vec::new();
    let mut i: usize = 0;
    while i < types.len()
        invariant
            i <= types.len(),
            copies@.len() == i,
            forall|j: int| 0 <= j < i ==> (#[trigger] copies@[j])@ == types@[j]@,
        decreases types.len() - i,
    {
        let copy = types[i].duplicate();
        copies.push(copy);
        i += 1;
    }
    proof {
        lemma_type_views(copies@);
        lemma_type_views(types@);
        assert(type_views(copies@) =~= type_views(types@));
    }
    copies
}

fn duplicate_fields(fields: &Vec<StructField>) -> (copies: Vec<StructField>)
    ensures
        field_type_views(copies@) == field_type_views(fields@),
        field_names(copies@) == field_names(fields@),
    decreases fields,
{
    let mut copies: Vec<StructField> = Vec::new();
    let mut i: usize = 0;
    while i < fields.len()
        invariant
            i <= fields.len(),
            copies@.len() == i,
            forall|j: int|
                0 <= j < i ==> (#[trigger] copies@[j]).field_type@ == fields@[j].field_type@
                    && copies@[j].name@ == fields@[j].name@,
        decreases fields.len() - i,
    {
        let field_type = fields[i].field_type.duplicate();
        copies.push(StructField { name: fields[i].name.clone(), field_type });
        i += 1;
    }
    proof {
        lemma_field_type_views(copies@);
        lemma_field_type_views(fields@);
        assert(field_type_views(copies@) =~= field_type_views(fields@));
        assert(field_names(copies@) =~= field_names(fields@));
    }
    copies
}

} // verus!
