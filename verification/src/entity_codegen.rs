use vstd::prelude::*;

verus! {

broadcast use vstd::string::group_string_axioms;

/// The names of the items that the entity derive generates for one field.
#[derive(Debug, PartialEq, Eq)]
pub struct FieldAccessors {
    /// The getter that borrows the field.
    pub getter: String,
    /// The getter that borrows the field mutably.
    pub getter_mut: String,
    /// The setter, which also stamps the update time; none for the identifier
    /// and the two timestamps.
    pub setter: Option<String>,
    /// The method of the builder that sets the field.
    pub builder_setter: String,
}

/// The fields that keep their value once an entity is built: the identifier
/// and the two timestamps.
pub open spec fn is_fixed_field(field: Seq<char>) -> bool {
    field == "id"@ || field == "updated_at"@ || field == "created_at"@
}

/// Whether `field` names the identifier or one of the timestamps.
fn fixed_field(field: &str) -> (r: bool)
    ensures
        r == is_fixed_field(field@),
{
    let f = field.to_string();
    f == "id".to_string() || f == "updated_at".to_string() || f == "created_at".to_string()
}

/// The names that the entity derive generates for a field named `field`.
pub fn field_accessors(field: &str) -> (r: FieldAccessors)
    ensures
        r.getter@ == field@,
        r.getter_mut@ == field@ + "_mut"@,
        is_fixed_field(field@) ==> r.setter is None,
        !is_fixed_field(field@) ==> (r.setter matches Some(s) && s@ == "set_"@ + field@),
        r.setter is None <==> (field@ == "id"@ || field@ == "updated_at"@ || field@ == "created_at"@),
        r.builder_setter@ == field@,
{
    let getter = field.to_string();
    let getter_mut = field.to_string().concat("_mut");
    let setter = if fixed_field(field) {
        None
    } else {
        Some("set_".to_string().concat(field))
    };
    FieldAccessors { getter, getter_mut, setter, builder_setter: field.to_string() }
}

/// The name of the builder that the entity derive generates for a struct.
pub fn builder_name(struct_name: &str) -> (r: String)
    ensures
        r@ == struct_name@ + "Builder"@,
{
    struct_name.to_string().concat("Builder")
}

/// Who may call a generated item.
#[derive(Debug, Clone, Copy, PartialEq, Eq, Structural)]
pub enum Visibility {
    /// `pub`
    Public,
    /// `pub(crate)`
    Crate,
}

/// How a generated method takes its value.
#[derive(Debug, Clone, Copy, PartialEq, Eq, Structural)]
pub enum Receiver {
    /// No receiver: an associated function.
    Associated,
    /// `&self`
    Shared,
    /// `&mut self`
    Exclusive,
    /// `mut self`, by value.
    Owned,
}

/// A named field and the text of its type.
#[derive(Debug, PartialEq, Eq)]
pub struct Field {
    pub name: String,
    pub ty: String,
}

impl View for Field {
    type V = (Seq<char>, Seq<char>);

    open spec fn view(&self) -> (Seq<char>, Seq<char>) {
        (self.name@, self.ty@)
    }
}

/// What the body of a generated method does.
#[derive(Debug, PartialEq, Eq)]
pub enum MethodBody {
    /// `&self.<field>`: a reference to the field.
    BorrowField(String),
    /// `&mut self.<field>`: a mutable reference to the field.
    BorrowFieldMut(String),
    /// Assigns its argument to the field, then sets `updated_at` to the
    /// current UTC time, without fractions of a second.
    SetFieldAndStamp(String),
    /// `<builder>::new()`: a new builder of the named type.
    NewBuilder(String),
    /// `Self { entity: <struct>::default() }`: a builder that holds the
    /// `Default` value of the named struct.
    StartFromDefault(String),
    /// Assigns its argument to the field of the entity being built and gives
    /// the builder back.
    SetEntityField(String),
    /// `self.entity`: the entity being built.
    ReturnEntity,
}

/// A generated method body as a value.
pub enum BodyView {
    BorrowField(Seq<char>),
    BorrowFieldMut(Seq<char>),
    SetFieldAndStamp(Seq<char>),
    NewBuilder(Seq<char>),
    StartFromDefault(Seq<char>),
    SetEntityField(Seq<char>),
    ReturnEntity,
}

impl View for MethodBody {
    type V = BodyView;

    open spec fn view(&self) -> BodyView {
        match self {
            MethodBody::BorrowField(f) => BodyView::BorrowField(f@),
            MethodBody::BorrowFieldMut(f) => BodyView::BorrowFieldMut(f@),
            MethodBody::SetFieldAndStamp(f) => BodyView::SetFieldAndStamp(f@),
            MethodBody::NewBuilder(b) => BodyView::NewBuilder(b@),
            MethodBody::StartFromDefault(s) => BodyView::StartFromDefault(s@),
            MethodBody::SetEntityField(f) => BodyView::SetEntityField(f@),
            MethodBody::ReturnEntity => BodyView::ReturnEntity,
        }
    }
}

/// A generated method: its name, visibility, receiver, its one parameter if
/// it has one, the text of its result type if it has one, and its body.
#[derive(Debug, PartialEq, Eq)]
pub struct Method {
    pub name: String,
    pub visibility: Visibility,
    pub receiver: Receiver,
    pub param: Option<Field>,
    pub returns: Option<String>,
    pub body: MethodBody,
}

/// A generated method as a value.
pub struct MethodView {
    pub name: Seq<char>,
    pub visibility: Visibility,
    pub receiver: Receiver,
    pub param: Option<(Seq<char>, Seq<char>)>,
    pub returns: Option<Seq<char>>,
    pub body: BodyView,
}

impl View for Method {
    type V = MethodView;

    open spec fn view(&self) -> MethodView {
        MethodView {
            name: self.name@,
            visibility: self.visibility,
            receiver: self.receiver,
            param: match self.param {
                Some(f) => Some(f@),
                None => None,
            },
            returns: match self.returns {
                Some(t) => Some(t@),
                None => None,
            },
            body: self.body@,
        }
    }
}

/// The generated builder struct: its name, visibility and its one field.
#[derive(Debug, PartialEq, Eq)]
pub struct BuilderStruct {
    pub name: String,
    pub visibility: Visibility,
    pub field: Field,
}

/// What a generated `From` conversion does.
#[derive(Debug, Clone, Copy, PartialEq, Eq, Structural)]
pub enum ConversionBody {
    /// `builder.build()`
    Build,
    /// `Self { entity }`: a builder that holds the entity.
    WrapEntity,
}

/// A generated `impl From<from> for to`.
#[derive(Debug, PartialEq, Eq)]
pub struct Conversion {
    pub from: String,
    pub to: String,
    pub body: ConversionBody,
}

/// The views of a sequence of fields.
pub open spec fn fields_view(v: Seq<Field>) -> Seq<(Seq<char>, Seq<char>)> {
    v.map_values(|f: Field| f@)
}

/// The views of a sequence of methods.
pub open spec fn methods_view(v: Seq<Method>) -> Seq<MethodView> {
    v.map_values(|m: Method| m@)
}

/// The getter of a field and the getter that borrows it mutably.
pub open spec fn getters_of(f: (Seq<char>, Seq<char>)) -> Seq<MethodView> {
    seq![
        MethodView {
            name: f.0,
            visibility: Visibility::Public,
            receiver: Receiver::Shared,
            param: None,
            returns: Some("&"@ + f.1),
            body: BodyView::BorrowField(f.0),
        },
        MethodView {
            name: f.0 + "_mut"@,
            visibility: Visibility::Public,
            receiver: Receiver::Exclusive,
            param: None,
            returns: Some("&mut "@ + f.1),
            body: BodyView::BorrowFieldMut(f.0),
        },
    ]
}

/// The setter of a field.
pub open spec fn setter_of(f: (Seq<char>, Seq<char>)) -> MethodView {
    MethodView {
        name: "set_"@ + f.0,
        visibility: Visibility::Public,
        receiver: Receiver::Exclusive,
        param: Some(f),
        returns: None,
        body: BodyView::SetFieldAndStamp(f.0),
    }
}

/// The builder method that sets a field.
pub open spec fn builder_setter_of(f: (Seq<char>, Seq<char>)) -> MethodView {
    MethodView {
        name: f.0,
        visibility: Visibility::Public,
        receiver: Receiver::Owned,
        param: Some(f),
        returns: Some("Self"@),
        body: BodyView::SetEntityField(f.0),
    }
}

/// The getters that the derive adds for `fields`, in order.
pub open spec fn getter_methods(fields: Seq<(Seq<char>, Seq<char>)>) -> Seq<MethodView>
    decreases fields.len(),
{
    if fields.len() == 0 {
        Seq::empty()
    } else {
        getter_methods(fields.drop_last()) + getters_of(fields.last())
    }
}

/// The setters that the derive adds for `fields`, in order: one for each
/// field but the identifier and the two timestamps.
pub open spec fn setter_methods(fields: Seq<(Seq<char>, Seq<char>)>) -> Seq<MethodView>
    decreases fields.len(),
{
    if fields.len() == 0 {
        Seq::empty()
    } else if is_fixed_field(fields.last().0) {
        setter_methods(fields.drop_last())
    } else {
        setter_methods(fields.drop_last()).push(setter_of(fields.last()))
    }
}

/// The methods that the derive adds to the struct named `name`: the
/// getters, then the setters, then `builder`.
pub open spec fn entity_methods_of(name: Seq<char>, fields: Seq<(Seq<char>, Seq<char>)>) -> Seq<MethodView> {
    getter_methods(fields) + setter_methods(fields) + seq![
        MethodView {
            name: "builder"@,
            visibility: Visibility::Public,
            receiver: Receiver::Associated,
            param: None,
            returns: Some(name + "Builder"@),
            body: BodyView::NewBuilder(name + "Builder"@),
        },
    ]
}

/// The methods of the builder of the struct named `name`: `new`, one setter
/// per field, then `build`.
pub open spec fn builder_methods_of(name: Seq<char>, fields: Seq<(Seq<char>, Seq<char>)>) -> Seq<MethodView> {
    seq![
        MethodView {
            name: "new"@,
            visibility: Visibility::Public,
            receiver: Receiver::Associated,
            param: None,
            returns: Some("Self"@),
            body: BodyView::StartFromDefault(name),
        },
    ] + fields.map_values(|f: (Seq<char>, Seq<char>)| builder_setter_of(f)) + seq![
        MethodView {
            name: "build"@,
            visibility: Visibility::Public,
            receiver: Receiver::Owned,
            param: None,
            returns: Some(name),
            body: BodyView::ReturnEntity,
        },
    ]
}

/// All that the entity derive generates for a struct.
#[derive(Debug, PartialEq, Eq)]
pub struct EntityCode {
    /// The methods added to the struct, in order.
    pub entity_methods: Vec<Method>,
    /// The builder struct.
    pub builder: BuilderStruct,
    /// The methods of the builder, in order.
    pub builder_methods: Vec<Method>,
    /// The `From` conversions between the struct and its builder.
    pub conversions: Vec<Conversion>,
}

fn text(s: &str) -> (r: String)
    ensures
        r@ == s@,
{
    s.to_string()
}

fn copy_field(f: &Field) -> (r: Field)
    ensures
        r@ == f@,
{
    Field { name: f.name.clone(), ty: f.ty.clone() }
}

/// What the entity derive generates for the struct `struct_name` with the
/// named fields `fields`, in order: for each field a getter and a mutable
/// getter, a setter for each field but `id`, `updated_at` and `created_at`,
/// an associated `builder`; a builder struct visible in the crate with one
/// field `entity` of the struct's type, with `new`, one setter per field and
/// `build`; and a `From` conversion each way.
pub fn entity_code(struct_name: &str, fields: &Vec<Field>) -> (r: EntityCode)
    ensures
        methods_view(r.entity_methods@) == entity_methods_of(struct_name@, fields_view(fields@)),
        r.builder.name@ == struct_name@ + "Builder"@,
        r.builder.visibility == Visibility::Crate,
        r.builder.field@ == ("entity"@, struct_name@),
        methods_view(r.builder_methods@) == builder_methods_of(struct_name@, fields_view(fields@)),
        r.conversions@.len() == 2,
        r.conversions@[0].from@ == struct_name@ + "Builder"@,
        r.conversions@[0].to@ == struct_name@,
        r.conversions@[0].body == ConversionBody::Build,
        r.conversions@[1].from@ == struct_name@,
        r.conversions@[1].to@ == struct_name@ + "Builder"@,
        r.conversions@[1].body == ConversionBody::WrapEntity,
{
    let ghost fv = fields_view(fields@);
    let builder = builder_name(struct_name);
    let mut methods: Vec<Method> = Vec::new();
    let mut setters: Vec<Method> = Vec::new();
    let mut builder_methods: Vec<Method> = Vec::new();
    builder_methods.push(Method {
        name: text("new"),
        visibility: Visibility::Public,
        receiver: Receiver::Associated,
        param: None,
        returns: Some(text("Self")),
        body: MethodBody::StartFromDefault(text(struct_name)),
    });
    let ghost new_method = builder_methods@[0]@;
    assert(methods_view(methods@) =~= getter_methods(fv.take(0)));
    assert(methods_view(setters@) =~= setter_methods(fv.take(0)));
    assert(methods_view(builder_methods@) =~= seq![new_method] + fv.take(0).map_values(|f: (Seq<char>, Seq<char>)| builder_setter_of(f)));
    let mut i: usize = 0;
    while i < fields.len()
        invariant
            i <= fields@.len(),
            fv == fields_view(fields@),
            methods_view(methods@) == getter_methods(fv.take(i as int)),
            methods_view(setters@) == setter_methods(fv.take(i as int)),
            methods_view(builder_methods@) == seq![new_method] + fv.take(i as int).map_values(
                |f: (Seq<char>, Seq<char>)| builder_setter_of(f),
            ),
        decreases fields@.len() - i,
    {
        let field = &fields[i];
        let acc = field_accessors(field.name.as_str());
        let ghost before = fv.take(i as int);
        let ghost after = fv.take(i + 1);
        let ghost f = field@;
        assert(after.drop_last() =~= before);
        assert(after.last() == f);
        let ghost m0 = methods@;
        let ghost s0 = setters@;
        let ghost b0 = builder_methods@;
        methods.push(Method {
            name: acc.getter,
            visibility: Visibility::Public,
            receiver: Receiver::Shared,
            param: None,
            returns: Some(text("&").concat(field.ty.as_str())),
            body: MethodBody::BorrowField(field.name.clone()),
        });
        methods.push(Method {
            name: acc.getter_mut,
            visibility: Visibility::Public,
            receiver: Receiver::Exclusive,
            param: None,
            returns: Some(text("&mut ").concat(field.ty.as_str())),
            body: MethodBody::BorrowFieldMut(field.name.clone()),
        });
        assert(methods_view(methods@) =~= methods_view(m0) + getters_of(f));
        match acc.setter {
            Some(s) => {
                setters.push(Method {
                    name: s,
                    visibility: Visibility::Public,
                    receiver: Receiver::Exclusive,
                    param: Some(copy_field(field)),
                    returns: None,
                    body: MethodBody::SetFieldAndStamp(field.name.clone()),
                });
                assert(methods_view(setters@) =~= methods_view(s0).push(setter_of(f)));
            },
            None => {
                assert(methods_view(setters@) =~= methods_view(s0));
            },
        }
        builder_methods.push(Method {
            name: acc.builder_setter,
            visibility: Visibility::Public,
            receiver: Receiver::Owned,
            param: Some(copy_field(field)),
            returns: Some(text("Self")),
            body: MethodBody::SetEntityField(field.name.clone()),
        });
        assert(methods_view(builder_methods@) =~= methods_view(b0).push(builder_setter_of(f)));
        assert(after.map_values(|f: (Seq<char>, Seq<char>)| builder_setter_of(f)) =~= before.map_values(
            |f: (Seq<char>, Seq<char>)| builder_setter_of(f),
        ).push(builder_setter_of(f)));
        i = i + 1;
    }
    assert(fv.take(fields@.len() as int) =~= fv);
    let ghost getters = methods_view(methods@);
    let ghost all_setters = methods_view(setters@);
    let mut rest = setters;
    let mut tail: Vec<Method> = Vec::new();
    while rest.len() > 0
        invariant
            getters + all_setters == methods_view(methods@) + methods_view(rest@),
        decreases rest@.len(),
    {
        let ghost m0 = methods@;
        let ghost r0 = rest@;
        let first = rest.remove(0);
        methods.push(first);
        assert(methods_view(r0) =~= seq![methods_view(r0)[0]] + methods_view(rest@));
        assert(methods_view(methods@) =~= methods_view(m0).push(methods_view(r0)[0]));
    }
    assert(methods_view(rest@) =~= Seq::<MethodView>::empty());
    assert(methods_view(methods@) =~= getters + all_setters);
    let ghost m1 = methods@;
    methods.push(Method {
        name: text("builder"),
        visibility: Visibility::Public,
        receiver: Receiver::Associated,
        param: None,
        returns: Some(builder.clone()),
        body: MethodBody::NewBuilder(builder.clone()),
    });
    assert(methods_view(methods@) =~= entity_methods_of(struct_name@, fv));
    let ghost b1 = builder_methods@;
    builder_methods.push(Method {
        name: text("build"),
        visibility: Visibility::Public,
        receiver: Receiver::Owned,
        param: None,
        returns: Some(text(struct_name)),
        body: MethodBody::ReturnEntity,
    });
    assert(methods_view(builder_methods@) =~= builder_methods_of(struct_name@, fv));
    let mut conversions: Vec<Conversion> = Vec::new();
    conversions.push(Conversion { from: builder.clone(), to: text(struct_name), body: ConversionBody::Build });
    conversions.push(Conversion { from: text(struct_name), to: builder.clone(), body: ConversionBody::WrapEntity });
    let record = BuilderStruct {
        name: builder,
        visibility: Visibility::Crate,
        field: Field { name: text("entity"), ty: text(struct_name) },
    };
    EntityCode { entity_methods: methods, builder: record, builder_methods, conversions }
}


proof fn lemma_setters_present(fields: Seq<(Seq<char>, Seq<char>)>)
    ensures
        forall|i: int| 0 <= i < fields.len() && !is_fixed_field(fields[i].0) ==> setter_methods(fields).contains(
            #[trigger] setter_of(fields[i]),
        ),
    decreases fields.len(),
{
    broadcast use vstd::seq_lib::lemma_seq_contains_after_push;

    if fields.len() > 0 {
        let prev = fields.drop_last();
        lemma_setters_present(prev);
        assert forall|i: int| 0 <= i < fields.len() && !is_fixed_field(fields[i].0) implies setter_methods(fields).contains(
            #[trigger] setter_of(fields[i]),
        ) by {
            if i < fields.len() - 1 {
                assert(prev[i] == fields[i]);
            }
        }
    }
}

proof fn lemma_setters_only_for_free_fields(fields: Seq<(Seq<char>, Seq<char>)>)
    ensures
        forall|m: MethodView| #[trigger] setter_methods(fields).contains(m) ==> (m.body matches BodyView::SetFieldAndStamp(
            f,
        ) && !is_fixed_field(f)),
    decreases fields.len(),
{
    broadcast use vstd::seq_lib::lemma_seq_contains_after_push;

    if fields.len() > 0 {
        let prev = fields.drop_last();
        lemma_setters_only_for_free_fields(prev);
        assert forall|m: MethodView| #[trigger] setter_methods(fields).contains(m) implies (m.body matches BodyView::SetFieldAndStamp(
            f,
        ) && !is_fixed_field(f)) by {
            if !is_fixed_field(fields.last().0) {
                assert(setter_methods(fields) == setter_methods(prev).push(setter_of(fields.last())));
                if m != setter_of(fields.last()) {
                    assert(setter_methods(prev).contains(m));
                }
            } else {
                assert(setter_methods(fields) == setter_methods(prev));
            }
        }
    } else {
        assert forall|m: MethodView| #[trigger] setter_methods(fields).contains(m) implies (m.body matches BodyView::SetFieldAndStamp(
            f,
        ) && !is_fixed_field(f)) by {
            let j = choose|j: int| 0 <= j < setter_methods(fields).len() && setter_methods(fields)[j] == m;
        }
    }
}

/// Among the methods that the entity derive adds, every field gets a setter
/// `set_<field>`, which takes the field's value, assigns it and stamps the
/// update time, except exactly the fields `id`, `updated_at` and
/// `created_at`: no method added sets any of those three.
pub proof fn every_field_but_id_and_timestamps_gets_a_setter(name: Seq<char>, fields: Seq<(Seq<char>, Seq<char>)>)
    ensures
        forall|i: int|
            0 <= i < fields.len() && !(fields[i].0 == "id"@ || fields[i].0 == "updated_at"@ || fields[i].0
                == "created_at"@) ==> #[trigger] entity_methods_of(name, fields).contains(
                MethodView {
                    name: "set_"@ + fields[i].0,
                    visibility: Visibility::Public,
                    receiver: Receiver::Exclusive,
                    param: Some(fields[i]),
                    returns: None,
                    body: BodyView::SetFieldAndStamp(fields[i].0),
                },
            ),
        forall|m: MethodView| #[trigger] entity_methods_of(name, fields).contains(m) ==> (m.body matches BodyView::SetFieldAndStamp(f)
            ==> !(f == "id"@ || f == "updated_at"@ || f == "created_at"@)),
{
    broadcast use vstd::seq_lib::lemma_seq_concat_contains_all_elements;

    lemma_setters_present(fields);
    lemma_setters_only_for_free_fields(fields);
    let getters = getter_methods(fields);
    let setters = setter_methods(fields);
    let last = seq![
        MethodView {
            name: "builder"@,
            visibility: Visibility::Public,
            receiver: Receiver::Associated,
            param: None,
            returns: Some(name + "Builder"@),
            body: BodyView::NewBuilder(name + "Builder"@),
        },
    ];
    lemma_getters_borrow(fields);
    assert forall|m: MethodView| #[trigger] entity_methods_of(name, fields).contains(m) implies (m.body matches BodyView::SetFieldAndStamp(f)
        ==> !(f == "id"@ || f == "updated_at"@ || f == "created_at"@)) by {
        assert(entity_methods_of(name, fields) == getters + setters + last);
        if last.contains(m) {
            let j = choose|j: int| 0 <= j < last.len() && last[j] == m;
            assert(j == 0);
        }
    }
    assert forall|i: int|
        0 <= i < fields.len() && !(fields[i].0 == "id"@ || fields[i].0 == "updated_at"@ || fields[i].0
            == "created_at"@) implies #[trigger] entity_methods_of(name, fields).contains(
            MethodView {
                name: "set_"@ + fields[i].0,
                visibility: Visibility::Public,
                receiver: Receiver::Exclusive,
                param: Some(fields[i]),
                returns: None,
                body: BodyView::SetFieldAndStamp(fields[i].0),
            },
        ) by {
        assert(setters.contains(setter_of(fields[i])));
        assert(entity_methods_of(name, fields) == getters + setters + last);
    }
}

proof fn lemma_getters_borrow(fields: Seq<(Seq<char>, Seq<char>)>)
    ensures
        forall|m: MethodView| #[trigger] getter_methods(fields).contains(m) ==> (m.body is BorrowField || m.body is BorrowFieldMut),
    decreases fields.len(),
{
    broadcast use vstd::seq_lib::lemma_seq_concat_contains_all_elements;

    if fields.len() > 0 {
        let prev = fields.drop_last();
        lemma_getters_borrow(prev);
        let g = getters_of(fields.last());
        assert forall|m: MethodView| #[trigger] g.contains(m) implies (m.body is BorrowField || m.body is BorrowFieldMut) by {
            let j = choose|j: int| 0 <= j < g.len() && g[j] == m;
            assert(j == 0 || j == 1);
        }
        assert forall|m: MethodView| #[trigger] getter_methods(fields).contains(m) implies (m.body is BorrowField || m.body is BorrowFieldMut) by {
            assert(getter_methods(fields) == getter_methods(prev) + g);
        }
    } else {
        assert forall|m: MethodView| #[trigger] getter_methods(fields).contains(m) implies (m.body is BorrowField || m.body is BorrowFieldMut) by {
            let j = choose|j: int| 0 <= j < getter_methods(fields).len() && getter_methods(fields)[j] == m;
        }
    }
}

/// The getter of `f` that borrows it, as the derive writes it.
pub open spec fn expected_getter(f: (Seq<char>, Seq<char>)) -> MethodView {
    MethodView {
        name: f.0,
        visibility: Visibility::Public,
        receiver: Receiver::Shared,
        param: None,
        returns: Some("&"@ + f.1),
        body: BodyView::BorrowField(f.0),
    }
}

/// The getter of `f` that borrows it mutably, as the derive writes it.
pub open spec fn expected_getter_mut(f: (Seq<char>, Seq<char>)) -> MethodView {
    MethodView {
        name: f.0 + "_mut"@,
        visibility: Visibility::Public,
        receiver: Receiver::Exclusive,
        param: None,
        returns: Some("&mut "@ + f.1),
        body: BodyView::BorrowFieldMut(f.0),
    }
}

proof fn lemma_getters_present(fields: Seq<(Seq<char>, Seq<char>)>)
    ensures
        forall|i: int| 0 <= i < fields.len() ==> getter_methods(fields).contains(#[trigger] expected_getter(fields[i]))
            && getter_methods(fields).contains(expected_getter_mut(fields[i])),
    decreases fields.len(),
{
    broadcast use vstd::seq_lib::lemma_seq_concat_contains_all_elements;

    if fields.len() > 0 {
        let prev = fields.drop_last();
        lemma_getters_present(prev);
        let g = getters_of(fields.last());
        assert(g[0] == expected_getter(fields.last()));
        assert(g[1] == expected_getter_mut(fields.last()));
        assert forall|i: int| 0 <= i < fields.len() implies getter_methods(fields).contains(#[trigger] expected_getter(fields[i]))
            && getter_methods(fields).contains(expected_getter_mut(fields[i])) by {
            assert(getter_methods(fields) == getter_methods(prev) + g);
            if i < fields.len() - 1 {
                assert(prev[i] == fields[i]);
            }
        }
    }
}

/// For every field the derive adds a getter named after the field, which
/// takes `&self` and gives a reference to the field, and `<field>_mut`, which
/// takes `&mut self` and gives a mutable reference to it; its last method is
/// `builder`, which gives a new builder. The builder has, in order, `new`,
/// which starts from the struct's `Default`, one method per field, which
/// takes the builder and a value, sets that field of the entity and gives the
/// builder back, and `build`, which gives the entity.
pub proof fn generated_items_do_what_they_say(name: Seq<char>, fields: Seq<(Seq<char>, Seq<char>)>)
    ensures
        forall|i: int| 0 <= i < fields.len() ==> #[trigger] entity_methods_of(name, fields).contains(expected_getter(fields[i])),
        forall|i: int| 0 <= i < fields.len() ==> #[trigger] entity_methods_of(name, fields).contains(expected_getter_mut(fields[i])),
        entity_methods_of(name, fields).last() == (MethodView {
            name: "builder"@,
            visibility: Visibility::Public,
            receiver: Receiver::Associated,
            param: None,
            returns: Some(name + "Builder"@),
            body: BodyView::NewBuilder(name + "Builder"@),
        }),
        builder_methods_of(name, fields).len() == fields.len() + 2,
        builder_methods_of(name, fields)[0] == (MethodView {
            name: "new"@,
            visibility: Visibility::Public,
            receiver: Receiver::Associated,
            param: None,
            returns: Some("Self"@),
            body: BodyView::StartFromDefault(name),
        }),
        forall|i: int| 0 <= i < fields.len() ==> #[trigger] builder_methods_of(name, fields)[i + 1] == (MethodView {
            name: fields[i].0,
            visibility: Visibility::Public,
            receiver: Receiver::Owned,
            param: Some(fields[i]),
            returns: Some("Self"@),
            body: BodyView::SetEntityField(fields[i].0),
        }),
        builder_methods_of(name, fields)[fields.len() + 1int] == (MethodView {
            name: "build"@,
            visibility: Visibility::Public,
            receiver: Receiver::Owned,
            param: None,
            returns: Some(name),
            body: BodyView::ReturnEntity,
        }),
{
    broadcast use vstd::seq_lib::lemma_seq_concat_contains_all_elements;

    lemma_getters_present(fields);
    let e = entity_methods_of(name, fields);
    assert forall|i: int| 0 <= i < fields.len() implies #[trigger] e.contains(expected_getter(fields[i])) by {
        assert(getter_methods(fields).contains(expected_getter(fields[i])));
    }
    assert forall|i: int| 0 <= i < fields.len() implies #[trigger] e.contains(expected_getter_mut(fields[i])) by {
        assert(getter_methods(fields).contains(expected_getter(fields[i])));
        assert(getter_methods(fields).contains(expected_getter_mut(fields[i])));
    }
    let b = builder_methods_of(name, fields);
    assert forall|i: int| 0 <= i < fields.len() implies #[trigger] b[i + 1] == (MethodView {
        name: fields[i].0,
        visibility: Visibility::Public,
        receiver: Receiver::Owned,
        param: Some(fields[i]),
        returns: Some("Self"@),
        body: BodyView::SetEntityField(fields[i].0),
    }) by {
        assert(b[i + 1] == fields.map_values(|f: (Seq<char>, Seq<char>)| builder_setter_of(f))[i]);
    }
}

} // verus!
