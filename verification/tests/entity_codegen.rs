use api::entity_codegen::{
    builder_name, entity_code, field_accessors, BuilderStruct, Conversion, ConversionBody, Field, Method, MethodBody,
    Receiver, Visibility,
};

#[test]
fn ordinary_field_gets_getters_and_setter() {
    let a = field_accessors("name");
    assert_eq!(a.getter, "name");
    assert_eq!(a.getter_mut, "name_mut");
    assert_eq!(a.setter, Some(String::from("set_name")));
    assert_eq!(a.builder_setter, "name");
}

#[test]
fn identifier_and_timestamps_get_no_setter() {
    for field in ["id", "updated_at", "created_at"] {
        let a = field_accessors(field);
        assert_eq!(a.setter, None);
        assert_eq!(a.getter, field);
    }
    assert_eq!(field_accessors("idx").setter, Some(String::from("set_idx")));
}

#[test]
fn builder_is_named_after_the_struct() {
    assert_eq!(builder_name("User"), "UserBuilder");
}

fn text(s: &str) -> String {
    String::from(s)
}

fn field(name: &str, ty: &str) -> Field {
    Field { name: text(name), ty: text(ty) }
}

fn method(
    name: &str,
    receiver: Receiver,
    param: Option<Field>,
    returns: Option<&str>,
    body: MethodBody,
) -> Method {
    Method { name: text(name), visibility: Visibility::Public, receiver, param, returns: returns.map(text), body }
}

#[test]
fn user_entity_gets_accessors_setters_builder_and_conversions() {
    let fields = vec![
        field("id", "usize"),
        field("name", "String"),
        field("email", "String"),
        field("updated_at", "chrono::NaiveDateTime"),
    ];
    let code = entity_code("User", &fields);
    let mut getters = Vec::new();
    for f in &fields {
        getters.push(method(&f.name, Receiver::Shared, None, Some(&format!("&{}", f.ty)), MethodBody::BorrowField(f.name.clone())));
        getters.push(method(
            &format!("{}_mut", f.name),
            Receiver::Exclusive,
            None,
            Some(&format!("&mut {}", f.ty)),
            MethodBody::BorrowFieldMut(f.name.clone()),
        ));
    }
    getters.push(method("set_name", Receiver::Exclusive, Some(field("name", "String")), None, MethodBody::SetFieldAndStamp(text("name"))));
    getters.push(method("set_email", Receiver::Exclusive, Some(field("email", "String")), None, MethodBody::SetFieldAndStamp(text("email"))));
    getters.push(method("builder", Receiver::Associated, None, Some("UserBuilder"), MethodBody::NewBuilder(text("UserBuilder"))));
    assert_eq!(code.entity_methods, getters);
    assert_eq!(code.entity_methods[0].returns, Some(text("&usize")));
    assert_eq!(
        code.builder,
        BuilderStruct { name: text("UserBuilder"), visibility: Visibility::Crate, field: field("entity", "User") }
    );
    let mut builder_methods = vec![method("new", Receiver::Associated, None, Some("Self"), MethodBody::StartFromDefault(text("User")))];
    for f in &fields {
        builder_methods.push(method(
            &f.name,
            Receiver::Owned,
            Some(field(&f.name, &f.ty)),
            Some("Self"),
            MethodBody::SetEntityField(f.name.clone()),
        ));
    }
    builder_methods.push(method("build", Receiver::Owned, None, Some("User"), MethodBody::ReturnEntity));
    assert_eq!(code.builder_methods, builder_methods);
    assert_eq!(
        code.conversions,
        vec![
            Conversion { from: text("UserBuilder"), to: text("User"), body: ConversionBody::Build },
            Conversion { from: text("User"), to: text("UserBuilder"), body: ConversionBody::WrapEntity },
        ]
    );
}
