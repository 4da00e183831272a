use field_compose::{
    generate, message_base, user_base, BaseSet, ComposeError, FieldDecl, Request, Visibility,
};

fn derive_attrs() -> Vec<String> {
    vec!["Debug".to_string(), "Clone".to_string(), "PartialEq".to_string()]
}

fn names(fields: &[FieldDecl]) -> Vec<&str> {
    fields.iter().map(|f| f.name.as_str()).collect()
}

#[test]
fn message_composed_from_base_and_read_flag() {
    let base = message_base();
    let req = Request {
        attrs: Some(derive_attrs()),
        name: Some("Message".to_string()),
        fields: Some(vec![FieldDecl::new(Visibility::Public, "read", "bool")]),
    };
    let d = generate(&base, &req).unwrap();
    assert_eq!(d.name, "Message");
    assert_eq!(d.attrs, derive_attrs());
    assert_eq!(
        d.fields,
        vec![
            FieldDecl::new(Visibility::Public, "author_id", "i64"),
            FieldDecl::new(Visibility::Public, "text", "String"),
            FieldDecl::new(Visibility::Public, "read", "bool"),
        ]
    );
}

#[test]
fn user_fields_are_base_then_additional() {
    let base = user_base();
    let req = Request {
        attrs: Some(derive_attrs()),
        name: Some("User".to_string()),
        fields: Some(vec![
            FieldDecl::new(Visibility::Public, "active", "bool"),
            FieldDecl::new(Visibility::Private, "note", "String"),
        ]),
    };
    let d = generate(&base, &req).unwrap();
    assert_eq!(names(&d.fields), vec!["id", "email", "profile", "active", "note"]);
    assert_eq!(d.fields[2].ty, "Profile");
    assert_eq!(d.fields[4].vis, Visibility::Private);
    assert_eq!(d.fields[3].vis, Visibility::Public);
    assert_eq!(base.fields().len(), 3);
}

#[test]
fn bare_request_yields_base_fields() {
    let base = message_base();
    let req = Request { attrs: None, name: Some("MessageUpdateRequest".to_string()), fields: None };
    let d = generate(&base, &req).unwrap();
    assert_eq!(d.name, "MessageUpdateRequest");
    assert_eq!(&d.fields, base.fields());
    assert!(d.attrs.is_empty());
}

#[test]
fn bare_request_forwards_attributes() {
    let base = message_base();
    let req = Request {
        attrs: Some(derive_attrs()),
        name: Some("MessageCreateRequest".to_string()),
        fields: None,
    };
    let d = generate(&base, &req).unwrap();
    assert_eq!(d.name, "MessageCreateRequest");
    assert_eq!(&d.fields, base.fields());
    assert_eq!(d.attrs, derive_attrs());
}

#[test]
fn empty_request_yields_base_itself() {
    let base = user_base();
    let req = Request { attrs: None, name: None, fields: None };
    let d = generate(&base, &req).unwrap();
    assert_eq!(d.name, "UserBase");
    assert_eq!(&d.fields, base.fields());
    assert!(d.attrs.is_empty());
}

#[test]
fn attributes_only_request_names_base() {
    let base = user_base();
    let req = Request { attrs: Some(vec!["Debug".to_string()]), name: None, fields: None };
    let d = generate(&base, &req).unwrap();
    assert_eq!(d.name, "UserBase");
    assert_eq!(d.attrs, vec!["Debug".to_string()]);
    assert_eq!(names(&d.fields), vec!["id", "email", "profile"]);
}

#[test]
fn fields_without_name_are_rejected() {
    let base = message_base();
    let req = Request {
        attrs: None,
        name: None,
        fields: Some(vec![FieldDecl::new(Visibility::Public, "read", "bool")]),
    };
    assert_eq!(generate(&base, &req), Err(ComposeError::MalformedRequest));
}

#[test]
fn empty_attribute_list_is_rejected() {
    let base = message_base();
    let req = Request { attrs: Some(vec![]), name: Some("M".to_string()), fields: None };
    assert_eq!(generate(&base, &req), Err(ComposeError::MalformedRequest));
}

#[test]
fn empty_field_list_is_rejected() {
    let base = message_base();
    let req = Request { attrs: None, name: Some("M".to_string()), fields: Some(vec![]) };
    assert_eq!(generate(&base, &req), Err(ComposeError::MalformedRequest));
}

#[test]
fn field_colliding_with_base_is_rejected() {
    let base = message_base();
    let req = Request {
        attrs: None,
        name: Some("Message".to_string()),
        fields: Some(vec![FieldDecl::new(Visibility::Public, "text", "bool")]),
    };
    assert_eq!(generate(&base, &req), Err(ComposeError::DuplicateField));
}

#[test]
fn repeated_additional_field_is_rejected() {
    let base = message_base();
    let req = Request {
        attrs: None,
        name: Some("Message".to_string()),
        fields: Some(vec![
            FieldDecl::new(Visibility::Public, "read", "bool"),
            FieldDecl::new(Visibility::Private, "read", "bool"),
        ]),
    };
    assert_eq!(generate(&base, &req), Err(ComposeError::DuplicateField));
}

#[test]
fn empty_base_is_rejected() {
    assert_eq!(
        BaseSet::define("Empty".to_string(), vec![]).err(),
        Some(ComposeError::EmptyBase)
    );
}

#[test]
fn base_with_repeated_name_is_rejected() {
    let fields = vec![
        FieldDecl::new(Visibility::Public, "id", "i64"),
        FieldDecl::new(Visibility::Public, "id", "u32"),
    ];
    assert_eq!(
        BaseSet::define("Twice".to_string(), fields).err(),
        Some(ComposeError::DuplicateField)
    );
}

#[test]
fn defined_base_keeps_name_and_fields() {
    let fields = vec![
        FieldDecl::new(Visibility::Crate, "id", "i64"),
        FieldDecl::new(Visibility::Private, "tag", "String"),
    ];
    let base = BaseSet::define("Tagged".to_string(), fields.clone()).unwrap();
    assert_eq!(base.name(), "Tagged");
    assert_eq!(base.fields(), &fields);
}

#[test]
fn names_are_distinct_detects_repeats() {
    let a = FieldDecl::new(Visibility::Public, "a", "i64");
    let b = FieldDecl::new(Visibility::Public, "b", "i64");
    assert!(field_compose::compose::names_are_distinct(&vec![]));
    assert!(field_compose::compose::names_are_distinct(&vec![a.clone(), b.clone()]));
    assert!(!field_compose::compose::names_are_distinct(&vec![a.clone(), b.clone(), a.clone()]));
}
