use field_access::{
    accessible_fields, AnyFieldAccess, AnyMut, AnyRef, FieldAccess, FieldDecl, FieldType,
};

struct Foo {
    a: u8,
    b: &'static str,
    c: i64,
}

impl AnyFieldAccess for Foo {
    fn field_as_any(&self, field: &str) -> Option<AnyRef<'_>> {
        match field {
            "a" => Some(self.a.erase()),
            "b" => Some(self.b.erase()),
            "c" => Some(self.c.erase()),
            _ => None,
        }
    }

    fn field_as_any_mut(&mut self, field: &str) -> Option<AnyMut<'_>> {
        match field {
            "a" => Some(self.a.erase_mut()),
            "b" => Some(self.b.erase_mut()),
            "c" => Some(self.c.erase_mut()),
            _ => None,
        }
    }

    fn field_names(&self) -> &'static [&'static str] {
        &["a", "b", "c"]
    }
}

#[test]
fn field_names() {
    let decls: Vec<FieldDecl> = ["a", "b", "c"]
        .iter()
        .map(|n| FieldDecl { name: n.to_string(), public: false, skip: false })
        .collect();
    assert_eq!(
        accessible_fields(&decls, false),
        vec!["a".to_string(), "b".to_string(), "c".to_string()]
    );

    let foo = Foo { a: 1, b: "b", c: 1 };

    assert_eq!(foo.field_names(), &["a", "b", "c"]);
    assert_eq!(foo.field("a").unwrap().as_u8(), Ok(1));
    assert_eq!(foo.field("b").unwrap().as_str(), Ok("b"));
    assert_eq!(foo.field("c").unwrap().as_i64(), Ok(1));
}
