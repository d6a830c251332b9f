use field_access::{
    AccessError, AnyFieldAccess, AnyMut, AnyRef, FieldAccess, FieldType, Kind,
};

struct Record {
    a: u8,
    b: u32,
    c: i16,
    flag: bool,
    name: String,
    label: &'static str,
    bytes: Vec<u8>,
    raw: &'static [u8],
}

impl AnyFieldAccess for Record {
    fn field_as_any(&self, field: &str) -> Option<AnyRef<'_>> {
        match field {
            "a" => Some(self.a.erase()),
            "b" => Some(self.b.erase()),
            "c" => Some(self.c.erase()),
            "flag" => Some(self.flag.erase()),
            "name" => Some(self.name.erase()),
            "label" => Some(self.label.erase()),
            "bytes" => Some(self.bytes.erase()),
            "raw" => Some(self.raw.erase()),
            _ => None,
        }
    }

    fn field_as_any_mut(&mut self, field: &str) -> Option<AnyMut<'_>> {
        match field {
            "a" => Some(self.a.erase_mut()),
            "b" => Some(self.b.erase_mut()),
            "c" => Some(self.c.erase_mut()),
            "flag" => Some(self.flag.erase_mut()),
            "name" => Some(self.name.erase_mut()),
            "label" => Some(self.label.erase_mut()),
            "bytes" => Some(self.bytes.erase_mut()),
            "raw" => Some(self.raw.erase_mut()),
            _ => None,
        }
    }

    fn field_names(&self) -> &'static [&'static str] {
        &["a", "b", "c", "flag", "name", "label", "bytes", "raw"]
    }
}

fn record() -> Record {
    Record {
        a: 1,
        b: 300,
        c: -5,
        flag: true,
        name: String::from("bar"),
        label: "baz",
        bytes: vec![1, 2, 3],
        raw: &[4, 5],
    }
}

#[test]
fn scenario_widening_reads() {
    let foo = record();
    assert_eq!(foo.field("a").unwrap().as_u16(), Ok(1u16));
    assert_eq!(foo.field("a").unwrap().as_u32(), Ok(1u32));
}

#[test]
fn scenario_narrowing_reads() {
    let foo = record();
    assert_eq!(foo.field("b").unwrap().as_u8(), Err(AccessError::TypeMismatch));
    assert_eq!(foo.field("b").unwrap().as_u64(), Ok(300u64));
    assert_eq!(foo.field("b").unwrap().as_u16(), Ok(300u16));
}

#[test]
fn scenario_write_with_wrong_type() {
    let mut foo = record();
    assert_eq!(foo.field_mut("a").unwrap().set("x"), Err(AccessError::TypeMismatch));
    assert_eq!(foo.a, 1);
    assert_eq!(foo.field_mut("a").unwrap().set(2u16), Err(AccessError::TypeMismatch));
    assert_eq!(foo.a, 1);
}

#[test]
fn scenario_fields_in_order() {
    struct Abc {
        a: u8,
        b: u8,
        c: u8,
    }
    impl AnyFieldAccess for Abc {
        fn field_as_any(&self, field: &str) -> Option<AnyRef<'_>> {
            match field {
                "a" => Some(self.a.erase()),
                "b" => Some(self.b.erase()),
                "c" => Some(self.c.erase()),
                _ => None,
            }
        }
        fn field_as_any_mut(&mut self, field: &str) -> Option<AnyMut<'_>> {
            match field {
                "a" => Some(self.a.erase_mut()),
                "b" => Some(self.b.erase_mut()),
                "c" => Some(self.c.erase_mut()),
                _ => None,
            }
        }
        fn field_names(&self) -> &'static [&'static str] {
            &["a", "b", "c"]
        }
    }

    let foo = Abc { a: 1, b: 2, c: 3 };
    let mut fields = foo.fields();
    assert_eq!(fields.len(), 3);
    assert_eq!(fields.size_hint(), (3, Some(3)));
    let (name, f) = fields.next().unwrap();
    assert_eq!((name, f.as_u8()), ("a", Ok(1)));
    assert_eq!(fields.len(), 2);
    let (name, f) = fields.next().unwrap();
    assert_eq!((name, f.as_u8()), ("b", Ok(2)));
    assert_eq!(fields.len(), 1);
    let (name, f) = fields.next().unwrap();
    assert_eq!((name, f.as_u8()), ("c", Ok(3)));
    assert_eq!(fields.len(), 0);
    assert!(fields.next().is_none());
    assert!(fields.next_back().is_none());

    let mut back = foo.fields();
    assert_eq!(back.next_back().unwrap().0, "c");
    assert_eq!(back.next().unwrap().0, "a");
    assert_eq!(back.next_back().unwrap().0, "b");
    assert_eq!(back.len(), 0);
}

#[test]
fn scenario_take_leaves_default() {
    let mut foo = record();
    foo.a = 42;
    assert_eq!(foo.field_mut("a").unwrap().take::<u8>(), Ok(42));
    assert_eq!(foo.a, 0);
    assert_eq!(foo.field_mut("name").unwrap().take::<String>(), Ok(String::from("bar")));
    assert_eq!(foo.name, "");
    assert_eq!(foo.field_mut("name").unwrap().take::<u8>(), Err(AccessError::TypeMismatch));
}

#[test]
fn exact_reads_and_missing_names() {
    let foo = record();
    assert_eq!(foo.field("a").unwrap().get::<u8>(), Ok(&1));
    assert_eq!(foo.field("c").unwrap().get::<i16>(), Ok(&-5));
    assert_eq!(foo.field("flag").unwrap().as_bool(), Ok(true));
    assert_eq!(foo.field("name").unwrap().get::<String>(), Ok(&String::from("bar")));
    assert!(matches!(foo.field("zzz"), Err(AccessError::NoSuchField)));
    assert!(matches!(foo.field("A"), Err(AccessError::NoSuchField)));
    assert!(matches!(foo.field(""), Err(AccessError::NoSuchField)));
    let mut foo = foo;
    assert!(matches!(foo.field_mut("zzz"), Err(AccessError::NoSuchField)));
}

#[test]
fn other_types_are_mismatches() {
    let foo = record();
    let a = foo.field("a").unwrap();
    assert_eq!(a.get::<u16>(), Err(AccessError::TypeMismatch));
    assert_eq!(a.get::<&str>(), Err(AccessError::TypeMismatch));
    assert_eq!(a.as_i16(), Err(AccessError::TypeMismatch));
    assert_eq!(a.as_bool(), Err(AccessError::TypeMismatch));
    assert_eq!(a.as_str(), Err(AccessError::TypeMismatch));
    let c = foo.field("c").unwrap();
    assert_eq!(c.as_u16(), Err(AccessError::TypeMismatch));
    assert_eq!(c.as_i8(), Ok(-5));
    assert_eq!(c.as_isize(), Ok(-5));
    assert_eq!(foo.field("flag").unwrap().as_u8(), Err(AccessError::TypeMismatch));
}

#[test]
fn set_then_get_round_trip() {
    let mut foo = record();
    let mut f = foo.field_mut("b").unwrap();
    assert_eq!(f.set(123456u32), Ok(()));
    assert_eq!(f.as_field().get::<u32>(), Ok(&123456));
    assert_eq!(foo.b, 123456);
    assert_eq!(foo.field("b").unwrap().get::<u32>(), Ok(&123456));

    let mut f = foo.field_mut("label").unwrap();
    assert_eq!(f.set("qux"), Ok(()));
    assert_eq!(foo.field("label").unwrap().get::<&str>(), Ok(&"qux"));
}

#[test]
fn repeated_reads_agree() {
    let foo = record();
    let f = foo.field("b").unwrap();
    let first = f.get::<u32>();
    let second = f.get::<u32>();
    assert_eq!(first, second);
    assert_eq!(foo.field("b").unwrap().as_u64(), foo.field("b").unwrap().as_u64());
}

#[test]
fn unsigned_widening_decides_narrow_reads() {
    let mut foo = record();
    for value in [0u32, 1, 255, 256, 65535, 65536, u32::MAX] {
        foo.b = value;
        let f = foo.field("b").unwrap();
        let wide = f.as_u128().unwrap();
        assert_eq!(wide, value as u128);
        assert_eq!(f.as_u8().ok().map(u128::from), if wide <= 255 { Some(wide) } else { None });
        assert_eq!(
            f.as_u16().ok().map(u128::from),
            if wide <= 65535 { Some(wide) } else { None }
        );
        assert_eq!(f.as_u32().ok().map(u128::from), Some(wide));
        assert_eq!(f.as_u64().ok().map(u128::from), Some(wide));
    }
}

#[test]
fn replace_and_swap() {
    let mut foo = record();
    assert_eq!(foo.field_mut("a").unwrap().replace(9u8), Ok(1));
    assert_eq!(foo.a, 9);
    assert_eq!(foo.field_mut("a").unwrap().replace(9u32), Err(AccessError::TypeMismatch));
    assert_eq!(foo.a, 9);

    let mut other = 77u8;
    assert_eq!(foo.field_mut("a").unwrap().swap(&mut other), Ok(()));
    assert_eq!((foo.a, other), (77, 9));

    let mut wrong = 5u16;
    assert_eq!(foo.field_mut("a").unwrap().swap(&mut wrong), Err(AccessError::TypeMismatch));
    assert_eq!((foo.a, wrong), (77, 5));
}

#[test]
fn mutable_access() {
    let mut foo = record();
    {
        let mut f = foo.field_mut("c").unwrap();
        *f.get_mut::<i16>().unwrap() = 12;
        assert_eq!(f.get_mut::<u8>(), Err(AccessError::TypeMismatch));
    }
    assert_eq!(foo.c, 12);
    {
        let mut f = foo.field_mut("bytes").unwrap();
        f.as_vec_mut::<u8>().unwrap().push(4);
    }
    assert_eq!(foo.bytes, vec![1, 2, 3, 4]);
    assert!(foo.field_mut("raw").unwrap().as_vec_mut::<u8>().is_err());
    {
        let mut f = foo.field_mut("flag").unwrap();
        if let AnyMut::Bool(b) = f.as_any_mut() {
            **b = false;
        }
    }
    assert!(!foo.flag);
}

#[test]
fn strings_and_slices() {
    let foo = record();
    let name = foo.field("name").unwrap();
    assert!(name.is_string());
    assert!(!name.is_str());
    assert_eq!(name.as_str(), Ok("bar"));
    let label = foo.field("label").unwrap();
    assert!(label.is_str());
    assert!(!label.is_string());
    assert_eq!(label.as_str(), Ok("baz"));

    let bytes = foo.field("bytes").unwrap();
    assert!(bytes.is_vec::<u8>());
    assert!(!bytes.is_slice::<u8>());
    assert_eq!(bytes.as_slice::<u8>(), Ok(&[1u8, 2, 3][..]));
    let raw = foo.field("raw").unwrap();
    assert!(raw.is_slice::<u8>());
    assert!(!raw.is_vec::<u8>());
    assert_eq!(raw.as_slice::<u8>(), Ok(&[4u8, 5][..]));
    assert_eq!(name.as_slice::<u8>(), Err(AccessError::TypeMismatch));
}

#[test]
fn type_tags() {
    let foo = record();
    let a = foo.field("a").unwrap();
    assert_eq!(a.type_id(), Kind::U8);
    assert!(a.is::<u8>());
    assert!(!a.is::<&str>());
    assert!(a.is_u8());
    assert!(!a.is_u16());
    assert_eq!(a.as_any().kind(), Kind::U8);
    assert!(matches!(a.as_any(), AnyRef::U8(&1)));
    assert_eq!(foo.field("c").unwrap().type_id(), Kind::I16);
    assert!(foo.field("c").unwrap().is_i16());
    assert!(foo.field("flag").unwrap().is_bool());
    assert_eq!(foo.field("raw").unwrap().type_id(), Kind::SliceU8);
}

#[test]
fn empty_values_per_type() {
    let mut foo = record();
    assert_eq!(foo.field_mut("bytes").unwrap().take::<Vec<u8>>(), Ok(vec![1, 2, 3]));
    assert!(foo.bytes.is_empty());
    assert_eq!(foo.field_mut("label").unwrap().take::<&str>(), Ok("baz"));
    assert_eq!(foo.label, "");
    assert_eq!(foo.field_mut("raw").unwrap().take::<&[u8]>(), Ok(&[4u8, 5][..]));
    assert!(foo.raw.is_empty());
    assert_eq!(foo.field_mut("flag").unwrap().take::<bool>(), Ok(true));
    assert!(!foo.flag);
}

#[test]
fn sequences_of_other_elements() {
    struct Seqs {
        numbers: Vec<i32>,
        flags: &'static [bool],
        sizes: Vec<usize>,
    }
    impl AnyFieldAccess for Seqs {
        fn field_as_any(&self, field: &str) -> Option<AnyRef<'_>> {
            match field {
                "numbers" => Some(self.numbers.erase()),
                "flags" => Some(self.flags.erase()),
                "sizes" => Some(self.sizes.erase()),
                _ => None,
            }
        }
        fn field_as_any_mut(&mut self, field: &str) -> Option<AnyMut<'_>> {
            match field {
                "numbers" => Some(self.numbers.erase_mut()),
                "flags" => Some(self.flags.erase_mut()),
                "sizes" => Some(self.sizes.erase_mut()),
                _ => None,
            }
        }
        fn field_names(&self) -> &'static [&'static str] {
            &["numbers", "flags", "sizes"]
        }
    }

    let mut foo = Seqs { numbers: vec![-1, 2], flags: &[true, false], sizes: vec![] };
    let numbers = foo.field("numbers").unwrap();
    assert!(numbers.is_vec::<i32>());
    assert!(!numbers.is_vec::<u32>());
    assert_eq!(numbers.type_id(), Kind::VecI32);
    assert_eq!(numbers.as_slice::<i32>(), Ok(&[-1, 2][..]));
    assert_eq!(numbers.as_slice::<i64>(), Err(AccessError::TypeMismatch));
    let flags = foo.field("flags").unwrap();
    assert!(flags.is_slice::<bool>());
    assert_eq!(flags.as_slice::<bool>(), Ok(&[true, false][..]));
    assert_eq!(foo.field("sizes").unwrap().as_slice::<usize>(), Ok(&[][..]));

    foo.field_mut("numbers").unwrap().as_vec_mut::<i32>().unwrap().push(7);
    assert_eq!(foo.numbers, vec![-1, 2, 7]);
    assert_eq!(
        foo.field_mut("flags").unwrap().as_vec_mut::<bool>().err(),
        Some(AccessError::TypeMismatch)
    );
    assert_eq!(foo.field_mut("sizes").unwrap().set(vec![3usize]), Ok(()));
    assert_eq!(foo.sizes, vec![3]);
}
