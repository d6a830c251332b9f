use field_access::{AccessError, AnyFieldAccess, AnyMut, AnyRef, FieldAccess, FieldType};

struct Unsigned {
    u8: u8,
    u16: u16,
    u32: u32,
    u64: u64,
    u128: u128,
    usize: usize,
}

impl AnyFieldAccess for Unsigned {
    fn field_as_any(&self, field: &str) -> Option<AnyRef<'_>> {
        match field {
            "u8" => Some(self.u8.erase()),
            "u16" => Some(self.u16.erase()),
            "u32" => Some(self.u32.erase()),
            "u64" => Some(self.u64.erase()),
            "u128" => Some(self.u128.erase()),
            "usize" => Some(self.usize.erase()),
            _ => None,
        }
    }

    fn field_as_any_mut(&mut self, field: &str) -> Option<AnyMut<'_>> {
        match field {
            "u8" => Some(self.u8.erase_mut()),
            "u16" => Some(self.u16.erase_mut()),
            "u32" => Some(self.u32.erase_mut()),
            "u64" => Some(self.u64.erase_mut()),
            "u128" => Some(self.u128.erase_mut()),
            "usize" => Some(self.usize.erase_mut()),
            _ => None,
        }
    }

    fn field_names(&self) -> &'static [&'static str] {
        &["u8", "u16", "u32", "u64", "u128", "usize"]
    }
}

struct Signed {
    i8: i8,
    i16: i16,
    i32: i32,
    i64: i64,
    i128: i128,
    isize: isize,
}

impl AnyFieldAccess for Signed {
    fn field_as_any(&self, field: &str) -> Option<AnyRef<'_>> {
        match field {
            "i8" => Some(self.i8.erase()),
            "i16" => Some(self.i16.erase()),
            "i32" => Some(self.i32.erase()),
            "i64" => Some(self.i64.erase()),
            "i128" => Some(self.i128.erase()),
            "isize" => Some(self.isize.erase()),
            _ => None,
        }
    }

    fn field_as_any_mut(&mut self, field: &str) -> Option<AnyMut<'_>> {
        match field {
            "i8" => Some(self.i8.erase_mut()),
            "i16" => Some(self.i16.erase_mut()),
            "i32" => Some(self.i32.erase_mut()),
            "i64" => Some(self.i64.erase_mut()),
            "i128" => Some(self.i128.erase_mut()),
            "isize" => Some(self.isize.erase_mut()),
            _ => None,
        }
    }

    fn field_names(&self) -> &'static [&'static str] {
        &["i8", "i16", "i32", "i64", "i128", "isize"]
    }
}

#[test]
fn unsigned_conversions_min() {
    let foo = Unsigned {
        u8: u8::MIN,
        u16: u16::MIN,
        u32: u32::MIN,
        u64: u64::MIN,
        u128: u128::MIN,
        usize: usize::MIN,
    };

    assert_eq!(foo.field("u8").unwrap().as_u8(), Ok(u8::MIN as u8), "u8 as u8");
    assert_eq!(foo.field("u8").unwrap().as_u16(), Ok(u8::MIN as u16), "u8 as u16");
    assert_eq!(foo.field("u8").unwrap().as_u32(), Ok(u8::MIN as u32), "u8 as u32");
    assert_eq!(foo.field("u8").unwrap().as_u64(), Ok(u8::MIN as u64), "u8 as u64");
    assert_eq!(foo.field("u8").unwrap().as_u128(), Ok(u8::MIN as u128), "u8 as u128");
    assert_eq!(foo.field("u8").unwrap().as_usize(), Ok(u8::MIN as usize), "u8 as usize");
    assert_eq!(foo.field("u16").unwrap().as_u8(), Ok(u16::MIN as u8), "u16 as u8");
    assert_eq!(foo.field("u16").unwrap().as_u16(), Ok(u16::MIN as u16), "u16 as u16");
    assert_eq!(foo.field("u16").unwrap().as_u32(), Ok(u16::MIN as u32), "u16 as u32");
    assert_eq!(foo.field("u16").unwrap().as_u64(), Ok(u16::MIN as u64), "u16 as u64");
    assert_eq!(foo.field("u16").unwrap().as_u128(), Ok(u16::MIN as u128), "u16 as u128");
    assert_eq!(foo.field("u16").unwrap().as_usize(), Ok(u16::MIN as usize), "u16 as usize");
    assert_eq!(foo.field("u32").unwrap().as_u8(), Ok(u32::MIN as u8), "u32 as u8");
    assert_eq!(foo.field("u32").unwrap().as_u16(), Ok(u32::MIN as u16), "u32 as u16");
    assert_eq!(foo.field("u32").unwrap().as_u32(), Ok(u32::MIN as u32), "u32 as u32");
    assert_eq!(foo.field("u32").unwrap().as_u64(), Ok(u32::MIN as u64), "u32 as u64");
    assert_eq!(foo.field("u32").unwrap().as_u128(), Ok(u32::MIN as u128), "u32 as u128");
    assert_eq!(foo.field("u32").unwrap().as_usize(), Ok(u32::MIN as usize), "u32 as usize");
    assert_eq!(foo.field("u64").unwrap().as_u8(), Ok(u64::MIN as u8), "u64 as u8");
    assert_eq!(foo.field("u64").unwrap().as_u16(), Ok(u64::MIN as u16), "u64 as u16");
    assert_eq!(foo.field("u64").unwrap().as_u32(), Ok(u64::MIN as u32), "u64 as u32");
    assert_eq!(foo.field("u64").unwrap().as_u64(), Ok(u64::MIN as u64), "u64 as u64");
    assert_eq!(foo.field("u64").unwrap().as_u128(), Ok(u64::MIN as u128), "u64 as u128");
    assert_eq!(foo.field("u64").unwrap().as_usize(), Ok(u64::MIN as usize), "u64 as usize");
    assert_eq!(foo.field("u128").unwrap().as_u8(), Ok(u128::MIN as u8), "u128 as u8");
    assert_eq!(foo.field("u128").unwrap().as_u16(), Ok(u128::MIN as u16), "u128 as u16");
    assert_eq!(foo.field("u128").unwrap().as_u32(), Ok(u128::MIN as u32), "u128 as u32");
    assert_eq!(foo.field("u128").unwrap().as_u64(), Ok(u128::MIN as u64), "u128 as u64");
    assert_eq!(foo.field("u128").unwrap().as_u128(), Ok(u128::MIN as u128), "u128 as u128");
    assert_eq!(foo.field("u128").unwrap().as_usize(), Ok(u128::MIN as usize), "u128 as usize");
    assert_eq!(foo.field("usize").unwrap().as_u8(), Ok(usize::MIN as u8), "usize as u8");
    assert_eq!(foo.field("usize").unwrap().as_u16(), Ok(usize::MIN as u16), "usize as u16");
    assert_eq!(foo.field("usize").unwrap().as_u32(), Ok(usize::MIN as u32), "usize as u32");
    assert_eq!(foo.field("usize").unwrap().as_u64(), Ok(usize::MIN as u64), "usize as u64");
    assert_eq!(foo.field("usize").unwrap().as_u128(), Ok(usize::MIN as u128), "usize as u128");
    assert_eq!(foo.field("usize").unwrap().as_usize(), Ok(usize::MIN as usize), "usize as usize");
}

#[test]
fn unsigned_conversions_max() {
    let foo = Unsigned {
        u8: u8::MAX,
        u16: u16::MAX,
        u32: u32::MAX,
        u64: u64::MAX,
        u128: u128::MAX,
        usize: usize::MAX,
    };

    assert_eq!(foo.field("u8").unwrap().as_u8(), Ok(u8::MAX as u8), "u8 as u8");
    assert_eq!(foo.field("u8").unwrap().as_u16(), Ok(u8::MAX as u16), "u8 as u16");
    assert_eq!(foo.field("u8").unwrap().as_u32(), Ok(u8::MAX as u32), "u8 as u32");
    assert_eq!(foo.field("u8").unwrap().as_u64(), Ok(u8::MAX as u64), "u8 as u64");
    assert_eq!(foo.field("u8").unwrap().as_u128(), Ok(u8::MAX as u128), "u8 as u128");
    assert_eq!(foo.field("u8").unwrap().as_usize(), Ok(u8::MAX as usize), "u8 as usize");
    assert_eq!(foo.field("u16").unwrap().as_u16(), Ok(u16::MAX as u16), "u16 as u16");
    assert_eq!(foo.field("u16").unwrap().as_u32(), Ok(u16::MAX as u32), "u16 as u32");
    assert_eq!(foo.field("u16").unwrap().as_u64(), Ok(u16::MAX as u64), "u16 as u64");
    assert_eq!(foo.field("u16").unwrap().as_u128(), Ok(u16::MAX as u128), "u16 as u128");
    assert_eq!(foo.field("u16").unwrap().as_usize(), Ok(u16::MAX as usize), "u16 as usize");
    assert_eq!(foo.field("u32").unwrap().as_u32(), Ok(u32::MAX as u32), "u32 as u32");
    assert_eq!(foo.field("u32").unwrap().as_u64(), Ok(u32::MAX as u64), "u32 as u64");
    assert_eq!(foo.field("u32").unwrap().as_u128(), Ok(u32::MAX as u128), "u32 as u128");
    assert_eq!(foo.field("u32").unwrap().as_usize(), Ok(u32::MAX as usize), "u32 as usize");
    assert_eq!(foo.field("u64").unwrap().as_u64(), Ok(u64::MAX as u64), "u64 as u64");
    assert_eq!(foo.field("u64").unwrap().as_u128(), Ok(u64::MAX as u128), "u64 as u128");
    assert_eq!(foo.field("u128").unwrap().as_u128(), Ok(u128::MAX as u128), "u128 as u128");
    assert_eq!(foo.field("usize").unwrap().as_u128(), Ok(usize::MAX as u128), "usize as u128");
    assert_eq!(foo.field("usize").unwrap().as_usize(), Ok(usize::MAX as usize), "usize as usize");

    assert_eq!(foo.field("u16").unwrap().as_u8(), Err(AccessError::TypeMismatch), "u16 as u8");
    assert_eq!(foo.field("u32").unwrap().as_u8(), Err(AccessError::TypeMismatch), "u32 as u8");
    assert_eq!(foo.field("u32").unwrap().as_u16(), Err(AccessError::TypeMismatch), "u32 as u16");
    assert_eq!(foo.field("u64").unwrap().as_u8(), Err(AccessError::TypeMismatch), "u64 as u8");
    assert_eq!(foo.field("u64").unwrap().as_u16(), Err(AccessError::TypeMismatch), "u64 as u16");
    assert_eq!(foo.field("u64").unwrap().as_u32(), Err(AccessError::TypeMismatch), "u64 as u32");
    assert_eq!(foo.field("u128").unwrap().as_u8(), Err(AccessError::TypeMismatch), "u128 as u8");
    assert_eq!(foo.field("u128").unwrap().as_u16(), Err(AccessError::TypeMismatch), "u128 as u16");
    assert_eq!(foo.field("u128").unwrap().as_u32(), Err(AccessError::TypeMismatch), "u128 as u32");
    assert_eq!(foo.field("u128").unwrap().as_u64(), Err(AccessError::TypeMismatch), "u128 as u64");
    assert_eq!(foo.field("u128").unwrap().as_usize(), Err(AccessError::TypeMismatch), "u128 as usize");
    assert_eq!(foo.field("usize").unwrap().as_u8(), Err(AccessError::TypeMismatch), "usize as u8");
    assert_eq!(foo.field("usize").unwrap().as_u16(), Err(AccessError::TypeMismatch), "usize as u16");

    if usize::BITS == 32 {
        assert_eq!(foo.field("usize").unwrap().as_u32(), Ok(usize::MAX as u32), "usize as u32");
        assert_eq!(foo.field("usize").unwrap().as_u64(), Err(AccessError::TypeMismatch), "usize as u64");
        assert_eq!(foo.field("u64").unwrap().as_usize(), Err(AccessError::TypeMismatch), "u64 as usize");
    } else {
        assert_eq!(foo.field("usize").unwrap().as_u32(), Err(AccessError::TypeMismatch), "usize as u32");
        assert_eq!(foo.field("usize").unwrap().as_u64(), Ok(usize::MAX as u64), "usize as u64");
        assert_eq!(foo.field("u64").unwrap().as_usize(), Ok(u64::MAX as usize), "u64 as usize");
    }
}

#[test]
fn signed_conversions_min() {
    let foo = Signed {
        i8: i8::MIN,
        i16: i16::MIN,
        i32: i32::MIN,
        i64: i64::MIN,
        i128: i128::MIN,
        isize: isize::MIN,
    };

    assert_eq!(foo.field("i8").unwrap().as_i8(), Ok(i8::MIN as i8), "i8 as i8");
    assert_eq!(foo.field("i8").unwrap().as_i16(), Ok(i8::MIN as i16), "i8 as i16");
    assert_eq!(foo.field("i8").unwrap().as_i32(), Ok(i8::MIN as i32), "i8 as i32");
    assert_eq!(foo.field("i8").unwrap().as_i64(), Ok(i8::MIN as i64), "i8 as i64");
    assert_eq!(foo.field("i8").unwrap().as_i128(), Ok(i8::MIN as i128), "i8 as i128");
    assert_eq!(foo.field("i8").unwrap().as_isize(), Ok(i8::MIN as isize), "i8 as isize");
    assert_eq!(foo.field("i16").unwrap().as_i16(), Ok(i16::MIN as i16), "i16 as i16");
    assert_eq!(foo.field("i16").unwrap().as_i32(), Ok(i16::MIN as i32), "i16 as i32");
    assert_eq!(foo.field("i16").unwrap().as_i64(), Ok(i16::MIN as i64), "i16 as i64");
    assert_eq!(foo.field("i16").unwrap().as_i128(), Ok(i16::MIN as i128), "i16 as i128");
    assert_eq!(foo.field("i16").unwrap().as_isize(), Ok(i16::MIN as isize), "i16 as isize");
    assert_eq!(foo.field("i32").unwrap().as_i32(), Ok(i32::MIN as i32), "i32 as i32");
    assert_eq!(foo.field("i32").unwrap().as_i64(), Ok(i32::MIN as i64), "i32 as i64");
    assert_eq!(foo.field("i32").unwrap().as_i128(), Ok(i32::MIN as i128), "i32 as i128");
    assert_eq!(foo.field("i32").unwrap().as_isize(), Ok(i32::MIN as isize), "i32 as isize");
    assert_eq!(foo.field("i64").unwrap().as_i64(), Ok(i64::MIN as i64), "i64 as i64");
    assert_eq!(foo.field("i64").unwrap().as_i128(), Ok(i64::MIN as i128), "i64 as i128");
    assert_eq!(foo.field("i128").unwrap().as_i128(), Ok(i128::MIN as i128), "i128 as i128");
    assert_eq!(foo.field("isize").unwrap().as_i128(), Ok(isize::MIN as i128), "isize as i128");
    assert_eq!(foo.field("isize").unwrap().as_isize(), Ok(isize::MIN as isize), "isize as isize");

    assert_eq!(foo.field("i16").unwrap().as_i8(), Err(AccessError::TypeMismatch), "i16 as i8");
    assert_eq!(foo.field("i32").unwrap().as_i8(), Err(AccessError::TypeMismatch), "i32 as i8");
    assert_eq!(foo.field("i32").unwrap().as_i16(), Err(AccessError::TypeMismatch), "i32 as i16");
    assert_eq!(foo.field("i64").unwrap().as_i8(), Err(AccessError::TypeMismatch), "i64 as i8");
    assert_eq!(foo.field("i64").unwrap().as_i16(), Err(AccessError::TypeMismatch), "i64 as i16");
    assert_eq!(foo.field("i64").unwrap().as_i32(), Err(AccessError::TypeMismatch), "i64 as i32");
    assert_eq!(foo.field("i128").unwrap().as_i8(), Err(AccessError::TypeMismatch), "i128 as i8");
    assert_eq!(foo.field("i128").unwrap().as_i16(), Err(AccessError::TypeMismatch), "i128 as i16");
    assert_eq!(foo.field("i128").unwrap().as_i32(), Err(AccessError::TypeMismatch), "i128 as i32");
    assert_eq!(foo.field("i128").unwrap().as_i64(), Err(AccessError::TypeMismatch), "i128 as i64");
    assert_eq!(foo.field("i128").unwrap().as_isize(), Err(AccessError::TypeMismatch), "i128 as isize");
    assert_eq!(foo.field("isize").unwrap().as_i8(), Err(AccessError::TypeMismatch), "isize as i8");
    assert_eq!(foo.field("isize").unwrap().as_i16(), Err(AccessError::TypeMismatch), "isize as i16");

    if usize::BITS == 32 {
        assert_eq!(foo.field("isize").unwrap().as_i32(), Ok(isize::MIN as i32), "isize as i32");
        assert_eq!(foo.field("isize").unwrap().as_i64(), Err(AccessError::TypeMismatch), "isize as i64");
        assert_eq!(foo.field("i64").unwrap().as_isize(), Err(AccessError::TypeMismatch), "i64 as isize");
    } else {
        assert_eq!(foo.field("isize").unwrap().as_i32(), Err(AccessError::TypeMismatch), "isize as i32");
        assert_eq!(foo.field("isize").unwrap().as_i64(), Ok(isize::MIN as i64), "isize as i64");
        assert_eq!(foo.field("i64").unwrap().as_isize(), Ok(i64::MIN as isize), "i64 as isize");
    }
}

#[test]
fn signed_conversions_max() {
    let foo = Signed {
        i8: i8::MAX,
        i16: i16::MAX,
        i32: i32::MAX,
        i64: i64::MAX,
        i128: i128::MAX,
        isize: isize::MAX,
    };

    assert_eq!(foo.field("i8").unwrap().as_i8(), Ok(i8::MAX as i8), "i8 as i8");
    assert_eq!(foo.field("i8").unwrap().as_i16(), Ok(i8::MAX as i16), "i8 as i16");
    assert_eq!(foo.field("i8").unwrap().as_i32(), Ok(i8::MAX as i32), "i8 as i32");
    assert_eq!(foo.field("i8").unwrap().as_i64(), Ok(i8::MAX as i64), "i8 as i64");
    assert_eq!(foo.field("i8").unwrap().as_i128(), Ok(i8::MAX as i128), "i8 as i128");
    assert_eq!(foo.field("i8").unwrap().as_isize(), Ok(i8::MAX as isize), "i8 as isize");
    assert_eq!(foo.field("i16").unwrap().as_i16(), Ok(i16::MAX as i16), "i16 as i16");
    assert_eq!(foo.field("i16").unwrap().as_i32(), Ok(i16::MAX as i32), "i16 as i32");
    assert_eq!(foo.field("i16").unwrap().as_i64(), Ok(i16::MAX as i64), "i16 as i64");
    assert_eq!(foo.field("i16").unwrap().as_i128(), Ok(i16::MAX as i128), "i16 as i128");
    assert_eq!(foo.field("i16").unwrap().as_isize(), Ok(i16::MAX as isize), "i16 as isize");
    assert_eq!(foo.field("i32").unwrap().as_i32(), Ok(i32::MAX as i32), "i32 as i32");
    assert_eq!(foo.field("i32").unwrap().as_i64(), Ok(i32::MAX as i64), "i32 as i64");
    assert_eq!(foo.field("i32").unwrap().as_i128(), Ok(i32::MAX as i128), "i32 as i128");
    assert_eq!(foo.field("i32").unwrap().as_isize(), Ok(i32::MAX as isize), "i32 as isize");
    assert_eq!(foo.field("i64").unwrap().as_i64(), Ok(i64::MAX as i64), "i64 as i64");
    assert_eq!(foo.field("i64").unwrap().as_i128(), Ok(i64::MAX as i128), "i64 as i128");
    assert_eq!(foo.field("i128").unwrap().as_i128(), Ok(i128::MAX as i128), "i128 as i128");
    assert_eq!(foo.field("isize").unwrap().as_i128(), Ok(isize::MAX as i128), "isize as i128");
    assert_eq!(foo.field("isize").unwrap().as_isize(), Ok(isize::MAX as isize), "isize as isize");

    assert_eq!(foo.field("i16").unwrap().as_i8(), Err(AccessError::TypeMismatch), "i16 as i8");
    assert_eq!(foo.field("i32").unwrap().as_i8(), Err(AccessError::TypeMismatch), "i32 as i8");
    assert_eq!(foo.field("i32").unwrap().as_i16(), Err(AccessError::TypeMismatch), "i32 as i16");
    assert_eq!(foo.field("i64").unwrap().as_i8(), Err(AccessError::TypeMismatch), "i64 as i8");
    assert_eq!(foo.field("i64").unwrap().as_i16(), Err(AccessError::TypeMismatch), "i64 as i16");
    assert_eq!(foo.field("i64").unwrap().as_i32(), Err(AccessError::TypeMismatch), "i64 as i32");
    assert_eq!(foo.field("i128").unwrap().as_i8(), Err(AccessError::TypeMismatch), "i128 as i8");
    assert_eq!(foo.field("i128").unwrap().as_i16(), Err(AccessError::TypeMismatch), "i128 as i16");
    assert_eq!(foo.field("i128").unwrap().as_i32(), Err(AccessError::TypeMismatch), "i128 as i32");
    assert_eq!(foo.field("i128").unwrap().as_i64(), Err(AccessError::TypeMismatch), "i128 as i64");
    assert_eq!(foo.field("i128").unwrap().as_isize(), Err(AccessError::TypeMismatch), "i128 as isize");
    assert_eq!(foo.field("isize").unwrap().as_i8(), Err(AccessError::TypeMismatch), "isize as i8");
    assert_eq!(foo.field("isize").unwrap().as_i16(), Err(AccessError::TypeMismatch), "isize as i16");

    if usize::BITS == 32 {
        assert_eq!(foo.field("isize").unwrap().as_i32(), Ok(isize::MAX as i32), "isize as i32");
        assert_eq!(foo.field("isize").unwrap().as_i64(), Err(AccessError::TypeMismatch), "isize as i64");
        assert_eq!(foo.field("i64").unwrap().as_isize(), Err(AccessError::TypeMismatch), "i64 as isize");
    } else {
        assert_eq!(foo.field("isize").unwrap().as_i32(), Err(AccessError::TypeMismatch), "isize as i32");
        assert_eq!(foo.field("isize").unwrap().as_i64(), Ok(isize::MAX as i64), "isize as i64");
        assert_eq!(foo.field("i64").unwrap().as_isize(), Ok(i64::MAX as isize), "i64 as isize");
    }
}
