use ifgen::{Builder, ClearBuilder, RecordType, Type, VarsBuilder};

fn declare<B: Builder>(b: &mut B) {
    let status = b.define_enum("status", "Status");
    let pair = b.define_tagged_type("pair_t", RecordType::new(16, 8), "PAIR");
    b.define_function("first", status.clone(), &[pair.cp()]);
    b.define_fields(pair.clone(), &[("hi", Type::UInt64, 8), ("lo", Type::UInt32, 0)]);
    b.define_constant("OK", status.clone(), "0");
    b.define_function("second", status.clone(), &[]);
    b.define_function("third", Type::Void, &[pair.p(), Type::USize, Type::voidpp()]);
}

#[test]
fn storage_holds_one_slot_per_function_in_order() {
    let mut b = VarsBuilder::new("mix");
    declare(&mut b);
    assert_eq!(
        b.finish(),
        "void* mix::first_ptr = nullptr;\nvoid* mix::second_ptr = nullptr;\nvoid* mix::third_ptr = nullptr;\n"
    );
}

#[test]
fn reset_clears_each_slot_in_order_and_then_releases() {
    let mut b = ClearBuilder::new("mix");
    declare(&mut b);
    assert_eq!(
        b.finish(),
        "void mix::clear() {\nfirst_ptr = nullptr;\nsecond_ptr = nullptr;\nthird_ptr = nullptr;\npimpl_.reset();}\n"
    );
}

#[test]
fn storage_without_functions_is_empty() {
    let mut b = VarsBuilder::new("none");
    let status = b.define_enum("status", "Status");
    b.define_constant("OK", status.clone(), "0");
    b.define_fields(RecordType::new(8, 8), &[("x", status, 0)]);
    assert_eq!(b.finish(), "");
    assert_eq!(VarsBuilder::new("none").finish(), "");
}

#[test]
fn reset_without_functions_only_releases() {
    let mut b = ClearBuilder::new("none");
    let status = b.define_enum("status", "Status");
    b.define_constant("OK", status.clone(), "0");
    b.define_fields(RecordType::new(8, 8), &[("x", status, 0)]);
    assert_eq!(b.finish(), "void none::clear() {\npimpl_.reset();}\n");
    assert_eq!(ClearBuilder::new("none").finish(), "void none::clear() {\npimpl_.reset();}\n");
}

#[test]
fn a_function_declared_twice_gets_two_slots() {
    let mut b = VarsBuilder::new("dup");
    b.define_function("f", Type::Void, &[]);
    b.define_function("f", Type::Void, &[]);
    assert_eq!(b.finish(), "void* dup::f_ptr = nullptr;\nvoid* dup::f_ptr = nullptr;\n");

    let mut b = ClearBuilder::new("dup");
    b.define_function("f", Type::Void, &[]);
    b.define_function("f", Type::Void, &[]);
    assert_eq!(b.finish(), "void dup::clear() {\nf_ptr = nullptr;\nf_ptr = nullptr;\npimpl_.reset();}\n");
}

#[test]
fn storage_and_reset_do_not_erase_the_signature() {
    let native = RecordType::new(8, 8).into_native();
    let mut b = VarsBuilder::new("i");
    b.define_function("f", native.clone(), &[native.p()]);
    assert_eq!(b.finish(), "void* i::f_ptr = nullptr;
");
    let mut b = ClearBuilder::new("i");
    b.define_function("f", native.clone(), &[native.p()]);
    assert_eq!(b.finish(), "void i::clear() {
f_ptr = nullptr;
pimpl_.reset();}
");
}

#[test]
fn every_emitter_returns_the_same_tagged_type() {
    let mut h = ifgen::HeaderBuilder::new("i");
    let mut v = VarsBuilder::new("i");
    let mut c = ClearBuilder::new("i");
    let a = h.define_tagged_type_iv("device_t", Type::Int32, "CUdevice", "-2");
    let b = v.define_tagged_type_iv("device_t", Type::Int32, "CUdevice", "-2");
    let d = c.define_tagged_type_iv("device_t", Type::Int32, "CUdevice", "-2");
    assert_eq!(a.to_string(), "device_t");
    assert_eq!(b.to_string(), "device_t");
    assert_eq!(d.to_string(), "device_t");
    assert_eq!(format!("{:?}", a), format!("{:?}", b));
    assert_eq!(format!("{:?}", a), format!("{:?}", d));
    let e = v.define_opaque_ptr("ctx", "Ctx");
    let f = c.define_enum("status", "Status");
    assert_eq!(e.into_native().to_string(), "typename ctx::native");
    assert_eq!(f.into_native().to_string(), "typename status::native");
}
