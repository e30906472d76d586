use ifgen::{Builder, ClearBuilder, HeaderBuilder, RecordType, Type, VarsBuilder};

fn check_paren_balance(s: &str) -> isize {
    s.chars().fold(0_isize, |acc, ch| {
        if ['(', '{', '<', '['].contains(&ch) {
            acc + 1
        } else if [')', '}', '>', ']'].contains(&ch) {
            acc - 1
        } else {
            acc
        }
    })
}

fn count(text: &str, pattern: &str) -> usize {
    text.matches(pattern).count()
}

#[test]
fn builder() {
    let b = HeaderBuilder::new("name");
    let result = b.finish();

    assert_eq!(check_paren_balance(&result), 0);
    assert!(result.contains("struct name"));
    assert!(result.contains("using this_type = name;"));
    assert!(result.contains("static error::result<void> init();"));
    assert!(result.contains("static void close();"));
}

#[test]
fn header_without_declarations_is_prologue_and_epilogue() {
    let expected = "
            #pragma once

            #include <cstdint>
            #include <cstdlib>
            #include <memory>
            #include <string>
            #include <error.hpp>
            #include <interfaces.hpp>

            CHARM_SYCL_BEGIN_NAMESPACE

            namespace runtime {
            struct name {
                using this_type = name;

                static error::result<void> init();
                static void close();
                static void clear();
                static std::string version_str();

                private:
                struct impl;
                static std::unique_ptr<impl> pimpl_;

                template <size_t Offset, class R, class T>
                [[maybe_unused]]
                static inline void set_(R& record, T val) {
                    *reinterpret_cast<T*>(reinterpret_cast<std::byte*>(record.address()) + Offset) = val;
                }

                template <size_t Offset, class T, class R>
                [[maybe_unused]]
                static inline auto get_(R const& record) {
                    return *reinterpret_cast<T const*>(reinterpret_cast<std::byte const*>(record.address()) + Offset);
                }
                public:
            

            };

            }

            CHARM_SYCL_END_NAMESPACE
            
";
    assert_eq!(HeaderBuilder::new("name").finish(), expected);
}

fn declare_scenario<B: Builder>(b: &mut B) {
    let ctx = b.define_opaque_ptr("ctx", "Ctx");
    let status = b.define_enum("status", "Status");
    b.define_constant("OK", status.clone(), "0");
    b.define_function("open", status.clone(), &[ctx.p(), Type::Int32]);
}

#[test]
fn scenario_header() {
    let mut b = HeaderBuilder::new("api");
    declare_scenario(&mut b);
    let text = b.finish();
    let expected = "
            #pragma once

            #include <cstdint>
            #include <cstdlib>
            #include <memory>
            #include <string>
            #include <error.hpp>
            #include <interfaces.hpp>

            CHARM_SYCL_BEGIN_NAMESPACE

            namespace runtime {
            struct api {
                using this_type = api;

                static error::result<void> init();
                static void close();
                static void clear();
                static std::string version_str();

                private:
                struct impl;
                static std::unique_ptr<impl> pimpl_;

                template <size_t Offset, class R, class T>
                [[maybe_unused]]
                static inline void set_(R& record, T val) {
                    *reinterpret_cast<T*>(reinterpret_cast<std::byte*>(record.address()) + Offset) = val;
                }

                template <size_t Offset, class T, class R>
                [[maybe_unused]]
                static inline auto get_(R const& record) {
                    return *reinterpret_cast<T const*>(reinterpret_cast<std::byte const*>(record.address()) + Offset);
                }
                public:
            

            using ctx = detail::tagged_t<this_type, void*, detail::tag_name(\"Ctx\")>;
            

            using status = detail::tagged_t<this_type, int32_t, detail::tag_name(\"Status\")>;
            

            static constexpr auto OK = status(0);
            

            private:
            static void* open_ptr;

            public:
            static inline auto open(ctx* param0, int32_t param1) {
                using Fn = typename status::native (*)(typename ctx::native*, int32_t);
                return detail::wrap<status>(
                    reinterpret_cast<Fn>(open_ptr)(detail::unwrap(param0),detail::unwrap(param1)));
            }
            

            };

            }

            CHARM_SYCL_END_NAMESPACE
            
";
    assert_eq!(text, expected);
    assert!(text.contains("using ctx = detail::tagged_t<this_type, void*, detail::tag_name(\"Ctx\")>;"));
    assert!(text.contains("using status = detail::tagged_t<this_type, int32_t, detail::tag_name(\"Status\")>;"));
    assert!(text.contains("static constexpr auto OK = status(0);"));
    assert!(text.contains("private:\n            static void* open_ptr;"));
    assert!(text.contains("static inline auto open(ctx* param0, int32_t param1) {"));
    assert!(text.contains("using Fn = typename status::native (*)(typename ctx::native*, int32_t);"));
    assert!(text.contains("return detail::wrap<status>("));
    assert!(text.contains("reinterpret_cast<Fn>(open_ptr)(detail::unwrap(param0),detail::unwrap(param1)));"));
    assert_eq!(check_paren_balance(&text), 0);
}

#[test]
fn scenario_storage() {
    let mut b = VarsBuilder::new("api");
    declare_scenario(&mut b);
    assert_eq!(b.finish(), "void* api::open_ptr = nullptr;\n");
}

#[test]
fn scenario_reset() {
    let mut b = ClearBuilder::new("api");
    declare_scenario(&mut b);
    assert_eq!(b.finish(), "void api::clear() {\nopen_ptr = nullptr;\npimpl_.reset();}\n");
}

#[test]
fn sentinel_adds_one_argument_to_the_alias() {
    let mut with = HeaderBuilder::new("i");
    let a = with.define_tagged_type_iv("device_t", Type::Int32, "CUdevice", "-2");
    let with = with.finish();
    let mut without = HeaderBuilder::new("i");
    let b = without.define_tagged_type("device_t", Type::Int32, "CUdevice");
    let without = without.finish();

    let expected_with = "
            #pragma once

            #include <cstdint>
            #include <cstdlib>
            #include <memory>
            #include <string>
            #include <error.hpp>
            #include <interfaces.hpp>

            CHARM_SYCL_BEGIN_NAMESPACE

            namespace runtime {
            struct i {
                using this_type = i;

                static error::result<void> init();
                static void close();
                static void clear();
                static std::string version_str();

                private:
                struct impl;
                static std::unique_ptr<impl> pimpl_;

                template <size_t Offset, class R, class T>
                [[maybe_unused]]
                static inline void set_(R& record, T val) {
                    *reinterpret_cast<T*>(reinterpret_cast<std::byte*>(record.address()) + Offset) = val;
                }

                template <size_t Offset, class T, class R>
                [[maybe_unused]]
                static inline auto get_(R const& record) {
                    return *reinterpret_cast<T const*>(reinterpret_cast<std::byte const*>(record.address()) + Offset);
                }
                public:
            

            using device_t = detail::tagged_t<this_type, int32_t, detail::tag_name(\"CUdevice\"), detail::init_val(-2)>;
            

            };

            }

            CHARM_SYCL_END_NAMESPACE
            
";
    let expected_without = "
            #pragma once

            #include <cstdint>
            #include <cstdlib>
            #include <memory>
            #include <string>
            #include <error.hpp>
            #include <interfaces.hpp>

            CHARM_SYCL_BEGIN_NAMESPACE

            namespace runtime {
            struct i {
                using this_type = i;

                static error::result<void> init();
                static void close();
                static void clear();
                static std::string version_str();

                private:
                struct impl;
                static std::unique_ptr<impl> pimpl_;

                template <size_t Offset, class R, class T>
                [[maybe_unused]]
                static inline void set_(R& record, T val) {
                    *reinterpret_cast<T*>(reinterpret_cast<std::byte*>(record.address()) + Offset) = val;
                }

                template <size_t Offset, class T, class R>
                [[maybe_unused]]
                static inline auto get_(R const& record) {
                    return *reinterpret_cast<T const*>(reinterpret_cast<std::byte const*>(record.address()) + Offset);
                }
                public:
            

            using device_t = detail::tagged_t<this_type, int32_t, detail::tag_name(\"CUdevice\")>;
            

            };

            }

            CHARM_SYCL_END_NAMESPACE
            
";
    assert_eq!(with, expected_with);
    assert_eq!(without, expected_without);
    assert_eq!(with.replacen(", detail::init_val(-2)", "", 1), without);
    assert_eq!(a.to_string(), b.to_string());
    assert_eq!(a.into_native().to_string(), b.into_native().to_string());
    assert_eq!(a.p().to_string(), "device_t*");
}

#[test]
fn sentinel_is_invisible_to_storage_and_reset() {
    let mut with = VarsBuilder::new("i");
    let a = with.define_tagged_type_iv("device_t", Type::Int32, "CUdevice", "-2");
    with.define_function("f", a.clone(), &[a.clone()]);
    let mut without = VarsBuilder::new("i");
    let b = without.define_tagged_type("device_t", Type::Int32, "CUdevice");
    without.define_function("f", b.clone(), &[b.clone()]);
    assert_eq!(with.finish(), without.finish());

    let mut with = ClearBuilder::new("i");
    let a = with.define_tagged_type_iv("device_t", Type::Int32, "CUdevice", "-2");
    with.define_function("f", a.clone(), &[a.clone()]);
    let mut without = ClearBuilder::new("i");
    let b = without.define_tagged_type("device_t", Type::Int32, "CUdevice");
    without.define_function("f", b.clone(), &[b.clone()]);
    assert_eq!(with.finish(), without.finish());
}

fn declare_interleaved<B: Builder>(b: &mut B) {
    let status = b.define_enum("status", "Status");
    let pair = b.define_tagged_type("pair_t", RecordType::new(16, 8), "PAIR");
    b.define_function("first", status.clone(), &[pair.cp()]);
    b.define_fields(pair.clone(), &[("hi", Type::UInt64, 8), ("lo", Type::UInt32, 0)]);
    b.define_function("second", status.clone(), &[]);
    b.define_fields(pair.clone(), &[("tag", Type::cstr(), 12)]);
    b.define_function("third", Type::Void, &[pair.p(), Type::USize, Type::voidpp()]);
}

#[test]
fn interleaved_header() {
    let mut b = HeaderBuilder::new("mix");
    declare_interleaved(&mut b);
    let text = b.finish();
    let expected = "
            #pragma once

            #include <cstdint>
            #include <cstdlib>
            #include <memory>
            #include <string>
            #include <error.hpp>
            #include <interfaces.hpp>

            CHARM_SYCL_BEGIN_NAMESPACE

            namespace runtime {
            struct mix {
                using this_type = mix;

                static error::result<void> init();
                static void close();
                static void clear();
                static std::string version_str();

                private:
                struct impl;
                static std::unique_ptr<impl> pimpl_;

                template <size_t Offset, class R, class T>
                [[maybe_unused]]
                static inline void set_(R& record, T val) {
                    *reinterpret_cast<T*>(reinterpret_cast<std::byte*>(record.address()) + Offset) = val;
                }

                template <size_t Offset, class T, class R>
                [[maybe_unused]]
                static inline auto get_(R const& record) {
                    return *reinterpret_cast<T const*>(reinterpret_cast<std::byte const*>(record.address()) + Offset);
                }
                public:
            

            using status = detail::tagged_t<this_type, int32_t, detail::tag_name(\"Status\")>;
            

            using pair_t = detail::tagged_t<this_type, detail::record_type<16, 8>, detail::tag_name(\"PAIR\")>;
            

            private:
            static void* first_ptr;

            public:
            static inline auto first(pair_t const* param0) {
                using Fn = typename status::native (*)(typename pair_t::native const*);
                return detail::wrap<status>(
                    reinterpret_cast<Fn>(first_ptr)(detail::unwrap(param0)));
            }
            

                static inline void set_hi(pair_t& x, uint64_t val) {
                    set_<8>(x, val);
                }

                static inline auto get_hi(pair_t const& x) {
                    return get_<8, uint64_t>(x);
                }
                
                static inline void set_lo(pair_t& x, uint32_t val) {
                    set_<0>(x, val);
                }

                static inline auto get_lo(pair_t const& x) {
                    return get_<0, uint32_t>(x);
                }
                
            private:
            static void* second_ptr;

            public:
            static inline auto second() {
                using Fn = typename status::native (*)();
                return detail::wrap<status>(
                    reinterpret_cast<Fn>(second_ptr)());
            }
            

                static inline void set_tag(pair_t& x, char const* val) {
                    set_<12>(x, val);
                }

                static inline auto get_tag(pair_t const& x) {
                    return get_<12, char const*>(x);
                }
                
            private:
            static void* third_ptr;

            public:
            static inline auto third(pair_t* param0, size_t param1, void** param2) {
                using Fn = void (*)(typename pair_t::native*, size_t, void**);
                return detail::wrap<void>(
                    reinterpret_cast<Fn>(third_ptr)(detail::unwrap(param0),detail::unwrap(param1),detail::unwrap(param2)));
            }
            

            };

            }

            CHARM_SYCL_END_NAMESPACE
            
";
    assert_eq!(text, expected);
    assert_eq!(check_paren_balance(&text), 0);
}

#[test]
fn each_field_gets_one_mutator_and_one_accessor() {
    let mut b = HeaderBuilder::new("mix");
    declare_interleaved(&mut b);
    let text = b.finish();
    assert_eq!(count(&text, "static inline void set_"), 4);
    assert_eq!(count(&text, "static inline auto get_"), 4);
    assert_eq!(count(&text, "static inline void set_hi(pair_t& x, uint64_t val) {"), 1);
    assert_eq!(count(&text, "set_<8>(x, val);"), 1);
    assert_eq!(count(&text, "static inline auto get_hi(pair_t const& x) {"), 1);
    assert_eq!(count(&text, "return get_<8, uint64_t>(x);"), 1);
    assert_eq!(count(&text, "static inline void set_lo(pair_t& x, uint32_t val) {"), 1);
    assert_eq!(count(&text, "set_<0>(x, val);"), 1);
    assert_eq!(count(&text, "return get_<0, uint32_t>(x);"), 1);
    assert_eq!(count(&text, "static inline void set_tag(pair_t& x, char const* val) {"), 1);
    assert_eq!(count(&text, "set_<12>(x, val);"), 1);
    assert_eq!(count(&text, "return get_<12, char const*>(x);"), 1);
    let first = text.find("first_ptr").unwrap();
    let hi = text.find("set_hi").unwrap();
    let second = text.find("second_ptr").unwrap();
    let tag = text.find("set_tag").unwrap();
    let third = text.find("third_ptr").unwrap();
    assert!(first < hi && hi < second && second < tag && tag < third);
}

#[test]
fn fields_in_the_header_do_not_depend_on_what_surrounds_them() {
    let mut alone = HeaderBuilder::new("mix");
    let pair = RecordType::new(16, 8);
    alone.define_fields(pair.clone(), &[("hi", Type::UInt64, 8), ("lo", Type::UInt32, 0)]);
    let alone = alone.finish();
    let empty = HeaderBuilder::new("mix").finish();
    let prologue_len = 1238 + "mix".len() * 2;
    let block = &alone[prologue_len..alone.len() - (empty.len() - prologue_len)];

    let mut among = HeaderBuilder::new("mix");
    among.define_function("before", Type::Void, &[]);
    among.define_fields(pair.clone(), &[("hi", Type::UInt64, 8), ("lo", Type::UInt32, 0)]);
    among.define_function("after", Type::Void, &[Type::Int8]);
    assert_eq!(count(&among.finish(), block), 1);
    assert!(block.contains("detail::record_type<16, 8>"));
}

#[test]
fn wrapper_lists_are_separated_but_not_terminated() {
    let mut b = HeaderBuilder::new("i");
    b.define_function("f", Type::Void, &[Type::Int8, Type::Int16, Type::Int32]);
    let text = b.finish();
    assert!(text.contains("static inline auto f(int8_t param0, int16_t param1, int32_t param2) {"));
    assert!(text.contains("using Fn = void (*)(int8_t, int16_t, int32_t);"));
    assert!(text.contains("(f_ptr)(detail::unwrap(param0),detail::unwrap(param1),detail::unwrap(param2)));"));

    let mut b = HeaderBuilder::new("i");
    b.define_function("g", Type::Void, &[]);
    let text = b.finish();
    assert!(text.contains("static inline auto g() {"));
    assert!(text.contains("using Fn = void (*)();"));
    assert!(text.contains("reinterpret_cast<Fn>(g_ptr)());"));

    let mut b = HeaderBuilder::new("i");
    b.define_function("h", Type::Void, &[Type::UInt8]);
    let text = b.finish();
    assert!(text.contains("static inline auto h(uint8_t param0) {"));
    assert!(text.contains("using Fn = void (*)(uint8_t);"));
    assert!(text.contains("reinterpret_cast<Fn>(h_ptr)(detail::unwrap(param0)));"));
}

#[test]
fn parameters_are_numbered_in_decimal() {
    let args: Vec<Type> = (0..12).map(|_| Type::Int32).collect();
    let mut b = HeaderBuilder::new("i");
    b.define_function("f", Type::Void, &args);
    let text = b.finish();
    assert!(text.contains("int32_t param9, int32_t param10, int32_t param11) {"));
    assert!(text.contains("detail::unwrap(param9),detail::unwrap(param10),detail::unwrap(param11)));"));
}

#[test]
fn constant_is_built_from_its_literal() {
    let mut b = HeaderBuilder::new("i");
    let status = b.define_enum("status", "Status");
    b.define_constant("FAILED", status, "-1");
    let text = b.finish();
    assert!(text.contains("\n            static constexpr auto FAILED = status(-1);\n            \n"));
}

#[test]
fn declaring_twice_emits_twice() {
    let mut b = HeaderBuilder::new("i");
    b.define_constant("K", Type::Int32, "1");
    b.define_constant("K", Type::Int32, "1");
    assert_eq!(count(&b.finish(), "static constexpr auto K = int32_t(1);"), 2);
}
