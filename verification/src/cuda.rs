//! The declarations of the CUDA driver interface, and the driver that
//! renders them in either mode.

use vstd::prelude::*;
use vstd::string::StringExecFns;
use crate::balance::balanced;
use crate::builder::{
    emit_all, field_models, lemma_emit_all_concat, type_models, Builder, Decl, FieldModel,
};
use crate::cuda_balance::lemma_cuda_header_balanced;
use crate::header::{header_text, HeaderBuilder};
use crate::reset::{reset_text, ClearBuilder};
use crate::storage::{storage_text, VarsBuilder};
use crate::types::{RecordType, Type, TypeModel};

verus! {

/// A context.
pub open spec fn context_t() -> TypeModel {
    TypeModel::opaque_pointer("context_t"@, "CUcontext"@)
}

/// A device; `-2` stands for no device.
pub open spec fn device_t() -> TypeModel {
    TypeModel::tagged_with_sentinel("device_t"@, TypeModel::Int32, "CUdevice"@, "-2"@)
}

/// An address in device memory.
pub open spec fn deviceptr_t() -> TypeModel {
    TypeModel::tagged("deviceptr_t"@, TypeModel::UInt64, "CUdeviceptr"@)
}

/// A kernel.
pub open spec fn function_t() -> TypeModel {
    TypeModel::opaque_pointer("function_t"@, "CUfunction"@)
}

/// A loaded module.
pub open spec fn module_t() -> TypeModel {
    TypeModel::opaque_pointer("module_t"@, "CUmodule"@)
}

/// A stream.
pub open spec fn stream_t() -> TypeModel {
    TypeModel::opaque_pointer("stream_t"@, "CUstream"@)
}

/// The status that every driver call returns.
pub open spec fn result_t() -> TypeModel {
    TypeModel::enumeration("result_t"@, "CUresult"@)
}

/// The parameters of a two-dimensional copy.
pub open spec fn memcpy2d_t() -> TypeModel {
    TypeModel::tagged("memcpy2d_t"@, TypeModel::record(128, 8), "CUDA_MEMCPY2D"@)
}

/// The parameters of a three-dimensional copy.
pub open spec fn memcpy3d_t() -> TypeModel {
    TypeModel::tagged("memcpy3d_t"@, TypeModel::record(200, 8), "CUDA_MEMCPY3D"@)
}

/// The kind of memory that a copy reads or writes.
pub open spec fn memorytype_t() -> TypeModel {
    TypeModel::enumeration("memorytype_t"@, "CUmemorytype"@)
}

/// The element type of a matrix or vector.
pub open spec fn datatype_t() -> TypeModel {
    TypeModel::enumeration("datatype_t"@, "cudaDataType"@)
}

/// An attribute of a device that can be queried.
pub open spec fn dev_attr_t() -> TypeModel {
    TypeModel::enumeration("dev_attr_t"@, "CUdevice_attribute"@)
}

/// The tagged types of the interface.
pub open spec fn type_declarations() -> Seq<Decl> {
    seq![
        Decl::of_type(context_t()),
        Decl::of_type(device_t()),
        Decl::of_type(deviceptr_t()),
        Decl::of_type(function_t()),
        Decl::of_type(module_t()),
        Decl::of_type(stream_t()),
        Decl::of_type(result_t()),
        Decl::of_type(memcpy2d_t()),
        Decl::of_type(memcpy3d_t()),
        Decl::of_type(memorytype_t()),
        Decl::of_type(datatype_t()),
        Decl::of_type(dev_attr_t()),
    ]
}

/// The constants of the interface.
pub open spec fn constant_declarations() -> Seq<Decl> {
    seq![
        Decl::Constant { name: "k_CUDA_SUCCESS"@, ty: result_t(), literal: "0"@ },
        Decl::Constant { name: "k_MEMORYTYPE_HOST"@, ty: memorytype_t(), literal: "1"@ },
        Decl::Constant { name: "k_MEMORYTYPE_DEVICE"@, ty: memorytype_t(), literal: "2"@ },
        Decl::Constant { name: "k_R_32F"@, ty: datatype_t(), literal: "0"@ },
        Decl::Constant { name: "k_C_32F"@, ty: datatype_t(), literal: "4"@ },
        Decl::Constant { name: "k_R_64F"@, ty: datatype_t(), literal: "1"@ },
        Decl::Constant { name: "k_C_64F"@, ty: datatype_t(), literal: "5"@ },
        Decl::Constant {
            name: "k_DEVICE_ATTRIBUTE_MULTIPROCESSOR_COUNT"@,
            ty: dev_attr_t(),
            literal: "16"@,
        },
    ]
}

/// The fields of `memcpy2d_t`.
pub open spec fn memcpy2d_fields() -> Seq<FieldModel> {
    Seq::empty()
        .push(FieldModel::new("srcXInBytes"@, TypeModel::UInt64, 0))
        .push(FieldModel::new("srcY"@, TypeModel::UInt64, 8))
        .push(FieldModel::new("srcMemoryType"@, memorytype_t(), 16))
        .push(FieldModel::new("srcHost"@, TypeModel::voidcp(), 24))
        .push(FieldModel::new("srcDevice"@, deviceptr_t(), 32))
        .push(FieldModel::new("srcPitch"@, TypeModel::UInt64, 48))
        .push(FieldModel::new("dstXInBytes"@, TypeModel::UInt64, 56))
        .push(FieldModel::new("dstY"@, TypeModel::UInt64, 64))
        .push(FieldModel::new("dstMemoryType"@, memorytype_t(), 72))
        .push(FieldModel::new("dstHost"@, TypeModel::voidp(), 80))
        .push(FieldModel::new("dstDevice"@, deviceptr_t(), 88))
        .push(FieldModel::new("dstPitch"@, TypeModel::UInt64, 104))
        .push(FieldModel::new("WidthInBytes"@, TypeModel::UInt64, 112))
        .push(FieldModel::new("Height"@, TypeModel::UInt64, 120))
}

/// The fields of `memcpy3d_t`.
pub open spec fn memcpy3d_fields() -> Seq<FieldModel> {
    Seq::empty()
        .push(FieldModel::new("srcXInBytes"@, TypeModel::UInt64, 0))
        .push(FieldModel::new("srcY"@, TypeModel::UInt64, 8))
        .push(FieldModel::new("srcZ"@, TypeModel::UInt64, 16))
        .push(FieldModel::new("srcLOD"@, TypeModel::UInt64, 24))
        .push(FieldModel::new("srcMemoryType"@, memorytype_t(), 32))
        .push(FieldModel::new("srcHost"@, TypeModel::voidcp(), 40))
        .push(FieldModel::new("srcDevice"@, deviceptr_t(), 48))
        .push(FieldModel::new("srcPitch"@, TypeModel::UInt64, 72))
        .push(FieldModel::new("srcHeight"@, TypeModel::UInt64, 80))
        .push(FieldModel::new("dstXInBytes"@, TypeModel::UInt64, 88))
        .push(FieldModel::new("dstY"@, TypeModel::UInt64, 96))
        .push(FieldModel::new("dstZ"@, TypeModel::UInt64, 104))
        .push(FieldModel::new("dstLOD"@, TypeModel::UInt64, 112))
        .push(FieldModel::new("dstMemoryType"@, memorytype_t(), 120))
        .push(FieldModel::new("dstHost"@, TypeModel::voidp(), 128))
        .push(FieldModel::new("dstDevice"@, deviceptr_t(), 136))
        .push(FieldModel::new("dstPitch"@, TypeModel::UInt64, 160))
        .push(FieldModel::new("dstHeight"@, TypeModel::UInt64, 168))
        .push(FieldModel::new("WidthInBytes"@, TypeModel::UInt64, 176))
        .push(FieldModel::new("Height"@, TypeModel::UInt64, 184))
        .push(FieldModel::new("Depth"@, TypeModel::UInt64, 192))
}

/// The fields of the two records of the interface.
pub open spec fn field_declarations() -> Seq<Decl> {
    seq![
        Decl::Fields { record: memcpy2d_t(), fields: memcpy2d_fields() },
        Decl::Fields { record: memcpy3d_t(), fields: memcpy3d_fields() },
    ]
}

/// The functions that initialise the driver and manage devices and contexts.
pub open spec fn setup_functions() -> Seq<Decl> {
    seq![
        Decl::Function {
            name: "cu_ctx_pop_current"@,
            ret: result_t(),
            args: Seq::empty().push(context_t().pointer()),
        },
        Decl::Function {
            name: "cu_ctx_set_current"@,
            ret: result_t(),
            args: Seq::empty().push(context_t()),
        },
        Decl::Function {
            name: "cu_device_get"@,
            ret: result_t(),
            args: Seq::empty().push(device_t().pointer()).push(TypeModel::Int32),
        },
        Decl::Function {
            name: "cu_device_primary_ctx_release"@,
            ret: result_t(),
            args: Seq::empty().push(device_t()),
        },
        Decl::Function {
            name: "cu_device_primary_ctx_retain"@,
            ret: result_t(),
            args: Seq::empty().push(context_t().pointer()).push(device_t()),
        },
        Decl::Function {
            name: "cu_device_primary_ctx_set_flags"@,
            ret: result_t(),
            args: Seq::empty().push(device_t()).push(TypeModel::UInt32),
        },
        Decl::Function {
            name: "cu_get_error_string"@,
            ret: result_t(),
            args: Seq::empty().push(result_t()).push(TypeModel::cstr().pointer()),
        },
        Decl::Function {
            name: "cu_init"@,
            ret: result_t(),
            args: Seq::empty().push(TypeModel::UInt32),
        },
    ]
}

/// The functions that launch a kernel and manage device memory.
pub open spec fn device_memory_functions() -> Seq<Decl> {
    seq![
        Decl::Function {
            name: "cu_launch_kernel"@,
            ret: result_t(),
            args: Seq::empty()
                .push(function_t())
                .push(TypeModel::UInt32)
                .push(TypeModel::UInt32)
                .push(TypeModel::UInt32)
                .push(TypeModel::UInt32)
                .push(TypeModel::UInt32)
                .push(TypeModel::UInt32)
                .push(TypeModel::UInt32)
                .push(stream_t())
                .push(TypeModel::voidpp())
                .push(TypeModel::voidpp()),
        },
        Decl::Function {
            name: "cu_mem_alloc"@,
            ret: result_t(),
            args: Seq::empty().push(deviceptr_t().pointer()).push(TypeModel::USize),
        },
        Decl::Function {
            name: "cu_memcpy2d_async"@,
            ret: result_t(),
            args: Seq::empty().push(memcpy2d_t().const_pointer()).push(stream_t()),
        },
        Decl::Function {
            name: "cu_memcpy3d_async"@,
            ret: result_t(),
            args: Seq::empty().push(memcpy3d_t().const_pointer()).push(stream_t()),
        },
        Decl::Function {
            name: "cu_memcpy_dtod_async"@,
            ret: result_t(),
            args: Seq::empty()
                .push(deviceptr_t())
                .push(deviceptr_t())
                .push(TypeModel::USize)
                .push(stream_t()),
        },
        Decl::Function {
            name: "cu_memcpy_dtoh_async"@,
            ret: result_t(),
            args: Seq::empty()
                .push(TypeModel::voidp())
                .push(deviceptr_t())
                .push(TypeModel::USize)
                .push(stream_t()),
        },
        Decl::Function {
            name: "cu_memcpy_htod_async"@,
            ret: result_t(),
            args: Seq::empty()
                .push(deviceptr_t())
                .push(TypeModel::voidcp())
                .push(TypeModel::USize)
                .push(stream_t()),
        },
        Decl::Function {
            name: "cu_memset_d8_async"@,
            ret: result_t(),
            args: Seq::empty()
                .push(deviceptr_t())
                .push(TypeModel::UInt8)
                .push(TypeModel::USize)
                .push(stream_t()),
        },
        Decl::Function {
            name: "cu_mem_free"@,
            ret: result_t(),
            args: Seq::empty().push(deviceptr_t()),
        },
    ]
}

/// The functions that manage modules and streams.
pub open spec fn module_and_stream_functions() -> Seq<Decl> {
    seq![
        Decl::Function {
            name: "cu_module_get_function"@,
            ret: result_t(),
            args: Seq::empty()
                .push(function_t().pointer())
                .push(module_t())
                .push(TypeModel::cstr()),
        },
        Decl::Function {
            name: "cu_module_load_fat_binary"@,
            ret: result_t(),
            args: Seq::empty().push(module_t().pointer()).push(TypeModel::voidcp()),
        },
        Decl::Function {
            name: "cu_module_unload"@,
            ret: result_t(),
            args: Seq::empty().push(module_t()),
        },
        Decl::Function {
            name: "cu_stream_create"@,
            ret: result_t(),
            args: Seq::empty().push(stream_t().pointer()).push(TypeModel::UInt32),
        },
        Decl::Function {
            name: "cu_stream_destroy"@,
            ret: result_t(),
            args: Seq::empty().push(stream_t()),
        },
        Decl::Function {
            name: "cu_stream_synchronize"@,
            ret: result_t(),
            args: Seq::empty().push(stream_t()),
        },
    ]
}

/// The functions that manage host memory and query a device.
pub open spec fn host_memory_functions() -> Seq<Decl> {
    seq![
        Decl::Function {
            name: "cu_mem_alloc_host"@,
            ret: result_t(),
            args: Seq::empty().push(TypeModel::voidpp()).push(TypeModel::UInt64),
        },
        Decl::Function {
            name: "cu_mem_free_host"@,
            ret: result_t(),
            args: Seq::empty().push(TypeModel::voidp()),
        },
        Decl::Function {
            name: "cuDeviceGetAttribute"@,
            ret: result_t(),
            args: Seq::empty().push(TypeModel::Int32.pointer()).push(dev_attr_t()).push(device_t()),
        },
        Decl::Function {
            name: "cu_mem_host_register"@,
            ret: result_t(),
            args: Seq::empty()
                .push(TypeModel::voidp())
                .push(TypeModel::USize)
                .push(TypeModel::UInt32),
        },
        Decl::Function {
            name: "cu_mem_host_unregister"@,
            ret: result_t(),
            args: Seq::empty().push(TypeModel::voidp()),
        },
    ]
}

/// The functions of the interface.
pub open spec fn function_declarations() -> Seq<Decl> {
    setup_functions() + device_memory_functions() + module_and_stream_functions()
        + host_memory_functions()
}

/// All the declarations of the interface, in order: the types, the
/// constants, the fields of the records, the functions.
pub open spec fn declarations() -> Seq<Decl> {
    type_declarations() + constant_declarations() + field_declarations() + function_declarations()
}

/// The tagged types of the interface, as the later declarations use them.
struct Types {
    context_t: Type,
    device_t: Type,
    deviceptr_t: Type,
    function_t: Type,
    module_t: Type,
    stream_t: Type,
    result_t: Type,
    memcpy2d_t: Type,
    memcpy3d_t: Type,
    memorytype_t: Type,
    datatype_t: Type,
    dev_attr_t: Type,
}

impl Types {
    /// Whether each type is the one that the interface declares under its name.
    spec fn declared(&self) -> bool {
        &&& self.context_t@ == context_t()
        &&& self.device_t@ == device_t()
        &&& self.deviceptr_t@ == deviceptr_t()
        &&& self.function_t@ == function_t()
        &&& self.module_t@ == module_t()
        &&& self.stream_t@ == stream_t()
        &&& self.result_t@ == result_t()
        &&& self.memcpy2d_t@ == memcpy2d_t()
        &&& self.memcpy3d_t@ == memcpy3d_t()
        &&& self.memorytype_t@ == memorytype_t()
        &&& self.datatype_t@ == datatype_t()
        &&& self.dev_attr_t@ == dev_attr_t()
    }
}

/// Declares the tagged types.
fn declare_types<B: Builder>(b: &mut B) -> (t: Types)
    ensures
        t.declared(),
        final(b).interface() == old(b).interface(),
        final(b).text() == old(b).text() + emit_all::<B>(old(b).interface(), type_declarations()),
{
    proof {
        reveal_with_fuel(emit_all, 13);
    }
    let context_t = b.define_opaque_ptr("context_t", "CUcontext");
    let device_t = b.define_tagged_type_iv("device_t", Type::Int32, "CUdevice", "-2");
    let deviceptr_t = b.define_tagged_type("deviceptr_t", Type::UInt64, "CUdeviceptr");
    let function_t = b.define_opaque_ptr("function_t", "CUfunction");
    let module_t = b.define_opaque_ptr("module_t", "CUmodule");
    let stream_t = b.define_opaque_ptr("stream_t", "CUstream");
    let result_t = b.define_enum("result_t", "CUresult");
    let memcpy2d_t = b.define_tagged_type("memcpy2d_t", RecordType::new(128, 8), "CUDA_MEMCPY2D");
    let memcpy3d_t = b.define_tagged_type("memcpy3d_t", RecordType::new(200, 8), "CUDA_MEMCPY3D");
    let memorytype_t = b.define_enum("memorytype_t", "CUmemorytype");
    let datatype_t = b.define_enum("datatype_t", "cudaDataType");
    let dev_attr_t = b.define_enum("dev_attr_t", "CUdevice_attribute");
    Types {
        context_t,
        device_t,
        deviceptr_t,
        function_t,
        module_t,
        stream_t,
        result_t,
        memcpy2d_t,
        memcpy3d_t,
        memorytype_t,
        datatype_t,
        dev_attr_t,
    }
}

/// Declares the constants.
fn declare_constants<B: Builder>(b: &mut B, t: &Types)
    requires
        t.declared(),
    ensures
        final(b).interface() == old(b).interface(),
        final(b).text() == old(b).text() + emit_all::<B>(
            old(b).interface(),
            constant_declarations(),
        ),
{
    proof {
        reveal_with_fuel(emit_all, 9);
    }
    b.define_constant("k_CUDA_SUCCESS", t.result_t.clone(), "0");
    b.define_constant("k_MEMORYTYPE_HOST", t.memorytype_t.clone(), "1");
    b.define_constant("k_MEMORYTYPE_DEVICE", t.memorytype_t.clone(), "2");
    b.define_constant("k_R_32F", t.datatype_t.clone(), "0");
    b.define_constant("k_C_32F", t.datatype_t.clone(), "4");
    b.define_constant("k_R_64F", t.datatype_t.clone(), "1");
    b.define_constant("k_C_64F", t.datatype_t.clone(), "5");
    b.define_constant("k_DEVICE_ATTRIBUTE_MULTIPROCESSOR_COUNT", t.dev_attr_t.clone(), "16");
}

/// Declares the fields of the two records.
fn declare_fields<B: Builder>(b: &mut B, t: &Types)
    requires
        t.declared(),
    ensures
        final(b).interface() == old(b).interface(),
        final(b).text() == old(b).text() + emit_all::<B>(old(b).interface(), field_declarations()),
{
    proof {
        reveal_with_fuel(emit_all, 3);
        reveal_with_fuel(field_models, 22);
    }
    b.define_fields(
        t.memcpy2d_t.clone(),
        &[
            ("srcXInBytes", Type::UInt64, 0),
            ("srcY", Type::UInt64, 8),
            ("srcMemoryType", t.memorytype_t.clone(), 16),
            ("srcHost", Type::voidcp(), 24),
            ("srcDevice", t.deviceptr_t.clone(), 32),
            ("srcPitch", Type::UInt64, 48),
            ("dstXInBytes", Type::UInt64, 56),
            ("dstY", Type::UInt64, 64),
            ("dstMemoryType", t.memorytype_t.clone(), 72),
            ("dstHost", Type::voidp(), 80),
            ("dstDevice", t.deviceptr_t.clone(), 88),
            ("dstPitch", Type::UInt64, 104),
            ("WidthInBytes", Type::UInt64, 112),
            ("Height", Type::UInt64, 120),
        ],
    );
    b.define_fields(
        t.memcpy3d_t.clone(),
        &[
            ("srcXInBytes", Type::UInt64, 0),
            ("srcY", Type::UInt64, 8),
            ("srcZ", Type::UInt64, 16),
            ("srcLOD", Type::UInt64, 24),
            ("srcMemoryType", t.memorytype_t.clone(), 32),
            ("srcHost", Type::voidcp(), 40),
            ("srcDevice", t.deviceptr_t.clone(), 48),
            ("srcPitch", Type::UInt64, 72),
            ("srcHeight", Type::UInt64, 80),
            ("dstXInBytes", Type::UInt64, 88),
            ("dstY", Type::UInt64, 96),
            ("dstZ", Type::UInt64, 104),
            ("dstLOD", Type::UInt64, 112),
            ("dstMemoryType", t.memorytype_t.clone(), 120),
            ("dstHost", Type::voidp(), 128),
            ("dstDevice", t.deviceptr_t.clone(), 136),
            ("dstPitch", Type::UInt64, 160),
            ("dstHeight", Type::UInt64, 168),
            ("WidthInBytes", Type::UInt64, 176),
            ("Height", Type::UInt64, 184),
            ("Depth", Type::UInt64, 192),
        ],
    );
}


/// Declares the functions that initialise the driver and manage devices and contexts.
fn declare_setup_functions<B: Builder>(b: &mut B, t: &Types)
    requires
        t.declared(),
    ensures
        final(b).interface() == old(b).interface(),
        final(b).text() == old(b).text() + emit_all::<B>(old(b).interface(), setup_functions()),
{
    proof {
        reveal_with_fuel(emit_all, 9);
        reveal_with_fuel(type_models, 12);
    }
    b.define_function("cu_ctx_pop_current", t.result_t.clone(), &[t.context_t.p()]);
    b.define_function("cu_ctx_set_current", t.result_t.clone(), &[t.context_t.clone()]);
    b.define_function("cu_device_get", t.result_t.clone(), &[t.device_t.p(), Type::Int32]);
    b.define_function("cu_device_primary_ctx_release", t.result_t.clone(), &[t.device_t.clone()]);
    b.define_function(
        "cu_device_primary_ctx_retain",
        t.result_t.clone(),
        &[t.context_t.p(), t.device_t.clone()],
    );
    b.define_function(
        "cu_device_primary_ctx_set_flags",
        t.result_t.clone(),
        &[t.device_t.clone(), Type::UInt32],
    );
    b.define_function(
        "cu_get_error_string",
        t.result_t.clone(),
        &[t.result_t.clone(), Type::cstr().p()],
    );
    b.define_function("cu_init", t.result_t.clone(), &[Type::UInt32]);
}

/// Declares the functions that launch a kernel and manage device memory.
fn declare_device_memory_functions<B: Builder>(b: &mut B, t: &Types)
    requires
        t.declared(),
    ensures
        final(b).interface() == old(b).interface(),
        final(b).text() == old(b).text() + emit_all::<B>(
            old(b).interface(),
            device_memory_functions(),
        ),
{
    proof {
        reveal_with_fuel(emit_all, 10);
        reveal_with_fuel(type_models, 12);
    }
    b.define_function(
        "cu_launch_kernel",
        t.result_t.clone(),
        &[
            t.function_t.clone(),
            Type::UInt32,
            Type::UInt32,
            Type::UInt32,
            Type::UInt32,
            Type::UInt32,
            Type::UInt32,
            Type::UInt32,
            t.stream_t.clone(),
            Type::voidpp(),
            Type::voidpp(),
        ],
    );
    b.define_function("cu_mem_alloc", t.result_t.clone(), &[t.deviceptr_t.p(), Type::USize]);
    b.define_function(
        "cu_memcpy2d_async",
        t.result_t.clone(),
        &[t.memcpy2d_t.cp(), t.stream_t.clone()],
    );
    b.define_function(
        "cu_memcpy3d_async",
        t.result_t.clone(),
        &[t.memcpy3d_t.cp(), t.stream_t.clone()],
    );
    b.define_function(
        "cu_memcpy_dtod_async",
        t.result_t.clone(),
        &[t.deviceptr_t.clone(), t.deviceptr_t.clone(), Type::USize, t.stream_t.clone()],
    );
    b.define_function(
        "cu_memcpy_dtoh_async",
        t.result_t.clone(),
        &[Type::voidp(), t.deviceptr_t.clone(), Type::USize, t.stream_t.clone()],
    );
    b.define_function(
        "cu_memcpy_htod_async",
        t.result_t.clone(),
        &[t.deviceptr_t.clone(), Type::voidcp(), Type::USize, t.stream_t.clone()],
    );
    b.define_function(
        "cu_memset_d8_async",
        t.result_t.clone(),
        &[t.deviceptr_t.clone(), Type::UInt8, Type::USize, t.stream_t.clone()],
    );
    b.define_function("cu_mem_free", t.result_t.clone(), &[t.deviceptr_t.clone()]);
}

/// Declares the functions that manage modules and streams.
fn declare_module_and_stream_functions<B: Builder>(b: &mut B, t: &Types)
    requires
        t.declared(),
    ensures
        final(b).interface() == old(b).interface(),
        final(b).text() == old(b).text() + emit_all::<B>(
            old(b).interface(),
            module_and_stream_functions(),
        ),
{
    proof {
        reveal_with_fuel(emit_all, 7);
        reveal_with_fuel(type_models, 12);
    }
    b.define_function(
        "cu_module_get_function",
        t.result_t.clone(),
        &[t.function_t.p(), t.module_t.clone(), Type::cstr()],
    );
    b.define_function(
        "cu_module_load_fat_binary",
        t.result_t.clone(),
        &[t.module_t.p(), Type::voidcp()],
    );
    b.define_function("cu_module_unload", t.result_t.clone(), &[t.module_t.clone()]);
    b.define_function("cu_stream_create", t.result_t.clone(), &[t.stream_t.p(), Type::UInt32]);
    b.define_function("cu_stream_destroy", t.result_t.clone(), &[t.stream_t.clone()]);
    b.define_function("cu_stream_synchronize", t.result_t.clone(), &[t.stream_t.clone()]);
}

/// Declares the functions that manage host memory and query a device.
fn declare_host_memory_functions<B: Builder>(b: &mut B, t: &Types)
    requires
        t.declared(),
    ensures
        final(b).interface() == old(b).interface(),
        final(b).text() == old(b).text() + emit_all::<B>(
            old(b).interface(),
            host_memory_functions(),
        ),
{
    proof {
        reveal_with_fuel(emit_all, 6);
        reveal_with_fuel(type_models, 12);
    }
    b.define_function("cu_mem_alloc_host", t.result_t.clone(), &[Type::voidpp(), Type::UInt64]);
    b.define_function("cu_mem_free_host", t.result_t.clone(), &[Type::voidp()]);
    b.define_function(
        "cuDeviceGetAttribute",
        t.result_t.clone(),
        &[Type::Int32.p(), t.dev_attr_t.clone(), t.device_t.clone()],
    );
    b.define_function(
        "cu_mem_host_register",
        t.result_t.clone(),
        &[Type::voidp(), Type::USize, Type::UInt32],
    );
    b.define_function("cu_mem_host_unregister", t.result_t.clone(), &[Type::voidp()]);
}

/// Declares the functions.
fn declare_functions<B: Builder>(b: &mut B, t: &Types)
    requires
        t.declared(),
    ensures
        final(b).interface() == old(b).interface(),
        final(b).text() == old(b).text() + emit_all::<B>(
            old(b).interface(),
            function_declarations(),
        ),
{
    declare_setup_functions(b, t);
    declare_device_memory_functions(b, t);
    declare_module_and_stream_functions(b, t);
    declare_host_memory_functions(b, t);
    proof {
        let interface = old(b).interface();
        let setup = setup_functions();
        let memory = device_memory_functions();
        let modules = module_and_stream_functions();
        let host = host_memory_functions();
        lemma_emit_all_concat::<B>(interface, setup, memory);
        lemma_emit_all_concat::<B>(interface, setup + memory, modules);
        lemma_emit_all_concat::<B>(interface, setup + memory + modules, host);
        assert(b.text() =~= old(b).text() + emit_all::<B>(interface, function_declarations()));
    }
}

/// Issues the declarations of the interface to the emitter `b`.
pub fn render_impl<B: Builder>(b: &mut B)
    ensures
        final(b).interface() == old(b).interface(),
        final(b).text() == old(b).text() + emit_all::<B>(old(b).interface(), declarations()),
{
    let t = declare_types(b);
    declare_constants(b, &t);
    declare_fields(b, &t);
    declare_functions(b, &t);
    proof {
        let interface = old(b).interface();
        let types = type_declarations();
        let constants = constant_declarations();
        let fields = field_declarations();
        let functions = function_declarations();
        lemma_emit_all_concat::<B>(interface, types, constants);
        lemma_emit_all_concat::<B>(interface, types + constants, fields);
        lemma_emit_all_concat::<B>(interface, types + constants + fields, functions);
        assert(b.text() =~= old(b).text() + emit_all::<B>(interface, declarations()));
    }
}

/// The name of the interface.
pub open spec fn interface_name() -> Seq<char> {
    "cuda_interface"@
}

/// Renders the interface. In header mode (`vars` is false) the result is the
/// header, which is balanced in every class of paired delimiter. In storage
/// mode (`vars` is true) it is the storage, a blank line and the reset
/// routine. All three come from the same declarations.
pub fn render(vars: bool) -> (res: String)
    ensures
        vars ==> res@ == storage_text(interface_name(), declarations()) + "\n"@ + reset_text(
            interface_name(),
            declarations(),
        ),
        !vars ==> res@ == header_text(interface_name(), declarations()),
        !vars ==> balanced(res@),
{
    let name = "cuda_interface";
    if vars {
        let mut b = VarsBuilder::new(name);
        render_impl(&mut b);
        let mut c = ClearBuilder::new(name);
        render_impl(&mut c);
        let mut res = b.finish();
        res.append("\n");
        res.append(c.finish().as_str());
        assert(res@ =~= storage_text(interface_name(), declarations()) + "\n"@ + reset_text(
            interface_name(),
            declarations(),
        ));
        res
    } else {
        let mut b = HeaderBuilder::new(name);
        render_impl(&mut b);
        let res = b.finish();
        assert(res@ =~= header_text(interface_name(), declarations()));
        proof {
            lemma_cuda_header_balanced();
        }
        res
    }
}

} // verus!
