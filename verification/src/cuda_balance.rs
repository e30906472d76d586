//! The header of the CUDA driver interface is balanced: none of the names,
//! tags and literals of its declarations holds a delimiter.

use vstd::prelude::*;
use crate::balance::{balanced, depth_upto};
use crate::builder::Decl;
use crate::cuda::{
    constant_declarations, declarations, device_memory_functions, field_declarations,
    function_declarations, host_memory_functions, interface_name, module_and_stream_functions,
    setup_functions, type_declarations,
};
use crate::header::header_text;
use crate::header_balance::{decl_balanced, lemma_header_balanced, names_balanced};

verus! {

/// Whether every declaration of `decls` is balanced.
spec fn all_balanced(decls: Seq<Decl>) -> bool
    decreases decls.len(),
{
    decls.len() == 0 || (all_balanced(decls.drop_last()) && decl_balanced(decls.last()))
}

proof fn lemma_all_balanced(decls: Seq<Decl>)
    requires
        all_balanced(decls),
    ensures
        forall|i: int| 0 <= i < decls.len() ==> decl_balanced(#[trigger] decls[i]),
    decreases decls.len(),
{
    if decls.len() > 0 {
        let front = decls.drop_last();
        lemma_all_balanced(front);
        assert forall|i: int| 0 <= i < decls.len() implies decl_balanced(#[trigger] decls[i]) by {
            if i < front.len() {
                assert(front[i] == decls[i]);
            }
        }
    }
}

proof fn lemma_all_balanced_concat(first: Seq<Decl>, second: Seq<Decl>)
    requires
        all_balanced(first),
        all_balanced(second),
    ensures
        all_balanced(first + second),
    decreases second.len(),
{
    if second.len() == 0 {
        assert(first + second =~= first);
    } else {
        lemma_all_balanced_concat(first, second.drop_last());
        assert((first + second).drop_last() =~= first + second.drop_last());
    }
}

/// The name of the interface, and the names, the foreign tags and the sentinel of its types, hold no delimiter.
proof fn lemma_type_names_balanced()
    ensures
        balanced("cuda_interface"@),
        balanced("context_t"@),
        balanced("device_t"@),
        balanced("deviceptr_t"@),
        balanced("function_t"@),
        balanced("module_t"@),
        balanced("stream_t"@),
        balanced("result_t"@),
        balanced("memcpy2d_t"@),
        balanced("memcpy3d_t"@),
        balanced("memorytype_t"@),
        balanced("datatype_t"@),
        balanced("dev_attr_t"@),
        balanced("CUcontext"@),
        balanced("CUdevice"@),
        balanced("CUdeviceptr"@),
        balanced("CUfunction"@),
        balanced("CUmodule"@),
        balanced("CUstream"@),
        balanced("CUresult"@),
        balanced("CUDA_MEMCPY2D"@),
        balanced("CUDA_MEMCPY3D"@),
        balanced("CUmemorytype"@),
        balanced("cudaDataType"@),
        balanced("CUdevice_attribute"@),
        balanced("-2"@),
{
    reveal_with_fuel(depth_upto, 19);
    reveal_strlit("cuda_interface");
    reveal_strlit("context_t");
    reveal_strlit("device_t");
    reveal_strlit("deviceptr_t");
    reveal_strlit("function_t");
    reveal_strlit("module_t");
    reveal_strlit("stream_t");
    reveal_strlit("result_t");
    reveal_strlit("memcpy2d_t");
    reveal_strlit("memcpy3d_t");
    reveal_strlit("memorytype_t");
    reveal_strlit("datatype_t");
    reveal_strlit("dev_attr_t");
    reveal_strlit("CUcontext");
    reveal_strlit("CUdevice");
    reveal_strlit("CUdeviceptr");
    reveal_strlit("CUfunction");
    reveal_strlit("CUmodule");
    reveal_strlit("CUstream");
    reveal_strlit("CUresult");
    reveal_strlit("CUDA_MEMCPY2D");
    reveal_strlit("CUDA_MEMCPY3D");
    reveal_strlit("CUmemorytype");
    reveal_strlit("cudaDataType");
    reveal_strlit("CUdevice_attribute");
    reveal_strlit("-2");
}

/// The names and the literals of the constants hold no delimiter.
proof fn lemma_constant_names_balanced()
    ensures
        balanced("k_CUDA_SUCCESS"@),
        balanced("k_MEMORYTYPE_HOST"@),
        balanced("k_MEMORYTYPE_DEVICE"@),
        balanced("k_R_32F"@),
        balanced("k_C_32F"@),
        balanced("k_R_64F"@),
        balanced("k_C_64F"@),
        balanced("k_DEVICE_ATTRIBUTE_MULTIPROCESSOR_COUNT"@),
        balanced("0"@),
        balanced("1"@),
        balanced("2"@),
        balanced("4"@),
        balanced("5"@),
        balanced("16"@),
{
    reveal_with_fuel(depth_upto, 40);
    reveal_strlit("k_CUDA_SUCCESS");
    reveal_strlit("k_MEMORYTYPE_HOST");
    reveal_strlit("k_MEMORYTYPE_DEVICE");
    reveal_strlit("k_R_32F");
    reveal_strlit("k_C_32F");
    reveal_strlit("k_R_64F");
    reveal_strlit("k_C_64F");
    reveal_strlit("k_DEVICE_ATTRIBUTE_MULTIPROCESSOR_COUNT");
    reveal_strlit("0");
    reveal_strlit("1");
    reveal_strlit("2");
    reveal_strlit("4");
    reveal_strlit("5");
    reveal_strlit("16");
}

/// The names of the fields hold no delimiter.
proof fn lemma_field_names_balanced()
    ensures
        balanced("srcXInBytes"@),
        balanced("srcY"@),
        balanced("srcMemoryType"@),
        balanced("srcHost"@),
        balanced("srcDevice"@),
        balanced("srcPitch"@),
        balanced("dstXInBytes"@),
        balanced("dstY"@),
        balanced("dstMemoryType"@),
        balanced("dstHost"@),
        balanced("dstDevice"@),
        balanced("dstPitch"@),
        balanced("WidthInBytes"@),
        balanced("Height"@),
        balanced("srcZ"@),
        balanced("srcLOD"@),
        balanced("srcHeight"@),
        balanced("dstZ"@),
        balanced("dstLOD"@),
        balanced("dstHeight"@),
        balanced("Depth"@),
{
    reveal_with_fuel(depth_upto, 14);
    reveal_strlit("srcXInBytes");
    reveal_strlit("srcY");
    reveal_strlit("srcMemoryType");
    reveal_strlit("srcHost");
    reveal_strlit("srcDevice");
    reveal_strlit("srcPitch");
    reveal_strlit("dstXInBytes");
    reveal_strlit("dstY");
    reveal_strlit("dstMemoryType");
    reveal_strlit("dstHost");
    reveal_strlit("dstDevice");
    reveal_strlit("dstPitch");
    reveal_strlit("WidthInBytes");
    reveal_strlit("Height");
    reveal_strlit("srcZ");
    reveal_strlit("srcLOD");
    reveal_strlit("srcHeight");
    reveal_strlit("dstZ");
    reveal_strlit("dstLOD");
    reveal_strlit("dstHeight");
    reveal_strlit("Depth");
}

/// The names of the functions hold no delimiter.
proof fn lemma_function_names_balanced()
    ensures
        balanced("cu_ctx_pop_current"@),
        balanced("cu_ctx_set_current"@),
        balanced("cu_device_get"@),
        balanced("cu_device_primary_ctx_release"@),
        balanced("cu_device_primary_ctx_retain"@),
        balanced("cu_device_primary_ctx_set_flags"@),
        balanced("cu_get_error_string"@),
        balanced("cu_init"@),
        balanced("cu_launch_kernel"@),
        balanced("cu_mem_alloc"@),
        balanced("cu_memcpy2d_async"@),
        balanced("cu_memcpy3d_async"@),
        balanced("cu_memcpy_dtod_async"@),
        balanced("cu_memcpy_dtoh_async"@),
        balanced("cu_memcpy_htod_async"@),
        balanced("cu_memset_d8_async"@),
        balanced("cu_mem_free"@),
        balanced("cu_module_get_function"@),
        balanced("cu_module_load_fat_binary"@),
        balanced("cu_module_unload"@),
        balanced("cu_stream_create"@),
        balanced("cu_stream_destroy"@),
        balanced("cu_stream_synchronize"@),
        balanced("cu_mem_alloc_host"@),
        balanced("cu_mem_free_host"@),
        balanced("cuDeviceGetAttribute"@),
        balanced("cu_mem_host_register"@),
        balanced("cu_mem_host_unregister"@),
{
    reveal_with_fuel(depth_upto, 32);
    reveal_strlit("cu_ctx_pop_current");
    reveal_strlit("cu_ctx_set_current");
    reveal_strlit("cu_device_get");
    reveal_strlit("cu_device_primary_ctx_release");
    reveal_strlit("cu_device_primary_ctx_retain");
    reveal_strlit("cu_device_primary_ctx_set_flags");
    reveal_strlit("cu_get_error_string");
    reveal_strlit("cu_init");
    reveal_strlit("cu_launch_kernel");
    reveal_strlit("cu_mem_alloc");
    reveal_strlit("cu_memcpy2d_async");
    reveal_strlit("cu_memcpy3d_async");
    reveal_strlit("cu_memcpy_dtod_async");
    reveal_strlit("cu_memcpy_dtoh_async");
    reveal_strlit("cu_memcpy_htod_async");
    reveal_strlit("cu_memset_d8_async");
    reveal_strlit("cu_mem_free");
    reveal_strlit("cu_module_get_function");
    reveal_strlit("cu_module_load_fat_binary");
    reveal_strlit("cu_module_unload");
    reveal_strlit("cu_stream_create");
    reveal_strlit("cu_stream_destroy");
    reveal_strlit("cu_stream_synchronize");
    reveal_strlit("cu_mem_alloc_host");
    reveal_strlit("cu_mem_free_host");
    reveal_strlit("cuDeviceGetAttribute");
    reveal_strlit("cu_mem_host_register");
    reveal_strlit("cu_mem_host_unregister");
}

proof fn lemma_types_balanced()
    ensures
        all_balanced(type_declarations()),
{
    lemma_type_names_balanced();
    reveal_with_fuel(all_balanced, 13);
    reveal_with_fuel(names_balanced, 3);
}

proof fn lemma_constants_balanced()
    ensures
        all_balanced(constant_declarations()),
{
    lemma_type_names_balanced();
    lemma_constant_names_balanced();
    reveal_with_fuel(all_balanced, 9);
}

proof fn lemma_fields_balanced()
    ensures
        all_balanced(field_declarations()),
{
    lemma_type_names_balanced();
    lemma_field_names_balanced();
    reveal_with_fuel(all_balanced, 3);
    reveal_with_fuel(names_balanced, 3);
}

proof fn lemma_functions_balanced()
    ensures
        all_balanced(function_declarations()),
{
    lemma_type_names_balanced();
    lemma_function_names_balanced();
    assert(all_balanced(setup_functions())) by {
        reveal_with_fuel(all_balanced, 9);
        reveal_with_fuel(names_balanced, 4);
    }
    assert(all_balanced(device_memory_functions())) by {
        reveal_with_fuel(all_balanced, 10);
        reveal_with_fuel(names_balanced, 4);
    }
    assert(all_balanced(module_and_stream_functions())) by {
        reveal_with_fuel(all_balanced, 7);
        reveal_with_fuel(names_balanced, 4);
    }
    assert(all_balanced(host_memory_functions())) by {
        reveal_with_fuel(all_balanced, 6);
        reveal_with_fuel(names_balanced, 4);
    }
    lemma_all_balanced_concat(setup_functions(), device_memory_functions());
    lemma_all_balanced_concat(
        setup_functions() + device_memory_functions(),
        module_and_stream_functions(),
    );
    lemma_all_balanced_concat(
        setup_functions() + device_memory_functions() + module_and_stream_functions(),
        host_memory_functions(),
    );
}

/// The header of the CUDA driver interface is balanced in every class of
/// paired delimiter.
pub proof fn lemma_cuda_header_balanced()
    ensures
        balanced(header_text(interface_name(), declarations())),
{
    lemma_type_names_balanced();
    lemma_types_balanced();
    lemma_constants_balanced();
    lemma_fields_balanced();
    lemma_functions_balanced();
    lemma_all_balanced_concat(type_declarations(), constant_declarations());
    lemma_all_balanced_concat(type_declarations() + constant_declarations(), field_declarations());
    lemma_all_balanced_concat(
        type_declarations() + constant_declarations() + field_declarations(),
        function_declarations(),
    );
    lemma_all_balanced(declarations());
    lemma_header_balanced(interface_name(), declarations());
}

} // verus!
