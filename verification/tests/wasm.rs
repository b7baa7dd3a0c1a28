use cranelift::ir::{ValueType, FLOAT32, FLOAT64, I32, I64};
use cranelift::wasm::translation_utils::{
    blocktype_to_type, get_vmctx_value_label, num_return_values, tabletype_to_type, type_to_type,
    wasm_blocktype_to_type, wasm_num_return_values, BlockType, FuncIndex, GlobalIndex, WasmError,
    WasmType,
};

#[test]
fn value_types_translate() {
    assert_eq!(type_to_type(wasmparser::Type::I32), Ok(ValueType(I32)));
    assert_eq!(type_to_type(wasmparser::Type::I64), Ok(ValueType(I64)));
    assert_eq!(type_to_type(wasmparser::Type::F32), Ok(ValueType(FLOAT32)));
    assert_eq!(type_to_type(wasmparser::Type::F64), Ok(ValueType(FLOAT64)));
    assert_eq!(
        type_to_type(wasmparser::Type::V128),
        Err(WasmError::Unsupported("unsupported wasm type"))
    );
}

#[test]
fn table_types_translate() {
    assert_eq!(tabletype_to_type(wasmparser::Type::I32), Ok(Some(ValueType(I32))));
    assert_eq!(tabletype_to_type(wasmparser::Type::AnyFunc), Ok(None));
    assert_eq!(
        tabletype_to_type(wasmparser::Type::AnyRef),
        Err(WasmError::Unsupported("unsupported table wasm type"))
    );
}

#[test]
fn block_types_translate() {
    let ty = wasmparser::TypeOrFuncType::Type(wasmparser::Type::F64);
    assert_eq!(blocktype_to_type(ty), Ok(ValueType(FLOAT64)));
    let f = wasmparser::TypeOrFuncType::FuncType(3);
    assert_eq!(
        blocktype_to_type(f),
        Err(WasmError::Unsupported("multi-value block signatures"))
    );
    assert_eq!(
        wasm_blocktype_to_type(BlockType::Value(WasmType::Null)),
        Err(WasmError::Unsupported("unsupported wasm type"))
    );
}

#[test]
fn return_value_counts() {
    let empty = wasmparser::TypeOrFuncType::Type(wasmparser::Type::EmptyBlockType);
    assert_eq!(num_return_values(empty), Ok(0));
    let one = wasmparser::TypeOrFuncType::Type(wasmparser::Type::I64);
    assert_eq!(num_return_values(one), Ok(1));
    let bad = wasmparser::TypeOrFuncType::Type(wasmparser::Type::AnyFunc);
    assert_eq!(
        num_return_values(bad),
        Err(WasmError::Unsupported("unsupported return value type"))
    );
    assert_eq!(
        wasm_num_return_values(BlockType::FuncType(0)),
        Err(WasmError::Unsupported("multi-value block signatures"))
    );
}

#[test]
fn vmctx_label_and_indices() {
    assert_eq!(get_vmctx_value_label().as_u32(), 0xffff_fffe);
    assert_eq!(FuncIndex::new(5).index(), 5);
    assert_eq!(GlobalIndex::new(0).index(), 0);
    assert!(FuncIndex::new(1) < FuncIndex::new(2));
}
