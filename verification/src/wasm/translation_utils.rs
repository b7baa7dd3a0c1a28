//! Helper functions and structures for the translation.

use vstd::prelude::*;
use crate::ir;
use crate::ir::{ValueLabel, FLOAT32, FLOAT64, I32, I64};

verus! {

/// Index type of a function (imported or defined) inside the WebAssembly module.
#[derive(Copy, Clone, PartialEq, Eq, Hash, PartialOrd, Ord, Debug)]
pub struct FuncIndex(u32);

impl FuncIndex {
    /// The index as a number.
    pub closed spec fn spec_index(&self) -> nat {
        self.0 as nat
    }

    /// Create a new entity reference from its number.
    pub fn new(index: usize) -> (r: Self)
        requires
            index < 0xffff_ffff,
        ensures
            r.spec_index() == index,
    {
        FuncIndex(index as u32)
    }

    /// Get the index that was used to create this entity reference.
    pub fn index(self) -> (r: usize)
        ensures
            r == self.spec_index(),
    {
        self.0 as usize
    }
}

/// Index type of a defined function inside the WebAssembly module.
#[derive(Copy, Clone, PartialEq, Eq, Hash, PartialOrd, Ord, Debug)]
pub struct DefinedFuncIndex(u32);

impl DefinedFuncIndex {
    /// The index as a number.
    pub closed spec fn spec_index(&self) -> nat {
        self.0 as nat
    }

    /// Create a new entity reference from its number.
    pub fn new(index: usize) -> (r: Self)
        requires
            index < 0xffff_ffff,
        ensures
            r.spec_index() == index,
    {
        DefinedFuncIndex(index as u32)
    }

    /// Get the index that was used to create this entity reference.
    pub fn index(self) -> (r: usize)
        ensures
            r == self.spec_index(),
    {
        self.0 as usize
    }
}

/// Index type of a defined table inside the WebAssembly module.
#[derive(Copy, Clone, PartialEq, Eq, Hash, PartialOrd, Ord, Debug)]
pub struct DefinedTableIndex(u32);

impl DefinedTableIndex {
    /// The index as a number.
    pub closed spec fn spec_index(&self) -> nat {
        self.0 as nat
    }

    /// Create a new entity reference from its number.
    pub fn new(index: usize) -> (r: Self)
        requires
            index < 0xffff_ffff,
        ensures
            r.spec_index() == index,
    {
        DefinedTableIndex(index as u32)
    }

    /// Get the index that was used to create this entity reference.
    pub fn index(self) -> (r: usize)
        ensures
            r == self.spec_index(),
    {
        self.0 as usize
    }
}

/// Index type of a defined memory inside the WebAssembly module.
#[derive(Copy, Clone, PartialEq, Eq, Hash, PartialOrd, Ord, Debug)]
pub struct DefinedMemoryIndex(u32);

impl DefinedMemoryIndex {
    /// The index as a number.
    pub closed spec fn spec_index(&self) -> nat {
        self.0 as nat
    }

    /// Create a new entity reference from its number.
    pub fn new(index: usize) -> (r: Self)
        requires
            index < 0xffff_ffff,
        ensures
            r.spec_index() == index,
    {
        DefinedMemoryIndex(index as u32)
    }

    /// Get the index that was used to create this entity reference.
    pub fn index(self) -> (r: usize)
        ensures
            r == self.spec_index(),
    {
        self.0 as usize
    }
}

/// Index type of a defined global inside the WebAssembly module.
#[derive(Copy, Clone, PartialEq, Eq, Hash, PartialOrd, Ord, Debug)]
pub struct DefinedGlobalIndex(u32);

impl DefinedGlobalIndex {
    /// The index as a number.
    pub closed spec fn spec_index(&self) -> nat {
        self.0 as nat
    }

    /// Create a new entity reference from its number.
    pub fn new(index: usize) -> (r: Self)
        requires
            index < 0xffff_ffff,
        ensures
            r.spec_index() == index,
    {
        DefinedGlobalIndex(index as u32)
    }

    /// Get the index that was used to create this entity reference.
    pub fn index(self) -> (r: usize)
        ensures
            r == self.spec_index(),
    {
        self.0 as usize
    }
}

/// Index type of a table (imported or defined) inside the WebAssembly module.
#[derive(Copy, Clone, PartialEq, Eq, Hash, PartialOrd, Ord, Debug)]
pub struct TableIndex(u32);

impl TableIndex {
    /// The index as a number.
    pub closed spec fn spec_index(&self) -> nat {
        self.0 as nat
    }

    /// Create a new entity reference from its number.
    pub fn new(index: usize) -> (r: Self)
        requires
            index < 0xffff_ffff,
        ensures
            r.spec_index() == index,
    {
        TableIndex(index as u32)
    }

    /// Get the index that was used to create this entity reference.
    pub fn index(self) -> (r: usize)
        ensures
            r == self.spec_index(),
    {
        self.0 as usize
    }
}

/// Index type of a global variable (imported or defined) inside the WebAssembly module.
#[derive(Copy, Clone, PartialEq, Eq, Hash, PartialOrd, Ord, Debug)]
pub struct GlobalIndex(u32);

impl GlobalIndex {
    /// The index as a number.
    pub closed spec fn spec_index(&self) -> nat {
        self.0 as nat
    }

    /// Create a new entity reference from its number.
    pub fn new(index: usize) -> (r: Self)
        requires
            index < 0xffff_ffff,
        ensures
            r.spec_index() == index,
    {
        GlobalIndex(index as u32)
    }

    /// Get the index that was used to create this entity reference.
    pub fn index(self) -> (r: usize)
        ensures
            r == self.spec_index(),
    {
        self.0 as usize
    }
}

/// Index type of a linear memory (imported or defined) inside the WebAssembly module.
#[derive(Copy, Clone, PartialEq, Eq, Hash, PartialOrd, Ord, Debug)]
pub struct MemoryIndex(u32);

impl MemoryIndex {
    /// The index as a number.
    pub closed spec fn spec_index(&self) -> nat {
        self.0 as nat
    }

    /// Create a new entity reference from its number.
    pub fn new(index: usize) -> (r: Self)
        requires
            index < 0xffff_ffff,
        ensures
            r.spec_index() == index,
    {
        MemoryIndex(index as u32)
    }

    /// Get the index that was used to create this entity reference.
    pub fn index(self) -> (r: usize)
        ensures
            r == self.spec_index(),
    {
        self.0 as usize
    }
}

/// Index type of a signature (imported or defined) inside the WebAssembly module.
#[derive(Copy, Clone, PartialEq, Eq, Hash, PartialOrd, Ord, Debug)]
pub struct SignatureIndex(u32);

impl SignatureIndex {
    /// The index as a number.
    pub closed spec fn spec_index(&self) -> nat {
        self.0 as nat
    }

    /// Create a new entity reference from its number.
    pub fn new(index: usize) -> (r: Self)
        requires
            index < 0xffff_ffff,
        ensures
            r.spec_index() == index,
    {
        SignatureIndex(index as u32)
    }

    /// Get the index that was used to create this entity reference.
    pub fn index(self) -> (r: usize)
        ensures
            r == self.spec_index(),
    {
        self.0 as usize
    }
}

/// Globals are initialized via the four `const` operators or by referring to another import.
#[derive(Debug, Clone, Copy)]
pub enum GlobalInit {
    /// An `i32.const`.
    I32Const(i32),
    /// An `i64.const`.
    I64Const(i64),
    /// A 32-bit floating point `const`, by its bits.
    Ieee32Const(u32),
    /// A 64-bit floating point `const`, by its bits.
    Ieee64Const(u64),
    /// A `get_global` of another global.
    GetGlobal(GlobalIndex),
    ///< The global is imported from, and thus initialized by, a different module.
    Import,
}

/// WebAssembly global.
#[derive(Debug, Clone, Copy)]
pub struct Global {
    /// The type of the value stored in the global.
    pub ty: ir::ValueType,
    /// A flag indicating whether the value may change at runtime.
    pub mutability: bool,
    /// The source of the initial value.
    pub initializer: GlobalInit,
}

/// WebAssembly table element. Can be a function or a scalar type.
#[derive(Debug, Clone, Copy)]
pub enum TableElementType {
    /// A scalar type.
    Val(ir::ValueType),
    /// A function.
    Func,
}

/// WebAssembly table.
#[derive(Debug, Clone, Copy)]
pub struct Table {
    /// The type of data stored in elements of the table.
    pub ty: TableElementType,
    /// The minimum number of elements in the table.
    pub minimum: u32,
    /// The maximum number of elements in the table.
    pub maximum: Option<u32>,
}

/// WebAssembly linear memory.
#[derive(Debug, Clone, Copy)]
pub struct Memory {
    /// The minimum number of pages in the memory.
    pub minimum: u32,
    /// The maximum number of pages in the memory.
    pub maximum: Option<u32>,
    /// Whether the memory may be shared between multiple threads.
    pub shared: bool,
}

/// An error while translating WebAssembly.
#[derive(Debug, PartialEq, Eq)]
pub enum WasmError {
    /// The input WebAssembly code is invalid.
    InvalidWebAssembly {
        /// A string describing the validation error.
        message: &'static str,
        /// The bytecode offset where the error occurred.
        offset: usize,
    },
    /// A feature used by the WebAssembly code is not supported by the embedding environment.
    Unsupported(&'static str),
    /// An implementation limit was exceeded.
    ImplLimitExceeded,
}

/// A convenient alias for a `Result` that uses `WasmError` as the error type.
pub type WasmResult<T> = Result<T, WasmError>;

/// The kinds of WebAssembly types the parser reports, one for each of its variants.
#[derive(Debug, Copy, Clone, PartialEq, Eq, Structural)]
pub enum WasmType {
    /// `i32`.
    I32,
    /// `i64`.
    I64,
    /// 32-bit floating point.
    Float32,
    /// 64-bit floating point.
    Float64,
    /// 128-bit vector.
    V128,
    /// `anyfunc`.
    AnyFunc,
    /// `anyref`.
    AnyRef,
    /// A function type form.
    Func,
    /// The empty block type.
    EmptyBlockType,
    /// The null reference type.
    Null,
}

/// A block type: a value type, or a function type by its index.
#[derive(Debug, Copy, Clone, PartialEq, Eq, Structural)]
pub enum BlockType {
    /// A value type.
    Value(WasmType),
    /// A function type, by index into the types section.
    FuncType(u32),
}

/// The type a WebAssembly value type translates to.
pub open spec fn spec_value_type(ty: WasmType) -> Option<ir::ValueType> {
    match ty {
        WasmType::I32 => Some(ir::ValueType(I32)),
        WasmType::I64 => Some(ir::ValueType(I64)),
        WasmType::Float32 => Some(ir::ValueType(FLOAT32)),
        WasmType::Float64 => Some(ir::ValueType(FLOAT64)),
        _ => None,
    }
}

/// Translating wasm value types to types when possible.
pub fn wasm_type_to_type(ty: WasmType) -> (r: WasmResult<ir::ValueType>)
    ensures
        match spec_value_type(ty) {
            Some(t) => r == Ok::<ir::ValueType, WasmError>(t),
            None => r == Err::<ir::ValueType, WasmError>(WasmError::Unsupported("unsupported wasm type")),
        },
{
    match ty {
        WasmType::I32 => Ok(ir::ValueType(I32)),
        WasmType::I64 => Ok(ir::ValueType(I64)),
        WasmType::Float32 => Ok(ir::ValueType(FLOAT32)),
        WasmType::Float64 => Ok(ir::ValueType(FLOAT64)),
        _ => Err(WasmError::Unsupported("unsupported wasm type")),
    }
}

/// Translating possible table types to types when possible, or None for Func tables.
pub fn wasm_tabletype_to_type(ty: WasmType) -> (r: WasmResult<Option<ir::ValueType>>)
    ensures
        match spec_value_type(ty) {
            Some(t) => r == Ok::<Option<ir::ValueType>, WasmError>(Some(t)),
            None => if ty == WasmType::AnyFunc {
                r == Ok::<Option<ir::ValueType>, WasmError>(None)
            } else {
                r == Err::<Option<ir::ValueType>, WasmError>(
                    WasmError::Unsupported("unsupported table wasm type"),
                )
            },
        },
{
    match ty {
        WasmType::I32 => Ok(Some(ir::ValueType(I32))),
        WasmType::I64 => Ok(Some(ir::ValueType(I64))),
        WasmType::Float32 => Ok(Some(ir::ValueType(FLOAT32))),
        WasmType::Float64 => Ok(Some(ir::ValueType(FLOAT64))),
        WasmType::AnyFunc => Ok(None),
        _ => Err(WasmError::Unsupported("unsupported table wasm type")),
    }
}

/// Translating block signatures to types when possible.
pub fn wasm_blocktype_to_type(ty: BlockType) -> (r: WasmResult<ir::ValueType>)
    ensures
        match ty {
            BlockType::Value(t) => match spec_value_type(t) {
                Some(v) => r == Ok::<ir::ValueType, WasmError>(v),
                None => r == Err::<ir::ValueType, WasmError>(WasmError::Unsupported("unsupported wasm type")),
            },
            BlockType::FuncType(_) => r == Err::<ir::ValueType, WasmError>(
                WasmError::Unsupported("multi-value block signatures"),
            ),
        },
{
    match ty {
        BlockType::Value(ty) => wasm_type_to_type(ty),
        BlockType::FuncType(_) => Err(WasmError::Unsupported("multi-value block signatures")),
    }
}

/// The number of values a block of this type returns, when possible.
pub fn wasm_num_return_values(ty: BlockType) -> (r: WasmResult<usize>)
    ensures
        match ty {
            BlockType::Value(t) => if t == WasmType::EmptyBlockType {
                r == Ok::<usize, WasmError>(0)
            } else if spec_value_type(t) is Some {
                r == Ok::<usize, WasmError>(1)
            } else {
                r == Err::<usize, WasmError>(WasmError::Unsupported("unsupported return value type"))
            },
            BlockType::FuncType(_) => r == Err::<usize, WasmError>(
                WasmError::Unsupported("multi-value block signatures"),
            ),
        },
{
    match ty {
        BlockType::Value(ty) => match ty {
            WasmType::EmptyBlockType => Ok(0),
            WasmType::I32 | WasmType::Float32 | WasmType::I64 | WasmType::Float64 => Ok(1),
            _ => Err(WasmError::Unsupported("unsupported return value type")),
        },
        BlockType::FuncType(_) => Err(WasmError::Unsupported("multi-value block signatures")),
    }
}

/// The parser's value types, carried through opaquely.
#[verifier::external_type_specification]
#[verifier::external_body]
pub struct ExParserType(wasmparser::Type);

/// The parser's block types, carried through opaquely.
#[verifier::external_type_specification]
#[verifier::external_body]
pub struct ExParserTypeOrFuncType(wasmparser::TypeOrFuncType);

/// The parser's 32-bit floating point immediates, carried through opaquely.
#[verifier::external_type_specification]
#[verifier::external_body]
pub struct ExParserIeee32(wasmparser::Ieee32);

/// The parser's 64-bit floating point immediates, carried through opaquely.
#[verifier::external_type_specification]
#[verifier::external_body]
pub struct ExParserIeee64(wasmparser::Ieee64);

/// Which variant of `wasmparser::Type` a value is.
pub uninterp spec fn parser_type_kind(ty: wasmparser::Type) -> WasmType;

/// Which variant of `wasmparser::TypeOrFuncType` a value is, with its contents.
pub uninterp spec fn parser_block_type(ty: wasmparser::TypeOrFuncType) -> BlockType;

/// The bits of a `wasmparser::Ieee32`.
pub uninterp spec fn parser_ieee32_bits(x: wasmparser::Ieee32) -> u32;

/// The bits of a `wasmparser::Ieee64`.
pub uninterp spec fn parser_ieee64_bits(x: wasmparser::Ieee64) -> u64;

/// Tells the variants of `wasmparser::Type` apart: each variant maps to the `WasmType` variant of
/// the same meaning. The contract names the result; it states nothing more of it.
#[verifier::external_body]
fn parser_type(ty: wasmparser::Type) -> (r: WasmType)
    ensures
        r == parser_type_kind(ty),
{
    match ty {
        wasmparser::Type::I32 => WasmType::I32,
        wasmparser::Type::I64 => WasmType::I64,
        wasmparser::Type::F32 => WasmType::Float32,
        wasmparser::Type::F64 => WasmType::Float64,
        wasmparser::Type::V128 => WasmType::V128,
        wasmparser::Type::AnyFunc => WasmType::AnyFunc,
        wasmparser::Type::AnyRef => WasmType::AnyRef,
        wasmparser::Type::Func => WasmType::Func,
        wasmparser::Type::EmptyBlockType => WasmType::EmptyBlockType,
        wasmparser::Type::Null => WasmType::Null,
    }
}

/// Tells the variants of `wasmparser::TypeOrFuncType` apart, moving the value type (through
/// `parser_type`) or the function type index. The contract names the result.
#[verifier::external_body]
fn parser_block(ty: wasmparser::TypeOrFuncType) -> (r: BlockType)
    ensures
        r == parser_block_type(ty),
{
    match ty {
        wasmparser::TypeOrFuncType::Type(t) => BlockType::Value(parser_type(t)),
        wasmparser::TypeOrFuncType::FuncType(i) => BlockType::FuncType(i),
    }
}

/// `wasmparser::Ieee32::bits`: the bits of the immediate.
#[verifier::external_body]
fn parser_f32_bits(x: wasmparser::Ieee32) -> (r: u32)
    ensures
        r == parser_ieee32_bits(x),
{
    x.bits()
}

/// `wasmparser::Ieee64::bits`: the bits of the immediate.
#[verifier::external_body]
fn parser_f64_bits(x: wasmparser::Ieee64) -> (r: u64)
    ensures
        r == parser_ieee64_bits(x),
{
    x.bits()
}

/// Helper function translating wasmparser types to types when possible.
pub fn type_to_type(ty: wasmparser::Type) -> (r: WasmResult<ir::ValueType>)
    ensures
        match spec_value_type(parser_type_kind(ty)) {
            Some(t) => r == Ok::<ir::ValueType, WasmError>(t),
            None => r == Err::<ir::ValueType, WasmError>(WasmError::Unsupported("unsupported wasm type")),
        },
{
    wasm_type_to_type(parser_type(ty))
}

/// Helper function translating wasmparser possible table types to types when possible,
/// or None for Func tables.
pub fn tabletype_to_type(ty: wasmparser::Type) -> (r: WasmResult<Option<ir::ValueType>>)
    ensures
        match spec_value_type(parser_type_kind(ty)) {
            Some(t) => r == Ok::<Option<ir::ValueType>, WasmError>(Some(t)),
            None => if parser_type_kind(ty) == WasmType::AnyFunc {
                r == Ok::<Option<ir::ValueType>, WasmError>(None)
            } else {
                r == Err::<Option<ir::ValueType>, WasmError>(
                    WasmError::Unsupported("unsupported table wasm type"),
                )
            },
        },
{
    wasm_tabletype_to_type(parser_type(ty))
}

/// Helper function translating wasmparser block signatures to types when possible.
pub fn blocktype_to_type(ty: wasmparser::TypeOrFuncType) -> (r: WasmResult<ir::ValueType>)
    ensures
        match parser_block_type(ty) {
            BlockType::Value(t) => match spec_value_type(t) {
                Some(v) => r == Ok::<ir::ValueType, WasmError>(v),
                None => r == Err::<ir::ValueType, WasmError>(WasmError::Unsupported("unsupported wasm type")),
            },
            BlockType::FuncType(_) => r == Err::<ir::ValueType, WasmError>(
                WasmError::Unsupported("multi-value block signatures"),
            ),
        },
{
    wasm_blocktype_to_type(parser_block(ty))
}

/// Turns a `wasmparser` `f32` into an immediate of the same bits.
pub fn f32_translation(x: wasmparser::Ieee32) -> (r: ir::IeeeSingle)
    ensures
        r.spec_bits() == parser_ieee32_bits(x),
{
    ir::IeeeSingle::with_bits(parser_f32_bits(x))
}

/// Turns a `wasmparser` `f64` into an immediate of the same bits.
pub fn f64_translation(x: wasmparser::Ieee64) -> (r: ir::IeeeDouble)
    ensures
        r.spec_bits() == parser_ieee64_bits(x),
{
    ir::IeeeDouble::with_bits(parser_f64_bits(x))
}

/// Translate a `wasmparser` type into its equivalent, when possible
pub fn num_return_values(ty: wasmparser::TypeOrFuncType) -> (r: WasmResult<usize>)
    ensures
        match parser_block_type(ty) {
            BlockType::Value(t) => if t == WasmType::EmptyBlockType {
                r == Ok::<usize, WasmError>(0)
            } else if spec_value_type(t) is Some {
                r == Ok::<usize, WasmError>(1)
            } else {
                r == Err::<usize, WasmError>(WasmError::Unsupported("unsupported return value type"))
            },
            BlockType::FuncType(_) => r == Err::<usize, WasmError>(
                WasmError::Unsupported("multi-value block signatures"),
            ),
        },
{
    wasm_num_return_values(parser_block(ty))
}

/// The value label number reserved for the VM context.
pub open spec fn vmctx_label() -> u32 {
    0xffff_fffe
}

/// Special VMContext value label. It is tracked as 0xffff_fffe label.
pub fn get_vmctx_value_label() -> (r: ValueLabel)
    ensures
        r.spec_as_u32() == vmctx_label(),
{
    let vmctx_label: u32 = 0xffff_fffe;
    ValueLabel::from_u32(vmctx_label)
}

} // verus!
