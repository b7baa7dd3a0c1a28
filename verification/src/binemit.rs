//! Binary machine code emission: a sink that collects emitted bytes, relocations and traps.

use vstd::prelude::*;
use crate::ir::TrapCode;

verus! {

/// Offset in bytes from the beginning of the function.
pub type CodeOffset = u32;

/// Addend to add to the symbol value.
pub type Addend = i64;

/// Relocation kinds for every ISA.
#[derive(Copy, Clone, Debug, PartialEq, Eq, Structural)]
pub enum Reloc {
    /// absolute 4-byte
    Abs4,
    /// absolute 8-byte
    Abs8,
    /// x86 PC-relative 4-byte
    X86PCRel4,
    /// x86 PC-relative 4-byte offset to trailing rodata
    X86PCRelRodata4,
    /// x86 call to PC-relative 4-byte
    X86CallPCRel4,
    /// x86 call to PLT-relative 4-byte
    X86CallPLTRel4,
    /// x86 GOT PC-relative 4-byte
    X86GOTPCRel4,
    /// Arm32 call target
    Arm32Call,
    /// Arm64 call target
    Arm64Call,
    /// RISC-V call target
    RiscvCall,
}

/// What a relocation refers to.
#[derive(Copy, Clone, Debug, PartialEq, Eq, Structural)]
pub enum RelocTarget {
    /// An external symbol, by index.
    External(u32),
    /// A jump table, by index.
    JumpTable(u32),
    /// A constant, by its offset in the constant pool.
    Constant(u32),
}

/// A relocation recorded by the sink: where it applies, its kind, what it refers to and the
/// addend.
#[derive(Copy, Clone, Debug, PartialEq, Eq, Structural)]
pub struct Relocation {
    /// Offset of the relocated bytes.
    pub offset: CodeOffset,
    /// Kind of relocation.
    pub kind: Reloc,
    /// The target of the relocation.
    pub target: RelocTarget,
    /// Addend.
    pub addend: Addend,
}

/// A trap recorded by the sink: the offset of the trapping instruction, why it traps, and its
/// source location.
#[derive(Copy, Clone, Debug, PartialEq, Eq, Structural)]
pub struct TrapSite {
    /// Offset of the trapping instruction.
    pub offset: CodeOffset,
    /// The reason for the trap.
    pub code: TrapCode,
    /// The source location of the trapping instruction.
    pub srcloc: u32,
}

/// A code sink that collects the emitted bytes, relocations and trap sites in memory.
pub struct CodeSink {
    bytes: Vec<u8>,
    relocs: Vec<Relocation>,
    traps: Vec<TrapSite>,
    stackmaps: Vec<CodeOffset>,
}

/// The four bytes of a 32-bit word, least significant first.
pub open spec fn le_bytes4(x: u32) -> Seq<u8> {
    seq![
        (x & 0xff) as u8,
        ((x >> 8u32) & 0xff) as u8,
        ((x >> 16u32) & 0xff) as u8,
        ((x >> 24u32) & 0xff) as u8,
    ]
}

/// The eight bytes of a 64-bit word, least significant first.
pub open spec fn le_bytes8(x: u64) -> Seq<u8> {
    le_bytes4((x & 0xffff_ffff) as u32) + le_bytes4((x >> 32u64) as u32)
}

/// The two bytes of a 16-bit word, least significant first.
pub open spec fn le_bytes2(x: u16) -> Seq<u8> {
    seq![(x & 0xff) as u8, ((x >> 8u16) & 0xff) as u8]
}

/// The most bytes a sink holds: offsets must fit in a `CodeOffset`.
pub open spec fn sink_capacity() -> nat {
    0xffff_fff0
}

/// The contents of a sink: its bytes, relocations, trap sites and the offsets of its stack maps.
pub type SinkContents = (Seq<u8>, Seq<Relocation>, Seq<TrapSite>, Seq<CodeOffset>);

/// The sink contents after appending `b` to the bytes.
pub open spec fn with_bytes(s: SinkContents, b: Seq<u8>) -> SinkContents {
    (s.0 + b, s.1, s.2, s.3)
}

/// The sink contents after recording a relocation at the current offset.
pub open spec fn with_reloc(s: SinkContents, kind: Reloc, target: RelocTarget, addend: Addend) -> SinkContents {
    (
        s.0,
        s.1.push(Relocation { offset: s.0.len() as u32, kind, target, addend }),
        s.2,
        s.3,
    )
}

/// The sink contents after recording a trap at the current offset.
pub open spec fn with_trap(s: SinkContents, code: TrapCode, srcloc: u32) -> SinkContents {
    (s.0, s.1, s.2.push(TrapSite { offset: s.0.len() as u32, code, srcloc }), s.3)
}

/// The sink contents after recording a stack map at the current offset.
pub open spec fn with_stackmap(s: SinkContents) -> SinkContents {
    (s.0, s.1, s.2, s.3.push(s.0.len() as u32))
}

/// `a` is a prefix of `b`.
pub open spec fn seq_prefix<A>(a: Seq<A>, b: Seq<A>) -> bool {
    a.len() <= b.len() && forall|i: int| 0 <= i < a.len() ==> #[trigger] b[i] == a[i]
}

/// The sink contents `b` extend `a`: the bytes, relocations, traps and stack maps of `a` are
/// prefixes of those of `b`.
pub open spec fn extends(a: SinkContents, b: SinkContents) -> bool {
    seq_prefix(a.0, b.0) && seq_prefix(a.1, b.1) && seq_prefix(a.2, b.2) && seq_prefix(a.3, b.3)
}

impl View for CodeSink {
    type V = SinkContents;

    open spec fn view(&self) -> SinkContents {
        (self.bytes(), self.relocs(), self.traps(), self.stackmaps())
    }
}

impl CodeSink {
    /// The bytes emitted so far.
    pub closed spec fn bytes(&self) -> Seq<u8> {
        self.bytes@
    }

    /// The relocations recorded so far.
    pub closed spec fn relocs(&self) -> Seq<Relocation> {
        self.relocs@
    }

    /// The trap sites recorded so far.
    pub closed spec fn traps(&self) -> Seq<TrapSite> {
        self.traps@
    }

    /// The offsets of the stack maps recorded so far.
    pub closed spec fn stackmaps(&self) -> Seq<CodeOffset> {
        self.stackmaps@
    }

    /// An empty sink.
    pub fn new() -> (s: Self)
        ensures
            s.bytes() == Seq::<u8>::empty(),
            s.relocs() == Seq::<Relocation>::empty(),
            s.traps() == Seq::<TrapSite>::empty(),
            s.stackmaps() == Seq::<CodeOffset>::empty(),
    {
        CodeSink { bytes: Vec::new(), relocs: Vec::new(), traps: Vec::new(), stackmaps: Vec::new() }
    }

    /// The emitted bytes.
    pub fn as_bytes(&self) -> (r: &[u8])
        ensures
            r@ == self.bytes(),
    {
        self.bytes.as_slice()
    }

    /// The recorded relocations.
    pub fn relocations(&self) -> (r: &[Relocation])
        ensures
            r@ == self.relocs(),
    {
        self.relocs.as_slice()
    }

    /// The recorded trap sites.
    pub fn trap_sites(&self) -> (r: &[TrapSite])
        ensures
            r@ == self.traps(),
    {
        self.traps.as_slice()
    }

    /// The offsets at which stack maps were recorded.
    pub fn stackmap_offsets(&self) -> (r: &[CodeOffset])
        ensures
            r@ == self.stackmaps(),
    {
        self.stackmaps.as_slice()
    }

    /// Get the current position.
    pub fn offset(&self) -> (r: CodeOffset)
        requires
            self.bytes().len() <= sink_capacity(),
        ensures
            r == self.bytes().len(),
    {
        self.bytes.len() as CodeOffset
    }

    /// Add 1 byte to the code section.
    pub fn put1(&mut self, x: u8)
        ensures
            final(self).bytes() == old(self).bytes().push(x),
            final(self).relocs() == old(self).relocs(),
            final(self)@ == with_bytes(old(self)@, seq![x]),
    {
        self.bytes.push(x);
        assert(self.bytes@ =~= old(self).bytes@ + seq![x]);
    }

    /// Add 2 bytes to the code section.
    pub fn put2(&mut self, x: u16)
        ensures
            final(self).bytes() == old(self).bytes() + le_bytes2(x),
            final(self).relocs() == old(self).relocs(),
            final(self)@ == with_bytes(old(self)@, le_bytes2(x)),
    {
        self.bytes.push((x & 0xff) as u8);
        self.bytes.push(((x >> 8u16) & 0xff) as u8);
        assert(self.bytes@ =~= old(self).bytes@ + le_bytes2(x));
    }

    /// Add 4 bytes to the code section.
    pub fn put4(&mut self, x: u32)
        ensures
            final(self).bytes() == old(self).bytes() + le_bytes4(x),
            final(self).relocs() == old(self).relocs(),
            final(self)@ == with_bytes(old(self)@, le_bytes4(x)),
    {
        self.bytes.push((x & 0xff) as u8);
        self.bytes.push(((x >> 8u32) & 0xff) as u8);
        self.bytes.push(((x >> 16u32) & 0xff) as u8);
        self.bytes.push(((x >> 24u32) & 0xff) as u8);
        assert(self.bytes@ =~= old(self).bytes@ + le_bytes4(x));
    }

    /// Add 8 bytes to the code section.
    pub fn put8(&mut self, x: u64)
        ensures
            final(self).bytes() == old(self).bytes() + le_bytes8(x),
            final(self).relocs() == old(self).relocs(),
            final(self)@ == with_bytes(old(self)@, le_bytes8(x)),
    {
        self.put4((x & 0xffff_ffff) as u32);
        self.put4((x >> 32u64) as u32);
        assert(self.bytes@ =~= old(self).bytes@ + le_bytes8(x));
    }

    /// Add a relocation referencing an external symbol at the current offset.
    pub fn reloc_external(&mut self, kind: Reloc, name: u32, addend: Addend)
        requires
            old(self).bytes().len() <= sink_capacity(),
        ensures
            final(self).bytes() == old(self).bytes(),
            final(self).relocs() == old(self).relocs().push(
                (Relocation {
                    offset: old(self).bytes().len() as u32,
                    kind,
                    target: RelocTarget::External(name),
                    addend,
                }),
            ),
            final(self)@ == with_reloc(old(self)@, kind, RelocTarget::External(name), addend),
    {
        let offset = self.bytes.len() as CodeOffset;
        self.relocs.push(Relocation { offset, kind, target: RelocTarget::External(name), addend });
    }

    /// Add a relocation referencing a jump table.
    pub fn reloc_jt(&mut self, kind: Reloc, jt: u32)
        requires
            old(self).bytes().len() <= sink_capacity(),
        ensures
            final(self).bytes() == old(self).bytes(),
            final(self).relocs() == old(self).relocs().push(
                (Relocation {
                    offset: old(self).bytes().len() as u32,
                    kind,
                    target: RelocTarget::JumpTable(jt),
                    addend: 0,
                }),
            ),
            final(self)@ == with_reloc(old(self)@, kind, RelocTarget::JumpTable(jt), 0),
    {
        let offset = self.bytes.len() as CodeOffset;
        self.relocs.push(Relocation { offset, kind, target: RelocTarget::JumpTable(jt), addend: 0 });
    }

    /// Add a relocation referencing a constant.
    pub fn reloc_constant(&mut self, kind: Reloc, constant_offset: u32)
        requires
            old(self).bytes().len() <= sink_capacity(),
        ensures
            final(self).bytes() == old(self).bytes(),
            final(self).relocs() == old(self).relocs().push(
                (Relocation {
                    offset: old(self).bytes().len() as u32,
                    kind,
                    target: RelocTarget::Constant(constant_offset),
                    addend: 0,
                }),
            ),
            final(self)@ == with_reloc(old(self)@, kind, RelocTarget::Constant(constant_offset), 0),
    {
        let offset = self.bytes.len() as CodeOffset;
        self.relocs.push(
            Relocation { offset, kind, target: RelocTarget::Constant(constant_offset), addend: 0 },
        );
    }

    /// Record a stack map for the safepoint at the current offset. The map's contents, which the
    /// function's frame layout determines, are not kept: only the offset it applies at.
    pub fn add_stackmap(&mut self)
        requires
            old(self).bytes().len() <= sink_capacity(),
        ensures
            final(self)@ == with_stackmap(old(self)@),
    {
        let offset = self.bytes.len() as CodeOffset;
        self.stackmaps.push(offset);
    }

    /// Add trap information for the instruction at the current offset.
    pub fn trap(&mut self, code: TrapCode, srcloc: u32)
        requires
            old(self).bytes().len() <= sink_capacity(),
        ensures
            final(self)@ == with_trap(old(self)@, code, srcloc),
    {
        let offset = self.bytes.len() as CodeOffset;
        self.traps.push(TrapSite { offset, code, srcloc });
    }
}

/// Reading the four bytes back, least significant first, gives the word.
pub proof fn law_le_bytes4_round_trip(x: u32)
    ensures
        ({
            let b = le_bytes4(x);
            (b[0] as u32) | ((b[1] as u32) << 8u32) | ((b[2] as u32) << 16u32) | ((b[3] as u32)
                << 24u32) == x
        }),
{
    let b0 = (x & 0xff) as u8;
    let b1 = ((x >> 8u32) & 0xff) as u8;
    let b2 = ((x >> 16u32) & 0xff) as u8;
    let b3 = ((x >> 24u32) & 0xff) as u8;
    assert((b0 as u32) | ((b1 as u32) << 8u32) | ((b2 as u32) << 16u32) | ((b3 as u32) << 24u32)
        == x) by (bit_vector)
        requires
            b0 == (x & 0xff) as u8,
            b1 == ((x >> 8u32) & 0xff) as u8,
            b2 == ((x >> 16u32) & 0xff) as u8,
            b3 == ((x >> 24u32) & 0xff) as u8,
    ;
}

} // verus!
