//! Typed access to the values of the `shared` settings group.

use vstd::prelude::*;
use crate::settings::{
    bit_of, enums_in_range, toml_value, Builder, Detail, PredicateView, Template,
};
use crate::shared_flags::{is_shared_template, lemma_shared_template_wf, shared_template};
use crate::text::str_eq;

verus! {

/// Create a `settings::Builder` for the shared settings group.
pub fn builder() -> (b: Builder)
    ensures
        b.wf(),
        is_shared_template(b.spec_template()),
        b.spec_bytes() == b.spec_template().defaults@,
{
    let t = shared_template();
    proof {
        lemma_shared_template_wf(t);
        assert(enums_in_range(t, t.defaults@));
    }
    Builder::new(t)
}

/// Values for `shared.opt_level`.
#[derive(Debug, Copy, Clone, PartialEq, Eq, Hash, Structural)]
pub enum OptLevel {
    /// `default`.
    Default,
    /// `best`.
    Best,
    /// `fastest`.
    Fastest,
}

/// The enumerator index of an optimization level in the `shared` template.
pub open spec fn opt_level_index(l: OptLevel) -> u8 {
    match l {
        OptLevel::Default => 0,
        OptLevel::Best => 1,
        OptLevel::Fastest => 2,
    }
}

/// The name of an optimization level.
pub open spec fn opt_level_name(l: OptLevel) -> Seq<char> {
    match l {
        OptLevel::Default => "default"@,
        OptLevel::Best => "best"@,
        OptLevel::Fastest => "fastest"@,
    }
}

/// The optimization level named by a string, if any.
pub open spec fn opt_level_named(s: Seq<char>) -> Option<OptLevel> {
    if s == "default"@ {
        Some(OptLevel::Default)
    } else if s == "best"@ {
        Some(OptLevel::Best)
    } else if s == "fastest"@ {
        Some(OptLevel::Fastest)
    } else {
        None
    }
}

impl OptLevel {
    /// The name of the level, as `Display` prints it.
    pub fn to_string(&self) -> (s: String)
        ensures
            s@ == opt_level_name(*self),
    {
        match *self {
            OptLevel::Default => "default".to_owned(),
            OptLevel::Best => "best".to_owned(),
            OptLevel::Fastest => "fastest".to_owned(),
        }
    }

    /// Parse a level from its name.
    pub fn from_str(s: &str) -> (r: Result<Self, ()>)
        ensures
            match r {
                Ok(l) => opt_level_named(s@) == Some(l),
                Err(()) => opt_level_named(s@) is None,
            },
    {
        if str_eq(s, "default") {
            Ok(OptLevel::Default)
        } else if str_eq(s, "best") {
            Ok(OptLevel::Best)
        } else if str_eq(s, "fastest") {
            Ok(OptLevel::Fastest)
        } else {
            Err(())
        }
    }
}

/// Flags group `shared`.
pub struct Flags {
    bytes: [u8; 5],
}

impl Clone for Flags {
    fn clone(&self) -> (r: Self)
        ensures
            r@ == self@,
    {
        Flags { bytes: self.bytes }
    }
}

impl View for Flags {
    type V = Seq<u8>;

    closed spec fn view(&self) -> Seq<u8> {
        self.bytes@
    }
}

/// The text `Display` gives the settings of template `t` with values `bytes`: one line per
/// setting that is not a preset, in descriptor order.
pub open spec fn setting_lines(t: Template, bytes: Seq<u8>, n: nat) -> Seq<char>
    decreases n,
{
    if n == 0 {
        Seq::empty()
    } else {
        let d = t.descriptors@[n - 1];
        setting_lines(t, bytes, (n - 1) as nat) + if d.detail is Preset {
            Seq::empty()
        } else {
            d.name@ + " = "@ + toml_value(t, d.detail, bytes[d.offset as int]) + "\n"@
        }
    }
}

proof fn lemma_setting_lines_same(t1: Template, t2: Template, bytes: Seq<u8>, n: nat)
    requires
        is_shared_template(t1),
        is_shared_template(t2),
        n <= 15,
    ensures
        setting_lines(t1, bytes, n) == setting_lines(t2, bytes, n),
    decreases n,
{
    if n > 0 {
        lemma_setting_lines_same(t1, t2, bytes, (n - 1) as nat);
        let i = n - 1;
        assert(t1.setting_name(i) == t2.setting_name(i));
        assert(t1.spec_enums(2, 0) =~= t2.spec_enums(2, 0));
    }
}

impl Flags {
    /// Create flags shared settings group.
    pub fn new(builder: Builder) -> (f: Self)
        requires
            builder.spec_template().name@ == "shared"@,
            builder.spec_bytes().len() == 5,
        ensures
            f@ == builder.spec_bytes(),
    {
        let bvec = builder.state_for("shared");
        let shared = Self { bytes: [bvec[0], bvec[1], bvec[2], bvec[3], bvec[4]] };
        assert(shared.bytes@ =~= bvec@);
        shared
    }

    /// Get a view of the boolean predicates.
    pub fn predicate_view(&self) -> (r: PredicateView<'_>)
        ensures
            r.bits() == self@.subrange(3, 5),
    {
        let bits = vstd::slice::slice_subrange(vstd::array::array_as_slice(&self.bytes), 3, 5);
        PredicateView::new(bits)
    }

    /// Dynamic numbered predicate getter.
    fn numbered_predicate(&self, p: usize) -> (r: bool)
        requires
            p < 16,
        ensures
            r == bit_of(self@[3 + p / 8], (p % 8) as u8),
    {
        self.bytes[3 + p / 8] & (1u8 << ((p % 8) as u8)) != 0
    }

    /// Optimization level:
    ///
    /// - default: Very profitable optimizations enabled, none slow.
    /// - best: Enable all optimizations
    /// - fastest: Optimize for compile time by disabling most optimizations.
    pub fn opt_level(&self) -> (r: OptLevel)
        requires
            self@[0] <= 2,
        ensures
            opt_level_index(r) == self@[0],
    {
        match self.bytes[0] {
            1 => OptLevel::Best,
            0 => OptLevel::Default,
            _ => OptLevel::Fastest,
        }
    }

    /// Number of pointer-sized words pushed by the baldrdash prologue.
    pub fn baldrdash_prologue_words(&self) -> (r: u8)
        ensures
            r == self@[1],
    {
        self.bytes[1]
    }

    /// The log2 of the size of the stack guard region.
    pub fn probestack_size_log2(&self) -> (r: u8)
        ensures
            r == self@[2],
    {
        self.bytes[2]
    }

    /// Run the Cranelift IR verifier at strategic times during compilation.
    pub fn enable_verifier(&self) -> (r: bool)
        ensures
            r == bit_of(self@[3], 0u8),
    {
        self.numbered_predicate(0)
    }
    /// Enable Position-Independent Code generation
    pub fn is_pic(&self) -> (r: bool)
        ensures
            r == bit_of(self@[3], 1u8),
    {
        self.numbered_predicate(1)
    }
    /// Use colocated libcalls.
    pub fn colocated_libcalls(&self) -> (r: bool)
        ensures
            r == bit_of(self@[3], 2u8),
    {
        self.numbered_predicate(2)
    }
    /// Generate explicit checks around native division instructions to avoid
    /// their trapping.
    pub fn avoid_div_traps(&self) -> (r: bool)
        ensures
            r == bit_of(self@[3], 3u8),
    {
        self.numbered_predicate(3)
    }
    /// Enable the use of floating-point instructions
    pub fn enable_float(&self) -> (r: bool)
        ensures
            r == bit_of(self@[3], 4u8),
    {
        self.numbered_predicate(4)
    }
    /// Enable NaN canonicalization
    pub fn enable_nan_canonicalization(&self) -> (r: bool)
        ensures
            r == bit_of(self@[3], 5u8),
    {
        self.numbered_predicate(5)
    }
    /// Enable the use of SIMD instructions.
    pub fn enable_simd(&self) -> (r: bool)
        ensures
            r == bit_of(self@[3], 6u8),
    {
        self.numbered_predicate(6)
    }
    /// Enable the use of atomic instructions
    pub fn enable_atomics(&self) -> (r: bool)
        ensures
            r == bit_of(self@[3], 7u8),
    {
        self.numbered_predicate(7)
    }
    /// Emit not-yet-relocated function addresses as all-ones bit patterns.
    pub fn allones_funcaddrs(&self) -> (r: bool)
        ensures
            r == bit_of(self@[4], 0u8),
    {
        self.numbered_predicate(8)
    }
    /// Enable the use of stack probes, for calling conventions which support this
    /// functionality.
    pub fn probestack_enabled(&self) -> (r: bool)
        ensures
            r == bit_of(self@[4], 1u8),
    {
        self.numbered_predicate(9)
    }
    /// Set this to true of the stack probe function modifies the stack pointer
    /// itself.
    pub fn probestack_func_adjusts_sp(&self) -> (r: bool)
        ensures
            r == bit_of(self@[4], 2u8),
    {
        self.numbered_predicate(10)
    }
    /// Enable the use of jump tables in generated machine code.
    pub fn jump_tables_enabled(&self) -> (r: bool)
        ensures
            r == bit_of(self@[4], 3u8),
    {
        self.numbered_predicate(11)
    }
    /// The settings in TOML form, as `Display` prints them.
    pub fn to_string(&self) -> (s: String)
        ensures
            forall|t: Template|
                is_shared_template(t) ==> s@ == "[shared]\n"@ + setting_lines(t, self@, 15),
    {
        let t = shared_template();
        proof {
            lemma_shared_template_wf(t);
        }
        let mut s = "[shared]\n".to_owned();
        let n = t.descriptors.len();
        let mut i: usize = 0;
        while i < n
            invariant
                t.wf(),
                t.defaults@.len() == 5,
                n == t.descriptors@.len(),
                i <= n,
                s@ == "[shared]\n"@ + setting_lines(t, self@, i as nat),
            decreases n - i,
        {
            let d = &t.descriptors[i];
            proof {
                assert(t.descriptor_wf(i as int));
            }
            if !d.detail.is_preset() {
                s.append(d.name);
                s.append(" = ");
                t.format_toml_value(d.detail, self.bytes[d.offset as usize], &mut s);
                s.append("\n");
            }
            proof {
                assert(s@ =~= "[shared]\n"@ + setting_lines(t, self@, (i + 1) as nat));
            }
            i = i + 1;
        }
        proof {
            assert forall|t2: Template| is_shared_template(t2) implies s@ == "[shared]\n"@
                + setting_lines(t2, self@, 15) by {
                lemma_setting_lines_same(t, t2, self@, 15);
            }
        }
        s
    }
}

} // verus!

verus! {

/// Wrapper containing the flags that a pass reads.
///
/// A few passes need to access the flags but only optionally a target ISA. The `FlagsOrIsa`
/// wrapper is how such a pass receives the flags, so they are always accessible.
#[derive(Clone, Copy)]
pub struct FlagsOrIsa<'a> {
    /// Flags are always present.
    pub flags: &'a Flags,
}

impl<'a> From<&'a Flags> for FlagsOrIsa<'a> {
    fn from(flags: &'a Flags) -> (r: FlagsOrIsa<'a>) {
        FlagsOrIsa { flags }
    }
}

impl<'a> vstd::std_specs::convert::FromSpecImpl<&'a Flags> for FlagsOrIsa<'a> {
    open spec fn obeys_from_spec() -> bool {
        true
    }

    open spec fn from_spec(v: &'a Flags) -> FlagsOrIsa<'a> {
        FlagsOrIsa { flags: v }
    }
}

} // verus!
