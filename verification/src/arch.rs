//! CUDA architecture names such as `sm_90a` and `compute_120f`.

use vstd::prelude::*;
use vstd::slice::slice_subrange;

use crate::text::{begins_with, chars_of, decimal, decimal_value, parse_decimal, push_decimal,
    starts_with};
use crate::text::lemma_decimal_round_trip;

verus! {

/// A concrete CUDA target: a compute capability and an optional suffix, `a`
/// for an architecture-specific and `f` for a family-specific target.
#[derive(Debug, Clone, Copy, PartialEq, Eq, Structural)]
pub struct CudaArch {
    capability: u32,
    suffix: Option<char>,
}

/// A text that names no CUDA architecture.
#[derive(Debug, Clone, Copy, PartialEq, Eq, Structural)]
pub struct CudaArchError;

/// A suffix that an architecture name can carry.
pub open spec fn known_suffix(suffix: Option<char>) -> bool {
    suffix is None || suffix == Some('a') || suffix == Some('f')
}

/// What follows the `sm_` or `compute_` prefix.
pub open spec fn after_prefix(name: Seq<char>) -> Option<Seq<char>> {
    if begins_with(name, "sm_"@) {
        Some(name.skip("sm_"@.len() as int))
    } else if begins_with(name, "compute_"@) {
        Some(name.skip("compute_"@.len() as int))
    } else {
        None
    }
}

/// The capability and suffix that `name` spells: a prefix, the digits of a
/// 32-bit number, and `a`, `f` or nothing.
pub open spec fn named_arch(name: Seq<char>) -> Option<(u32, Option<char>)> {
    match after_prefix(name) {
        None => None,
        Some(rest) => {
            let suffixed = rest.len() > 0 && (rest.last() == 'a' || rest.last() == 'f');
            let digits = if suffixed {
                rest.drop_last()
            } else {
                rest
            };
            match decimal_value(digits) {
                Some(value) if value <= u32::MAX => Some(
                    (
                        value as u32,
                        if suffixed {
                            Some(rest.last())
                        } else {
                            None
                        },
                    ),
                ),
                _ => None,
            }
        },
    }
}

/// `prefix`, the numeral of `capability` and the suffix, if there is one.
pub open spec fn arch_name(prefix: Seq<char>, capability: u32, suffix: Option<char>) -> Seq<char> {
    match suffix {
        None => prefix + decimal(capability as nat),
        Some(c) => prefix + decimal(capability as nat) + seq![c],
    }
}

impl CudaArch {
    /// The suffix is one of the known ones.
    #[verifier::type_invariant]
    pub closed spec fn wf(self) -> bool {
        known_suffix(self.suffix)
    }

    /// The compute capability, such as 90.
    pub closed spec fn capability_number(self) -> u32 {
        self.capability
    }

    /// The suffix letter.
    pub closed spec fn suffix_letter(self) -> Option<char> {
        self.suffix
    }

    /// The name with the `sm_` prefix.
    pub open spec fn sm_name(self) -> Seq<char> {
        arch_name("sm_"@, self.capability_number(), self.suffix_letter())
    }

    /// The name with the `compute_` prefix.
    pub open spec fn compute_name(self) -> Seq<char> {
        arch_name("compute_"@, self.capability_number(), self.suffix_letter())
    }

    /// Reads an architecture name.
    pub fn parse(name: &str) -> (parsed: Result<CudaArch, CudaArchError>)
        ensures
            parsed is Ok <==> named_arch(name@) is Some,
            parsed matches Ok(arch) ==> arch.wf() && named_arch(name@) == Some(
                (arch.capability_number(), arch.suffix_letter()),
            ),
    {
        let chars = chars_of(name);
        let text = chars.as_slice();
        proof {
            reveal_strlit("sm_");
            reveal_strlit("compute_");
        }
        let start: usize = if starts_with(text, "sm_") {
            3
        } else if starts_with(text, "compute_") {
            8
        } else {
            return Err(CudaArchError);
        };
        let rest = slice_subrange(text, start, text.len());
        assert(rest@ =~= name@.skip(start as int));
        let suffixed = rest.len() > 0 && (rest[rest.len() - 1] == 'a' || rest[rest.len() - 1]
            == 'f');
        let suffix: Option<char> = if suffixed {
            Some(rest[rest.len() - 1])
        } else {
            None
        };
        let digits = if suffixed {
            slice_subrange(rest, 0, rest.len() - 1)
        } else {
            rest
        };
        assert(suffixed ==> digits@ =~= rest@.drop_last());
        match parse_decimal(digits) {
            Some(capability) => Ok(CudaArch { capability, suffix }),
            None => Err(CudaArchError),
        }
    }

    /// The compute capability, such as 90.
    pub fn capability(&self) -> (capability: u32)
        ensures
            capability == self.capability_number(),
    {
        self.capability
    }

    /// The suffix letter, `a` or `f`.
    pub fn suffix(&self) -> (suffix: Option<char>)
        ensures
            suffix == self.suffix_letter(),
            known_suffix(suffix),
    {
        proof {
            use_type_invariant(self);
        }
        self.suffix
    }

    fn spelled(&self, prefix: &str) -> (name: String)
        ensures
            name@ == arch_name(prefix@, self.capability_number(), self.suffix_letter()),
    {
        proof {
            use_type_invariant(self);
            reveal_strlit("a");
            reveal_strlit("f");
        }
        let mut name = String::new();
        name.append(prefix);
        push_decimal(&mut name, self.capability as u64);
        assert(name@ =~= prefix@ + decimal(self.capability as nat));
        match self.suffix {
            Some('a') => {
                name.append("a");
                assert("a"@ =~= seq!['a']);
            },
            Some('f') => {
                name.append("f");
                assert("f"@ =~= seq!['f']);
            },
            _ => {},
        }
        name
    }

    /// The name of the real architecture, such as `sm_90a`.
    pub fn sm(&self) -> (name: String)
        ensures
            name@ == self.sm_name(),
    {
        self.spelled("sm_")
    }

    /// The name of the virtual architecture, such as `compute_90a`.
    pub fn compute(&self) -> (name: String)
        ensures
            name@ == self.compute_name(),
    {
        self.spelled("compute_")
    }

    /// Does the target take the NVVM IR dialect of LLVM 7? Blackwell and newer
    /// targets take the modern one.
    pub fn uses_legacy_llvm(&self) -> (legacy: bool)
        ensures
            legacy == (self.capability_number() < 100),
    {
        self.capability < 100
    }
}

impl CudaArchError {
    /// What was expected.
    pub fn message(&self) -> (text: &'static str)
        ensures
            text@
                == "expected `sm_` or `compute_`, a compute capability and an optional `a` or `f`"@,
    {
        "expected `sm_` or `compute_`, a compute capability and an optional `a` or `f`"
    }
}

/// Both names of an architecture read back as that architecture.
pub proof fn arch_names_read_back(arch: CudaArch)
    requires
        arch.wf(),
    ensures
        named_arch(arch.sm_name()) == Some((arch.capability_number(), arch.suffix_letter())),
        named_arch(arch.compute_name()) == Some((arch.capability_number(), arch.suffix_letter())),
{
    reveal_strlit("sm_");
    reveal_strlit("compute_");
    lemma_name_reads_back("sm_"@, arch.capability_number(), arch.suffix_letter());
    lemma_name_reads_back("compute_"@, arch.capability_number(), arch.suffix_letter());
}

pub proof fn lemma_name_reads_back(prefix: Seq<char>, capability: u32, suffix: Option<char>)
    requires
        prefix == "sm_"@ || prefix == "compute_"@,
        known_suffix(suffix),
    ensures
        named_arch(arch_name(prefix, capability, suffix)) == Some((capability, suffix)),
{
    reveal_strlit("sm_");
    reveal_strlit("compute_");
    let numeral = decimal(capability as nat);
    let name = arch_name(prefix, capability, suffix);
    lemma_decimal_round_trip(capability as nat);
    assert(name.subrange(0, prefix.len() as int) =~= prefix);
    assert(begins_with(name, prefix));
    if prefix == "compute_"@ {
        assert(name.subrange(0, 3)[0] == 'c');
        assert(!begins_with(name, "sm_"@));
    }
    let rest = name.skip(prefix.len() as int);
    match suffix {
        None => {
            assert(rest =~= numeral);
        },
        Some(c) => {
            assert(rest =~= numeral.push(c));
            assert(rest.drop_last() =~= numeral);
        },
    }
}

/// An architecture name is a prefix, the digits of a 32-bit number, and a
/// suffix or none; nothing else is one, and the three parts say which
/// architecture it is.
pub proof fn names_are_prefix_number_and_suffix(
    name: Seq<char>,
    capability: u32,
    suffix: Option<char>,
)
    ensures
        named_arch(name) == Some((capability, suffix)) <==> known_suffix(suffix) && exists|
            digits: Seq<char>,
        | #[trigger] names_by(name, digits, capability, suffix),
{
    reveal_strlit("sm_");
    reveal_strlit("compute_");
    if named_arch(name) == Some((capability, suffix)) {
        let prefix = if begins_with(name, "sm_"@) {
            "sm_"@
        } else {
            "compute_"@
        };
        let rest = after_prefix(name)->Some_0;
        assert(name =~= prefix + rest);
        let digits = if suffix is Some {
            rest.drop_last()
        } else {
            rest
        };
        assert(decimal_value(digits) == Some(capability as nat));
        assert(name =~= spelled_from(prefix, digits, suffix));
        assert(names_by(name, digits, capability, suffix));
    }
    if known_suffix(suffix) && exists|digits: Seq<char>| #[trigger]
        names_by(name, digits, capability, suffix) {
        let digits = choose|digits: Seq<char>| #[trigger]
            names_by(name, digits, capability, suffix);
        let prefix = if name == spelled_from("sm_"@, digits, suffix) {
            "sm_"@
        } else {
            "compute_"@
        };
        assert(name.subrange(0, prefix.len() as int) =~= prefix);
        assert(begins_with(name, prefix));
        if prefix == "compute_"@ {
            assert(name.subrange(0, 3)[0] == 'c');
            assert(!begins_with(name, "sm_"@));
        }
        let rest = name.skip(prefix.len() as int);
        assert(after_prefix(name) == Some(rest));
        match suffix {
            None => {
                assert(rest =~= digits);
                assert('0' <= digits.last() <= '9');
            },
            Some(c) => {
                assert(rest =~= digits.push(c));
                assert(rest.drop_last() =~= digits);
            },
        }
    }
}

/// The name is a prefix, these digits, which spell the capability, and the
/// suffix.
pub open spec fn names_by(
    name: Seq<char>,
    digits: Seq<char>,
    capability: u32,
    suffix: Option<char>,
) -> bool {
    &&& decimal_value(digits) == Some(capability as nat)
    &&& name == spelled_from("sm_"@, digits, suffix) || name == spelled_from(
        "compute_"@,
        digits,
        suffix,
    )
}

/// A prefix, digits and a suffix, if there is one.
pub open spec fn spelled_from(prefix: Seq<char>, digits: Seq<char>, suffix: Option<char>) -> Seq<
    char,
> {
    prefix + digits + match suffix {
        Some(c) => seq![c],
        None => seq![],
    }
}

/// What is read of a name is what the name says, and it is printed by the same
/// name again, under either prefix, without leading zeros.
pub proof fn architectures_print_what_they_read(
    name: &str,
    parsed: Result<CudaArch, CudaArchError>,
    sm: String,
    compute: String,
)
    requires
        call_ensures(CudaArch::parse, (name,), parsed),
        parsed is Ok,
        call_ensures(CudaArch::sm, (&parsed->Ok_0,), sm),
        call_ensures(CudaArch::compute, (&parsed->Ok_0,), compute),
    ensures
        named_arch(sm@) == named_arch(name@),
        named_arch(compute@) == named_arch(name@),
        begins_with(sm@, "sm_"@),
        begins_with(compute@, "compute_"@),
{
    let arch = parsed->Ok_0;
    arch_names_read_back(arch);
    assert(sm@.subrange(0, "sm_"@.len() as int) =~= "sm_"@);
    assert(compute@.subrange(0, "compute_"@.len() as int) =~= "compute_"@);
}

/// The dialect of LLVM 7 ends with the last architecture whose major compute
/// capability has one digit, whatever the suffix is.
pub proof fn legacy_dialect_ends_before_blackwell(
    arch: CudaArch,
    legacy: bool,
    later: CudaArch,
    later_legacy: bool,
)
    requires
        call_ensures(CudaArch::uses_legacy_llvm, (&arch,), legacy),
        call_ensures(CudaArch::uses_legacy_llvm, (&later,), later_legacy),
    ensures
        legacy <==> arch.capability_number() / 10 <= 9,
        arch.capability_number() <= later.capability_number() && later_legacy ==> legacy,
        legacy <==> decimal(arch.capability_number() as nat).len() < 3,
{
    let n = arch.capability_number() as nat;
    reveal_with_fuel(decimal, 3);
    if n >= 100 {
        lemma_decimal_round_trip(n / 10 / 10);
        assert(decimal(n) == decimal(n / 10).push(crate::text::digit(n % 10)));
        assert(decimal(n / 10) == decimal(n / 10 / 10).push(crate::text::digit(n / 10 % 10)));
    }
}

} // verus!
