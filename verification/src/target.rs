//! Target-triple resolution: parsing `<host>-<vendor>-<system>` strings
//! into a target descriptor whose calling convention is derived from the
//! architecture and operating system by a fixed, total table.
use vstd::prelude::*;

use crate::text::{chars_eq, chars_of, has_no, lemma_split_on_len, lemma_split_on_no_sep,
    lemma_split_on_sep, split_chars, split_on};

verus! {

/// The closed set of architectures a triple's host component may name.
#[derive(Clone, Copy, Debug, PartialEq, Eq, Structural)]
pub enum Arch {
    X86,
    X86_64,
    Wasm32,
    Wasm64,
    Aarch64,
    RiscV,
    Mips,
    PowerPc,
    Sparc,
    Z390,
    M68k,
    SpirV,
    RiscV32,
    RiscV64,
    RiscV128,
}

/// The closed set of operating systems a triple's system component may name.
#[derive(Clone, Copy, Debug, PartialEq, Eq, Structural)]
pub enum Os {
    Windows,
    Linux,
    Bsd,
    Solaris,
    Illumos,
    Haiku,
    Redox,
    Theseus,
}

/// How function arguments and results are passed on a target.
#[derive(Clone, Copy, Debug, PartialEq, Eq, Structural)]
pub enum CallingConvention {
    SystemV,
    WindowsFastcall,
    Cdecl,
    Stdcall,
}

/// An architecture together with a consistent calling convention.
#[derive(Clone, Copy, Debug, PartialEq, Eq, Structural)]
pub struct Target {
    pub arch: Arch,
    pub calling_convention: CallingConvention,
}

/// A resolved target triple.
#[derive(Clone, Copy, Debug, PartialEq, Eq, Structural)]
pub struct TargetTriplet {
    pub target: Target,
}

/// Why a triple string could not be resolved.
#[derive(Clone, Copy, Debug, PartialEq, Eq, Structural)]
pub enum ParseError {
    /// The string does not split into exactly three dash-separated components.
    InvalidTargetTriplet,
    /// The host component names no architecture of the closed table.
    UnknownTargetTripletHost,
    /// The system component names no known operating system, so no calling
    /// convention can be chosen.
    UnsupportedWithoutOs,
}

/// The architecture named by a host component, if any. Matching is exact
/// and case-sensitive.
pub open spec fn arch_of_host(h: Seq<char>) -> Option<Arch> {
    if h == "x86"@ {
        Some(Arch::X86)
    } else if h == "x86_64"@ {
        Some(Arch::X86_64)
    } else if h == "wasm32"@ {
        Some(Arch::Wasm32)
    } else if h == "wasm64"@ {
        Some(Arch::Wasm64)
    } else if h == "aarch64"@ {
        Some(Arch::Aarch64)
    } else if h == "riscv"@ {
        Some(Arch::RiscV)
    } else if h == "mips"@ {
        Some(Arch::Mips)
    } else if h == "powerpc"@ {
        Some(Arch::PowerPc)
    } else if h == "sparc"@ {
        Some(Arch::Sparc)
    } else if h == "z390"@ {
        Some(Arch::Z390)
    } else if h == "m68k"@ {
        Some(Arch::M68k)
    } else if h == "spirv"@ {
        Some(Arch::SpirV)
    } else if h == "riscv32"@ {
        Some(Arch::RiscV32)
    } else if h == "riscv64"@ {
        Some(Arch::RiscV64)
    } else if h == "riscv128"@ {
        Some(Arch::RiscV128)
    } else {
        None
    }
}

/// The operating system named by a system component, if any. An
/// unrecognized system maps to `None` rather than failing outright.
pub open spec fn os_of_system(s: Seq<char>) -> Option<Os> {
    if s == "windows"@ {
        Some(Os::Windows)
    } else if s == "linux"@ {
        Some(Os::Linux)
    } else if s == "bsd"@ {
        Some(Os::Bsd)
    } else if s == "solaris"@ {
        Some(Os::Solaris)
    } else if s == "illumos"@ {
        Some(Os::Illumos)
    } else if s == "haiku"@ {
        Some(Os::Haiku)
    } else if s == "redox"@ {
        Some(Os::Redox)
    } else if s == "theseus"@ {
        Some(Os::Theseus)
    } else {
        None
    }
}

/// The fixed, total table deriving a calling convention from an
/// architecture and operating system.
pub open spec fn cc_of(arch: Arch, os: Os) -> CallingConvention {
    match os {
        Os::Windows => if arch == Arch::X86 {
            CallingConvention::Stdcall
        } else {
            CallingConvention::WindowsFastcall
        },
        _ => if arch == Arch::X86 {
            CallingConvention::Cdecl
        } else {
            CallingConvention::SystemV
        },
    }
}

/// What resolving a triple string yields: the descriptor, or the one
/// error its shape and components force.
pub open spec fn resolve_spec(s: Seq<char>) -> Result<TargetTriplet, ParseError> {
    let parts = split_on(s, '-');
    if parts.len() != 3 {
        Err(ParseError::InvalidTargetTriplet)
    } else {
        match arch_of_host(parts[0]) {
            None => Err(ParseError::UnknownTargetTripletHost),
            Some(arch) => match os_of_system(parts[2]) {
                None => Err(ParseError::UnsupportedWithoutOs),
                Some(os) => Ok(
                    TargetTriplet {
                        target: Target { arch: arch, calling_convention: cc_of(arch, os) },
                    },
                ),
            },
        }
    }
}

/// The descriptor that a host with architecture `arch` and operating
/// system `os` gets when no triple is supplied.
pub open spec fn native_descriptor(arch: Arch, os: Os) -> TargetTriplet {
    TargetTriplet { target: Target { arch, calling_convention: cc_of(arch, os) } }
}

/// The host component that names architecture `a` in the table.
pub open spec fn host_name(a: Arch) -> Seq<char> {
    match a {
        Arch::X86 => "x86"@,
        Arch::X86_64 => "x86_64"@,
        Arch::Wasm32 => "wasm32"@,
        Arch::Wasm64 => "wasm64"@,
        Arch::Aarch64 => "aarch64"@,
        Arch::RiscV => "riscv"@,
        Arch::Mips => "mips"@,
        Arch::PowerPc => "powerpc"@,
        Arch::Sparc => "sparc"@,
        Arch::Z390 => "z390"@,
        Arch::M68k => "m68k"@,
        Arch::SpirV => "spirv"@,
        Arch::RiscV32 => "riscv32"@,
        Arch::RiscV64 => "riscv64"@,
        Arch::RiscV128 => "riscv128"@,
    }
}

/// The system component that names operating system `o` in the table.
pub open spec fn system_name(o: Os) -> Seq<char> {
    match o {
        Os::Windows => "windows"@,
        Os::Linux => "linux"@,
        Os::Bsd => "bsd"@,
        Os::Solaris => "solaris"@,
        Os::Illumos => "illumos"@,
        Os::Haiku => "haiku"@,
        Os::Redox => "redox"@,
        Os::Theseus => "theseus"@,
    }
}

proof fn lemma_host_name_ok(a: Arch)
    ensures
        arch_of_host(host_name(a)) == Some(a),
        has_no(host_name(a), '-'),
{
    reveal_strlit("x86");
    reveal_strlit("x86_64");
    reveal_strlit("wasm32");
    reveal_strlit("wasm64");
    reveal_strlit("aarch64");
    reveal_strlit("riscv");
    reveal_strlit("mips");
    reveal_strlit("powerpc");
    reveal_strlit("sparc");
    reveal_strlit("z390");
    reveal_strlit("m68k");
    reveal_strlit("spirv");
    reveal_strlit("riscv32");
    reveal_strlit("riscv64");
    reveal_strlit("riscv128");
    assert("x86"@.len() == 3 && "x86"@[0] == 'x');
    assert("x86_64"@.len() == 6 && "x86_64"@[0] == 'x');
    assert("wasm32"@.len() == 6 && "wasm32"@[0] == 'w' && "wasm32"@[4] == '3');
    assert("wasm64"@.len() == 6 && "wasm64"@[0] == 'w' && "wasm64"@[4] == '6');
    assert("aarch64"@.len() == 7 && "aarch64"@[0] == 'a');
    assert("riscv"@.len() == 5 && "riscv"@[0] == 'r');
    assert("mips"@.len() == 4 && "mips"@[0] == 'm' && "mips"@[1] == 'i');
    assert("powerpc"@.len() == 7 && "powerpc"@[0] == 'p');
    assert("sparc"@.len() == 5 && "sparc"@[0] == 's' && "sparc"@[2] == 'a');
    assert("z390"@.len() == 4 && "z390"@[0] == 'z');
    assert("m68k"@.len() == 4 && "m68k"@[0] == 'm' && "m68k"@[1] == '6');
    assert("spirv"@.len() == 5 && "spirv"@[0] == 's' && "spirv"@[2] == 'i');
    assert("riscv32"@.len() == 7 && "riscv32"@[0] == 'r' && "riscv32"@[5] == '3');
    assert("riscv64"@.len() == 7 && "riscv64"@[0] == 'r' && "riscv64"@[5] == '6');
    assert("riscv128"@.len() == 8 && "riscv128"@[0] == 'r');
}

proof fn lemma_system_name_ok(o: Os)
    ensures
        os_of_system(system_name(o)) == Some(o),
        has_no(system_name(o), '-'),
{
    reveal_strlit("windows");
    reveal_strlit("linux");
    reveal_strlit("bsd");
    reveal_strlit("solaris");
    reveal_strlit("illumos");
    reveal_strlit("haiku");
    reveal_strlit("redox");
    reveal_strlit("theseus");
    assert("windows"@.len() == 7 && "windows"@[0] == 'w');
    assert("linux"@.len() == 5 && "linux"@[0] == 'l');
    assert("bsd"@.len() == 3 && "bsd"@[0] == 'b');
    assert("solaris"@.len() == 7 && "solaris"@[0] == 's');
    assert("illumos"@.len() == 7 && "illumos"@[0] == 'i');
    assert("haiku"@.len() == 5 && "haiku"@[0] == 'h');
    assert("redox"@.len() == 5 && "redox"@[0] == 'r');
    assert("theseus"@.len() == 7 && "theseus"@[0] == 't');
}

/// Every triple whose host names an architecture of the table, whose
/// vendor holds no dash, and whose system names a known operating system
/// resolves successfully, to that architecture with the calling
/// convention the table fixes for the (architecture, system) pair.
pub proof fn lemma_resolve_known_triple(a: Arch, vendor: Seq<char>, o: Os)
    requires
        has_no(vendor, '-'),
    ensures
        resolve_spec(host_name(a) + seq!['-'] + vendor + seq!['-'] + system_name(o))
            == Ok::<TargetTriplet, ParseError>(native_descriptor(a, o)),
{
    let h = host_name(a);
    let sys = system_name(o);
    let s = h + seq!['-'] + vendor + seq!['-'] + sys;
    lemma_host_name_ok(a);
    lemma_system_name_ok(o);
    assert(s =~= h + seq!['-'] + (vendor + seq!['-'] + sys));
    lemma_split_on_sep(h, '-', vendor + seq!['-'] + sys);
    lemma_split_on_sep(vendor, '-', sys);
    lemma_split_on_no_sep(sys, '-');
    let parts = split_on(s, '-');
    assert(parts =~~= seq![h, vendor, sys]);
    assert(parts.len() == 3);
    assert(parts[0] == h);
    assert(parts[2] == sys);
}

/// Resolving a descriptor from the native host's own triple string and
/// supplying no triple at all yield the identical architecture and
/// calling convention.
pub proof fn lemma_native_round_trip(a: Arch, vendor: Seq<char>, o: Os)
    requires
        has_no(vendor, '-'),
    ensures
        resolve_spec(host_name(a) + seq!['-'] + vendor + seq!['-'] + system_name(o))
            == Ok::<TargetTriplet, ParseError>(native_descriptor(a, o)),
{
    lemma_resolve_known_triple(a, vendor, o);
}

/// Every descriptor that resolution returns is well formed: its calling
/// convention is the one the table fixes for its architecture and some
/// operating system.
pub proof fn lemma_resolved_descriptor_wf(s: Seq<char>)
    ensures
        resolve_spec(s) is Ok ==> resolve_spec(s)->Ok_0.target.wf(),
{
    match resolve_spec(s) {
        Ok(t) => {
            let parts = split_on(s, '-');
            match arch_of_host(parts[0]) {
                Some(a) => match os_of_system(parts[2]) {
                    Some(o) => {
                        assert(t.target.calling_convention == cc_of(t.target.arch, o));
                    },
                    None => {
                    },
                },
                None => {
                },
            }
        },
        Err(_) => {
        },
    }
}

/// A string that does not split into exactly three dash-separated
/// components resolves to the malformed-triple error, whatever its
/// components hold.
pub proof fn lemma_malformed_triple(s: Seq<char>)
    requires
        split_on(s, '-').len() != 3,
    ensures
        resolve_spec(s) == Err::<TargetTriplet, ParseError>(ParseError::InvalidTargetTriplet),
{
}

/// A three-component string whose host names no architecture of the
/// table resolves to the unknown-host error, regardless of the other
/// components.
pub proof fn lemma_unknown_host(s: Seq<char>)
    requires
        split_on(s, '-').len() == 3,
        arch_of_host(split_on(s, '-')[0]) is None,
    ensures
        resolve_spec(s) == Err::<TargetTriplet, ParseError>(ParseError::UnknownTargetTripletHost),
{
}

impl CallingConvention {
    /// The calling convention for an architecture on an operating system.
    pub fn from_arch_os(arch: Arch, os: Os) -> (r: CallingConvention)
        ensures
            r == cc_of(arch, os),
    {
        match os {
            Os::Windows => match arch {
                Arch::X86 => CallingConvention::Stdcall,
                _ => CallingConvention::WindowsFastcall,
            },
            _ => match arch {
                Arch::X86 => CallingConvention::Cdecl,
                _ => CallingConvention::SystemV,
            },
        }
    }
}

impl Target {
    pub fn new(arch: Arch, calling_convention: CallingConvention) -> (t: Target)
        ensures
            t == (Target { arch, calling_convention }),
    {
        Target { arch, calling_convention }
    }

    /// Every descriptor this library constructs carries the calling
    /// convention that its architecture and some operating system force.
    pub open spec fn wf(self) -> bool {
        exists|o: Os| self.calling_convention == cc_of(self.arch, o)
    }
}

fn arch_from_host(h: &Vec<char>) -> (r: Option<Arch>)
    ensures
        r == arch_of_host(h@),
{
    if chars_eq(h, "x86") {
        Some(Arch::X86)
    } else if chars_eq(h, "x86_64") {
        Some(Arch::X86_64)
    } else if chars_eq(h, "wasm32") {
        Some(Arch::Wasm32)
    } else if chars_eq(h, "wasm64") {
        Some(Arch::Wasm64)
    } else if chars_eq(h, "aarch64") {
        Some(Arch::Aarch64)
    } else if chars_eq(h, "riscv") {
        Some(Arch::RiscV)
    } else if chars_eq(h, "mips") {
        Some(Arch::Mips)
    } else if chars_eq(h, "powerpc") {
        Some(Arch::PowerPc)
    } else if chars_eq(h, "sparc") {
        Some(Arch::Sparc)
    } else if chars_eq(h, "z390") {
        Some(Arch::Z390)
    } else if chars_eq(h, "m68k") {
        Some(Arch::M68k)
    } else if chars_eq(h, "spirv") {
        Some(Arch::SpirV)
    } else if chars_eq(h, "riscv32") {
        Some(Arch::RiscV32)
    } else if chars_eq(h, "riscv64") {
        Some(Arch::RiscV64)
    } else if chars_eq(h, "riscv128") {
        Some(Arch::RiscV128)
    } else {
        None
    }
}

fn os_from_system(s: &Vec<char>) -> (r: Option<Os>)
    ensures
        r == os_of_system(s@),
{
    if chars_eq(s, "windows") {
        Some(Os::Windows)
    } else if chars_eq(s, "linux") {
        Some(Os::Linux)
    } else if chars_eq(s, "bsd") {
        Some(Os::Bsd)
    } else if chars_eq(s, "solaris") {
        Some(Os::Solaris)
    } else if chars_eq(s, "illumos") {
        Some(Os::Illumos)
    } else if chars_eq(s, "haiku") {
        Some(Os::Haiku)
    } else if chars_eq(s, "redox") {
        Some(Os::Redox)
    } else if chars_eq(s, "theseus") {
        Some(Os::Theseus)
    } else {
        None
    }
}

impl TargetTriplet {
    /// Resolve a triple string of the form `<host>-<vendor>-<system>`.
    /// The vendor component is parsed but does not affect the result.
    pub fn from_str(s: &str) -> (r: Result<TargetTriplet, ParseError>)
        ensures
            r == resolve_spec(s@),
    {
        let v = chars_of(s);
        let mut parts = split_chars(&v, '-');
        let ghost pd = parts.deep_view();
        if parts.len() != 3 {
            proof {
                assert(pd.len() == parts@.len());
            }
            return Err(ParseError::InvalidTargetTriplet);
        }
        proof {
            assert(pd.len() == 3);
            assert(pd[0] == parts@[0]@);
            assert(pd[2] == parts@[2]@);
        }
        let system = parts.pop().unwrap();
        let _vendor = parts.pop().unwrap();
        let host = parts.pop().unwrap();
        proof {
            assert(host@ == pd[0]);
            assert(system@ == pd[2]);
        }
        let arch = match arch_from_host(&host) {
            Some(a) => a,
            None => {
                return Err(ParseError::UnknownTargetTripletHost);
            },
        };
        let os = match os_from_system(&system) {
            Some(o) => o,
            None => {
                return Err(ParseError::UnsupportedWithoutOs);
            },
        };
        let calling_convention = CallingConvention::from_arch_os(arch, os);
        let target = Target::new(arch, calling_convention);
        Ok(TargetTriplet { target })
    }

    /// The descriptor for a host whose architecture and operating system
    /// are known, as used when no triple is supplied at all.
    pub fn native(arch: Arch, os: Os) -> (t: TargetTriplet)
        ensures
            t == native_descriptor(arch, os),
            t.target.wf(),
    {
        let calling_convention = CallingConvention::from_arch_os(arch, os);
        let t = TargetTriplet { target: Target { arch, calling_convention } };
        proof {
            assert(t.target.calling_convention == cc_of(t.target.arch, os));
        }
        t
    }

    /// Resolve an optional triple string: absence yields the native host
    /// descriptor and never an error.
    pub fn resolve_or_native(s: Option<&str>, native_arch: Arch, native_os: Os) -> (r: Result<
        TargetTriplet,
        ParseError,
    >)
        ensures
            s is None ==> r == Ok::<TargetTriplet, ParseError>(
                native_descriptor(native_arch, native_os),
            ),
            s is Some ==> r == resolve_spec(s->0@),
    {
        match s {
            None => Ok(TargetTriplet::native(native_arch, native_os)),
            Some(t) => TargetTriplet::from_str(t),
        }
    }
}

} // verus!
