//! Closed enumerations of the operating-system and CPU-architecture names
//! used by the Go toolchain (`GOOS` / `GOARCH`), with exact bidirectional
//! string conversion.

use vstd::prelude::*;

use crate::text::str_eq;

verus! {

/// A value was not a recognized `GOOS` or `GOARCH` string.
#[derive(Debug)]
pub enum GoError {
    InvalidGoOs(String),
    InvalidGoArch(String),
}

#[derive(Debug, Eq, PartialEq, Structural, Hash, Clone, Copy)]
pub enum GoOs {
    Android,
    Darwin,
    Dragonfly,
    FreeBSD,
    Linux,
    NaCl,
    NetBSD,
    OpenBSD,
    Plan9,
    Solaris,
    Windows,
    ZOS,
}

/// The canonical `GOOS` string of each operating system.
pub open spec fn go_os_name(os: GoOs) -> Seq<char> {
    match os {
        GoOs::Android => "android"@,
        GoOs::Darwin => "darwin"@,
        GoOs::Dragonfly => "dragonfly"@,
        GoOs::FreeBSD => "freebsd"@,
        GoOs::Linux => "linux"@,
        GoOs::NaCl => "nacl"@,
        GoOs::NetBSD => "netbsd"@,
        GoOs::OpenBSD => "openbsd"@,
        GoOs::Plan9 => "plan9"@,
        GoOs::Solaris => "solaris"@,
        GoOs::Windows => "windows"@,
        GoOs::ZOS => "zos"@,
    }
}

/// Which operating system, if any, a string names.
pub open spec fn go_os_of(s: Seq<char>) -> Option<GoOs> {
    if s == "android"@ {
        Some(GoOs::Android)
    } else if s == "darwin"@ {
        Some(GoOs::Darwin)
    } else if s == "dragonfly"@ {
        Some(GoOs::Dragonfly)
    } else if s == "freebsd"@ {
        Some(GoOs::FreeBSD)
    } else if s == "linux"@ {
        Some(GoOs::Linux)
    } else if s == "nacl"@ {
        Some(GoOs::NaCl)
    } else if s == "netbsd"@ {
        Some(GoOs::NetBSD)
    } else if s == "openbsd"@ {
        Some(GoOs::OpenBSD)
    } else if s == "plan9"@ {
        Some(GoOs::Plan9)
    } else if s == "solaris"@ {
        Some(GoOs::Solaris)
    } else if s == "windows"@ {
        Some(GoOs::Windows)
    } else if s == "zos"@ {
        Some(GoOs::ZOS)
    } else {
        None
    }
}

impl GoOs {
    /// The canonical `GOOS` string for this operating system.
    pub fn as_str(&self) -> (r: &'static str)
        ensures
            r@ == go_os_name(*self),
    {
        match self {
            GoOs::Android => "android",
            GoOs::Darwin => "darwin",
            GoOs::Dragonfly => "dragonfly",
            GoOs::FreeBSD => "freebsd",
            GoOs::Linux => "linux",
            GoOs::NaCl => "nacl",
            GoOs::NetBSD => "netbsd",
            GoOs::OpenBSD => "openbsd",
            GoOs::Plan9 => "plan9",
            GoOs::Solaris => "solaris",
            GoOs::Windows => "windows",
            GoOs::ZOS => "zos",
        }
    }

    /// Parse a `GOOS` string; unrecognized input is reported, carried in the
    /// error unchanged.
    pub fn from_str(s: &str) -> (r: Result<GoOs, GoError>)
        ensures
            match r {
                Ok(os) => go_os_of(s@) == Some(os),
                Err(e) => go_os_of(s@) is None && (e matches GoError::InvalidGoOs(m) && m@ == s@),
            },
    {
        if str_eq(s, "android") {
            Ok(GoOs::Android)
        } else if str_eq(s, "darwin") {
            Ok(GoOs::Darwin)
        } else if str_eq(s, "dragonfly") {
            Ok(GoOs::Dragonfly)
        } else if str_eq(s, "freebsd") {
            Ok(GoOs::FreeBSD)
        } else if str_eq(s, "linux") {
            Ok(GoOs::Linux)
        } else if str_eq(s, "nacl") {
            Ok(GoOs::NaCl)
        } else if str_eq(s, "netbsd") {
            Ok(GoOs::NetBSD)
        } else if str_eq(s, "openbsd") {
            Ok(GoOs::OpenBSD)
        } else if str_eq(s, "plan9") {
            Ok(GoOs::Plan9)
        } else if str_eq(s, "solaris") {
            Ok(GoOs::Solaris)
        } else if str_eq(s, "windows") {
            Ok(GoOs::Windows)
        } else if str_eq(s, "zos") {
            Ok(GoOs::ZOS)
        } else {
            Err(GoError::InvalidGoOs(s.to_owned()))
        }
    }
}

/// Each operating system's name parses back to that operating system.
pub proof fn lemma_go_os_roundtrip(os: GoOs)
    ensures
        go_os_of(go_os_name(os)) == Some(os),
{
    reveal_strlit("android");
    reveal_strlit("darwin");
    reveal_strlit("dragonfly");
    reveal_strlit("freebsd");
    reveal_strlit("linux");
    reveal_strlit("nacl");
    reveal_strlit("netbsd");
    reveal_strlit("openbsd");
    reveal_strlit("plan9");
    reveal_strlit("solaris");
    reveal_strlit("windows");
    reveal_strlit("zos");
    assert("android"@ =~= seq!['a', 'n', 'd', 'r', 'o', 'i', 'd']);
    assert("darwin"@ =~= seq!['d', 'a', 'r', 'w', 'i', 'n']);
    assert("dragonfly"@ =~= seq!['d', 'r', 'a', 'g', 'o', 'n', 'f', 'l', 'y']);
    assert("freebsd"@ =~= seq!['f', 'r', 'e', 'e', 'b', 's', 'd']);
    assert("linux"@ =~= seq!['l', 'i', 'n', 'u', 'x']);
    assert("nacl"@ =~= seq!['n', 'a', 'c', 'l']);
    assert("netbsd"@ =~= seq!['n', 'e', 't', 'b', 's', 'd']);
    assert("openbsd"@ =~= seq!['o', 'p', 'e', 'n', 'b', 's', 'd']);
    assert("plan9"@ =~= seq!['p', 'l', 'a', 'n', '9']);
    assert("solaris"@ =~= seq!['s', 'o', 'l', 'a', 'r', 'i', 's']);
    assert("windows"@ =~= seq!['w', 'i', 'n', 'd', 'o', 'w', 's']);
    assert("zos"@ =~= seq!['z', 'o', 's']);
    match os {
        GoOs::Android => assert(go_os_of(go_os_name(os)) == Some(os)),
        GoOs::Darwin => assert(go_os_of(go_os_name(os)) == Some(os)),
        GoOs::Dragonfly => assert(go_os_of(go_os_name(os)) == Some(os)),
        GoOs::FreeBSD => assert(go_os_of(go_os_name(os)) == Some(os)),
        GoOs::Linux => assert(go_os_of(go_os_name(os)) == Some(os)),
        GoOs::NaCl => assert(go_os_of(go_os_name(os)) == Some(os)),
        GoOs::NetBSD => assert(go_os_of(go_os_name(os)) == Some(os)),
        GoOs::OpenBSD => assert(go_os_of(go_os_name(os)) == Some(os)),
        GoOs::Plan9 => assert(go_os_of(go_os_name(os)) == Some(os)),
        GoOs::Solaris => assert(go_os_of(go_os_name(os)) == Some(os)),
        GoOs::Windows => assert(go_os_of(go_os_name(os)) == Some(os)),
        GoOs::ZOS => assert(go_os_of(go_os_name(os)) == Some(os)),
    }
}

#[derive(Debug, Eq, PartialEq, Structural, Hash, Clone, Copy)]
pub enum GoArch {
    I386,
    AMD64,
    AMD64p32,
    ARM,
    ARMbe,
    ARM64,
    ARM64be,
    PPC64,
    PPC64le,
    MIPS,
    MIPSle,
    MIPS64,
    MIPS64le,
    MIPS64p32,
    MIPS64p32le,
    PPC,
    S390,
    S390x,
    SPARC,
    SPARC64,
}

/// The canonical `GOARCH` string of each architecture.
pub open spec fn go_arch_name(arch: GoArch) -> Seq<char> {
    match arch {
        GoArch::I386 => "386"@,
        GoArch::AMD64 => "amd64"@,
        GoArch::AMD64p32 => "amd64p32"@,
        GoArch::ARM => "arm"@,
        GoArch::ARMbe => "armbe"@,
        GoArch::ARM64 => "arm64"@,
        GoArch::ARM64be => "arm64be"@,
        GoArch::PPC64 => "ppc64"@,
        GoArch::PPC64le => "ppc64le"@,
        GoArch::MIPS => "mips"@,
        GoArch::MIPSle => "mipsle"@,
        GoArch::MIPS64 => "mips64"@,
        GoArch::MIPS64le => "mips64le"@,
        GoArch::MIPS64p32 => "mips64p32"@,
        GoArch::MIPS64p32le => "mips64p32le"@,
        GoArch::PPC => "ppc"@,
        GoArch::S390 => "s390"@,
        GoArch::S390x => "s390x"@,
        GoArch::SPARC => "sparc"@,
        GoArch::SPARC64 => "sparc64"@,
    }
}

/// Which architecture, if any, a string names.
pub open spec fn go_arch_of(s: Seq<char>) -> Option<GoArch> {
    if s == "386"@ {
        Some(GoArch::I386)
    } else if s == "amd64"@ {
        Some(GoArch::AMD64)
    } else if s == "amd64p32"@ {
        Some(GoArch::AMD64p32)
    } else if s == "arm"@ {
        Some(GoArch::ARM)
    } else if s == "armbe"@ {
        Some(GoArch::ARMbe)
    } else if s == "arm64"@ {
        Some(GoArch::ARM64)
    } else if s == "arm64be"@ {
        Some(GoArch::ARM64be)
    } else if s == "ppc64"@ {
        Some(GoArch::PPC64)
    } else if s == "ppc64le"@ {
        Some(GoArch::PPC64le)
    } else if s == "mips"@ {
        Some(GoArch::MIPS)
    } else if s == "mipsle"@ {
        Some(GoArch::MIPSle)
    } else if s == "mips64"@ {
        Some(GoArch::MIPS64)
    } else if s == "mips64le"@ {
        Some(GoArch::MIPS64le)
    } else if s == "mips64p32"@ {
        Some(GoArch::MIPS64p32)
    } else if s == "mips64p32le"@ {
        Some(GoArch::MIPS64p32le)
    } else if s == "ppc"@ {
        Some(GoArch::PPC)
    } else if s == "s390"@ {
        Some(GoArch::S390)
    } else if s == "s390x"@ {
        Some(GoArch::S390x)
    } else if s == "sparc"@ {
        Some(GoArch::SPARC)
    } else if s == "sparc64"@ {
        Some(GoArch::SPARC64)
    } else {
        None
    }
}

impl GoArch {
    /// The canonical `GOARCH` string for this architecture.
    pub fn as_str(&self) -> (r: &'static str)
        ensures
            r@ == go_arch_name(*self),
    {
        match self {
            GoArch::I386 => "386",
            GoArch::AMD64 => "amd64",
            GoArch::AMD64p32 => "amd64p32",
            GoArch::ARM => "arm",
            GoArch::ARMbe => "armbe",
            GoArch::ARM64 => "arm64",
            GoArch::ARM64be => "arm64be",
            GoArch::PPC64 => "ppc64",
            GoArch::PPC64le => "ppc64le",
            GoArch::MIPS => "mips",
            GoArch::MIPSle => "mipsle",
            GoArch::MIPS64 => "mips64",
            GoArch::MIPS64le => "mips64le",
            GoArch::MIPS64p32 => "mips64p32",
            GoArch::MIPS64p32le => "mips64p32le",
            GoArch::PPC => "ppc",
            GoArch::S390 => "s390",
            GoArch::S390x => "s390x",
            GoArch::SPARC => "sparc",
            GoArch::SPARC64 => "sparc64",
        }
    }

    /// Parse a `GOARCH` string; unrecognized input is reported, carried in
    /// the error unchanged.
    pub fn from_str(s: &str) -> (r: Result<GoArch, GoError>)
        ensures
            match r {
                Ok(arch) => go_arch_of(s@) == Some(arch),
                Err(e) => go_arch_of(s@) is None && (e matches GoError::InvalidGoArch(m) && m@
                    == s@),
            },
    {
        if str_eq(s, "386") {
            Ok(GoArch::I386)
        } else if str_eq(s, "amd64") {
            Ok(GoArch::AMD64)
        } else if str_eq(s, "amd64p32") {
            Ok(GoArch::AMD64p32)
        } else if str_eq(s, "arm") {
            Ok(GoArch::ARM)
        } else if str_eq(s, "armbe") {
            Ok(GoArch::ARMbe)
        } else if str_eq(s, "arm64") {
            Ok(GoArch::ARM64)
        } else if str_eq(s, "arm64be") {
            Ok(GoArch::ARM64be)
        } else if str_eq(s, "ppc64") {
            Ok(GoArch::PPC64)
        } else if str_eq(s, "ppc64le") {
            Ok(GoArch::PPC64le)
        } else if str_eq(s, "mips") {
            Ok(GoArch::MIPS)
        } else if str_eq(s, "mipsle") {
            Ok(GoArch::MIPSle)
        } else if str_eq(s, "mips64") {
            Ok(GoArch::MIPS64)
        } else if str_eq(s, "mips64le") {
            Ok(GoArch::MIPS64le)
        } else if str_eq(s, "mips64p32") {
            Ok(GoArch::MIPS64p32)
        } else if str_eq(s, "mips64p32le") {
            Ok(GoArch::MIPS64p32le)
        } else if str_eq(s, "ppc") {
            Ok(GoArch::PPC)
        } else if str_eq(s, "s390") {
            Ok(GoArch::S390)
        } else if str_eq(s, "s390x") {
            Ok(GoArch::S390x)
        } else if str_eq(s, "sparc") {
            Ok(GoArch::SPARC)
        } else if str_eq(s, "sparc64") {
            Ok(GoArch::SPARC64)
        } else {
            Err(GoError::InvalidGoArch(s.to_owned()))
        }
    }
}

/// Each architecture's name parses back to that architecture.
pub proof fn lemma_go_arch_roundtrip(arch: GoArch)
    ensures
        go_arch_of(go_arch_name(arch)) == Some(arch),
{
    reveal_strlit("386");
    reveal_strlit("amd64");
    reveal_strlit("amd64p32");
    reveal_strlit("arm");
    reveal_strlit("armbe");
    reveal_strlit("arm64");
    reveal_strlit("arm64be");
    reveal_strlit("ppc64");
    reveal_strlit("ppc64le");
    reveal_strlit("mips");
    reveal_strlit("mipsle");
    reveal_strlit("mips64");
    reveal_strlit("mips64le");
    reveal_strlit("mips64p32");
    reveal_strlit("mips64p32le");
    reveal_strlit("ppc");
    reveal_strlit("s390");
    reveal_strlit("s390x");
    reveal_strlit("sparc");
    reveal_strlit("sparc64");
    assert("386"@ =~= seq!['3', '8', '6']);
    assert("amd64"@ =~= seq!['a', 'm', 'd', '6', '4']);
    assert("amd64p32"@ =~= seq!['a', 'm', 'd', '6', '4', 'p', '3', '2']);
    assert("arm"@ =~= seq!['a', 'r', 'm']);
    assert("armbe"@ =~= seq!['a', 'r', 'm', 'b', 'e']);
    assert("arm64"@ =~= seq!['a', 'r', 'm', '6', '4']);
    assert("arm64be"@ =~= seq!['a', 'r', 'm', '6', '4', 'b', 'e']);
    assert("ppc64"@ =~= seq!['p', 'p', 'c', '6', '4']);
    assert("ppc64le"@ =~= seq!['p', 'p', 'c', '6', '4', 'l', 'e']);
    assert("mips"@ =~= seq!['m', 'i', 'p', 's']);
    assert("mipsle"@ =~= seq!['m', 'i', 'p', 's', 'l', 'e']);
    assert("mips64"@ =~= seq!['m', 'i', 'p', 's', '6', '4']);
    assert("mips64le"@ =~= seq!['m', 'i', 'p', 's', '6', '4', 'l', 'e']);
    assert("mips64p32"@ =~= seq!['m', 'i', 'p', 's', '6', '4', 'p', '3', '2']);
    assert("mips64p32le"@ =~= seq!['m', 'i', 'p', 's', '6', '4', 'p', '3', '2', 'l', 'e']);
    assert("ppc"@ =~= seq!['p', 'p', 'c']);
    assert("s390"@ =~= seq!['s', '3', '9', '0']);
    assert("s390x"@ =~= seq!['s', '3', '9', '0', 'x']);
    assert("sparc"@ =~= seq!['s', 'p', 'a', 'r', 'c']);
    assert("sparc64"@ =~= seq!['s', 'p', 'a', 'r', 'c', '6', '4']);
    match arch {
        GoArch::I386 => assert(go_arch_of(go_arch_name(arch)) == Some(arch)),
        GoArch::AMD64 => assert(go_arch_of(go_arch_name(arch)) == Some(arch)),
        GoArch::AMD64p32 => assert(go_arch_of(go_arch_name(arch)) == Some(arch)),
        GoArch::ARM => assert(go_arch_of(go_arch_name(arch)) == Some(arch)),
        GoArch::ARMbe => assert(go_arch_of(go_arch_name(arch)) == Some(arch)),
        GoArch::ARM64 => assert(go_arch_of(go_arch_name(arch)) == Some(arch)),
        GoArch::ARM64be => assert(go_arch_of(go_arch_name(arch)) == Some(arch)),
        GoArch::PPC64 => assert(go_arch_of(go_arch_name(arch)) == Some(arch)),
        GoArch::PPC64le => assert(go_arch_of(go_arch_name(arch)) == Some(arch)),
        GoArch::MIPS => assert(go_arch_of(go_arch_name(arch)) == Some(arch)),
        GoArch::MIPSle => assert(go_arch_of(go_arch_name(arch)) == Some(arch)),
        GoArch::MIPS64 => assert(go_arch_of(go_arch_name(arch)) == Some(arch)),
        GoArch::MIPS64le => assert(go_arch_of(go_arch_name(arch)) == Some(arch)),
        GoArch::MIPS64p32 => assert(go_arch_of(go_arch_name(arch)) == Some(arch)),
        GoArch::MIPS64p32le => assert(go_arch_of(go_arch_name(arch)) == Some(arch)),
        GoArch::PPC => assert(go_arch_of(go_arch_name(arch)) == Some(arch)),
        GoArch::S390 => assert(go_arch_of(go_arch_name(arch)) == Some(arch)),
        GoArch::S390x => assert(go_arch_of(go_arch_name(arch)) == Some(arch)),
        GoArch::SPARC => assert(go_arch_of(go_arch_name(arch)) == Some(arch)),
        GoArch::SPARC64 => assert(go_arch_of(go_arch_name(arch)) == Some(arch)),
    }
}

} // verus!
