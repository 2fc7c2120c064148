//! Target-platform tokens used to fill URL templates: the kernel and CPU
//! architecture of the running machine, together with the spellings that the
//! various release archives use for them.

use vstd::prelude::*;
use vstd::string::*;

verus! {

/// The operating-system kernels that binaries are published for.
#[derive(Debug, Clone, Copy, PartialEq, Eq, Structural)]
pub enum Kernel {
    Linux,
    MacOs,
}

/// The CPU architectures that binaries are published for.
#[derive(Debug, Clone, Copy, PartialEq, Eq, Structural)]
pub enum Cpu {
    X86_64,
    Aarch64,
}

pub open spec fn os_uname_spec(k: Kernel) -> Seq<char> {
    match k {
        Kernel::Linux => "linux"@,
        Kernel::MacOs => "darwin"@,
    }
}

pub open spec fn os_full_spec(k: Kernel) -> Seq<char> {
    match k {
        Kernel::Linux => "linux"@,
        Kernel::MacOs => "macos"@,
    }
}

pub open spec fn os_croc_spec(k: Kernel) -> Seq<char> {
    match k {
        Kernel::Linux => "Linux"@,
        Kernel::MacOs => "macOS"@,
    }
}

pub open spec fn os_pascal_uname_spec(k: Kernel) -> Seq<char> {
    match k {
        Kernel::Linux => "Linux"@,
        Kernel::MacOs => "Darwin"@,
    }
}

pub open spec fn arch_short_spec(c: Cpu) -> Seq<char> {
    match c {
        Cpu::X86_64 => "amd64"@,
        Cpu::Aarch64 => "arm64"@,
    }
}

pub open spec fn arch_full_spec(c: Cpu) -> Seq<char> {
    match c {
        Cpu::X86_64 => "x86_64"@,
        Cpu::Aarch64 => "aarch64"@,
    }
}

pub open spec fn arch_croc_spec(c: Cpu) -> Seq<char> {
    match c {
        Cpu::X86_64 => "64bit"@,
        Cpu::Aarch64 => "ARM64"@,
    }
}

/// The target platform: kernel, architecture and the full target triplet the
/// crate was compiled for (the triplet is supplied by the caller, since it is
/// only known to the build).
#[derive(Debug)]
pub struct PlatformTokens {
    pub kernel: Kernel,
    pub cpu: Cpu,
    pub triplet: String,
}

impl PlatformTokens {
    pub fn new(kernel: Kernel, cpu: Cpu, triplet: String) -> (r: Self)
        ensures
            r.kernel == kernel,
            r.cpu == cpu,
            r.triplet@ == triplet@,
    {
        PlatformTokens { kernel, cpu, triplet }
    }

    /// The kernel name as `uname` prints it.
    pub fn os_uname(&self) -> (r: &'static str)
        ensures
            r@ == os_uname_spec(self.kernel),
    {
        match self.kernel {
            Kernel::Linux => "linux",
            Kernel::MacOs => "darwin",
        }
    }

    /// The kernel name in its long spelling.
    pub fn os_full(&self) -> (r: &'static str)
        ensures
            r@ == os_full_spec(self.kernel),
    {
        match self.kernel {
            Kernel::Linux => "linux",
            Kernel::MacOs => "macos",
        }
    }

    /// The kernel spelling that croc release archives use.
    pub fn os_croc(&self) -> (r: &'static str)
        ensures
            r@ == os_croc_spec(self.kernel),
    {
        match self.kernel {
            Kernel::Linux => "Linux",
            Kernel::MacOs => "macOS",
        }
    }

    /// The `uname` kernel name in Pascal case, as skm release archives use it.
    pub fn os_pascal_uname(&self) -> (r: &'static str)
        ensures
            r@ == os_pascal_uname_spec(self.kernel),
    {
        match self.kernel {
            Kernel::Linux => "Linux",
            Kernel::MacOs => "Darwin",
        }
    }

    /// The short architecture name, as Go toolchains spell it.
    pub fn arch_short(&self) -> (r: &'static str)
        ensures
            r@ == arch_short_spec(self.cpu),
    {
        match self.cpu {
            Cpu::X86_64 => "amd64",
            Cpu::Aarch64 => "arm64",
        }
    }

    /// The full architecture name.
    pub fn arch_full(&self) -> (r: &'static str)
        ensures
            r@ == arch_full_spec(self.cpu),
    {
        match self.cpu {
            Cpu::X86_64 => "x86_64",
            Cpu::Aarch64 => "aarch64",
        }
    }

    /// The architecture spelling that croc release archives use.
    pub fn arch_croc(&self) -> (r: &'static str)
        ensures
            r@ == arch_croc_spec(self.cpu),
    {
        match self.cpu {
            Cpu::X86_64 => "64bit",
            Cpu::Aarch64 => "ARM64",
        }
    }

    /// The target triplet the crate was built for.
    pub fn triplet(&self) -> (r: &str)
        ensures
            r@ == self.triplet@,
    {
        self.triplet.as_str()
    }
}

} // verus!
