//! A snapshot of the machine the bridge runs on.

use vstd::prelude::*;

verus! {

/// The operating system, the processor architecture and the number of
/// logical processors. The number is never zero.
#[derive(Debug, PartialEq, Eq)]
pub struct SystemInfo {
    os: String,
    arch: String,
    cpus: usize,
}

/// A [`SystemInfo`] as mathematics sees it.
pub struct SystemInfoView {
    pub os: Seq<char>,
    pub arch: Seq<char>,
    pub cpus: nat,
}

/// The number of logical processors to report for what the host said of
/// its parallelism: one where it said nothing, or nothing usable.
pub open spec fn processors(parallelism: Option<usize>) -> nat {
    match parallelism {
        Some(n) if n >= 1 => n as nat,
        _ => 1,
    }
}

impl View for SystemInfo {
    type V = SystemInfoView;

    closed spec fn view(&self) -> SystemInfoView {
        SystemInfoView { os: self.os@, arch: self.arch@, cpus: self.cpus as nat }
    }
}

impl SystemInfo {
    #[verifier::type_invariant]
    spec fn counts_a_processor(&self) -> bool {
        self.cpus >= 1
    }

    /// The snapshot for an operating system, an architecture and what the
    /// host said of its parallelism.
    pub fn new(os: String, arch: String, parallelism: Option<usize>) -> (info: SystemInfo)
        ensures
            info@ == (SystemInfoView { os: os@, arch: arch@, cpus: processors(parallelism) }),
            info@.cpus >= 1,
    {
        let cpus = match parallelism {
            Some(n) => if n >= 1 {
                n
            } else {
                1
            },
            None => 1,
        };
        SystemInfo { os, arch, cpus }
    }

    /// The operating system, as the host named it.
    pub fn os(&self) -> (os: &str)
        ensures
            os@ == self@.os,
    {
        self.os.as_str()
    }

    /// The processor architecture, as the host named it.
    pub fn arch(&self) -> (arch: &str)
        ensures
            arch@ == self@.arch,
    {
        self.arch.as_str()
    }

    /// The number of logical processors: at least one, whatever the
    /// snapshot was made from.
    pub fn cpus(&self) -> (cpus: usize)
        ensures
            cpus == self@.cpus,
            cpus >= 1,
    {
        proof {
            use_type_invariant(self);
        }
        self.cpus
    }
}

} // verus!
