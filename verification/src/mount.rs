use std::path::PathBuf;
use vstd::prelude::*;

use crate::text::{decimal, opt_str, push_decimal};

verus! {

/// `std::path::PathBuf`, carried through opaquely (a host path may be any
/// OS string).
#[verifier::external_type_specification]
#[verifier::external_body]
pub struct ExPathBuf(PathBuf);

/// `<PathBuf as Clone>::clone`, which the derived `Clone` of [`Mount`]
/// calls.  Trusted; nothing is stated of the copy.
pub assume_specification[ <PathBuf as Clone>::clone ](p: &PathBuf) -> PathBuf;

/// A host filesystem mount passed to the guest.
#[derive(Debug, Clone)]
pub struct Mount {
    /// Guest-visible mount point (e.g. `/mnt/data`).
    pub guest_path: String,
    /// Host directory to expose.
    pub host_path: PathBuf,
    /// Mount read-only (`true` → `MNT_RDONLY`, writes return `EROFS`).
    pub readonly: bool,
}

impl Mount {
    /// Create a read-write mount.
    ///
    /// Parameter order matches Docker convention: host (source) first,
    /// guest (target) second.
    pub fn rw(host_path: PathBuf, guest_path: &str) -> (m: Mount)
        ensures
            m.host_path == host_path,
            m.guest_path@ == guest_path@,
            !m.readonly,
    {
        Mount { guest_path: String::from_str(guest_path), host_path, readonly: false }
    }

    /// Create a read-only mount.
    ///
    /// Parameter order matches Docker convention: host (source) first,
    /// guest (target) second.
    pub fn ro(host_path: PathBuf, guest_path: &str) -> (m: Mount)
        ensures
            m.host_path == host_path,
            m.guest_path@ == guest_path@,
            m.readonly,
    {
        Mount { guest_path: String::from_str(guest_path), host_path, readonly: true }
    }
}


/// The `flags` field of a mount's fstab entry: `MNT_RDONLY` (`0x1`) for a
/// read-only mount, `0x0` otherwise.
pub open spec fn fstab_flags(readonly: bool) -> Seq<char> {
    if readonly { "0x1"@ } else { "0x0"@ }
}

/// One Unikraft `vfs.fstab` entry, `sdev:path:drv:flags:opts:ukopts`.
///
/// The source-device field carries the mount's index (hostfs routes its
/// host calls by it), the driver is `hostfs`, and `mkmp` asks the kernel
/// to create the mount point.
pub open spec fn fstab_entry(index: nat, m: Mount) -> Seq<char> {
    decimal(index) + ":"@ + m.guest_path@ + ":hostfs:"@ + fstab_flags(m.readonly) + "::mkmp"@
}

/// The fstab entries of all mounts, in order, separated by single spaces.
pub open spec fn fstab_entries(mounts: Seq<Mount>) -> Seq<char>
    decreases mounts.len(),
{
    if mounts.len() == 0 {
        Seq::empty()
    } else if mounts.len() == 1 {
        fstab_entry(0, mounts[0])
    } else {
        fstab_entries(mounts.drop_last()) + " "@ + fstab_entry(
            (mounts.len() - 1) as nat,
            mounts.last(),
        )
    }
}

/// The ` vfs.fstab=[...]` kernel parameter for a mount table; empty when
/// there are no mounts.
pub open spec fn fstab_param(mounts: Seq<Mount>) -> Seq<char> {
    if mounts.len() == 0 {
        Seq::empty()
    } else {
        " vfs.fstab=["@ + fstab_entries(mounts) + "]"@
    }
}

/// The kernel command line: program name, the fstab parameter, then the
/// entry point.
///
/// Unikraft's parameter parser needs a `--` between kernel parameters and
/// application arguments, so the entry point follows ` -- ` when an fstab
/// parameter precedes it and a single space otherwise.
pub open spec fn kernel_cmdline(mounts: Seq<Mount>, entry: Option<Seq<char>>) -> Seq<char> {
    "unikraft-hyperlight"@ + fstab_param(mounts) + match entry {
        Some(e) => if mounts.len() == 0 { " "@ + e } else { " -- "@ + e },
        None => Seq::empty(),
    }
}

/// Append one fstab entry for mount number `index`.
fn push_fstab_entry(cmdline: &mut String, index: usize, m: &Mount)
    ensures
        final(cmdline)@ == old(cmdline)@ + fstab_entry(index as nat, *m),
{
    push_decimal(cmdline, index);
    cmdline.append(":");
    cmdline.append(m.guest_path.as_str());
    cmdline.append(":hostfs:");
    if m.readonly {
        cmdline.append("0x1");
    } else {
        cmdline.append("0x0");
    }
    cmdline.append("::mkmp");
    assert(final(cmdline)@ =~= old(cmdline)@ + fstab_entry(index as nat, *m));
}

/// Append the ` vfs.fstab=[...]` parameter for `mounts` (nothing when there
/// are no mounts).
pub fn push_fstab(cmdline: &mut String, mounts: &Vec<Mount>)
    ensures
        final(cmdline)@ == old(cmdline)@ + fstab_param(mounts@),
{
    if mounts.len() == 0 {
        assert(final(cmdline)@ =~= old(cmdline)@ + fstab_param(mounts@));
        return;
    }
    cmdline.append(" vfs.fstab=[");
    let ghost start = cmdline@;
    let mut i: usize = 0;
    while i < mounts.len()
        invariant
            i <= mounts.len(),
            cmdline@ == start + fstab_entries(mounts@.take(i as int)),
        decreases mounts.len() - i,
    {
        if i > 0 {
            cmdline.append(" ");
        }
        push_fstab_entry(cmdline, i, &mounts[i]);
        proof {
            let t = mounts@.take(i + 1);
            assert(t.drop_last() =~= mounts@.take(i as int));
            assert(t.last() == mounts@[i as int]);
        }
        i = i + 1;
        assert(cmdline@ =~= start + fstab_entries(mounts@.take(i as int)));
    }
    assert(mounts@.take(mounts.len() as int) =~= mounts@);
    cmdline.append("]");
    assert(final(cmdline)@ =~= old(cmdline)@ + fstab_param(mounts@));
}

/// Build the kernel command line for a guest with the given mounts and
/// optional entry point (see [`kernel_cmdline`]).
pub fn build_cmdline(mounts: &Vec<Mount>, entry: &Option<String>) -> (s: String)
    ensures
        s@ == kernel_cmdline(mounts@, opt_str(*entry)),
{
    let mut cmdline = String::from_str("unikraft-hyperlight");
    push_fstab(&mut cmdline, mounts);
    match entry {
        Some(e) => {
            if mounts.len() == 0 {
                cmdline.append(" ");
            } else {
                cmdline.append(" -- ");
            }
            cmdline.append(e.as_str());
        },
        None => {},
    }
    let ghost want = kernel_cmdline(mounts@, opt_str(*entry));
    assert(cmdline@ =~= want);
    cmdline
}

/// The command line starts with the program name and the fstab parameter,
/// whatever the entry point; with no entry point that is all of it.
pub proof fn lemma_cmdline_prefix(mounts: Seq<Mount>, entry: Option<Seq<char>>)
    ensures
        ("unikraft-hyperlight"@ + fstab_param(mounts)).is_prefix_of(kernel_cmdline(mounts, entry)),
        entry is None ==> kernel_cmdline(mounts, entry) == "unikraft-hyperlight"@ + fstab_param(
            mounts,
        ),
{
    let p = "unikraft-hyperlight"@ + fstab_param(mounts);
    assert(kernel_cmdline(mounts, entry).subrange(0, p.len() as int) =~= p);
    if entry is None {
        assert(kernel_cmdline(mounts, entry) =~= p);
    }
}

} // verus!
