use std::path::PathBuf;

use hyperlight_unikraft::config::{DEFAULT_SCRATCH_MB, INITRD_MAP_BASE, MIB};
use hyperlight_unikraft::mount::{build_cmdline, push_fstab};
use hyperlight_unikraft::{find_cpio_entry, resolve_entry, Exec, GuestConfig, HostFunction, Mount};

// ── GuestConfig ────────────────────────────────────────────────────

fn plain_config(scratch_size: usize) -> GuestConfig<(), ()> {
    GuestConfig::new(String::new(), scratch_size, 0, 0, Vec::new(), None, None)
}

#[test]
fn paging_budget_is_75_percent() {
    let cfg = plain_config(256 * 1024 * 1024);
    assert_eq!(cfg.paging_budget(), 192 * 1024 * 1024);
}

#[test]
fn paging_budget_rounds_down() {
    assert_eq!(plain_config(7).paging_budget(), 5);
    assert_eq!(plain_config(0).paging_budget(), 0);
}

#[test]
fn exn_stack_top_is_below_scratch_top() {
    let top = plain_config(0).exn_stack_top();
    assert!(top == 0xffff_ffff_ffff_ef90 || top == 0x0000_ffff_ffff_df90);
}

#[test]
fn drain_output_returns_and_clears() {
    let mut cfg = plain_config(0);
    assert_eq!(cfg.record_output("hello "), 6);
    assert_eq!(cfg.record_output("wörld"), 6);
    assert_eq!(cfg.drain_output(), "hello wörld");
    assert_eq!(cfg.drain_output(), "");
    cfg.record_output("again");
    assert_eq!(cfg.drain_output(), "again");
}

#[test]
fn boot_config_with_initrd_and_mounts() {
    let mounts = vec![Mount::ro(PathBuf::from("/srv"), "/mnt/srv")];
    let cfg: GuestConfig<(), ()> = GuestConfig::boot(
        64,
        Some(4096),
        &Some("/usr/bin/hl_pydriver".to_string()),
        mounts,
        None,
        None,
    );
    assert_eq!(cfg.scratch_size, 64 * 1024 * 1024);
    assert_eq!(cfg.initrd_base, INITRD_MAP_BASE);
    assert_eq!(cfg.initrd_size, 4096);
    assert_eq!(
        cfg.cmdline,
        "unikraft-hyperlight vfs.fstab=[0:/mnt/srv:hostfs:0x1::mkmp] -- /usr/bin/hl_pydriver"
    );
    assert_eq!(cfg.mounts.len(), 1);
}

#[test]
fn boot_config_without_initrd() {
    let cfg: GuestConfig<(), ()> = GuestConfig::boot(256, None, &None, Vec::new(), None, None);
    assert_eq!(cfg.initrd_base, 0);
    assert_eq!(cfg.initrd_size, 0);
    assert_eq!(cfg.cmdline, "unikraft-hyperlight");
}

#[test]
fn restore_config_defaults() {
    let cfg: GuestConfig<u8, u8> = GuestConfig::for_restore(Vec::new(), Some(1), None);
    assert_eq!(cfg.cmdline, "");
    assert_eq!(cfg.scratch_size, DEFAULT_SCRATCH_MB * MIB);
    assert_eq!(cfg.initrd_base, 0);
    assert_eq!(cfg.initrd_size, 0);
    assert_eq!(cfg.network, Some(1));
}

#[test]
fn registrations_follow_config() {
    let cfg: GuestConfig<(), ()> =
        GuestConfig::new("cmd".to_string(), 1024, 7, 9, Vec::new(), None, None);
    let r = cfg.registrations();
    assert_eq!(r.len(), 8);
    assert!(matches!(r[0], HostFunction::HostPrint));
    assert!(matches!(&r[1], HostFunction::GetCmdLine(s) if s == "cmd"));
    assert!(matches!(r[2], HostFunction::GetPagingBudget(768)));
    assert!(matches!(r[3], HostFunction::GetInitrdBase(7)));
    assert!(matches!(r[4], HostFunction::GetInitrdSize(9)));
    let top = cfg.exn_stack_top();
    assert!(matches!(r[5], HostFunction::GetExnStackTop(v) if v == top));
    assert!(matches!(r[6], HostFunction::GetWallClockNs));
    assert!(matches!(r[7], HostFunction::GetHostFsChunkSize));

    let cfg: GuestConfig<(), ()> = GuestConfig::new(
        String::new(),
        0,
        0,
        0,
        vec![Mount::rw(PathBuf::from("/a"), "/mnt/a")],
        Some(()),
        None,
    );
    let r = cfg.registrations();
    assert_eq!(r.len(), 10);
    assert!(matches!(r[8], HostFunction::HostFs));
    assert!(matches!(r[9], HostFunction::HostNet));
}

// ── Mount / fstab ──────────────────────────────────────────────────

#[test]
fn mount_rw_host_first() {
    let m = Mount::rw(PathBuf::from("/host/dir"), "/guest/path");
    assert_eq!(m.host_path, PathBuf::from("/host/dir"));
    assert_eq!(m.guest_path, "/guest/path");
    assert!(!m.readonly);
}

#[test]
fn mount_ro_host_first() {
    let m = Mount::ro(PathBuf::from("/host/dir"), "/guest/path");
    assert_eq!(m.host_path, PathBuf::from("/host/dir"));
    assert_eq!(m.guest_path, "/guest/path");
    assert!(m.readonly);
}

#[test]
fn fstab_cmdline_single_rw_mount() {
    let mounts = vec![Mount::rw(PathBuf::from("/tmp/share"), "/mnt/host")];
    let mut cmdline = "unikraft-hyperlight /entry".to_string();
    push_fstab(&mut cmdline, &mounts);
    assert_eq!(
        cmdline,
        "unikraft-hyperlight /entry vfs.fstab=[0:/mnt/host:hostfs:0x0::mkmp]",
    );
}

#[test]
fn fstab_cmdline_multiple_mixed_mounts() {
    let mounts = vec![Mount::rw(PathBuf::from("/a"), "/mnt/a"), Mount::ro(PathBuf::from("/b"), "/mnt/b")];
    let mut cmdline = "unikraft-hyperlight /entry".to_string();
    push_fstab(&mut cmdline, &mounts);
    assert_eq!(
        cmdline,
        "unikraft-hyperlight /entry vfs.fstab=[0:/mnt/a:hostfs:0x0::mkmp 1:/mnt/b:hostfs:0x1::mkmp]",
    );
}

#[test]
fn fstab_empty_mount_table_adds_nothing() {
    let mut cmdline = "x".to_string();
    push_fstab(&mut cmdline, &Vec::new());
    assert_eq!(cmdline, "x");
}

#[test]
fn fstab_indices_count_past_nine() {
    let mounts: Vec<Mount> = (0..12).map(|i| Mount::rw(PathBuf::from("/h"), &format!("/m{i}"))).collect();
    let mut cmdline = String::new();
    push_fstab(&mut cmdline, &mounts);
    assert!(cmdline.starts_with(" vfs.fstab=[0:/m0:hostfs:0x0::mkmp 1:/m1:"));
    assert!(cmdline.ends_with(" 10:/m10:hostfs:0x0::mkmp 11:/m11:hostfs:0x0::mkmp]"));
}

#[test]
fn cmdline_entry_placement() {
    let entry = Some("/usr/bin/hl_x".to_string());
    assert_eq!(build_cmdline(&Vec::new(), &entry), "unikraft-hyperlight /usr/bin/hl_x");
    assert_eq!(build_cmdline(&Vec::new(), &None), "unikraft-hyperlight");
    let mounts = vec![Mount::rw(PathBuf::from("/a"), "/mnt/a")];
    assert_eq!(
        build_cmdline(&mounts, &entry),
        "unikraft-hyperlight vfs.fstab=[0:/mnt/a:hostfs:0x0::mkmp] -- /usr/bin/hl_x"
    );
    assert_eq!(
        build_cmdline(&mounts, &None),
        "unikraft-hyperlight vfs.fstab=[0:/mnt/a:hostfs:0x0::mkmp]"
    );
}

// ── CPIO parsing ───────────────────────────────────────────────────

/// Build a minimal newc-format CPIO entry.
fn cpio_entry(name: &str, data: &[u8]) -> Vec<u8> {
    cpio_entry_with_magic("070701", name, data)
}

fn cpio_entry_with_magic(magic: &str, name: &str, data: &[u8]) -> Vec<u8> {
    let namesize = name.len() + 1; // include NUL
    let filesize = data.len();
    let header = format!(
        "{magic}{}{}{}{}{}{}{:08X}{}{}{}{}{:08X}{}",
        "00000000", // ino
        "00000000", // mode
        "00000000", // uid
        "00000000", // gid
        "00000001", // nlink
        "00000000", // mtime
        filesize,
        "00000000", // devmajor
        "00000000", // devminor
        "00000000", // rdevmajor
        "00000000", // rdevminor
        namesize,
        "00000000", // check
    );
    assert_eq!(header.len(), 110);

    let mut buf = Vec::new();
    buf.extend_from_slice(header.as_bytes());
    buf.extend_from_slice(name.as_bytes());
    buf.push(0);
    let name_pad = (4 - ((110 + namesize) % 4)) % 4;
    buf.extend(std::iter::repeat_n(0u8, name_pad));
    buf.extend_from_slice(data);
    let data_pad = (4 - (filesize % 4)) % 4;
    buf.extend(std::iter::repeat_n(0u8, data_pad));
    buf
}

fn cpio_trailer() -> Vec<u8> {
    cpio_entry("TRAILER!!!", &[])
}

fn cpio_image(entries: &[(&str, &[u8])]) -> Vec<u8> {
    let mut img = Vec::new();
    for (name, data) in entries {
        img.extend(cpio_entry(name, data));
    }
    img.extend(cpio_trailer());
    img
}

#[test]
fn find_cpio_entry_detects_drivers() {
    let cpio = cpio_image(&[("usr/local/bin/hl_pydriver", b"ELF")]);
    assert_eq!(find_cpio_entry(&cpio), Some("/usr/local/bin/hl_pydriver".to_string()));

    let cpio = cpio_image(&[("usr/bin/hl_nodedriver", b"ELF")]);
    assert_eq!(find_cpio_entry(&cpio), Some("/usr/bin/hl_nodedriver".to_string()));
}

#[test]
fn find_cpio_entry_skips_non_drivers() {
    let big_data = vec![0xABu8; 1024];
    let cpio = cpio_image(&[("etc/big_config", &big_data), ("usr/bin/python3", b"ELF")]);
    assert_eq!(find_cpio_entry(&cpio), None);
}

#[test]
fn find_cpio_entry_skips_data_to_find_driver() {
    let big_data = vec![0xABu8; 4096];
    let cpio = cpio_image(&[("etc/config", &big_data), ("usr/local/bin/hl_pydriver", b"ELF")]);
    assert_eq!(find_cpio_entry(&cpio), Some("/usr/local/bin/hl_pydriver".to_string()));
}

#[test]
fn find_cpio_entry_skips_unaligned_data() {
    let cpio = cpio_image(&[("a", b"12345"), ("bb", b"1"), ("usr/bin/hl_x", b"")]);
    assert_eq!(find_cpio_entry(&cpio), Some("/usr/bin/hl_x".to_string()));
}

#[test]
fn find_cpio_entry_returns_first_driver() {
    let cpio = cpio_image(&[("usr/bin/hl_first", b"A"), ("usr/local/bin/hl_second", b"B")]);
    assert_eq!(find_cpio_entry(&cpio), Some("/usr/bin/hl_first".to_string()));
}

#[test]
fn find_cpio_entry_stops_at_trailer() {
    let mut img = cpio_trailer();
    img.extend(cpio_entry("usr/bin/hl_after", b"x"));
    assert_eq!(find_cpio_entry(&img), None);
}

#[test]
fn find_cpio_entry_accepts_crc_magic() {
    let img = cpio_entry_with_magic("070702", "usr/bin/hl_crc", b"x");
    assert_eq!(find_cpio_entry(&img), Some("/usr/bin/hl_crc".to_string()));
}

#[test]
fn find_cpio_entry_rejects_bad_magic() {
    let img = cpio_entry_with_magic("070707", "usr/bin/hl_old", b"x");
    assert_eq!(find_cpio_entry(&img), None);
}

#[test]
fn find_cpio_entry_empty_and_truncated() {
    assert_eq!(find_cpio_entry(&[]), None);
    let img = cpio_entry("usr/bin/hl_x", b"");
    assert_eq!(find_cpio_entry(&img[..109]), None);
    // Header present but the name is cut short.
    assert_eq!(find_cpio_entry(&img[..115]), None);
}

#[test]
fn find_cpio_entry_rejects_bad_hex_field() {
    let mut img = cpio_entry("usr/bin/hl_x", b"");
    img[100] = b'G';
    assert_eq!(find_cpio_entry(&img), None);
}

#[test]
fn find_cpio_entry_accepts_plus_signed_field() {
    let mut img = cpio_entry("usr/bin/hl_x", b"");
    // namesize field "0000000D" written as "+000000D"
    img[94] = b'+';
    assert_eq!(find_cpio_entry(&img), Some("/usr/bin/hl_x".to_string()));
}

#[test]
fn find_cpio_entry_rejects_non_utf8_name() {
    let mut img = cpio_entry("etc/xx", b"");
    img[110 + 4] = 0xff;
    img.extend(cpio_entry("usr/bin/hl_x", b""));
    assert_eq!(find_cpio_entry(&img), None);
}

#[test]
fn find_cpio_entry_keeps_unicode_names() {
    let img = cpio_image(&[("usr/bin/hl_ünï", b"")]);
    assert_eq!(find_cpio_entry(&img), Some("/usr/bin/hl_ünï".to_string()));
}

#[test]
fn resolve_entry_prefers_explicit() {
    let explicit = Some("/custom/bin/myapp".to_string());
    // The initrd path does not exist, so no image could be read.
    assert_eq!(resolve_entry(&explicit, &None), Some("/custom/bin/myapp".to_string()));
    let with_driver = Some(cpio_image(&[("usr/bin/hl_x", b"")]));
    assert_eq!(resolve_entry(&explicit, &with_driver), Some("/custom/bin/myapp".to_string()));
}

#[test]
fn resolve_entry_falls_back_to_detection() {
    let with_driver = Some(cpio_image(&[("usr/bin/hl_x", b"")]));
    assert_eq!(resolve_entry(&None, &with_driver), Some("/usr/bin/hl_x".to_string()));
    assert_eq!(resolve_entry(&None, &None), None);
    assert_eq!(resolve_entry(&None, &Some(Vec::new())), None);
}

// ── Exec ───────────────────────────────────────────────────────────

#[test]
fn exec_from_code() {
    assert!(matches!(Exec::from("print('hi')"), Exec::Code(s) if s == "print('hi')"));
    assert!(matches!(Exec::from("x".to_string()), Exec::Code(s) if s == "x"));
}

#[test]
fn exec_select_prefers_script() {
    let e = Exec::select(Some(PathBuf::from("a.py")), Some("code".to_string()));
    assert!(matches!(e, Some(Exec::File(p)) if p == PathBuf::from("a.py")));
    let e = Exec::select(None, Some("code".to_string()));
    assert!(matches!(e, Some(Exec::Code(c)) if c == "code"));
    assert!(Exec::select(None, None).is_none());
}
