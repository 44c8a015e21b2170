//! Deterministic device-identity generation.
//!
//! When no device file is persisted for an account, a fallback identity is
//! generated from the account id alone: the id seeds a deterministic
//! pseudo-random generator, and every field is filled from the drawn words.
//! Re-running without a persisted file therefore yields the same identity
//! across restarts.

use rand::{RngCore, SeedableRng};
use vstd::prelude::*;

use crate::device::{DeviceIdentity, DeviceModel, OsVersion, OsVersionModel};
use crate::hexstr::hex_digit_of;

verus! {

/// The words drawn from a generator seeded with `seed`.
pub uninterp spec fn chacha8_words(seed: u64, count: nat) -> Seq<u32>;

/// Relies on `rand_chacha::ChaCha8Rng` (seeded through
/// `SeedableRng::seed_from_u64`, drawn through `RngCore::next_u32`): the
/// cipher's key stream is a specified, portable algorithm, so the words
/// drawn are a pure function of the seed.
#[verifier::external_body]
fn seeded_words(seed: u64, count: usize) -> (r: Vec<u32>)
    ensures
        r@ == chacha8_words(seed, count as nat),
        r@.len() == count,
{
    let mut rng = rand_chacha::ChaCha8Rng::seed_from_u64(seed);
    let mut out: Vec<u32> = Vec::with_capacity(count);
    for _ in 0..count {
        out.push(rng.next_u32());
    }
    out
}

/// The hexadecimal digits of the words in `ws[from..to]`, one per word.
pub open spec fn hex_run(ws: Seq<u32>, from: int, to: int) -> Seq<char> {
    Seq::new((to - from) as nat, |i: int| hex_digit_of((ws[from + i] % 16) as u8))
}

/// The decimal digits of the words in `ws[from..to]`, one per word.
pub open spec fn digit_run(ws: Seq<u32>, from: int, to: int) -> Seq<char> {
    Seq::new((to - from) as nat, |i: int| hex_digit_of((ws[from + i] % 10) as u8))
}

/// The low bytes of the words in `ws[from..to]`, one per word.
pub open spec fn byte_run(ws: Seq<u32>, from: int, to: int) -> Seq<u8> {
    Seq::new((to - from) as nat, |i: int| (ws[from + i] % 256) as u8)
}

/// Appends the digit for `v` (a value below 16) to `s`.
pub(crate) fn push_nibble(s: &mut String, v: u8)
    requires
        v < 16,
    ensures
        final(s)@ == old(s)@.push(hex_digit_of(v)),
{
    proof {
        reveal_strlit("0");
        reveal_strlit("1");
        reveal_strlit("2");
        reveal_strlit("3");
        reveal_strlit("4");
        reveal_strlit("5");
        reveal_strlit("6");
        reveal_strlit("7");
        reveal_strlit("8");
        reveal_strlit("9");
        reveal_strlit("a");
        reveal_strlit("b");
        reveal_strlit("c");
        reveal_strlit("d");
        reveal_strlit("e");
        reveal_strlit("f");
    }
    let ghost before = s@;
    match v {
        0 => s.append("0"),
        1 => s.append("1"),
        2 => s.append("2"),
        3 => s.append("3"),
        4 => s.append("4"),
        5 => s.append("5"),
        6 => s.append("6"),
        7 => s.append("7"),
        8 => s.append("8"),
        9 => s.append("9"),
        10 => s.append("a"),
        11 => s.append("b"),
        12 => s.append("c"),
        13 => s.append("d"),
        14 => s.append("e"),
        _ => s.append("f"),
    }
    proof {
        assert(s@ =~= before.push(hex_digit_of(v)));
    }
}

/// Appends one hexadecimal digit per word of `w[from..to]` to `s`.
fn append_hex(s: &mut String, w: &Vec<u32>, from: usize, to: usize)
    requires
        from <= to,
        to <= w@.len(),
    ensures
        final(s)@ == old(s)@ + hex_run(w@, from as int, to as int),
{
    let mut i: usize = from;
    proof {
        assert(old(s)@ + hex_run(w@, from as int, from as int) =~= old(s)@);
    }
    while i < to
        invariant
            from <= i <= to,
            to <= w@.len(),
            s@ == old(s)@ + hex_run(w@, from as int, i as int),
        decreases to - i,
    {
        push_nibble(s, (w[i] % 16) as u8);
        proof {
            assert(old(s)@ + hex_run(w@, from as int, i + 1) =~= (old(s)@ + hex_run(
                w@,
                from as int,
                i as int,
            )).push(hex_digit_of((w@[i as int] % 16) as u8)));
        }
        i = i + 1;
    }
}

/// Appends one decimal digit per word of `w[from..to]` to `s`.
fn append_digits(s: &mut String, w: &Vec<u32>, from: usize, to: usize)
    requires
        from <= to,
        to <= w@.len(),
    ensures
        final(s)@ == old(s)@ + digit_run(w@, from as int, to as int),
{
    let mut i: usize = from;
    proof {
        assert(old(s)@ + digit_run(w@, from as int, from as int) =~= old(s)@);
    }
    while i < to
        invariant
            from <= i <= to,
            to <= w@.len(),
            s@ == old(s)@ + digit_run(w@, from as int, i as int),
        decreases to - i,
    {
        push_nibble(s, (w[i] % 10) as u8);
        proof {
            assert(old(s)@ + digit_run(w@, from as int, i + 1) =~= (old(s)@ + digit_run(
                w@,
                from as int,
                i as int,
            )).push(hex_digit_of((w@[i as int] % 10) as u8)));
        }
        i = i + 1;
    }
}

/// The identity generated from the word sequence `ws` (which holds 124
/// drawn words): every varying field is a fixed slice of the words.
pub open spec fn spec_generated_device(ws: Seq<u32>) -> DeviceModel {
    DeviceModel {
        display: "CHOCHO."@ + digit_run(ws, 0, 6) + ".001"@,
        product: "chocho"@,
        device: "chocho"@,
        board: "chocho"@,
        model: "chocho"@,
        finger_print: "chocho/chocho/chocho:10/CHOCHO."@ + digit_run(ws, 6, 12)
            + ":user/release-keys"@,
        boot_id: hex_run(ws, 35, 43) + "-"@ + hex_run(ws, 43, 47) + "-"@ + hex_run(ws, 47, 51)
            + "-"@ + hex_run(ws, 51, 55) + "-"@ + hex_run(ws, 55, 67),
        proc_version: "Linux version 4.19.71-"@ + hex_run(ws, 12, 20),
        imei: digit_run(ws, 20, 35),
        brand: "chocho"@,
        bootloader: "unknown"@,
        base_band: Seq::empty(),
        version: OsVersionModel {
            incremental: digit_run(ws, 117, 124),
            release: "10"@,
            codename: "REL"@,
            sdk: 29,
        },
        sim_info: "T-Mobile"@,
        os_type: "android"@,
        mac_address: "00:50:"@ + hex_run(ws, 83, 85) + ":"@ + hex_run(ws, 85, 87) + ":"@
            + hex_run(ws, 87, 89) + ":"@ + hex_run(ws, 89, 91),
        ip_address: seq![10u8, 0u8] + byte_run(ws, 99, 101),
        wifi_bssid: "00:50:"@ + hex_run(ws, 91, 93) + ":"@ + hex_run(ws, 93, 95) + ":"@ + hex_run(
            ws,
            95,
            97,
        ) + ":"@ + hex_run(ws, 97, 99),
        wifi_ssid: "<unknown ssid>"@,
        imsi_md5: byte_run(ws, 101, 117),
        android_id: hex_run(ws, 67, 83),
        apn: "wifi"@,
        vendor_name: "unknown"@,
        vendor_os_name: "chocho"@,
        qimei: None,
    }
}

/// Generates the fallback device identity for an account id.
///
/// The id seeds the generator, so the same id always yields the same
/// identity, on every machine and in every run.
pub fn random_from_uin(uin: i64) -> (d: DeviceIdentity)
    ensures
        d@ == spec_generated_device(chacha8_words(uin as u64, 124)),
        d.wf(),
{
    let seed =
        #[verifier::truncate]
        (uin as u64);
    let w = seeded_words(seed, 124);

    let mut display = String::from_str("CHOCHO.");
    append_digits(&mut display, &w, 0, 6);
    display.append(".001");

    let mut finger_print = String::from_str("chocho/chocho/chocho:10/CHOCHO.");
    append_digits(&mut finger_print, &w, 6, 12);
    finger_print.append(":user/release-keys");

    let mut boot_id = String::new();
    append_hex(&mut boot_id, &w, 35, 43);
    boot_id.append("-");
    append_hex(&mut boot_id, &w, 43, 47);
    boot_id.append("-");
    append_hex(&mut boot_id, &w, 47, 51);
    boot_id.append("-");
    append_hex(&mut boot_id, &w, 51, 55);
    boot_id.append("-");
    append_hex(&mut boot_id, &w, 55, 67);

    let mut proc_version = String::from_str("Linux version 4.19.71-");
    append_hex(&mut proc_version, &w, 12, 20);

    let mut imei = String::new();
    append_digits(&mut imei, &w, 20, 35);

    let mut incremental = String::new();
    append_digits(&mut incremental, &w, 117, 124);

    let mut mac_address = String::from_str("00:50:");
    append_hex(&mut mac_address, &w, 83, 85);
    mac_address.append(":");
    append_hex(&mut mac_address, &w, 85, 87);
    mac_address.append(":");
    append_hex(&mut mac_address, &w, 87, 89);
    mac_address.append(":");
    append_hex(&mut mac_address, &w, 89, 91);

    let mut wifi_bssid = String::from_str("00:50:");
    append_hex(&mut wifi_bssid, &w, 91, 93);
    wifi_bssid.append(":");
    append_hex(&mut wifi_bssid, &w, 93, 95);
    wifi_bssid.append(":");
    append_hex(&mut wifi_bssid, &w, 95, 97);
    wifi_bssid.append(":");
    append_hex(&mut wifi_bssid, &w, 97, 99);

    let mut ip_address: Vec<u8> = Vec::new();
    ip_address.push(10);
    ip_address.push(0);
    ip_address.push((w[99] % 256) as u8);
    ip_address.push((w[100] % 256) as u8);

    let imsi_md5 = bytes_of(&w, 101, 117);

    let mut android_id = String::new();
    append_hex(&mut android_id, &w, 67, 83);

    proof {
        let ws = chacha8_words(uin as u64, 124);
        assert(imei@ =~= digit_run(ws, 20, 35));
        assert(incremental@ =~= digit_run(ws, 117, 124));
        assert(android_id@ =~= hex_run(ws, 67, 83));
        assert(boot_id@ =~= hex_run(ws, 35, 43) + "-"@ + hex_run(ws, 43, 47) + "-"@ + hex_run(
            ws,
            47,
            51,
        ) + "-"@ + hex_run(ws, 51, 55) + "-"@ + hex_run(ws, 55, 67));
        assert(ip_address@ =~= seq![10u8, 0u8] + byte_run(ws, 99, 101));
    }

    DeviceIdentity {
        display,
        product: String::from_str("chocho"),
        device: String::from_str("chocho"),
        board: String::from_str("chocho"),
        model: String::from_str("chocho"),
        finger_print,
        boot_id,
        proc_version,
        imei,
        brand: String::from_str("chocho"),
        bootloader: String::from_str("unknown"),
        base_band: String::new(),
        version: OsVersion {
            incremental,
            release: String::from_str("10"),
            codename: String::from_str("REL"),
            sdk: 29,
        },
        sim_info: String::from_str("T-Mobile"),
        os_type: String::from_str("android"),
        mac_address,
        ip_address,
        wifi_bssid,
        wifi_ssid: String::from_str("<unknown ssid>"),
        imsi_md5,
        android_id,
        apn: String::from_str("wifi"),
        vendor_name: String::from_str("unknown"),
        vendor_os_name: String::from_str("chocho"),
        qimei: None,
    }
}

/// Generation is deterministic: an identity generated for an account id
/// is a function of that id alone, so generating twice for the same id
/// yields identical identities — a re-run without a persisted device file
/// presents the same fingerprint as the run before it.
pub proof fn lemma_generation_deterministic(d1: DeviceModel, d2: DeviceModel, uin: i64)
    requires
        d1 == spec_generated_device(chacha8_words(uin as u64, 124)),
        d2 == spec_generated_device(chacha8_words(uin as u64, 124)),
    ensures
        d1 == d2,
{
}

/// The low byte of each word of `w[from..to]`, as a byte vector.
fn bytes_of(w: &Vec<u32>, from: usize, to: usize) -> (r: Vec<u8>)
    requires
        from <= to,
        to <= w@.len(),
    ensures
        r@ == byte_run(w@, from as int, to as int),
{
    let mut out: Vec<u8> = Vec::new();
    let mut i: usize = from;
    proof {
        assert(out@ =~= byte_run(w@, from as int, from as int));
    }
    while i < to
        invariant
            from <= i <= to,
            to <= w@.len(),
            out@ == byte_run(w@, from as int, i as int),
        decreases to - i,
    {
        out.push((w[i] % 256) as u8);
        proof {
            assert(out@ =~= byte_run(w@, from as int, i + 1));
        }
        i = i + 1;
    }
    out
}

} // verus!
