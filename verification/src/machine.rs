//! The machine identifier: a SHA-256 fingerprint of the machine, shown as
//! four groups of eight lowercase hexadecimal digits.

use crate::cipher::{sha256, sha256_digest};
use crate::text::{chars_of, opt_view, views};
use vstd::prelude::*;
use vstd::utf8::encode_utf8;

verus! {

/// The lowercase hexadecimal digit of a value below 16.
pub open spec fn hex_digit(v: int) -> char {
    seq!['0', '1', '2', '3', '4', '5', '6', '7', '8', '9', 'a', 'b', 'c', 'd', 'e', 'f'][v]
}

/// The lowercase hexadecimal encoding of bytes: two digits per byte, high
/// nibble first.
pub open spec fn spec_hex(data: Seq<u8>) -> Seq<char>
    decreases data.len(),
{
    if data.len() == 0 {
        seq![]
    } else {
        seq![hex_digit(data[0] as int / 16), hex_digit(data[0] as int % 16)] + spec_hex(data.drop_first())
    }
}

/// Calls `hex::encode`: the lowercase hexadecimal encoding of `data`.
#[verifier::external_body]
pub(crate) fn hex_encode(data: &[u8]) -> (text: String)
    ensures
        text@ == spec_hex(data@),
{
    hex::encode(data)
}

/// The hexadecimal encoding is twice as long as the data, and made of hex digits.
pub proof fn lemma_hex_shape(data: Seq<u8>)
    ensures
        spec_hex(data).len() == 2 * data.len(),
        forall|i: int|
            0 <= i < spec_hex(data).len() ==> exists|v: int|
                0 <= v < 16 && #[trigger] spec_hex(data)[i] == hex_digit(v),
    decreases data.len(),
{
    if data.len() > 0 {
        lemma_hex_shape(data.drop_first());
        let head = seq![hex_digit(data[0] as int / 16), hex_digit(data[0] as int % 16)];
        assert forall|i: int| 0 <= i < spec_hex(data).len() implies exists|v: int|
            0 <= v < 16 && #[trigger] spec_hex(data)[i] == hex_digit(v) by {
            if i == 0 {
                assert(spec_hex(data)[i] == hex_digit(data[0] as int / 16));
            } else if i == 1 {
                assert(spec_hex(data)[i] == hex_digit(data[0] as int % 16));
            } else {
                assert(spec_hex(data)[i] == spec_hex(data.drop_first())[i - 2]);
            }
        }
    }
}

/// The first 32 digits of a hexadecimal text, grouped as `XXXXXXXX-XXXXXXXX-XXXXXXXX-XXXXXXXX`.
pub open spec fn spec_group_id(hex: Seq<char>) -> Seq<char> {
    hex.subrange(0, 8) + seq!['-'] + hex.subrange(8, 16) + seq!['-'] + hex.subrange(16, 24)
        + seq!['-'] + hex.subrange(24, 32)
}

/// The machine identifier of a byte fingerprint.
pub open spec fn spec_machine_id(data: Seq<u8>) -> Seq<char> {
    spec_group_id(spec_hex(sha256_digest(data)))
}

/// The shape of every machine identifier: 35 characters, dashes after the
/// 8th, 16th and 24th digit, and lowercase hexadecimal digits elsewhere.
pub open spec fn is_machine_id_format(id: Seq<char>) -> bool {
    &&& id.len() == 35
    &&& forall|i: int|
        0 <= i < 35 ==> (if i == 8 || i == 17 || i == 26 {
            #[trigger] id[i] == '-'
        } else {
            exists|v: int| 0 <= v < 16 && id[i] == hex_digit(v)
        })
}

fn push_range(out: &mut String, chars: &Vec<char>, from: usize, to: usize)
    requires
        from <= to <= chars@.len(),
    ensures
        final(out)@ == old(out)@ + chars@.subrange(from as int, to as int),
{
    let mut i = from;
    while i < to
        invariant
            from <= i <= to <= chars@.len(),
            out@ == old(out)@ + chars@.subrange(from as int, i as int),
        decreases to - i,
    {
        out.push(chars[i]);
        i = i + 1;
        proof {
            assert(out@ =~= old(out)@ + chars@.subrange(from as int, i as int));
        }
    }
}

/// Format the first 32 hex characters as `XXXXXXXX-XXXXXXXX-XXXXXXXX-XXXXXXXX`.
pub fn group_id(hex: &str) -> (id: String)
    requires
        hex@.len() >= 32,
    ensures
        id@ == spec_group_id(hex@),
{
    let chars = chars_of(hex);
    let mut id = String::new();
    push_range(&mut id, &chars, 0, 8);
    id.push('-');
    push_range(&mut id, &chars, 8, 16);
    id.push('-');
    push_range(&mut id, &chars, 16, 24);
    id.push('-');
    push_range(&mut id, &chars, 24, 32);
    proof {
        assert(id@ =~= spec_group_id(hex@));
    }
    id
}

/// The machine identifier of a fingerprint: SHA-256, hex encoded, grouped.
pub fn machine_id_from_bytes(data: &[u8]) -> (id: String)
    ensures
        id@ == spec_machine_id(data@),
        is_machine_id_format(id@),
{
    let digest = sha256(data);
    let hex = hex_encode(digest.as_slice());
    proof {
        lemma_hex_shape(digest@);
    }
    let id = group_id(hex.as_str());
    proof {
        let h = spec_hex(digest@);
        assert forall|i: int| 0 <= i < 35 implies (if i == 8 || i == 17 || i == 26 {
            #[trigger] id@[i] == '-'
        } else {
            exists|v: int| 0 <= v < 16 && id@[i] == hex_digit(v)
        }) by {
            if i < 8 {
                assert(id@[i] == h[i]);
            } else if 8 < i < 17 {
                assert(id@[i] == h[i - 1]);
            } else if 17 < i < 26 {
                assert(id@[i] == h[i - 2]);
            } else if 26 < i {
                assert(id@[i] == h[i - 3]);
            }
        }
    }
    id
}

/// The bytes of the fallback fingerprint: the UTF-8 text of the host name,
/// the home directory and the data directory, those that are known, then a
/// fixed salt.
pub open spec fn fallback_fingerprint(
    hostname: Option<Seq<char>>,
    home: Option<Seq<char>>,
    data_dir: Option<Seq<char>>,
) -> Seq<u8> {
    optional_utf8(hostname) + optional_utf8(home) + optional_utf8(data_dir) + encode_utf8(
        "steam-box-salt-v1"@,
    )
}

/// The UTF-8 bytes of an optional text; nothing when it is absent.
pub open spec fn optional_utf8(s: Option<Seq<char>>) -> Seq<u8> {
    match s {
        Some(t) => encode_utf8(t),
        None => seq![],
    }
}

fn push_optional_bytes(out: &mut Vec<u8>, s: &Option<String>)
    ensures
        final(out)@ == old(out)@ + optional_utf8(opt_view(*s)),
{
    if let Some(t) = s {
        out.extend_from_slice(t.as_str().as_bytes());
    } else {
        assert(out@ =~= old(out)@ + optional_utf8(opt_view(*s)));
    }
}

/// The cross-platform machine identifier, made from the host name, the home
/// directory and the data directory.
pub fn fallback_machine_id(hostname: &Option<String>, home: &Option<String>, data_dir: &Option<String>) -> (id: String)
    ensures
        id@ == spec_machine_id(
            fallback_fingerprint(opt_view(*hostname), opt_view(*home), opt_view(*data_dir)),
        ),
        is_machine_id_format(id@),
        id@ == spec_group_id(
            spec_hex(
                sha256_digest(
                    (match *hostname {
                        Some(t) => encode_utf8(t@),
                        None => seq![],
                    }) + (match *home {
                        Some(t) => encode_utf8(t@),
                        None => seq![],
                    }) + (match *data_dir {
                        Some(t) => encode_utf8(t@),
                        None => seq![],
                    }) + encode_utf8("steam-box-salt-v1"@),
                ),
            ),
        ),
{
    let mut bytes: Vec<u8> = Vec::new();
    push_optional_bytes(&mut bytes, hostname);
    push_optional_bytes(&mut bytes, home);
    push_optional_bytes(&mut bytes, data_dir);
    bytes.extend_from_slice("steam-box-salt-v1".as_bytes());
    proof {
        assert(bytes@ =~= fallback_fingerprint(
            opt_view(*hostname),
            opt_view(*home),
            opt_view(*data_dir),
        ));
    }
    machine_id_from_bytes(bytes.as_slice())
}

/// The texts of a list, one after the other.
pub open spec fn concat_all(texts: Seq<Seq<char>>) -> Seq<char>
    decreases texts.len(),
{
    if texts.len() == 0 {
        seq![]
    } else {
        concat_all(texts.drop_last()) + texts.last()
    }
}

/// The machine identifier made from hardware serial numbers (base board, then
/// fixed disks); an error when there are none or they are all empty.
pub fn hardware_machine_id(serials: &Vec<String>) -> (r: Result<String, String>)
    ensures
        concat_all(views(serials@)).len() == 0 ==> (r matches Err(m) && m@
            == "No hardware serials found via WMI"@),
        concat_all(views(serials@)).len() > 0 ==> (r matches Ok(id) && id@ == spec_machine_id(
            encode_utf8(concat_all(views(serials@))),
        ) && is_machine_id_format(id@)),
{
    let mut combined = String::new();
    let n = serials.len();
    let mut i: usize = 0;
    while i < n
        invariant
            n == serials@.len(),
            i <= n,
            combined@ == concat_all(views(serials@).take(i as int)),
        decreases n - i,
    {
        combined.append(serials[i].as_str());
        proof {
            assert(views(serials@).take(i as int + 1).drop_last() =~= views(serials@).take(i as int));
        }
        i = i + 1;
    }
    proof {
        assert(views(serials@).take(n as int) =~= views(serials@));
    }
    if combined.as_str().is_empty() {
        return Err(String::from_str("No hardware serials found via WMI"));
    }
    Ok(machine_id_from_bytes(combined.as_str().as_bytes()))
}

/// The machine identifier made from the Windows `ComputerHardwareId`.
pub fn registry_machine_id(hardware_id: &str) -> (id: String)
    ensures
        id@ == spec_machine_id(encode_utf8(hardware_id@)),
        is_machine_id_format(id@),
{
    machine_id_from_bytes(hardware_id.as_bytes())
}

/// What the machine offers to identify it: hardware serial numbers (when they
/// could be queried), the hardware identifier of the registry (when it could
/// be read), the host name and the home and data directories.
pub struct MachineSources {
    pub hardware_serials: Option<Vec<String>>,
    pub hardware_id: Option<String>,
    pub hostname: Option<String>,
    pub home: Option<String>,
    pub data_dir: Option<String>,
}

/// The machine identifier that `compute_machine_id_inner` picks from its sources.
pub open spec fn spec_compute_machine_id(s: MachineSources) -> Seq<char> {
    if s.hardware_serials is Some && concat_all(views(s.hardware_serials->0@)).len() > 0 {
        spec_machine_id(encode_utf8(concat_all(views(s.hardware_serials->0@))))
    } else if s.hardware_id is Some {
        spec_machine_id(encode_utf8(s.hardware_id->0@))
    } else {
        spec_machine_id(
            fallback_fingerprint(opt_view(s.hostname), opt_view(s.home), opt_view(s.data_dir)),
        )
    }
}

/// Without hardware serial numbers or a registry hardware identifier, the
/// machine identifier is the SHA-256 digest of the UTF-8 bytes of the host
/// name, then the home directory, then the data directory (those present),
/// then `steam-box-salt-v1`, in lowercase hexadecimal, its first 32 digits in
/// four dash-separated groups of eight.
pub proof fn lemma_fallback_machine_id(s: MachineSources)
    requires
        s.hardware_serials is None,
        s.hardware_id is None,
    ensures
        ({
            let hex = spec_hex(
                sha256_digest(
                    (match s.hostname {
                        Some(t) => encode_utf8(t@),
                        None => seq![],
                    }) + (match s.home {
                        Some(t) => encode_utf8(t@),
                        None => seq![],
                    }) + (match s.data_dir {
                        Some(t) => encode_utf8(t@),
                        None => seq![],
                    }) + encode_utf8("steam-box-salt-v1"@),
                ),
            );
            spec_compute_machine_id(s) == hex.subrange(0, 8) + seq!['-'] + hex.subrange(8, 16)
                + seq!['-'] + hex.subrange(16, 24) + seq!['-'] + hex.subrange(24, 32)
        }),
{
}

/// Compute the machine identifier: from hardware serial numbers first, then
/// the registry's hardware identifier, then the host name and directories.
pub fn compute_machine_id_inner(sources: &MachineSources) -> (id: String)
    ensures
        id@ == spec_compute_machine_id(*sources),
        is_machine_id_format(id@),
        sources.hardware_serials is None && sources.hardware_id is None ==> ({
            let hex = spec_hex(
                sha256_digest(
                    (match sources.hostname {
                        Some(t) => encode_utf8(t@),
                        None => seq![],
                    }) + (match sources.home {
                        Some(t) => encode_utf8(t@),
                        None => seq![],
                    }) + (match sources.data_dir {
                        Some(t) => encode_utf8(t@),
                        None => seq![],
                    }) + encode_utf8("steam-box-salt-v1"@),
                ),
            );
            id@ == hex.subrange(0, 8) + seq!['-'] + hex.subrange(8, 16) + seq!['-'] + hex.subrange(
                16,
                24,
            ) + seq!['-'] + hex.subrange(24, 32)
        }),
{
    proof {
        if sources.hardware_serials is None && sources.hardware_id is None {
            lemma_fallback_machine_id(*sources);
        }
    }
    if let Some(serials) = &sources.hardware_serials {
        if let Ok(id) = hardware_machine_id(serials) {
            return id;
        }
    }
    if let Some(hw) = &sources.hardware_id {
        return registry_machine_id(hw.as_str());
    }
    fallback_machine_id(&sources.hostname, &sources.home, &sources.data_dir)
}

} // verus!
