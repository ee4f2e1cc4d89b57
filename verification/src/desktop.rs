//! The freedesktop integration files that register the `eveauth-pod` scheme handler and the
//! pack-file types, and the name of the single-instance socket.

use vstd::prelude::*;
use vstd::string::StringSliceAdditionalSpecFns;
use crate::deep_link::SCHEME;
use crate::text::push_str;
use crate::text::string_from_chars;

verus! {

/// The application id the desktop and MIME files are named after.
pub const APP_ID: &'static str = "dev.aaronmallen.pod";

/// A pack file type the app opens.
#[derive(Clone, Copy, Debug)]
pub struct PackType {
    pub comment: &'static str,
    pub extension: &'static str,
    pub mime_type: &'static str,
}

/// The three pack types: budget rules, facility intel, skill plans.
pub open spec fn pack_types() -> Seq<(Seq<char>, Seq<char>, Seq<char>)> {
    seq![
        ("Pod Budget Rules Pack"@, "pbr"@, "application/x-pod-budget-rules"@),
        ("Pod Facility Intel Pack"@, "pfi"@, "application/x-pod-facility-intel"@),
        ("Pod Skill Plan Pack"@, "psp"@, "application/x-pod-skill-plan"@),
    ]
}

pub open spec fn pack_view(p: PackType) -> (Seq<char>, Seq<char>, Seq<char>) {
    (p.comment@, p.extension@, p.mime_type@)
}

/// The pack file types, in registration order.
pub fn pack_type_list() -> (r: Vec<PackType>)
    ensures
        r@.map_values(|p: PackType| pack_view(p)) == pack_types(),
{
    let r = vec![
        PackType {
            comment: "Pod Budget Rules Pack",
            extension: "pbr",
            mime_type: "application/x-pod-budget-rules",
        },
        PackType {
            comment: "Pod Facility Intel Pack",
            extension: "pfi",
            mime_type: "application/x-pod-facility-intel",
        },
        PackType {
            comment: "Pod Skill Plan Pack",
            extension: "psp",
            mime_type: "application/x-pod-skill-plan",
        },
    ];
    assert(r@.map_values(|p: PackType| pack_view(p)) =~= pack_types());
    r
}

/// Each pack MIME type followed by `;`.
pub open spec fn mime_types_list(packs: Seq<(Seq<char>, Seq<char>, Seq<char>)>) -> Seq<char>
    decreases packs.len(),
{
    if packs.len() == 0 {
        seq![]
    } else {
        mime_types_list(packs.drop_last()) + packs.last().2 + ";"@
    }
}

/// The `MimeType=` line: the scheme handler, then each pack MIME type, each ending in `;`.
pub open spec fn spec_mime_type_line() -> Seq<char> {
    "MimeType=x-scheme-handler/"@ + SCHEME@ + ";"@ + mime_types_list(pack_types())
}

/// The shared-mime-info definition of each pack type.
pub open spec fn mime_type_entries(packs: Seq<(Seq<char>, Seq<char>, Seq<char>)>) -> Seq<char>
    decreases packs.len(),
{
    if packs.len() == 0 {
        seq![]
    } else {
        let p = packs.last();
        mime_type_entries(packs.drop_last()) + "  <mime-type type=\""@ + p.2 + "\">\n"@
            + "    <comment>"@ + p.0 + "</comment>\n"@ + "    <glob pattern=\"*."@ + p.1
            + "\"/>\n"@ + "  </mime-type>\n"@
    }
}

/// The shared-mime-info package file that defines the pack types.
pub open spec fn spec_mime_info() -> Seq<char> {
    "<?xml version=\"1.0\" encoding=\"UTF-8\"?>\n"@
        + "<mime-info xmlns=\"http://www.freedesktop.org/standards/shared-mime-info\">\n"@
        + mime_type_entries(pack_types()) + "</mime-info>\n"@
}

/// The desktop entry that registers `exec` as the handler of the scheme and the pack types.
pub open spec fn spec_desktop_entry(exec: Seq<char>) -> Seq<char> {
    "[Desktop Entry]\n"@ + "Type=Application\n"@ + "Name=Pod\n"@ + "Exec="@ + exec + " %u\n"@
        + "NoDisplay=true\n"@ + "StartupNotify=false\n"@ + spec_mime_type_line() + "\n"@
}

fn push_mime_types(v: &mut Vec<char>)
    ensures
        final(v)@ == old(v)@ + mime_types_list(pack_types()),
{
    let packs = pack_type_list();
    let ghost start = v@;
    let ghost views = packs@.map_values(|p: PackType| pack_view(p));
    let mut i: usize = 0;
    while i < packs.len()
        invariant
            i <= packs.len(),
            views == packs@.map_values(|p: PackType| pack_view(p)),
            views == pack_types(),
            v@ == start + mime_types_list(views.take(i as int)),
        decreases packs.len() - i,
    {
        assert(views.take(i + 1).drop_last() =~= views.take(i as int));
        assert(views.take(i + 1).last() == pack_view(packs@[i as int]));
        push_str(v, packs[i].mime_type);
        push_str(v, ";");
        assert(v@ =~= start + mime_types_list(views.take(i + 1)));
        i = i + 1;
    }
    assert(views.take(packs.len() as int) =~= views);
}

/// The `MimeType=` line of the desktop entry.
pub fn mime_type_line() -> (r: String)
    ensures
        r@ == spec_mime_type_line(),
{
    let mut v: Vec<char> = Vec::new();
    push_str(&mut v, "MimeType=x-scheme-handler/");
    push_str(&mut v, SCHEME);
    push_str(&mut v, ";");
    push_mime_types(&mut v);
    assert(v@ =~= spec_mime_type_line());
    string_from_chars(&v)
}

/// The shared-mime-info package file that defines the pack types.
pub fn mime_info() -> (r: String)
    ensures
        r@ == spec_mime_info(),
{
    let packs = pack_type_list();
    let ghost views = packs@.map_values(|p: PackType| pack_view(p));
    let mut v: Vec<char> = Vec::new();
    push_str(&mut v, "<?xml version=\"1.0\" encoding=\"UTF-8\"?>\n");
    push_str(&mut v, "<mime-info xmlns=\"http://www.freedesktop.org/standards/shared-mime-info\">\n");
    let ghost head = v@;
    let mut i: usize = 0;
    while i < packs.len()
        invariant
            i <= packs.len(),
            views == packs@.map_values(|p: PackType| pack_view(p)),
            views == pack_types(),
            v@ == head + mime_type_entries(views.take(i as int)),
        decreases packs.len() - i,
    {
        assert(views.take(i + 1).drop_last() =~= views.take(i as int));
        assert(views.take(i + 1).last() == pack_view(packs@[i as int]));
        let pack = packs[i];
        push_str(&mut v, "  <mime-type type=\"");
        push_str(&mut v, pack.mime_type);
        push_str(&mut v, "\">\n");
        push_str(&mut v, "    <comment>");
        push_str(&mut v, pack.comment);
        push_str(&mut v, "</comment>\n");
        push_str(&mut v, "    <glob pattern=\"*.");
        push_str(&mut v, pack.extension);
        push_str(&mut v, "\"/>\n");
        push_str(&mut v, "  </mime-type>\n");
        assert(v@ =~= head + mime_type_entries(views.take(i + 1)));
        i = i + 1;
    }
    assert(views.take(packs.len() as int) =~= views);
    push_str(&mut v, "</mime-info>\n");
    assert(v@ =~= spec_mime_info());
    string_from_chars(&v)
}

/// The desktop entry that registers `exec` as the handler of the scheme and the pack types.
pub fn desktop_entry(exec: &str) -> (r: String)
    ensures
        r@ == spec_desktop_entry(exec@),
{
    let mut v: Vec<char> = Vec::new();
    push_str(&mut v, "[Desktop Entry]\n");
    push_str(&mut v, "Type=Application\n");
    push_str(&mut v, "Name=Pod\n");
    push_str(&mut v, "Exec=");
    push_str(&mut v, exec);
    push_str(&mut v, " %u\n");
    push_str(&mut v, "NoDisplay=true\n");
    push_str(&mut v, "StartupNotify=false\n");
    let line = mime_type_line();
    push_str(&mut v, line.as_str());
    push_str(&mut v, "\n");
    assert(v@ =~= spec_desktop_entry(exec@));
    string_from_chars(&v)
}

/// The file name of the desktop entry.
pub fn desktop_file_name() -> (r: String)
    ensures
        r@ == APP_ID@ + ".desktop"@,
{
    let mut v: Vec<char> = Vec::new();
    push_str(&mut v, APP_ID);
    push_str(&mut v, ".desktop");
    string_from_chars(&v)
}

/// The file name of the shared-mime-info package.
pub fn mime_file_name() -> (r: String)
    ensures
        r@ == APP_ID@ + ".xml"@,
{
    let mut v: Vec<char> = Vec::new();
    push_str(&mut v, APP_ID);
    push_str(&mut v, ".xml");
    string_from_chars(&v)
}

/// The SHA-256 digest of `data`.
pub uninterp spec fn sha256(data: Seq<u8>) -> Seq<u8>;

/// Wraps sha2's `Sha256::digest`: the result is named by `sha256` of the input bytes, and is
/// the 32-byte digest that `Sha256`'s output size fixes.
#[verifier::external_body]
fn sha256_digest(data: &[u8]) -> (r: Vec<u8>)
    ensures
        r@ == sha256(data@),
        r@.len() == 32,
{
    <sha2::Sha256 as sha2::Digest>::digest(data).to_vec()
}

pub open spec fn hex_char(d: nat) -> char {
    if d < 10 {
        crate::text::digit_char(d)
    } else if d == 10 {
        'a'
    } else if d == 11 {
        'b'
    } else if d == 12 {
        'c'
    } else if d == 13 {
        'd'
    } else if d == 14 {
        'e'
    } else {
        'f'
    }
}

/// Two lowercase hex digits per byte, as `{:02x}` writes them.
pub open spec fn hex_lower(bytes: Seq<u8>) -> Seq<char>
    decreases bytes.len(),
{
    if bytes.len() == 0 {
        seq![]
    } else {
        hex_lower(bytes.drop_last()) + seq![
            hex_char((bytes.last() / 16) as nat),
            hex_char((bytes.last() % 16) as nat),
        ]
    }
}

fn hex_of(d: u8) -> (c: char)
    requires
        d < 16,
    ensures
        c == hex_char(d as nat),
{
    if d < 10 {
        crate::text::digit_of(d as u64)
    } else if d == 10 {
        'a'
    } else if d == 11 {
        'b'
    } else if d == 12 {
        'c'
    } else if d == 13 {
        'd'
    } else if d == 14 {
        'e'
    } else {
        'f'
    }
}

/// The single-instance socket's file name for a data directory: `pod-deeplink-`, the first
/// eight bytes of the SHA-256 of the directory path in lowercase hex, then `.sock`.
pub fn socket_file_name(data_dir: &str) -> (r: String)
    ensures
        r@ == "pod-deeplink-"@ + hex_lower(sha256(data_dir.spec_bytes()).take(8)) + ".sock"@,
{
    let digest = sha256_digest(data_dir.as_bytes());
    let mut v: Vec<char> = Vec::new();
    push_str(&mut v, "pod-deeplink-");
    let ghost head = v@;
    let mut i: usize = 0;
    while i < 8
        invariant
            i <= 8,
            digest@.len() == 32,
            v@ == head + hex_lower(digest@.take(i as int)),
        decreases 8 - i,
    {
        let byte = digest[i];
        assert(digest@.take(i + 1).drop_last() =~= digest@.take(i as int));
        assert(digest@.take(i + 1).last() == byte);
        v.push(hex_of(byte / 16));
        v.push(hex_of(byte % 16));
        assert(v@ =~= head + hex_lower(digest@.take(i + 1)));
        i = i + 1;
    }
    push_str(&mut v, ".sock");
    string_from_chars(&v)
}

} // verus!
