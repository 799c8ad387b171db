//! The VS_VERSIONINFO structure that Windows reads the version, the company
//! and the copyright of an executable from.
use crate::bytes::{
    le16, le32, lemma_le16_read, lemma_le32_read, lemma_padded_len, lemma_words_le_len, pad4,
    pad_len, padded, push_bytes, push_le16, push_le32, push_words, to_wide, u16_at, u32_at, wide,
    wide_bytes,
};
use crate::queue::job::BuildManifest;
use crate::text::{
    cat2, or_text, parse_unsigned, pieces, split_text, text_or, texts,
    unsigned_value,
};
use vstd::prelude::*;

verus! {

/// A structure with its length in its first two bytes.
pub open spec fn sealed(b: Seq<u8>) -> Seq<u8> {
    le16(b.len()) + b.skip(2)
}

/// What a node of the structure begins with: room for its length, the length
/// of its value, its type (1 for text, 0 for binary), and its key, padded.
pub open spec fn node_head(key: Seq<char>, value_len: nat, is_text: bool) -> Seq<u8> {
    padded(
        seq![0u8, 0u8] + le16(value_len) + le16(
            if is_text {
                1
            } else {
                0
            },
        ) + wide_bytes(key),
    )
}

/// A string entry: its length, the length of its value in words, the type for
/// text, the key, padded, and the value, padded.
pub open spec fn version_string(key: Seq<char>, value: Seq<char>) -> Seq<u8> {
    sealed(padded(node_head(key, wide(value).len(), true) + wide_bytes(value)))
}

/// A node: its length, the length of its value (in words for text), its type,
/// the key, padded, the value, padded, and the children, padded.
#[verifier::opaque]
pub open spec fn version_node(
    key: Seq<char>,
    value: Seq<u8>,
    children: Seq<u8>,
    is_text: bool,
) -> Seq<u8> {
    let value_len = if is_text {
        value.len() / 2
    } else {
        value.len()
    };
    sealed(padded(padded(node_head(key, value_len, is_text) + value) + children))
}

/// String entries, one behind the other.
pub open spec fn version_strings(pairs: Seq<(Seq<char>, Seq<char>)>) -> Seq<u8>
    decreases pairs.len(),
{
    if pairs.len() == 0 {
        Seq::empty()
    } else {
        version_strings(pairs.drop_last()) + version_string(pairs.last().0, pairs.last().1)
    }
}

/// The number in the `i`-th place of a dotted version: `default` where there
/// is no such place, or no number of 16 bits in it.
pub open spec fn version_part(version: Seq<char>, i: int, default: nat) -> nat {
    if i < pieces(version, '.').len() {
        match unsigned_value(pieces(version, '.')[i], 65535) {
            Some(n) => n,
            None => default,
        }
    } else {
        default
    }
}

/// VS_FIXEDFILEINFO: thirteen 32-bit numbers, among them the version twice.
pub open spec fn fixed_file_info(major: nat, minor: nat, patch: nat) -> Seq<u8> {
    le32(0xFEEF04BD) + le32(0x00010000) + le32(major * 65536 + minor) + le32(patch * 65536) + le32(
        major * 65536 + minor,
    ) + le32(patch * 65536) + le32(0) + le32(0) + le32(0x00040004) + le32(1) + le32(0) + le32(0)
        + le32(0)
}

/// The strings that describe the executable, in the order of the structure.
pub open spec fn version_pairs(m: BuildManifest) -> Seq<(Seq<char>, Seq<char>)> {
    let company = or_text(m.windows_company_name, ""@);
    let description = or_text(m.windows_file_description, m.app_name@);
    let copyright = or_text(m.windows_copyright, ""@);
    seq![
        ("CompanyName"@, company),
        ("FileDescription"@, description),
        ("FileVersion"@, m.version@),
        ("InternalName"@, m.app_name@),
        ("LegalCopyright"@, copyright),
        ("OriginalFilename"@, m.app_name@ + ".exe"@),
        ("ProductName"@, m.app_name@),
        ("ProductVersion"@, m.version@),
    ]
}

/// The strings, as US English in Unicode.
pub open spec fn string_file_info(m: BuildManifest) -> Seq<u8> {
    version_node(
        "StringFileInfo"@,
        Seq::empty(),
        version_node("040904B0"@, Seq::empty(), version_strings(version_pairs(m)), true),
        true,
    )
}

/// The language and the character set that the strings are in.
pub open spec fn var_file_info() -> Seq<u8> {
    version_node(
        "VarFileInfo"@,
        Seq::empty(),
        version_node("Translation"@, seq![0x09u8, 0x04u8, 0xB0u8, 0x04u8], Seq::empty(), false),
        true,
    )
}

/// The whole structure for a manifest.
pub open spec fn version_info(m: BuildManifest) -> Seq<u8> {
    version_node(
        "VS_VERSION_INFO"@,
        fixed_file_info(
            version_part(m.version@, 0, 1),
            version_part(m.version@, 1, 0),
            version_part(m.version@, 2, 0),
        ),
        string_file_info(m) + var_file_info(),
        false,
    )
}

fn begin_node(key: &str, value_len: u16, is_text: bool) -> (buf: Vec<u8>)
    ensures
        buf@ == node_head(key@, value_len as nat, is_text),
        buf@.len() >= 6,
{
    let mut buf: Vec<u8> = Vec::new();
    buf.push(0);
    buf.push(0);
    assert(buf@ =~= seq![0u8, 0u8]);
    push_le16(&mut buf, value_len);
    push_le16(
        &mut buf,
        if is_text {
            1
        } else {
            0
        },
    );
    let words = to_wide(key);
    push_words(&mut buf, &words);
    pad4(&mut buf);
    buf
}

fn seal(buf: &mut Vec<u8>)
    requires
        old(buf)@.len() >= 2,
    ensures
        final(buf)@ == sealed(old(buf)@),
{
    let n: usize = buf.len();
    buf.set(0, (n % 256) as u8);
    buf.set(1, (n / 256 % 256) as u8);
    assert(buf@ =~= sealed(old(buf)@));
}

/// The lower 16 bits of a length.
fn low16(n: usize) -> (r: u16)
    ensures
        r == n % 65536,
        le16(r as nat) == le16(n as nat),
{
    (n % 65536) as u16
}

proof fn lemma_node_head_low16(key: Seq<char>, n: nat, is_text: bool)
    ensures
        node_head(key, n % 65536, is_text) == node_head(key, n, is_text),
{
    assert(le16(n % 65536) =~= le16(n));
}

/// Build a single String entry within a StringTable.
pub fn build_version_string(key: &str, value: &str) -> (r: Vec<u8>)
    ensures
        r@ == version_string(key@, value@),
{
    let value_words = to_wide(value);
    let mut buf = begin_node(key, low16(value_words.len()), true);
    proof {
        lemma_node_head_low16(key@, wide(value@).len(), true);
    }
    push_words(&mut buf, &value_words);
    pad4(&mut buf);
    seal(&mut buf);
    buf
}

/// Build a version info node (used for VS_VERSION_INFO, StringFileInfo,
/// StringTable, etc.)
pub fn build_version_node(key: &str, value: &[u8], children: &[u8], is_text: bool) -> (r: Vec<u8>)
    ensures
        r@ == version_node(key@, value@, children@, is_text),
{
    proof {
        reveal(version_node);
    }
    // For text nodes, the length of the value is in words
    let value_len: usize = if is_text {
        value.len() / 2
    } else {
        value.len()
    };
    let mut buf = begin_node(key, low16(value_len), is_text);
    proof {
        lemma_node_head_low16(key@, value_len as nat, is_text);
    }
    push_bytes(&mut buf, value);
    pad4(&mut buf);
    push_bytes(&mut buf, children);
    pad4(&mut buf);
    seal(&mut buf);
    buf
}

fn read_part(parts: &Vec<String>, i: usize, default: u16) -> (n: u16)
    ensures
        n == (if i < parts@.len() {
            match unsigned_value(texts(parts@)[i as int], 65535) {
                Some(k) => k,
                None => default as nat,
            }
        } else {
            default as nat
        }),
{
    if i < parts.len() {
        assert(texts(parts@)[i as int] == parts@[i as int]@);
        match parse_unsigned(parts[i].as_str(), 65535) {
            Some(k) => k as u16,
            None => default,
        }
    } else {
        default
    }
}

fn push_pair(buf: &mut Vec<u8>, Ghost(done): Ghost<Seq<(Seq<char>, Seq<char>)>>, key: &str, value: &str)
    requires
        old(buf)@ == version_strings(done),
    ensures
        final(buf)@ == version_strings(done.push((key@, value@))),
{
    let entry = build_version_string(key, value);
    push_bytes(buf, entry.as_slice());
    assert(done.push((key@, value@)).drop_last() =~= done);
}

/// Build a VS_VERSIONINFO binary structure for embedding as RT_VERSION.
/// This is a complex nested structure with UTF-16 strings and alignment padding.
pub fn build_vs_version_info(manifest: &BuildManifest) -> (r: Vec<u8>)
    ensures
        r@ == version_info(*manifest),
{
    let parts = split_text(&manifest.version, '.');
    let major: u16 = read_part(&parts, 0, 1);
    let minor: u16 = read_part(&parts, 1, 0);
    let patch: u16 = read_part(&parts, 2, 0);

    let company_name = text_or(&manifest.windows_company_name, "");
    let file_description = text_or(&manifest.windows_file_description, &manifest.app_name);
    let copyright = text_or(&manifest.windows_copyright, "");
    let file_name = cat2(&manifest.app_name, ".exe");

    let mut strings: Vec<u8> = Vec::new();
    let ghost p0 = Seq::<(Seq<char>, Seq<char>)>::empty();
    push_pair(&mut strings, Ghost(p0), "CompanyName", company_name);
    let ghost p1 = p0.push(("CompanyName"@, company_name@));
    push_pair(&mut strings, Ghost(p1), "FileDescription", file_description);
    let ghost p2 = p1.push(("FileDescription"@, file_description@));
    push_pair(&mut strings, Ghost(p2), "FileVersion", &manifest.version);
    let ghost p3 = p2.push(("FileVersion"@, manifest.version@));
    push_pair(&mut strings, Ghost(p3), "InternalName", &manifest.app_name);
    let ghost p4 = p3.push(("InternalName"@, manifest.app_name@));
    push_pair(&mut strings, Ghost(p4), "LegalCopyright", copyright);
    let ghost p5 = p4.push(("LegalCopyright"@, copyright@));
    push_pair(&mut strings, Ghost(p5), "OriginalFilename", &file_name);
    let ghost p6 = p5.push(("OriginalFilename"@, file_name@));
    push_pair(&mut strings, Ghost(p6), "ProductName", &manifest.app_name);
    let ghost p7 = p6.push(("ProductName"@, manifest.app_name@));
    push_pair(&mut strings, Ghost(p7), "ProductVersion", &manifest.version);
    assert(p7.push(("ProductVersion"@, manifest.version@)) =~= version_pairs(*manifest));

    // StringTable: US English, Unicode
    let none: Vec<u8> = Vec::new();
    let string_table = build_version_node("040904B0", none.as_slice(), strings.as_slice(), true);
    let mut children = build_version_node(
        "StringFileInfo",
        none.as_slice(),
        string_table.as_slice(),
        true,
    );

    // VarFileInfo with the Translation value 0x0409, 0x04B0
    let mut translation: Vec<u8> = Vec::new();
    push_le16(&mut translation, 0x0409);
    push_le16(&mut translation, 0x04B0);
    assert(translation@ =~= seq![0x09u8, 0x04u8, 0xB0u8, 0x04u8]);
    let var = build_version_node("Translation", translation.as_slice(), none.as_slice(), false);
    let var_info = build_version_node("VarFileInfo", none.as_slice(), var.as_slice(), true);
    push_bytes(&mut children, var_info.as_slice());

    let mut ffi: Vec<u8> = Vec::new();
    let version_ms: u32 = major as u32 * 65536 + minor as u32;
    let version_ls: u32 = patch as u32 * 65536;
    push_le32(&mut ffi, 0xFEEF04BD); // dwSignature
    assert(ffi@ =~= le32(0xFEEF04BD));
    push_le32(&mut ffi, 0x00010000); // dwStrucVersion
    push_le32(&mut ffi, version_ms); // dwFileVersionMS
    push_le32(&mut ffi, version_ls); // dwFileVersionLS
    push_le32(&mut ffi, version_ms); // dwProductVersionMS
    push_le32(&mut ffi, version_ls); // dwProductVersionLS
    push_le32(&mut ffi, 0); // dwFileFlagsMask
    push_le32(&mut ffi, 0); // dwFileFlags
    push_le32(&mut ffi, 0x00040004); // dwFileOS = VOS_NT_WINDOWS32
    push_le32(&mut ffi, 1); // dwFileType = VFT_APP
    push_le32(&mut ffi, 0); // dwFileSubtype
    push_le32(&mut ffi, 0); // dwFileDateMS
    push_le32(&mut ffi, 0); // dwFileDateLS

    build_version_node("VS_VERSION_INFO", ffi.as_slice(), children.as_slice(), false)
}

/// Every node is as long as its first two bytes say, modulo 2^16, and ends at
/// a multiple of four.
pub proof fn lemma_node_knows_its_length(
    key: Seq<char>,
    value: Seq<u8>,
    children: Seq<u8>,
    is_text: bool,
)
    ensures
        version_node(key, value, children, is_text).len() % 4 == 0,
        u16_at(version_node(key, value, children, is_text), 0) == version_node(
            key,
            value,
            children,
            is_text,
        ).len() % 65536,
{
    reveal(version_node);
    let value_len = if is_text {
        value.len() / 2
    } else {
        value.len()
    };
    let inner = padded(node_head(key, value_len, is_text) + value) + children;
    lemma_words_le_len(wide(key));
    lemma_padded_len(inner);
    let node = version_node(key, value, children, is_text);
    assert(node.len() == padded(inner).len());
    assert(node.subrange(0, 2) =~= le16(node.len()));
    lemma_le16_read(node, 0, node.len());
}

/// Where the value of a string entry begins: at the first multiple of four
/// behind its key.
pub open spec fn value_at(key: Seq<char>) -> int {
    6int + wide_bytes(key).len() + pad_len(6 + wide_bytes(key).len())
}

/// Every string entry is as long as its first two bytes say, modulo 2^16, and
/// ends at a multiple of four. Its value stands, in UTF-16 and with a zero
/// word behind it, at the first multiple of four behind its key.
pub proof fn lemma_string_entry_holds_its_value(key: Seq<char>, value: Seq<char>)
    ensures
        version_string(key, value).len() % 4 == 0,
        u16_at(version_string(key, value), 0) == version_string(key, value).len() % 65536,
        u16_at(version_string(key, value), 2) == wide(value).len() % 65536,
        version_string(key, value).subrange(6, 6int + wide_bytes(key).len()) == wide_bytes(key),
        value_at(key) % 4 == 0,
        version_string(key, value).subrange(
            value_at(key),
            value_at(key) + wide_bytes(value).len(),
        ) == wide_bytes(value),
{
    let entry = version_string(key, value);
    let raw = seq![0u8, 0u8] + le16(wide(value).len()) + le16(1) + wide_bytes(key);
    let head = node_head(key, wide(value).len(), true);
    let inner = head + wide_bytes(value);
    assert(raw.len() == 6 + wide_bytes(key).len());
    lemma_padded_len(raw);
    lemma_padded_len(inner);
    assert(entry.subrange(0, 2) =~= le16(entry.len()));
    lemma_le16_read(entry, 0, entry.len());
    assert(entry.subrange(2, 4) =~= le16(wide(value).len()));
    lemma_le16_read(entry, 2, wide(value).len());
    assert(entry.subrange(6, 6int + wide_bytes(key).len()) =~= wide_bytes(key));
    let at = value_at(key);
    assert(entry.subrange(at, at + wide_bytes(value).len()) =~= wide_bytes(value));
}

/// Every node says how long its value is, modulo 2^16, and holds it at the
/// first multiple of four behind its key.
pub proof fn lemma_node_holds_its_value(
    key: Seq<char>,
    value: Seq<u8>,
    children: Seq<u8>,
    is_text: bool,
)
    ensures
        value_at(key) % 4 == 0,
        value_at(key) + value.len() <= version_node(key, value, children, is_text).len(),
        version_node(key, value, children, is_text).subrange(
            value_at(key),
            value_at(key) + value.len(),
        ) == value,
        u16_at(version_node(key, value, children, is_text), 2) == (if is_text {
            value.len() / 2
        } else {
            value.len()
        }) % 65536,
{
    reveal(version_node);
    let value_len = if is_text {
        value.len() / 2
    } else {
        value.len()
    };
    let kind: nat = if is_text {
        1
    } else {
        0
    };
    let raw = seq![0u8, 0u8] + le16(value_len) + le16(kind) + wide_bytes(key);
    let head = node_head(key, value_len, is_text);
    assert(head == padded(raw));
    assert(raw.len() == 6 + wide_bytes(key).len());
    lemma_padded_len(raw);
    let first = head + value;
    let inner = padded(first) + children;
    let node = version_node(key, value, children, is_text);
    assert(node.len() == padded(inner).len());
    assert(node.subrange(2, 4) =~= le16(value_len)) by {
        assert(node[2] == raw[2]);
        assert(node[3] == raw[3]);
    }
    lemma_le16_read(node, 2, value_len);
    let at = value_at(key);
    assert forall|i: int| 0 <= i < value.len() implies node[at + i] == #[trigger] value[i] by {
        assert(node[at + i] == first[at + i]);
    }
    assert(node.subrange(at, at + value.len()) =~= value);
}

proof fn lemma_fixed_file_info_shape(major: nat, minor: nat, patch: nat)
    ensures
        fixed_file_info(major, minor, patch).len() == 52,
        fixed_file_info(major, minor, patch).subrange(0, 4) == le32(0xFEEF04BD),
        fixed_file_info(major, minor, patch).subrange(8, 12) == le32(major * 65536 + minor),
        fixed_file_info(major, minor, patch).subrange(12, 16) == le32(patch * 65536),
{
    let ffi = fixed_file_info(major, minor, patch);
    assert(ffi.subrange(0, 4) =~= le32(0xFEEF04BD));
    assert(ffi.subrange(8, 12) =~= le32(major * 65536 + minor));
    assert(ffi.subrange(12, 16) =~= le32(patch * 65536));
}

proof fn lemma_read_inside(info: Seq<u8>, part: Seq<u8>, at: int, k: int, n: nat)
    requires
        0 <= at,
        at + part.len() <= info.len(),
        info.subrange(at, at + part.len()) == part,
        0 <= k,
        k + 4 <= part.len(),
        part.subrange(k, k + 4) == le32(n),
    ensures
        u32_at(info, at + k) == n % 0x1_0000_0000,
{
    assert(info.subrange(at + k, at + k + 4) =~= info.subrange(at, at + part.len()).subrange(
        k,
        k + 4,
    ));
    lemma_le32_read(info, at + k, n);
}

proof fn lemma_version_part_bound(version: Seq<char>, i: int, default: nat)
    requires
        default <= 65535,
    ensures
        version_part(version, i, default) <= 65535,
{
}

pub(crate) proof fn lemma_version_info_key()
    ensures
        value_at("VS_VERSION_INFO"@) == 40,
{
    let key = "VS_VERSION_INFO"@;
    reveal_strlit("VS_VERSION_INFO");
    lemma_words_le_len(wide(key));
    lemma_ascii_utf16_len(key);
}

proof fn lemma_fixed_info_node(
    key: Seq<char>,
    ffi: Seq<u8>,
    children: Seq<u8>,
    version_ms: nat,
    version_ls: nat,
)
    requires
        value_at(key) == 40,
        ffi.len() == 52,
        ffi.subrange(0, 4) == le32(0xFEEF04BD),
        ffi.subrange(8, 12) == le32(version_ms),
        ffi.subrange(12, 16) == le32(version_ls),
        version_ms < 0x1_0000_0000,
        version_ls < 0x1_0000_0000,
    ensures
        version_node(key, ffi, children, false).len() % 4 == 0,
        version_node(key, ffi, children, false).len() >= 92,
        u16_at(version_node(key, ffi, children, false), 0) == version_node(
            key,
            ffi,
            children,
            false,
        ).len() % 65536,
        u16_at(version_node(key, ffi, children, false), 2) == 52,
        u32_at(version_node(key, ffi, children, false), 40) == 0xFEEF04BD,
        u32_at(version_node(key, ffi, children, false), 48) == version_ms,
        u32_at(version_node(key, ffi, children, false), 52) == version_ls,
{
    let info = version_node(key, ffi, children, false);
    lemma_node_knows_its_length(key, ffi, children, false);
    lemma_node_holds_its_value(key, ffi, children, false);
    lemma_read_inside(info, ffi, 40, 0, 0xFEEF04BD);
    lemma_read_inside(info, ffi, 40, 8, version_ms);
    lemma_read_inside(info, ffi, 40, 12, version_ls);
}

/// Of every manifest: the structure is as long as its first two bytes say,
/// modulo 2^16, and the fixed information, with its signature and the version
/// of the manifest, stands 40 bytes from its start.
pub proof fn lemma_version_info_shape(m: BuildManifest)
    ensures
        version_info(m).len() % 4 == 0,
        version_info(m).len() >= 92,
        u16_at(version_info(m), 0) == version_info(m).len() % 65536,
        u16_at(version_info(m), 2) == 52,
        u32_at(version_info(m), 40) == 0xFEEF04BD,
        u32_at(version_info(m), 48) == version_part(m.version@, 0, 1) * 65536 + version_part(
            m.version@,
            1,
            0,
        ),
        u32_at(version_info(m), 52) == version_part(m.version@, 2, 0) * 65536,
{
    let major = version_part(m.version@, 0, 1);
    let minor = version_part(m.version@, 1, 0);
    let patch = version_part(m.version@, 2, 0);
    lemma_version_part_bound(m.version@, 0, 1);
    lemma_version_part_bound(m.version@, 1, 0);
    lemma_version_part_bound(m.version@, 2, 0);
    lemma_fixed_file_info_shape(major, minor, patch);
    lemma_version_info_key();
    lemma_fixed_info_node(
        "VS_VERSION_INFO"@,
        fixed_file_info(major, minor, patch),
        string_file_info(m) + var_file_info(),
        major * 65536 + minor,
        patch * 65536,
    );
}

proof fn lemma_ascii_utf16_len(s: Seq<char>)
    requires
        forall|i: int| 0 <= i < s.len() ==> (#[trigger] s[i] as u32) < 128,
    ensures
        crate::bytes::utf16(s).len() == s.len(),
    decreases s.len(),
{
    if s.len() > 0 {
        lemma_ascii_utf16_len(s.drop_last());
        assert((s.last() as u32) < 128);
    }
}

} // verus!
