use vstd::prelude::*;
use crate::constants::{
    ALLEGRO_VERSION, ALLEGRO_SUB_VERSION, ALLEGRO_WIP_VERSION, ALLEGRO_RELEASE_NUMBER,
};

verus! {

/// The four parts of an Allegro version number, as `al_get_allegro_version`
/// packs them: major in the top byte, then minor, revision and release.
#[derive(Clone, Copy, Debug, PartialEq, Eq, Structural)]
pub struct VersionInfo {
    pub major: u32,
    pub minor: u32,
    pub revision: u32,
    pub release: u32,
}

impl VersionInfo {
    /// Every part fits in the byte that the packed form gives it.
    pub open spec fn wf(self) -> bool {
        &&& self.major < 256
        &&& self.minor < 256
        &&& self.revision < 256
        &&& self.release < 256
    }

    /// The packed form: `major << 24 | minor << 16 | revision << 8 | release`.
    pub open spec fn packed(self) -> int {
        self.major * 0x1000000 + self.minor * 0x10000 + self.revision * 0x100 + self.release
    }
}

/// The parts of a packed version number.
pub open spec fn unpacked(version: u32) -> VersionInfo {
    VersionInfo {
        major: (version / 0x1000000) as u32,
        minor: ((version / 0x10000) % 256) as u32,
        revision: ((version / 0x100) % 256) as u32,
        release: (version % 256) as u32,
    }
}

/// Splits a packed version number into its four parts, as the start-up code
/// does with the version that the system library reports.
pub fn decode_version(version: u32) -> (r: VersionInfo)
    ensures
        r == unpacked(version),
        r.wf(),
        r.major == version >> 24u32,
        r.minor == (version >> 16u32) & 255u32,
        r.revision == (version >> 8u32) & 255u32,
        r.release == version & 255u32,
{
    let major = version >> 24;
    let minor = (version >> 16) & 255;
    let revision = (version >> 8) & 255;
    let release = version & 255;
    assert(major == version / 0x1000000) by (bit_vector)
        requires major == version >> 24;
    assert(minor == (version / 0x10000) % 256) by (bit_vector)
        requires minor == (version >> 16) & 255;
    assert(revision == (version / 0x100) % 256) by (bit_vector)
        requires revision == (version >> 8) & 255;
    assert(release == version % 256) by (bit_vector)
        requires release == version & 255;
    assert(major < 256) by (bit_vector)
        requires major == version >> 24;
    VersionInfo { major, minor, revision, release }
}

/// Packs four version parts into one number, the form that
/// `al_install_system` expects and `al_get_allegro_version` reports.
pub fn encode_version(v: VersionInfo) -> (r: u32)
    requires
        v.wf(),
    ensures
        r == v.packed(),
        r == (v.major << 24u32) | (v.minor << 16u32) | (v.revision << 8u32) | v.release,
        r >> 24u32 == v.major,
        (r >> 16u32) & 255u32 == v.minor,
        (r >> 8u32) & 255u32 == v.revision,
        r & 255u32 == v.release,
{
    let (a, b, c, d) = (v.major, v.minor, v.revision, v.release);
    let r = (a << 24) | (b << 16) | (c << 8) | d;
    assert(r == a * 0x1000000 + b * 0x10000 + c * 0x100 + d) by (bit_vector)
        requires
            a < 256, b < 256, c < 256, d < 256,
            r == (a << 24) | (b << 16) | (c << 8) | d;
    assert(r >> 24u32 == a && (r >> 16u32) & 255u32 == b && (r >> 8u32) & 255u32 == c
        && r & 255u32 == d) by (bit_vector)
        requires
            a < 256, b < 256, c < 256, d < 256,
            r == (a << 24) | (b << 16) | (c << 8) | d;
    r
}

/// The version of the Allegro headers that this binding was written for.
pub open spec fn spec_binding_version() -> VersionInfo {
    VersionInfo {
        major: ALLEGRO_VERSION,
        minor: ALLEGRO_SUB_VERSION,
        revision: ALLEGRO_WIP_VERSION,
        release: ALLEGRO_RELEASE_NUMBER,
    }
}

/// The version of the Allegro headers that this binding was written for.
pub fn binding_version() -> (r: VersionInfo)
    ensures
        r == spec_binding_version(),
        r.wf(),
{
    VersionInfo {
        major: ALLEGRO_VERSION,
        minor: ALLEGRO_SUB_VERSION,
        revision: ALLEGRO_WIP_VERSION,
        release: ALLEGRO_RELEASE_NUMBER,
    }
}

/// `ALLEGRO_VERSION_INT` as the C `int` handed to `al_install_system`.
pub fn binding_version_int() -> (r: i32)
    ensures
        r == spec_binding_version().packed(),
{
    let v = binding_version();
    let packed = encode_version(v);
    assert(packed < 0x80000000);
    packed as i32
}

/// Reading back a packed version gives the parts that were packed.
pub proof fn lemma_unpack_pack(v: VersionInfo)
    requires
        v.wf(),
    ensures
        0 <= v.packed() <= u32::MAX,
        unpacked(v.packed() as u32) == v,
{
    let (a, b, c, d) = (v.major, v.minor, v.revision, v.release);
    let p: u32 = (a * 0x1000000 + b * 0x10000 + c * 0x100 + d) as u32;
    assert(p / 0x1000000 == a && (p / 0x10000) % 256 == b && (p / 0x100) % 256 == c
        && p % 256 == d) by (bit_vector)
        requires
            a < 256, b < 256, c < 256, d < 256,
            p == (a * 0x1000000 + b * 0x10000 + c * 0x100 + d) as u32;
    assert(a * 0x1000000 + b * 0x10000 + c * 0x100 + d <= u32::MAX) by (nonlinear_arith)
        requires a < 256, b < 256, c < 256, d < 256;
}

/// Each part of a read version is the matching byte of the packed number:
/// the top byte is the major version, then minor, revision and release.
pub proof fn lemma_unpacked_bytes(version: u32)
    ensures
        unpacked(version).major == version >> 24u32,
        unpacked(version).minor == (version >> 16u32) & 255u32,
        unpacked(version).revision == (version >> 8u32) & 255u32,
        unpacked(version).release == version & 255u32,
{
    assert(version / 0x1000000 == version >> 24u32) by (bit_vector);
    assert((version / 0x10000) % 256 == (version >> 16u32) & 255u32) by (bit_vector);
    assert((version / 0x100) % 256 == (version >> 8u32) & 255u32) by (bit_vector);
    assert(version % 256 == version & 255u32) by (bit_vector);
}

/// Packing puts each part in its own byte: major at the top, then minor,
/// revision, and release at the bottom.
pub proof fn lemma_packed_bytes(v: VersionInfo)
    requires
        v.wf(),
    ensures
        v.packed() == (v.major << 24u32) | (v.minor << 16u32) | (v.revision << 8u32) | v.release,
{
    let (a, b, c, d) = (v.major, v.minor, v.revision, v.release);
    assert(a * 0x1000000 + b * 0x10000 + c * 0x100 + d == (a << 24u32) | (b << 16u32) | (c
        << 8u32) | d) by (bit_vector)
        requires a < 256, b < 256, c < 256, d < 256;
}

/// Packing the parts of any version number gives that number back.
pub proof fn lemma_pack_unpack(version: u32)
    ensures
        unpacked(version).wf(),
        unpacked(version).packed() == version,
{
    assert(version / 0x1000000 < 256) by (bit_vector);
    assert((version / 0x1000000) * 0x1000000 + ((version / 0x10000) % 256) * 0x10000
        + ((version / 0x100) % 256) * 0x100 + version % 256 == version) by (bit_vector);
}


/// The character of a decimal digit.
pub open spec fn digit_char(d: nat) -> char {
    ((d + 48) as u8) as char
}

/// The decimal rendering of a natural number, most significant digit first,
/// with no leading zeros (zero itself is `"0"`).
pub open spec fn decimal(n: nat) -> Seq<char>
    decreases n,
{
    if n < 10 {
        seq![digit_char(n)]
    } else {
        decimal(n / 10).push(digit_char(n % 10))
    }
}

/// A version written the way the start-up error message writes it:
/// the four parts in decimal, separated by dots.
pub open spec fn dotted(v: VersionInfo) -> Seq<char> {
    decimal(v.major as nat) + seq!['.'] + decimal(v.minor as nat) + seq!['.']
        + decimal(v.revision as nat) + seq!['.'] + decimal(v.release as nat)
}

/// The message with which start-up fails when the system library refuses
/// the binding's version.
pub open spec fn mismatch_message(system: VersionInfo) -> Seq<char> {
    "The system Allegro version ("@ + dotted(system)
        + ") does not match the version of this binding ("@ + dotted(spec_binding_version())
        + ")"@
}

/// Appends one character to a string.
///
/// Trusted: calls `String::push`, which std documents as appending the
/// character to the end of the string; that is all the contract claims.
#[verifier::external_body]
fn string_push(s: &mut String, c: char)
    ensures
        final(s)@ == old(s)@.push(c),
{
    s.push(c);
}

fn push_decimal(s: &mut String, n: u32)
    ensures
        final(s)@ == old(s)@ + decimal(n as nat),
    decreases n,
{
    let ghost start = s@;
    if n >= 10 {
        push_decimal(s, n / 10);
    }
    let d: u8 = (n % 10) as u8;
    let c: char = (d + 48) as char;
    string_push(s, c);
    assert(s@ =~= start + decimal(n as nat));
}

fn push_dotted(s: &mut String, v: VersionInfo)
    ensures
        final(s)@ == old(s)@ + dotted(v),
{
    let ghost start = s@;
    push_decimal(s, v.major);
    string_push(s, '.');
    push_decimal(s, v.minor);
    string_push(s, '.');
    push_decimal(s, v.revision);
    string_push(s, '.');
    push_decimal(s, v.release);
    assert(s@ =~= start + dotted(v));
}

/// The error that start-up reports when `al_install_system` refuses the
/// binding: it names the version that the system library reports
/// (given packed) and the version of the binding.
pub fn version_mismatch_message(system_version: u32) -> (r: String)
    ensures
        r@ == mismatch_message(unpacked(system_version)),
{
    let system = decode_version(system_version);
    let mut s = String::from_str("The system Allegro version (");
    push_dotted(&mut s, system);
    s.append(") does not match the version of this binding (");
    push_dotted(&mut s, binding_version());
    s.append(")");
    assert(s@ =~= mismatch_message(unpacked(system_version)));
    s
}

} // verus!
