use vstd::prelude::*;
use vstd::string::*;

use crate::error::AppError;
use crate::text::{
    ascii_lowercase, is_hex_char, is_hex_digit_char, lower_ascii_char, lower_char, lower_seq,
    parse_u32, parse_u32_spec, push_char,
};

verus! {

broadcast use vstd::string::group_string_axioms;

/// Side length, in output pixels, of the grid every rendered head size snaps to.
pub const HEAD_PIXEL_GRID: u32 = 8;

pub const DEFAULT_SIZE: u32 = 184;

pub const MIN_SIZE: u32 = 8;

pub const MAX_SIZE: u32 = 512;

/// A player reference taken from a request path.
#[derive(Debug, Clone, PartialEq, Eq)]
pub enum PlayerInput {
    /// A UUID in compact lowercase form.
    Uuid(String),
    /// A Minecraft username, as given.
    Username(String),
}

/// Body of the Mojang username lookup.
#[derive(Debug)]
pub struct UsernameProfileResponse {
    pub id: String,
}

/// Body of the Mojang session profile lookup.
#[derive(Debug)]
pub struct MojangProfileResponse {
    pub properties: Vec<MojangProperty>,
}

#[derive(Debug)]
pub struct MojangProperty {
    pub name: String,
    pub value: String,
}

/// The JSON document carried, base64 encoded, by the `textures` property.
#[derive(Debug)]
pub struct TexturesPayload {
    pub textures: Textures,
}

#[derive(Debug)]
pub struct Textures {
    pub skin: Option<SkinTexture>,
    pub cape: Option<SkinTexture>,
}

#[derive(Debug)]
pub struct SkinTexture {
    pub url: String,
    pub metadata: Option<SkinMetadata>,
}

#[derive(Debug)]
pub struct SkinMetadata {
    pub model: Option<String>,
}

/// What the viewer needs to know of a player's textures.
#[derive(Debug, Clone, PartialEq, Eq)]
pub struct SkinProfile {
    pub url: String,
    pub slim: bool,
    pub cape_url: Option<String>,
}

pub open spec fn is_username_char(c: char) -> bool {
    ('0' <= c && c <= '9') || ('a' <= c && c <= 'z') || ('A' <= c && c <= 'Z') || c == '_'
}

/// A Minecraft username: 3 to 16 ASCII letters, digits or underscores.
pub open spec fn username_valid(s: Seq<char>) -> bool {
    3 <= s.len() <= 16 && forall|i: int| 0 <= i < s.len() ==> is_username_char(#[trigger] s[i])
}

pub open spec fn all_hex(s: Seq<char>) -> bool {
    forall|i: int| 0 <= i < s.len() ==> is_hex_char(#[trigger] s[i])
}

/// The positions of the four hyphens in a hyphenated UUID.
pub open spec fn is_hyphen_index(i: int) -> bool {
    i == 8 || i == 13 || i == 18 || i == 23
}

/// A UUID in the 8-4-4-4-12 hyphenated layout.
pub open spec fn hyphenated_uuid(s: Seq<char>) -> bool {
    s.len() == 36 && forall|i: int|
        0 <= i < 36 ==> (if is_hyphen_index(i) {
            s[i] == '-'
        } else {
            is_hex_char(#[trigger] s[i])
        })
}

/// Position in a hyphenated UUID of the `j`-th hex digit.
pub open spec fn hyphenated_source_index(j: int) -> int {
    if j < 8 {
        j
    } else if j < 12 {
        j + 1
    } else if j < 16 {
        j + 2
    } else if j < 20 {
        j + 3
    } else {
        j + 4
    }
}

/// The 32 hex digits of a hyphenated UUID, in order.
pub open spec fn strip_hyphens(s: Seq<char>) -> Seq<char> {
    Seq::new(32, |j: int| s[hyphenated_source_index(j)])
}

/// A UUID in compact lowercase form, for a compact or hyphenated UUID in any case.
pub open spec fn normalize_uuid_spec(s: Seq<char>) -> Option<Seq<char>> {
    if s.len() == 32 && all_hex(s) {
        Some(lower_seq(s))
    } else if hyphenated_uuid(s) {
        Some(lower_seq(strip_hyphens(s)))
    } else {
        None
    }
}

/// A compact lowercase UUID: 32 characters from `0-9a-f`.
pub open spec fn is_compact_uuid(s: Seq<char>) -> bool {
    s.len() == 32 && forall|i: int|
        0 <= i < 32 ==> ('0' <= #[trigger] s[i] <= '9' || 'a' <= s[i] <= 'f')
}

/// Rounds to the nearest multiple of 8 (halves round up).
pub open spec fn round_to_grid(size: int) -> int {
    ((size + 4) / 8) * 8
}

/// The nearest size at which each of the 8 head pixels is a whole square of
/// output pixels: the nearest multiple of 8 (halves round up), at least 8.
pub open spec fn pixel_safe_size(size: u32) -> int {
    if round_to_grid(size as int) < 8 {
        8
    } else {
        round_to_grid(size as int)
    }
}

/// Rounds an output size to the pixel grid of the head (see `pixel_safe_size`).
pub fn round_to_pixel_grid(size: u32) -> (r: u64)
    ensures
        r == pixel_safe_size(size),
{
    let rounded: u64 = ((size as u64 + 4) / 8) * 8;
    if rounded < 8 {
        8
    } else {
        rounded
    }
}

/// A size that `normalize_size` accepts is already on the pixel grid: the
/// renderer keeps it as it is.
pub proof fn lemma_normalized_size_is_pixel_safe(size: u32)
    requires
        normalize_size_spec(size) is Ok,
    ensures
        pixel_safe_size(normalize_size_spec(size).unwrap() as u32) == normalize_size_spec(size).unwrap(),
{
    let n = normalize_size_spec(size).unwrap();
    let r = round_to_grid(size as int);
    assert(r % 8 == 0 && 8 <= r <= 512) by {
        assert(8 <= size <= 512);
    }
    assert(n == r);
    assert((r + 4) / 8 * 8 == r) by {
        assert(r == (r / 8) * 8);
    }
}

pub open spec fn clamp_size(v: int) -> int {
    if v < 8 {
        8
    } else if v > 512 {
        512
    } else {
        v
    }
}

pub open spec fn normalize_size_spec(size: u32) -> Result<u32, AppError> {
    if 8 <= size <= 512 {
        Ok(clamp_size(round_to_grid(size as int)) as u32)
    } else {
        Err(AppError::InvalidSize)
    }
}

pub open spec fn parse_size_spec(value: Option<Seq<char>>) -> Result<u32, AppError> {
    match value {
        None => Ok(184),
        Some(raw) => match parse_u32_spec(raw) {
            None => Err(AppError::InvalidSize),
            Some(size) => normalize_size_spec(size),
        },
    }
}

/// `u8::is_ascii_hexdigit` on a byte.
pub fn is_hex_byte(byte: u8) -> (b: bool)
    ensures
        b == ((48 <= byte <= 57) || (97 <= byte <= 102) || (65 <= byte <= 70)),
{
    (48 <= byte && byte <= 57) || (97 <= byte && byte <= 102) || (65 <= byte && byte <= 70)
}

fn lowercase_compact(value: &str) -> (r: Option<String>)
    requires
        value@.len() == 32,
    ensures
        r matches Some(s) ==> all_hex(value@) && s@ == lower_seq(value@),
        r is None ==> !all_hex(value@),
{
    let mut out = String::new();
    for c in it: value.chars()
        invariant
            it.seq() == value@,
            all_hex(value@.take(it.index() as int)),
            out@ == lower_seq(value@.take(it.index() as int)),
    {
        let ghost idx = it.index() as int;
        assert(c == value@[idx]);
        if !is_hex_digit_char(c) {
            return None;
        }
        assert(value@.take(idx + 1) == value@.take(idx).push(c));
        push_char(&mut out, lower_ascii_char(c));
        assert(lower_seq(value@.take(idx + 1)) == lower_seq(value@.take(idx)).push(lower_char(c)));
    }
    assert(value@.take(32) == value@);
    Some(out)
}

/// Number of hyphen positions strictly before `i`.
spec fn hyphens_before(i: int) -> int {
    if i <= 8 {
        0
    } else if i <= 13 {
        1
    } else if i <= 18 {
        2
    } else if i <= 23 {
        3
    } else {
        4
    }
}

fn lowercase_hyphenated(value: &str) -> (r: Option<String>)
    requires
        value@.len() == 36,
    ensures
        r matches Some(s) ==> hyphenated_uuid(value@) && s@ == lower_seq(strip_hyphens(value@)),
        r is None ==> !hyphenated_uuid(value@),
{
    let mut out = String::new();
    let mut index: usize = 0;
    for c in it: value.chars()
        invariant
            it.seq() == value@,
            index == it.index(),
            value@.len() == 36,
            index <= 36,
            out@.len() == index - hyphens_before(index as int),
            forall|i: int|
                0 <= i < index ==> (if is_hyphen_index(i) {
                    value@[i] == '-'
                } else {
                    is_hex_char(#[trigger] value@[i])
                }),
            forall|k: int|
                0 <= k < out@.len() ==> #[trigger] out@[k] == lower_char(
                    value@[hyphenated_source_index(k)],
                ),
    {
        assert(c == value@[index as int]);
        assert(index < value@.len());
        if index == 8 || index == 13 || index == 18 || index == 23 {
            if c != '-' {
                return None;
            }
        } else if is_hex_digit_char(c) {
            push_char(&mut out, lower_ascii_char(c));
        } else {
            return None;
        }
        index = index + 1;
    }
    assert(out@ =~= lower_seq(strip_hyphens(value@)));
    Some(out)
}

/// Converts a UUID, compact or hyphenated and in any case, to compact lowercase
/// form; anything else gives `None`.
pub fn normalize_uuid(value: &str) -> (r: Option<String>)
    ensures
        r matches Some(s) ==> normalize_uuid_spec(value@) == Some(s@),
        r is None ==> normalize_uuid_spec(value@) is None,
{
    let n = value.unicode_len();
    if n == 32 {
        if let Some(out) = lowercase_compact(value) {
            return Some(out);
        }
    }
    if n != 36 {
        return None;
    }
    lowercase_hyphenated(value)
}

/// Validates a Minecraft username: 3 to 16 ASCII alphanumeric characters or `_`.
pub fn is_username_valid(value: &str) -> (b: bool)
    ensures
        b == username_valid(value@),
{
    let n = value.unicode_len();
    if n < 3 || n > 16 {
        return false;
    }
    let mut ok = true;
    for c in it: value.chars()
        invariant
            it.seq() == value@,
            ok == (forall|i: int| 0 <= i < it.index() ==> is_username_char(#[trigger] value@[i])),
    {
        assert(c == value@[it.index() as int]);
        if !(('0' <= c && c <= '9') || ('a' <= c && c <= 'z') || ('A' <= c && c <= 'Z') || c
            == '_') {
            ok = false;
        }
    }
    ok
}

/// Reads a player reference: a UUID (compact or hyphenated) first, then a username.
pub fn parse_player(value: &str) -> (r: Result<PlayerInput, AppError>)
    ensures
        normalize_uuid_spec(value@) matches Some(u) ==> (r matches Ok(PlayerInput::Uuid(s))
            && s@ == u),
        normalize_uuid_spec(value@) is None && username_valid(value@) ==> (r matches Ok(
            PlayerInput::Username(s),
        ) && s@ == value@),
        normalize_uuid_spec(value@) is None && !username_valid(value@) ==> r == Err::<
            PlayerInput,
            AppError,
        >(AppError::InvalidPlayer),
{
    if let Some(uuid) = normalize_uuid(value) {
        return Ok(PlayerInput::Uuid(uuid));
    }
    if is_username_valid(value) {
        return Ok(PlayerInput::Username(value.to_owned()));
    }
    Err(AppError::InvalidPlayer)
}

/// Checks an output size and rounds it to the nearest multiple of 8.
pub fn normalize_size(size: u32) -> (r: Result<u32, AppError>)
    ensures
        r == normalize_size_spec(size),
        r matches Ok(v) ==> v % 8 == 0 && MIN_SIZE <= v <= MAX_SIZE && v - 4 <= size <= v + 3,
        r is Ok <==> MIN_SIZE <= size <= MAX_SIZE,
{
    if size < MIN_SIZE || size > MAX_SIZE {
        return Err(AppError::InvalidSize);
    }
    let rounded = ((size + (HEAD_PIXEL_GRID / 2)) / HEAD_PIXEL_GRID) * HEAD_PIXEL_GRID;
    let clamped = if rounded < MIN_SIZE {
        MIN_SIZE
    } else if rounded > MAX_SIZE {
        MAX_SIZE
    } else {
        rounded
    };
    Ok(clamped)
}

/// Reads the optional `size` query value: `184` when absent, else a `u32` that
/// `normalize_size` accepts.
pub fn parse_size(value: Option<&str>) -> (r: Result<u32, AppError>)
    ensures
        r == parse_size_spec(
            match value {
                None => None,
                Some(s) => Some(s@),
            },
        ),
{
    match value {
        None => Ok(DEFAULT_SIZE),
        Some(raw) => match parse_u32(raw) {
            None => Err(AppError::InvalidSize),
            Some(size) => normalize_size(size),
        },
    }
}

/// A normalized UUID is compact and lowercase.
pub proof fn lemma_normalized_uuid_is_compact(s: Seq<char>)
    requires
        normalize_uuid_spec(s) is Some,
    ensures
        is_compact_uuid(normalize_uuid_spec(s).unwrap()),
{
    let r = normalize_uuid_spec(s).unwrap();
    assert forall|i: int| 0 <= i < 32 implies ('0' <= #[trigger] r[i] <= '9' || 'a' <= r[i]
        <= 'f') by {
        if s.len() == 32 && all_hex(s) {
            assert(is_hex_char(s[i]));
        } else {
            assert(is_hex_char(s[hyphenated_source_index(i)]));
        }
    }
}

/// Normalizing is idempotent: a normalized UUID normalizes to itself.
pub proof fn lemma_normalize_uuid_idempotent(s: Seq<char>)
    requires
        normalize_uuid_spec(s) is Some,
    ensures
        normalize_uuid_spec(normalize_uuid_spec(s).unwrap()) == normalize_uuid_spec(s),
{
    lemma_normalized_uuid_is_compact(s);
    let r = normalize_uuid_spec(s).unwrap();
    assert(all_hex(r)) by {
        assert forall|i: int| 0 <= i < r.len() implies is_hex_char(#[trigger] r[i]) by {
            assert('0' <= r[i] <= '9' || 'a' <= r[i] <= 'f');
        }
    }
    assert(lower_seq(r) =~= r) by {
        assert forall|i: int| 0 <= i < r.len() implies #[trigger] lower_seq(r)[i] == r[i] by {
            assert('0' <= r[i] <= '9' || 'a' <= r[i] <= 'f');
        }
    }
}

/// A hyphenated UUID and its hyphen-free form normalize to the same value.
pub proof fn lemma_hyphenated_matches_compact(s: Seq<char>)
    requires
        hyphenated_uuid(s),
    ensures
        normalize_uuid_spec(strip_hyphens(s)) == normalize_uuid_spec(s),
{
    let c = strip_hyphens(s);
    assert(all_hex(c)) by {
        assert forall|i: int| 0 <= i < c.len() implies is_hex_char(#[trigger] c[i]) by {
            assert(!is_hyphen_index(hyphenated_source_index(i)));
            assert(is_hex_char(s[hyphenated_source_index(i)]));
        }
    }
}

/// No string is both a username and a UUID, so the order in which
/// `parse_player` tries them never hides a username.
pub proof fn lemma_username_and_uuid_disjoint(s: Seq<char>)
    ensures
        !(username_valid(s) && normalize_uuid_spec(s) is Some),
{
}

} // verus!
