//! Paths, UTF-16 and the `key = value` text format.

use vstd::prelude::*;
use crate::config::{lookup_view, Choice, ChoiceLookupError, ChoiceView, ConfigError};
use crate::text::{
    chars_of, find_char, first_index, lemma_first_index_bounds, lemma_trim_is_trimmed,
    range_equals, replace_char, same_text, string_of, trim, trim_range,
};

verus! {

/// A parsed text: its `(key, value)` pairs in the order of their lines.
pub type Pairs = Seq<(Seq<char>, Seq<char>)>;

/// `path` with every `/` turned into `\`.
pub open spec fn normalized(path: Seq<char>) -> Seq<char> {
    replace_char(path, '/', '\\')
}

/// Turns every `/` of `path` into `\`.
pub fn normalize_uefi_path(path: &str) -> (out: String)
    ensures
        out@ == normalized(path@),
{
    let v = chars_of(path);
    let mut out = String::new();
    let mut i: usize = 0;
    while i < v.len()
        invariant
            i <= v.len(),
            v@ == path@,
            out@ == normalized(path@).take(i as int),
        decreases v.len() - i,
    {
        let c = if v[i] == '/' {
            '\\'
        } else {
            v[i]
        };
        out.push(c);
        assert(normalized(path@).take(i + 1) =~= normalized(path@).take(i as int).push(c));
        i += 1;
    }
    assert(normalized(path@).take(v.len() as int) =~= normalized(path@));
    out
}

/// Normalizing twice is the same as normalizing once, and a path without `/`
/// is left as it is.
pub proof fn lemma_normalize_idempotent(path: Seq<char>)
    ensures
        normalized(normalized(path)) == normalized(path),
        !path.contains('/') ==> normalized(path) == path,
        !normalized(path).contains('/'),
        normalized(path).len() == path.len(),
{
    assert(normalized(normalized(path)) =~= normalized(path));
    if !path.contains('/') {
        assert forall|i: int| 0 <= i < path.len() implies normalized(path)[i] == path[i] by {
            assert(path.contains(path[i]));
        }
        assert(normalized(path) =~= path);
    }
}

/// The UTF-16 code units of one character.
pub open spec fn utf16_units(c: char) -> Seq<u16> {
    let u = c as u32;
    if u < 0x10000 {
        seq![u as u16]
    } else {
        seq![(0xD800 + (u - 0x10000) / 0x400) as u16, (0xDC00 + (u - 0x10000) % 0x400) as u16]
    }
}

/// The two bytes of a code unit, low byte first.
pub open spec fn le_bytes(unit: u16) -> Seq<u8> {
    seq![(unit % 256) as u8, (unit / 256) as u8]
}

/// The bytes of a sequence of code units, each low byte first.
pub open spec fn units_le(units: Seq<u16>) -> Seq<u8>
    decreases units.len(),
{
    if units.len() == 0 {
        Seq::empty()
    } else {
        units_le(units.drop_last()) + le_bytes(units.last())
    }
}

/// The UTF-16 encoding of a text.
pub open spec fn utf16(s: Seq<char>) -> Seq<u16>
    decreases s.len(),
{
    if s.len() == 0 {
        Seq::empty()
    } else {
        utf16(s.drop_last()) + utf16_units(s.last())
    }
}

/// The UTF-16LE encoding of a text, closed by a NUL code unit.
pub open spec fn utf16_nul_terminated(s: Seq<char>) -> Seq<u8> {
    units_le(utf16(s).push(0u16))
}

fn push_unit(bytes: &mut Vec<u8>, unit: u16, Ghost(units): Ghost<Seq<u16>>)
    requires
        old(bytes)@ == units_le(units),
    ensures
        final(bytes)@ == units_le(units.push(unit)),
{
    bytes.push((unit % 256) as u8);
    bytes.push((unit / 256) as u8);
    proof {
        assert(units.push(unit).drop_last() =~= units);
        assert(bytes@ =~= units_le(units) + le_bytes(unit));
    }
}

/// Encodes `value` as UTF-16LE and appends a NUL code unit.
pub fn utf16_nul_terminated_bytes(value: &str) -> (bytes: Vec<u8>)
    ensures
        bytes@ == utf16_nul_terminated(value@),
{
    let v = chars_of(value);
    let mut bytes: Vec<u8> = Vec::new();
    let mut i: usize = 0;
    while i < v.len()
        invariant
            i <= v.len(),
            v@ == value@,
            bytes@ == units_le(utf16(value@.take(i as int))),
        decreases v.len() - i,
    {
        let ghost before = utf16(value@.take(i as int));
        let u: u32 = v[i] as u32;
        proof {
            assert(value@.take(i + 1).drop_last() =~= value@.take(i as int));
        }
        if u < 0x10000 {
            push_unit(&mut bytes, u as u16, Ghost(before));
            proof {
                assert(before.push(u as u16) =~= before + utf16_units(v@[i as int]));
            }
        } else {
            let w: u32 = u - 0x10000;
            let high: u16 = (0xD800 + w / 0x400) as u16;
            let low: u16 = (0xDC00 + w % 0x400) as u16;
            push_unit(&mut bytes, high, Ghost(before));
            push_unit(&mut bytes, low, Ghost(before.push(high)));
            proof {
                assert(before.push(high).push(low) =~= before + utf16_units(v@[i as int]));
            }
        }
        i += 1;
    }
    proof {
        assert(value@.take(v.len() as int) =~= value@);
    }
    push_unit(&mut bytes, 0, Ghost(utf16(value@)));
    bytes
}

/// What one line contributes: its key and value, both trimmed, unless the
/// line is blank, a `#` comment, has no `=`, or has an empty key or value.
pub open spec fn line_pair(line: Seq<char>) -> Option<(Seq<char>, Seq<char>)> {
    let l = trim(line);
    let k = first_index(l, '=');
    if l.len() == 0 || l[0] == '#' || k >= l.len() {
        None
    } else {
        let key = trim(l.take(k));
        let value = trim(l.skip(k + 1));
        if key.len() == 0 || value.len() == 0 {
            None
        } else {
            Some((key, value))
        }
    }
}

/// The pairs of a text, line by line; lines end at `'\n'`.
pub open spec fn key_values(text: Seq<char>) -> Pairs
    decreases text.len(),
{
    if text.len() == 0 {
        Seq::empty()
    } else {
        let n = first_index(text, '\n');
        let head = match line_pair(text.take(n)) {
            Some(pair) => seq![pair],
            None => Seq::empty(),
        };
        if 0 <= n < text.len() {
            head + key_values(text.skip(n + 1))
        } else {
            head
        }
    }
}

/// What holds of every pair of a parsed text: key and value are not empty
/// and carry no white space at either end, and the key holds no `=`.
pub open spec fn is_clean_pair(pair: (Seq<char>, Seq<char>)) -> bool {
    &&& pair.0.len() > 0
    &&& pair.1.len() > 0
    &&& trim(pair.0) == pair.0
    &&& trim(pair.1) == pair.1
    &&& !pair.0.contains('=')
}

proof fn lemma_line_pair_is_clean(line: Seq<char>)
    ensures
        line_pair(line) is Some ==> is_clean_pair(line_pair(line)->0),
{
    if line_pair(line) is Some {
        let l = trim(line);
        let k = first_index(l, '=');
        let left = l.take(k);
        lemma_first_index_bounds(l, '=');
        lemma_trim_is_trimmed(left);
        lemma_trim_is_trimmed(l.skip(k + 1));
        let key = trim(left);
        let (lo, hi) = choose|lo: int, hi: int|
            0 <= lo <= hi <= left.len() && trim(left) == left.subrange(lo, hi);
        assert forall|i: int| 0 <= i < key.len() implies key[i] != '=' by {
            assert(key[i] == l[lo + i]);
        }
    }
}

/// Every pair of a parsed text is clean: a line with an empty key or an
/// empty value contributes nothing.
pub proof fn lemma_key_values_are_clean(text: Seq<char>)
    ensures
        forall|i: int|
            0 <= i < key_values(text).len() ==> is_clean_pair(#[trigger] key_values(text)[i]),
    decreases text.len(),
{
    if text.len() > 0 {
        let n = first_index(text, '\n');
        let head = match line_pair(text.take(n)) {
            Some(pair) => seq![pair],
            None => Seq::empty(),
        };
        lemma_line_pair_is_clean(text.take(n));
        if 0 <= n < text.len() {
            let rest = key_values(text.skip(n + 1));
            lemma_key_values_are_clean(text.skip(n + 1));
            assert forall|i: int| 0 <= i < key_values(text).len() implies is_clean_pair(
                #[trigger] key_values(text)[i],
            ) by {
                if i >= head.len() {
                    assert(key_values(text)[i] == rest[i - head.len()]);
                }
            }
        }
    }
}

fn parse_line(v: &Vec<char>, lo: usize, hi: usize) -> (r: Option<(String, String)>)
    requires
        lo <= hi <= v.len(),
    ensures
        r.deep_view() == line_pair(v@.subrange(lo as int, hi as int)),
{
    let (a, b) = trim_range(v, lo, hi);
    let ghost l = v@.subrange(a as int, b as int);
    if a == b || v[a] == '#' {
        return None;
    }
    let k = find_char(v, a, b, '=');
    if k >= b {
        return None;
    }
    let (ka, kb) = trim_range(v, a, k);
    let (va, vb) = trim_range(v, k + 1, b);
    proof {
        assert(l.take(k - a) =~= v@.subrange(a as int, k as int));
        assert(l.skip(k - a + 1) =~= v@.subrange(k + 1, b as int));
    }
    if ka == kb || va == vb {
        return None;
    }
    Some((string_of(v, ka, kb), string_of(v, va, vb)))
}

/// Parses a `key = value` text. Blank lines and lines that start with `#`
/// are skipped, the first `=` of a line parts key from value, both are
/// trimmed, and a line without `=`, key or value is dropped.
pub fn parse_key_values(text: &str) -> (kv: Vec<(String, String)>)
    ensures
        kv.deep_view() == key_values(text@),
{
    let v = chars_of(text);
    let mut kv: Vec<(String, String)> = Vec::new();
    let mut pos: usize = 0;
    proof {
        assert(text@.skip(0) =~= text@);
        assert(kv.deep_view() + key_values(text@) =~= key_values(text@));
    }
    while pos < v.len()
        invariant
            pos <= v.len(),
            v@ == text@,
            kv.deep_view() + key_values(text@.skip(pos as int)) == key_values(text@),
        decreases v.len() - pos,
    {
        let ghost rest = text@.skip(pos as int);
        let ghost before = kv.deep_view();
        proof {
            assert(v@.subrange(pos as int, v.len() as int) =~= rest);
            lemma_first_index_bounds(rest, '\n');
        }
        let end = find_char(&v, pos, v.len(), '\n');
        let line = parse_line(&v, pos, end);
        proof {
            assert(rest.take(end - pos) =~= v@.subrange(pos as int, end as int));
            if end < v.len() {
                assert(rest.skip(end - pos + 1) =~= text@.skip(end + 1));
            }
        }
        if let Some(pair) = line {
            kv.push(pair);
            proof {
                assert(kv.deep_view() =~= before + seq![line_pair(rest.take(end - pos))->0]);
            }
        }
        if end < v.len() {
            pos = end + 1;
        } else {
            pos = end;
        }
        proof {
            let head = match line_pair(rest.take(first_index(rest, '\n'))) {
                Some(pair) => seq![pair],
                None => Seq::empty(),
            };
            assert(kv.deep_view() =~= before + head);
            if pos == v.len() {
                assert(key_values(text@.skip(pos as int)) =~= Seq::empty());
            }
            assert((before + head) + key_values(text@.skip(pos as int)) =~= before + (head
                + key_values(text@.skip(pos as int))));
        }
    }
    proof {
        assert(key_values(text@.skip(pos as int)) =~= Seq::empty());
        assert(kv.deep_view() + Seq::empty() =~= kv.deep_view());
    }
    kv
}

/// The value of the first pair whose key is `key`.
pub open spec fn first_value(kv: Pairs, key: Seq<char>) -> Option<Seq<char>>
    decreases kv.len(),
{
    if kv.len() == 0 {
        None
    } else if kv[0].0 == key {
        Some(kv[0].1)
    } else {
        first_value(kv.drop_first(), key)
    }
}

/// `first_value` finds the earliest pair with the key, and nothing where no
/// pair has it: of two pairs with one key the later one is never returned.
pub proof fn lemma_first_value_is_first(kv: Pairs, key: Seq<char>)
    ensures
        match first_value(kv, key) {
            Some(value) => exists|i: int|
                0 <= i < kv.len() && kv[i].0 == key && kv[i].1 == value && forall|j: int|
                    0 <= j < i ==> kv[j].0 != key,
            None => forall|i: int| 0 <= i < kv.len() ==> kv[i].0 != key,
        },
    decreases kv.len(),
{
    if kv.len() == 0 {
    } else if kv[0].0 == key {
        assert(kv[0].0 == key && kv[0].1 == first_value(kv, key)->0);
    } else {
        let rest = kv.drop_first();
        lemma_first_value_is_first(rest, key);
        match first_value(rest, key) {
            Some(value) => {
                let i = choose|i: int|
                    0 <= i < rest.len() && rest[i].0 == key && rest[i].1 == value && forall|j: int|
                        0 <= j < i ==> rest[j].0 != key;
                assert forall|j: int| 0 <= j < i + 1 implies kv[j].0 != key by {
                    if j > 0 {
                        assert(kv[j] == rest[j - 1]);
                    }
                }
                assert(kv[i + 1] == rest[i]);
            },
            None => {
                assert forall|i: int| 0 <= i < kv.len() implies kv[i].0 != key by {
                    if i > 0 {
                        assert(kv[i] == rest[i - 1]);
                    }
                }
            },
        }
    }
}

/// A pair that is added at the end is found only where no earlier pair has
/// its key.
pub proof fn lemma_first_value_push(kv: Pairs, pair: (Seq<char>, Seq<char>), key: Seq<char>)
    ensures
        first_value(kv.push(pair), key) == match first_value(kv, key) {
            Some(value) => Some(value),
            None => if pair.0 == key {
                Some(pair.1)
            } else {
                None
            },
        },
    decreases kv.len(),
{
    let all = kv.push(pair);
    if kv.len() == 0 {
        assert(all.drop_first() =~= kv);
    } else {
        assert(all[0] == kv[0]);
        if kv[0].0 != key {
            assert(all.drop_first() =~= kv.drop_first().push(pair));
            lemma_first_value_push(kv.drop_first(), pair, key);
        }
    }
}

/// The value of the first pair with this key, if there is one.
pub fn get_optional_value<'a>(kv: &'a [(String, String)], key: &str) -> (r: Option<&'a str>)
    ensures
        r.deep_view() == first_value(kv.deep_view(), key@),
{
    let mut i: usize = 0;
    proof {
        assert(kv.deep_view().skip(0) =~= kv.deep_view());
    }
    while i < kv.len()
        invariant
            i <= kv.len(),
            first_value(kv.deep_view(), key@) == first_value(kv.deep_view().skip(i as int), key@),
        decreases kv.len() - i,
    {
        let ghost rest = kv.deep_view().skip(i as int);
        proof {
            assert(rest[0] == kv.deep_view()[i as int]);
            assert(rest.drop_first() =~= kv.deep_view().skip(i + 1));
        }
        if same_text(kv[i].0.as_str(), key) {
            return Some(kv[i].1.as_str());
        }
        i += 1;
    }
    None
}

/// The value of the first pair with this key; `MissingKey` where no pair has it.
pub fn get_required_value<'a>(kv: &'a [(String, String)], key: &str) -> (r: Result<
    &'a str,
    ConfigError,
>)
    ensures
        match r {
            Ok(value) => first_value(kv.deep_view(), key@) == Some(value@),
            Err(e) => e == ConfigError::MissingKey && first_value(kv.deep_view(), key@) is None,
        },
{
    match get_optional_value(kv, key) {
        Some(value) => Ok(value),
        None => Err(ConfigError::MissingKey),
    }
}

/// The value of the first pair with key `key`, or else of the first pair
/// with key `alias`.
pub open spec fn first_value_of_either(kv: Pairs, key: Seq<char>, alias: Seq<char>) -> Option<
    Seq<char>,
> {
    match first_value(kv, key) {
        Some(value) => Some(value),
        None => first_value(kv, alias),
    }
}

/// The mode that a choice type `chainload_<mode>` names; the mode is not empty.
pub open spec fn chainload_mode(choice_type: Seq<char>) -> Option<Seq<char>> {
    let prefix = "chainload_"@;
    if prefix.is_prefix_of(choice_type) && choice_type.len() > prefix.len() {
        Some(choice_type.skip(prefix.len() as int))
    } else {
        None
    }
}

/// The choice that a parsed text states.
///
/// The key `choice_type`, or else `mode`, selects it: `entry_id` or `entry`
/// with the identifier under the key `entry_id`, or else `entry`;
/// `nixos-current`; or `chainload_<mode>`. Anything else states no choice.
pub open spec fn choice_of(kv: Pairs) -> Option<ChoiceView> {
    match first_value_of_either(kv, "choice_type"@, "mode"@) {
        None => None,
        Some(choice_type) => if choice_type == "entry_id"@ || choice_type == "entry"@ {
            match first_value_of_either(kv, "entry_id"@, "entry"@) {
                Some(id) => Some(ChoiceView::Entry(id)),
                None => None,
            }
        } else if choice_type == "nixos-current"@ {
            Some(ChoiceView::NixosCurrent)
        } else {
            match chainload_mode(choice_type) {
                Some(mode) => Some(ChoiceView::Chainload(mode)),
                None => None,
            }
        },
    }
}

fn get_value_of_either<'a>(kv: &'a [(String, String)], key: &str, alias: &str) -> (r: Option<
    &'a str,
>)
    ensures
        r.deep_view() == first_value_of_either(kv.deep_view(), key@, alias@),
{
    match get_optional_value(kv, key) {
        Some(value) => Some(value),
        None => get_optional_value(kv, alias),
    }
}

fn parse_chainload_mode(choice_type: &str) -> (r: Option<String>)
    ensures
        r.deep_view() == chainload_mode(choice_type@),
{
    let v = chars_of(choice_type);
    let prefix = chars_of("chainload_");
    if v.len() > prefix.len() && range_equals(&v, 0, prefix.len(), &prefix) {
        assert(v@.skip(prefix.len() as int) =~= v@.subrange(prefix.len() as int, v.len() as int));
        Some(string_of(&v, prefix.len(), v.len()))
    } else {
        None
    }
}

/// Reads the operator's choice from a `key = value` text.
pub fn parse_choice(text: &str) -> (r: Result<Choice, ChoiceLookupError>)
    ensures
        match r {
            Ok(choice) => choice_of(key_values(text@)) == Some(choice@),
            Err(e) => e == ChoiceLookupError::ParseError && choice_of(key_values(text@)) is None,
        },
{
    let kv = parse_key_values(text);
    let choice_type = match get_value_of_either(kv.as_slice(), "choice_type", "mode") {
        Some(choice_type) => choice_type,
        None => {
            return Err(ChoiceLookupError::ParseError);
        },
    };
    if same_text(choice_type, "entry_id") || same_text(choice_type, "entry") {
        match get_value_of_either(kv.as_slice(), "entry_id", "entry") {
            Some(id) => Ok(Choice::Entry(id.to_owned())),
            None => Err(ChoiceLookupError::ParseError),
        }
    } else if same_text(choice_type, "nixos-current") {
        Ok(Choice::NixosCurrent)
    } else {
        match parse_chainload_mode(choice_type) {
            Some(mode) => Ok(Choice::Chainload(mode)),
            None => Err(ChoiceLookupError::ParseError),
        }
    }
}

/// What lossy UTF-8 decoding makes of a byte sequence: the text itself where
/// the bytes are valid UTF-8, with U+FFFD in place of what is not.
pub uninterp spec fn lossy_text(bytes: Seq<u8>) -> Seq<char>;

/// `String::from_utf8_lossy`, as an owned string: the result depends on the
/// bytes alone.
#[verifier::external_body]
pub(crate) fn decode_lossy(bytes: &Vec<u8>) -> (text: String)
    ensures
        text@ == lossy_text(bytes@),
{
    String::from_utf8_lossy(bytes).into_owned()
}

/// What the bytes of a choice file say.
pub open spec fn choice_in(bytes: Seq<u8>) -> Result<ChoiceView, ChoiceLookupError> {
    match choice_of(key_values(lossy_text(bytes))) {
        Some(choice) => Ok(choice),
        None => Err(ChoiceLookupError::ParseError),
    }
}

/// Reads the operator's choice from the bytes of a choice file.
pub fn parse_choice_bytes(bytes: &Vec<u8>) -> (r: Result<Choice, ChoiceLookupError>)
    ensures
        lookup_view(r) == choice_in(bytes@),
{
    let text = decode_lossy(bytes);
    parse_choice(text.as_str())
}

} // verus!
