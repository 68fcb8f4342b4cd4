//! Style projection: the mapping from the settings store to a named
//! variable block for presentation, plus the conditional font-import
//! directive.
//!
//! The import directive is built by splitting the font setting on commas,
//! trimming whitespace and quotes from each family name, dropping names
//! that match a fixed set of generic font keywords (compared without
//! regard to ASCII case), and URL-encoding what remains with spaces as
//! plus signs. When no non-generic family is left, no directive is
//! produced at all, so no resource request is made for generic keywords.

use vstd::prelude::*;

use crate::settings::{SettingsStore, StyleKey};

verus! {

/// The characters `str::trim` removes: the Unicode white-space set.
pub open spec fn is_space_spec(c: char) -> bool {
    ||| (9 <= c as u32 && c as u32 <= 13)
    ||| c as u32 == 32
    ||| c as u32 == 0x85
    ||| c as u32 == 0xA0
    ||| c as u32 == 0x1680
    ||| (0x2000 <= c as u32 && c as u32 <= 0x200A)
    ||| c as u32 == 0x2028
    ||| c as u32 == 0x2029
    ||| c as u32 == 0x202F
    ||| c as u32 == 0x205F
    ||| c as u32 == 0x3000
}

fn is_space(c: char) -> (r: bool)
    ensures
        r == is_space_spec(c),
{
    let u = c as u32;
    (9 <= u && u <= 13) || u == 32 || u == 0x85 || u == 0xA0 || u == 0x1680 || (0x2000 <= u && u
        <= 0x200A) || u == 0x2028 || u == 0x2029 || u == 0x202F || u == 0x205F || u == 0x3000
}

/// Sequence left after removing leading characters that satisfy `p`.
pub open spec fn trim_start(s: Seq<char>, p: spec_fn(char) -> bool) -> Seq<char>
    decreases s.len(),
{
    if s.len() > 0 && p(s[0]) {
        trim_start(s.drop_first(), p)
    } else {
        s
    }
}

/// Sequence left after removing trailing characters that satisfy `p`.
pub open spec fn trim_end(s: Seq<char>, p: spec_fn(char) -> bool) -> Seq<char>
    decreases s.len(),
{
    if s.len() > 0 && p(s.last()) {
        trim_end(s.drop_last(), p)
    } else {
        s
    }
}

/// Sequence left after removing such characters from both ends.
pub open spec fn trim_both(s: Seq<char>, p: spec_fn(char) -> bool) -> Seq<char> {
    trim_end(trim_start(s, p), p)
}

/// The white-space predicate as a value, so every use names one function.
pub open spec fn space_pred() -> spec_fn(char) -> bool {
    |c: char| is_space_spec(c)
}

/// The quote-character predicate as a value.
pub open spec fn quote_pred() -> spec_fn(char) -> bool {
    |c: char| c == '"'
}

/// A family name as it is compared and encoded: whitespace stripped from
/// both ends, then quote characters stripped from both ends.
pub open spec fn trimmed_family(name: Seq<char>) -> Seq<char> {
    trim_both(trim_both(name, space_pred()), quote_pred())
}

/// ASCII uppercase letters.
pub open spec fn is_ascii_upper(c: char) -> bool {
    65 <= c as u32 && c as u32 <= 90
}

/// One character of user input matches one character of an ASCII-lowercase
/// keyword, ignoring ASCII case.
pub open spec fn char_eq_lower(c: char, k: char) -> bool {
    c == k || (is_ascii_upper(c) && c as u32 + 32 == k as u32)
}

/// The whole name matches an ASCII-lowercase keyword, ignoring ASCII case.
pub open spec fn seq_eq_lower(s: Seq<char>, k: Seq<char>) -> bool {
    s.len() == k.len() && (forall|i: int| 0 <= i < s.len() ==> char_eq_lower(s[i], #[trigger] k[i]))
}

/// The fixed set of generic font keywords that are exempt from font
/// fetching: they name a system font class, not a typeface.
pub open spec fn is_generic_family(name: Seq<char>) -> bool {
    ||| seq_eq_lower(name, "cursive"@)
    ||| seq_eq_lower(name, "emoji"@)
    ||| seq_eq_lower(name, "fangsong"@)
    ||| seq_eq_lower(name, "fantasy"@)
    ||| seq_eq_lower(name, "inherit"@)
    ||| seq_eq_lower(name, "initial"@)
    ||| seq_eq_lower(name, "kai"@)
    ||| seq_eq_lower(name, "math"@)
    ||| seq_eq_lower(name, "monospace"@)
    ||| seq_eq_lower(name, "nastaliq"@)
    ||| seq_eq_lower(name, "revert"@)
    ||| seq_eq_lower(name, "revert-layer"@)
    ||| seq_eq_lower(name, "sans-serif"@)
    ||| seq_eq_lower(name, "serif"@)
    ||| seq_eq_lower(name, "system-ui"@)
    ||| seq_eq_lower(name, "ui-monospace"@)
    ||| seq_eq_lower(name, "ui-rounded"@)
    ||| seq_eq_lower(name, "ui-sans-serif"@)
    ||| seq_eq_lower(name, "ui-serif"@)
    ||| seq_eq_lower(name, "unset"@)
}

/// URL-encoded request parameter for one family name: a fixed parameter
/// prefix, then the name with spaces turned into plus signs.
pub open spec fn encode_family(t: Seq<char>) -> Seq<char> {
    "&family="@ + t.map_values(
        |c: char|
            if c == ' ' {
                '+'
            } else {
                c
            },
    )
}

/// What one comma-separated family name contributes to the import request:
/// nothing for a generic keyword, its encoded parameter otherwise.
pub open spec fn family_fragment(name: Seq<char>) -> Seq<char> {
    if is_generic_family(trimmed_family(name)) {
        Seq::empty()
    } else {
        encode_family(trimmed_family(name))
    }
}

/// Concatenated parameters of the families in `s`, read left to right with
/// `pending` the partial name already consumed before `s`.
pub open spec fn params_from(s: Seq<char>, pending: Seq<char>) -> Seq<char>
    decreases s.len(),
{
    if s.len() == 0 {
        family_fragment(pending)
    } else if s[0] == ',' {
        family_fragment(pending) + params_from(s.drop_first(), Seq::empty())
    } else {
        params_from(s.drop_first(), pending.push(s[0]))
    }
}

/// Concatenated request parameters of all non-generic families in the font
/// setting.
pub open spec fn font_params(font: Seq<char>) -> Seq<char> {
    params_from(font, Seq::empty())
}

/// The import directive for a font setting: absent when no non-generic
/// family remains, otherwise one request for all remaining families.
pub open spec fn import_directive(font: Seq<char>) -> Option<Seq<char>> {
    if font_params(font).len() == 0 {
        None
    } else {
        Some(
            "@import url(\"https://fonts.googleapis.com/css2?display=swap"@ + font_params(font)
                + "\");"@,
        )
    }
}

proof fn lemma_trim_start_is_skip(s: Seq<char>, p: spec_fn(char) -> bool, a: int)
    requires
        0 <= a <= s.len(),
        forall|j: int| 0 <= j < a ==> p(#[trigger] s[j]),
        a < s.len() ==> !p(s[a]),
    ensures
        trim_start(s, p) == s.skip(a),
    decreases a,
{
    if a == 0 {
        assert(s.skip(0) =~= s);
    } else {
        assert(p(s[0]));
        let t = s.drop_first();
        assert forall|j: int| 0 <= j < a - 1 implies p(#[trigger] t[j]) by {
            assert(t[j] == s[j + 1]);
        }
        assert(a - 1 < t.len() ==> !p(t[a - 1]));
        lemma_trim_start_is_skip(t, p, a - 1);
        assert(t.skip(a - 1) =~= s.skip(a));
    }
}

proof fn lemma_trim_end_is_take(s: Seq<char>, p: spec_fn(char) -> bool, b: int)
    requires
        0 <= b <= s.len(),
        forall|j: int| b <= j < s.len() ==> p(#[trigger] s[j]),
        b > 0 ==> !p(s[b - 1]),
    ensures
        trim_end(s, p) == s.take(b),
    decreases s.len(),
{
    if b == s.len() {
        assert(s.take(b) =~= s);
    } else {
        assert(p(s.last()));
        let t = s.drop_last();
        assert forall|j: int| b <= j < t.len() implies p(#[trigger] t[j]) by {
            assert(t[j] == s[j]);
        }
        lemma_trim_end_is_take(t, p, b);
        assert(t.take(b) =~= s.take(b));
    }
}

proof fn lemma_trim_both_is_subrange(s: Seq<char>, p: spec_fn(char) -> bool, a: int, b: int)
    requires
        0 <= a <= b <= s.len(),
        forall|j: int| 0 <= j < a ==> p(#[trigger] s[j]),
        forall|j: int| b <= j < s.len() ==> p(#[trigger] s[j]),
        a < b ==> !p(s[a]) && !p(s[b - 1]),
        a == b ==> b == s.len(),
    ensures
        trim_both(s, p) == s.subrange(a, b),
{
    lemma_trim_start_is_skip(s, p, a);
    let t = s.skip(a);
    assert forall|j: int| b - a <= j < t.len() implies p(#[trigger] t[j]) by {
        assert(t[j] == s[j + a]);
    }
    assert(b - a > 0 ==> !p(t[b - a - 1]));
    lemma_trim_end_is_take(t, p, b - a);
    assert(t.take(b - a) =~= s.subrange(a, b));
}

/// Compare `v[start..end]` with an ASCII-lowercase keyword, ignoring ASCII
/// case.
fn range_eq_lower(v: &Vec<char>, start: usize, end: usize, k: &str) -> (r: bool)
    requires
        start <= end <= v@.len(),
    ensures
        r == seq_eq_lower(v@.subrange(start as int, end as int), k@),
{
    let ghost sub = v@.subrange(start as int, end as int);
    let klen = k.unicode_len();
    if end - start != klen {
        return false;
    }
    let mut i: usize = 0;
    while i < klen
        invariant
            0 <= i <= klen,
            start + klen <= end <= v@.len(),
            end - start == klen,
            klen == k@.len(),
            sub == v@.subrange(start as int, end as int),
            forall|j: int| 0 <= j < i ==> char_eq_lower(#[trigger] sub[j], k@[j]),
        decreases klen - i,
    {
        let c = v[start + i];
        let kc = k.get_char(i);
        let cu = c as u32;
        let ku = kc as u32;
        let ok = c == kc || (65 <= cu && cu <= 90 && cu + 32 == ku);
        if !ok {
            assert(sub[i as int] == v@[start + i]);
            assert(!char_eq_lower(sub[i as int], k@[i as int]));
            return false;
        }
        assert(sub[i as int] == v@[start + i]);
        assert(char_eq_lower(sub[i as int], k@[i as int]));
        i += 1;
    }
    true
}

/// Whether `v[start..end]` names a generic font keyword.
fn is_generic_range(v: &Vec<char>, start: usize, end: usize) -> (r: bool)
    requires
        start <= end <= v@.len(),
    ensures
        r == is_generic_family(v@.subrange(start as int, end as int)),
{
    range_eq_lower(v, start, end, "cursive") || range_eq_lower(v, start, end, "emoji")
        || range_eq_lower(v, start, end, "fangsong") || range_eq_lower(v, start, end, "fantasy")
        || range_eq_lower(v, start, end, "inherit") || range_eq_lower(v, start, end, "initial")
        || range_eq_lower(v, start, end, "kai") || range_eq_lower(v, start, end, "math")
        || range_eq_lower(v, start, end, "monospace") || range_eq_lower(v, start, end, "nastaliq")
        || range_eq_lower(v, start, end, "revert") || range_eq_lower(
        v,
        start,
        end,
        "revert-layer",
    ) || range_eq_lower(v, start, end, "sans-serif") || range_eq_lower(v, start, end, "serif")
        || range_eq_lower(v, start, end, "system-ui") || range_eq_lower(
        v,
        start,
        end,
        "ui-monospace",
    ) || range_eq_lower(v, start, end, "ui-rounded") || range_eq_lower(
        v,
        start,
        end,
        "ui-sans-serif",
    ) || range_eq_lower(v, start, end, "ui-serif") || range_eq_lower(v, start, end, "unset")
}

/// Append every character of `s` to `out`.
fn append_str_chars(out: &mut Vec<char>, s: &str)
    ensures
        final(out)@ == old(out)@ + s@,
{
    let n = s.unicode_len();
    let mut i: usize = 0;
    while i < n
        invariant
            0 <= i <= n,
            n == s@.len(),
            out@ == old(out)@ + s@.take(i as int),
        decreases n - i,
    {
        out.push(s.get_char(i));
        assert(s@.take(i + 1) =~= s@.take(i as int).push(s@[i as int]));
        i += 1;
    }
    assert(s@.take(n as int) =~= s@);
}

/// Append every character of `v` to `out`.
fn append_chars(out: &mut Vec<char>, v: &Vec<char>)
    ensures
        final(out)@ == old(out)@ + v@,
{
    let n = v.len();
    let mut i: usize = 0;
    while i < n
        invariant
            0 <= i <= n,
            n == v@.len(),
            out@ == old(out)@ + v@.take(i as int),
        decreases n - i,
    {
        out.push(v[i]);
        assert(v@.take(i + 1) =~= v@.take(i as int).push(v@[i as int]));
        i += 1;
    }
    assert(v@.take(n as int) =~= v@);
}

/// Relies on String's FromIterator over char: the collected string holds
/// exactly the characters of the vector, in order.
#[verifier::external_body]
fn chars_to_string(v: &Vec<char>) -> (r: String)
    ensures
        r@ == v@,
{
    v.iter().collect()
}

/// Append one family name's contribution to the request parameters.
fn emit_family(name: &Vec<char>, out: &mut Vec<char>)
    ensures
        final(out)@ == old(out)@ + family_fragment(name@),
{
    let n = name.len();
    let mut a: usize = 0;
    let mut b: usize = n;
    while a < b && is_space(name[a])
        invariant
            0 <= a <= b <= n,
            n == name@.len(),
            forall|j: int| 0 <= j < a ==> is_space_spec(#[trigger] name@[j]),
        decreases b - a,
    {
        a += 1;
    }
    while b > a && is_space(name[b - 1])
        invariant
            0 <= a <= b <= n,
            n == name@.len(),
            forall|j: int| b <= j < n ==> is_space_spec(#[trigger] name@[j]),
        decreases b - a,
    {
        b -= 1;
    }
    proof {
        lemma_trim_both_is_subrange(name@, space_pred(), a as int, b as int);
    }
    let ghost t1 = name@.subrange(a as int, b as int);
    assert(trim_both(name@, space_pred()) == t1);
    // Quote trim continues on the whitespace-trimmed range.
    let mut a2: usize = a;
    let mut b2: usize = b;
    while a2 < b2 && name[a2] == '"'
        invariant
            a <= a2 <= b2 <= b <= n,
            n == name@.len(),
            forall|j: int| a <= j < a2 ==> (#[trigger] name@[j]) == '"',
        decreases b2 - a2,
    {
        a2 += 1;
    }
    while b2 > a2 && name[b2 - 1] == '"'
        invariant
            a <= a2 <= b2 <= b <= n,
            n == name@.len(),
            forall|j: int| b2 <= j < b ==> (#[trigger] name@[j]) == '"',
        decreases b2 - a2,
    {
        b2 -= 1;
    }
    proof {
        assert forall|j: int| 0 <= j < a2 - a implies (#[trigger] t1[j]) == '"' by {
            assert(t1[j] == name@[j + a]);
        }
        assert forall|j: int| b2 - a <= j < t1.len() implies (#[trigger] t1[j]) == '"' by {
            assert(t1[j] == name@[j + a]);
        }
        assert(a2 - a < b2 - a ==> !((t1[a2 - a] == '"')) && !((t1[b2 - a - 1] == '"')));
        lemma_trim_both_is_subrange(
            t1,
            quote_pred(),
            a2 as int - a as int,
            b2 as int - a as int,
        );
        assert(t1.subrange(a2 as int - a as int, b2 as int - a as int) =~= name@.subrange(
            a2 as int,
            b2 as int,
        ));
    }
    let ghost t = name@.subrange(a2 as int, b2 as int);
    assert(trimmed_family(name@) == t);
    if is_generic_range(name, a2, b2) {
        assert(family_fragment(name@) =~= Seq::<char>::empty());
        assert(out@ =~= out@ + family_fragment(name@));
        return ;
    }
    let ghost enc = encode_family(t);
    proof {
        reveal_strlit("&family=");
        assert(enc.take(8) =~= "&family="@);
    }
    append_str_chars(out, "&family=");
    let ghost base = out@;
    let mut i: usize = a2;
    while i < b2
        invariant
            a2 <= i <= b2 <= n,
            n == name@.len(),
            t == name@.subrange(a2 as int, b2 as int),
            enc == encode_family(t),
            enc.len() == 8 + t.len(),
            base == old(out)@ + enc.take(8),
            out@ == old(out)@ + enc.take(8 + (i - a2)),
        decreases b2 - i,
    {
        let c = name[i];
        if c == ' ' {
            out.push('+');
        } else {
            out.push(c);
        }
        proof {
            reveal_strlit("&family=");
            assert(t[i - a2] == name@[i as int]);
            assert(enc[8 + (i - a2)] == (if name@[i as int] == ' ' {
                '+'
            } else {
                name@[i as int]
            }));
            assert(enc.take(8 + (i - a2) + 1) =~= enc.take(8 + (i - a2)).push(enc[8 + (i - a2)]));
        }
        i += 1;
    }
    assert(enc.take(8 + (b2 - a2)) =~= enc);
    assert(family_fragment(name@) == enc);
}

/// Concatenated request parameters of the non-generic families in the font
/// setting.
fn font_family_params(font: &str) -> (r: Vec<char>)
    ensures
        r@ == font_params(font@),
{
    let n = font.unicode_len();
    let mut out: Vec<char> = Vec::new();
    let mut cur: Vec<char> = Vec::new();
    let mut i: usize = 0;
    assert(font@.skip(0) =~= font@);
    assert(Seq::<char>::empty() + params_from(font@, Seq::<char>::empty()) =~= params_from(
        font@,
        Seq::<char>::empty(),
    ));
    while i < n
        invariant
            0 <= i <= n,
            n == font@.len(),
            font_params(font@) == out@ + params_from(font@.skip(i as int), cur@),
        decreases n - i,
    {
        let ghost rest = font@.skip(i as int);
        assert(rest[0] == font@[i as int]);
        assert(rest.drop_first() =~= font@.skip(i + 1));
        let c = font.get_char(i);
        if c == ',' {
            let ghost pending = cur@;
            assert(params_from(rest, pending) == family_fragment(pending) + params_from(
                rest.drop_first(),
                Seq::empty(),
            ));
            let ghost out_before = out@;
            emit_family(&cur, &mut out);
            cur = Vec::new();
            assert(out@ + params_from(font@.skip(i + 1), cur@) =~= out_before + params_from(
                rest,
                pending,
            ));
        } else {
            assert(params_from(rest, cur@) == params_from(rest.drop_first(), cur@.push(c)));
            cur.push(c);
        }
        i += 1;
    }
    assert(font@.skip(n as int) =~= Seq::<char>::empty());
    assert(params_from(Seq::<char>::empty(), cur@) == family_fragment(cur@));
    emit_family(&cur, &mut out);
    out
}

/// Build the import directive text around non-empty parameters.
fn build_directive(params: &Vec<char>) -> (r: String)
    ensures
        r@ == "@import url(\"https://fonts.googleapis.com/css2?display=swap"@ + params@ + "\");"@,
{
    let mut out: Vec<char> = Vec::new();
    append_str_chars(&mut out, "@import url(\"https://fonts.googleapis.com/css2?display=swap");
    append_chars(&mut out, params);
    append_str_chars(&mut out, "\");");
    chars_to_string(&out)
}

/// The font-import directive for one font setting, or None when every
/// family named there is a generic keyword (then no resource request is
/// owed at all).
pub fn css_import(font: &str) -> (r: Option<String>)
    ensures
        r is Some <==> import_directive(font@) is Some,
        r matches Some(s) ==> import_directive(font@) == Some(s@),
{
    let params = font_family_params(font);
    if params.len() == 0 {
        None
    } else {
        Some(build_directive(&params))
    }
}

/// Compare two strings character for character.
fn str_eq(a: &str, b: &str) -> (r: bool)
    ensures
        r == (a@ == b@),
{
    let n = a.unicode_len();
    let m = b.unicode_len();
    if n != m {
        return false;
    }
    let mut i: usize = 0;
    while i < n
        invariant
            0 <= i <= n,
            n == a@.len(),
            n == b@.len(),
            forall|j: int| 0 <= j < i ==> a@[j] == b@[j],
        decreases n - i,
    {
        if a.get_char(i) != b.get_char(i) {
            return false;
        }
        i += 1;
    }
    assert(a@ =~= b@);
    true
}

/// Name of the presentation variable each style cell feeds. The font cell
/// feeds the body font declaration rather than a variable of its own.
pub open spec fn css_var_name(key: StyleKey) -> Seq<char> {
    match key {
        StyleKey::ColorText => "--color-text"@,
        StyleKey::ColorTheme => "--color-theme"@,
        StyleKey::ColorYear => "--color-year"@,
        StyleKey::ColorMonth => "--color-month"@,
        StyleKey::ColorTodayText => "--color-today-text"@,
        StyleKey::ColorWeekend => "--color-weekend"@,
        StyleKey::ColorWeekNumber => "--color-week-number"@,
        StyleKey::ColorFestival => "--color-festival"@,
        StyleKey::ColorSolarTerm => "--color-solar-term"@,
        StyleKey::Font => "font-family"@,
        StyleKey::SizeCellWidth => "--size-cell-width"@,
        StyleKey::SizeCellHeight => "--size-cell-height"@,
        StyleKey::SizeHeaderHeight => "--size-header-height"@,
        StyleKey::SizeText => "--size-text"@,
        StyleKey::SizeTextYear => "--size-text-year"@,
        StyleKey::SizeTextMonth => "--size-text-month"@,
        StyleKey::SizeTextWeekday => "--size-text-weekday"@,
        StyleKey::SizeTextWeekNumber => "--size-text-week-number"@,
        StyleKey::SizeTextChinese => "--size-text-chinese"@,
        StyleKey::SizeYearMargin => "--size-year-margin"@,
    }
}

/// The fixed order in which the variable block lists the style cells; the
/// font cell is not among them.
pub open spec fn var_order() -> Seq<StyleKey> {
    seq![
        StyleKey::ColorText,
        StyleKey::ColorTheme,
        StyleKey::ColorYear,
        StyleKey::ColorMonth,
        StyleKey::ColorTodayText,
        StyleKey::ColorWeekend,
        StyleKey::ColorWeekNumber,
        StyleKey::ColorFestival,
        StyleKey::ColorSolarTerm,
        StyleKey::SizeCellWidth,
        StyleKey::SizeCellHeight,
        StyleKey::SizeHeaderHeight,
        StyleKey::SizeText,
        StyleKey::SizeTextWeekday,
        StyleKey::SizeTextWeekNumber,
        StyleKey::SizeTextChinese,
        StyleKey::SizeTextMonth,
        StyleKey::SizeTextYear,
        StyleKey::SizeYearMargin,
    ]
}

/// The rows of the variable block: one (name, value) pair per style cell,
/// in the fixed order, each carrying the cell's current value.
pub open spec fn vars_match(r: Seq<(String, String)>, s: SettingsStore) -> bool {
    &&& r.len() == var_order().len()
    &&& forall|i: int|
        0 <= i < r.len() ==> (#[trigger] r[i]).0@ == css_var_name(var_order()[i]) && r[i].1@
            == s.style(var_order()[i])
}

/// The named-variable declaration block: an ordered mapping from variable
/// name to current value, recomputed wholesale from the store.
pub fn style_variables(settings: &SettingsStore) -> (r: Vec<(String, String)>)
    ensures
        vars_match(r@, *settings),
{
    let mut vars: Vec<(String, String)> = Vec::new();
    vars.push(("--color-text".to_owned(), settings.color_text.clone()));
    vars.push(("--color-theme".to_owned(), settings.color_theme.clone()));
    vars.push(("--color-year".to_owned(), settings.color_year.clone()));
    vars.push(("--color-month".to_owned(), settings.color_month.clone()));
    vars.push(("--color-today-text".to_owned(), settings.color_today_text.clone()));
    vars.push(("--color-weekend".to_owned(), settings.color_weekend.clone()));
    vars.push(("--color-week-number".to_owned(), settings.color_week_number.clone()));
    vars.push(("--color-festival".to_owned(), settings.color_festival.clone()));
    vars.push(("--color-solar-term".to_owned(), settings.color_solar_term.clone()));
    vars.push(("--size-cell-width".to_owned(), settings.size_cell_width.clone()));
    vars.push(("--size-cell-height".to_owned(), settings.size_cell_height.clone()));
    vars.push(("--size-header-height".to_owned(), settings.size_header_height.clone()));
    vars.push(("--size-text".to_owned(), settings.size_text.clone()));
    vars.push(("--size-text-weekday".to_owned(), settings.size_text_weekday.clone()));
    vars.push(("--size-text-week-number".to_owned(), settings.size_text_week_number.clone()));
    vars.push(("--size-text-chinese".to_owned(), settings.size_text_chinese.clone()));
    vars.push(("--size-text-month".to_owned(), settings.size_text_month.clone()));
    vars.push(("--size-text-year".to_owned(), settings.size_text_year.clone()));
    vars.push(("--size-year-margin".to_owned(), settings.size_year_margin.clone()));
    proof {
        assert forall|i: int| 0 <= i < vars@.len() implies (#[trigger] vars@[i]).0@ == css_var_name(
            var_order()[i],
        ) && vars@[i].1@ == settings.style(var_order()[i]) by {
            if i == 0 {
            } else if i == 1 {
            } else if i == 2 {
            } else if i == 3 {
            } else if i == 4 {
            } else if i == 5 {
            } else if i == 6 {
            } else if i == 7 {
            } else if i == 8 {
            } else if i == 9 {
            } else if i == 10 {
            } else if i == 11 {
            } else if i == 12 {
            } else if i == 13 {
            } else if i == 14 {
            } else if i == 15 {
            } else if i == 16 {
            } else if i == 17 {
            } else {
                assert(i == 18);
            }
        }
    }
    vars
}

/// Whether a stored directive is the one the font setting calls for.
pub open spec fn directive_matches(font: Seq<char>, d: Option<String>) -> bool {
    match d {
        Some(s) => import_directive(font) == Some(s@),
        None => import_directive(font) is None,
    }
}

/// The full style projection handed to presentation: the variable block,
/// the body font, and the conditional import directive.
pub struct StyleProjection {
    pub variables: Vec<(String, String)>,
    pub font: String,
    pub import: Option<String>,
}

/// Project one settings snapshot to its presentation form.
pub fn project(settings: &SettingsStore) -> (r: StyleProjection)
    ensures
        vars_match(r.variables@, *settings),
        r.font@ == settings.font@,
        directive_matches(settings.font@, r.import),
{
    StyleProjection {
        variables: style_variables(settings),
        font: settings.font.clone(),
        import: css_import(settings.font.as_str()),
    }
}

/// Cache of the last import directive, keyed on the font setting it was
/// computed from: the directive is rebuilt only when the font text
/// changes.
pub struct FontImportCache {
    pub key: Option<String>,
    pub directive: Option<String>,
}

impl FontImportCache {
    /// Either nothing has been computed yet, or the stored directive is the
    /// one the cached font setting calls for.
    pub open spec fn wf(self) -> bool {
        match self.key {
            Some(f) => directive_matches(f@, self.directive),
            None => true,
        }
    }

    /// The cache already holds the directive for this font setting.
    pub open spec fn hits(self, font: Seq<char>) -> bool {
        self.key matches Some(f) && f@ == font
    }

    /// An empty cache: the first refresh always computes.
    pub fn new() -> (r: FontImportCache)
        ensures
            r.wf(),
            r.key is None,
    {
        FontImportCache { key: None, directive: None }
    }

    /// Bring the cache up to date for one font setting, rebuilding the
    /// directive only if the text differs from the cached one.
    pub fn refresh(&mut self, font: &str) -> (recomputed: bool)
        requires
            old(self).wf(),
        ensures
            final(self).wf(),
            recomputed == !old(self).hits(font@),
            final(self).hits(font@),
            directive_matches(font@, final(self).directive),
            !recomputed ==> *final(self) == *old(self),
    {
        let hit = match &self.key {
            Some(f) => str_eq(f.as_str(), font),
            None => false,
        };
        if hit {
            false
        } else {
            self.directive = css_import(font);
            self.key = Some(font.to_owned());
            true
        }
    }
}

} // verus!
