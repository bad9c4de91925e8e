// Device properties: parsing `getprop`, `dumpsys battery`, `wm size`, `df`
// and `/proc/meminfo` output, and naming the chipset.
use vstd::prelude::*;

use crate::adb::command_builder::{args_of, strs};
use crate::adb::discovery::capitalized;
use crate::error::{opt_view, AppError};
use crate::text::{ascii_lower, ascii_upper_char, is_ascii_text, lemma_ascii_lower, chars_eq_str, chars_of, contains, contains_str, dv, first_line_where, first_where, lines, lowercase, lowercase_chars, char_to_uppercase, parse_uint, parse_unsigned, rfind, rfind_chars, split_str, split_str_chars, split_whitespace, string_of, text_lines, trim, trimmed_chars, words, LineTest, contains_test, contains_either_test, starts_with_test, trimmed_starts_with_test, string_of_range};

verus! {

/// What the device reports about itself. Storage and memory sizes are
/// human-readable texts.
pub struct DeviceProps {
    pub model: String,
    pub android_version: String,
    pub sdk_version: String,
    pub battery_level: Option<u8>,
    pub is_charging: bool,
    pub screen_resolution: Option<String>,
    pub storage_total: Option<String>,
    pub storage_free: Option<String>,
    pub ram_total: Option<String>,
    pub manufacturer: Option<String>,
    pub cpu: Option<String>,
    pub build_number: Option<String>,
    pub security_patch: Option<String>,
}

/// The marker of a property line of `getprop` output: `[key]:`.
pub open spec fn prop_pattern(key: Seq<char>) -> Seq<char> {
    "["@ + key + "]:"@
}

/// The text between the last `[` and the last `]` of a line, if not empty.
pub open spec fn bracket_value(line: Seq<char>) -> Option<Seq<char>> {
    match (rfind(line, seq!['[']), rfind(line, seq![']'])) {
        (Some(a), Some(b)) => if a + 1 < b {
            Some(line.subrange(a + 1, b))
        } else {
            None
        },
        _ => None,
    }
}

/// The value of `key` in `getprop` output: taken from the first line that
/// holds `[key]:`.
pub open spec fn prop_of(output: Seq<char>, key: Seq<char>) -> Option<Seq<char>> {
    let ls = lines(output);
    match first_where(ls, contains_test(prop_pattern(key)), 0) {
        Some(i) => bracket_value(ls[i]),
        None => None,
    }
}

fn bracket_value_of(line: &Vec<char>) -> (r: Option<String>)
    ensures
        opt_view(r) == bracket_value(line@),
{
    let open_b: Vec<char> = vec!['['];
    let close_b: Vec<char> = vec![']'];
    assert(open_b@ =~= seq!['[']);
    assert(close_b@ =~= seq![']']);
    match (rfind_chars(line, &open_b), rfind_chars(line, &close_b)) {
        (Some(a), Some(b)) => {
            if a + 1 < b {
                Some(string_of_range(line, a + 1, b))
            } else {
                None
            }
        },
        _ => None,
    }
}

/// The value of property `key` in `getprop` output.
pub fn extract_prop(output: &str, key: &str) -> (r: Option<String>)
    ensures
        opt_view(r) == prop_of(output@, key@),
{
    let ls = text_lines(output);
    let mut pat: Vec<char> = Vec::new();
    pat.push('[');
    let kc = chars_of(key);
    let mut i: usize = 0;
    while i < kc.len()
        invariant
            i <= kc.len(),
            pat@ == seq!['['] + kc@.take(i as int),
        decreases kc.len() - i,
    {
        pat.push(kc[i]);
        i = i + 1;
        assert(pat@ =~= seq!['['] + kc@.take(i as int));
    }
    pat.push(']');
    pat.push(':');
    proof {
        reveal_strlit("[");
        reveal_strlit("]:");
        assert(kc@.take(kc.len() as int) =~= kc@);
        assert(pat@ =~= prop_pattern(key@));
    }
    let t = LineTest::Contains(pat);
    match first_line_where(&ls, &t) {
        Some(k) => {
            bracket_value_of(&ls[k])
        },
        None => None,
    }
}

/// Marketing names of chipsets, by lower-case codename.
pub open spec fn soc_marketing(l: Seq<char>) -> Option<Seq<char>> {
    if l == "taro"@ {
        Some("Snapdragon 8 Gen 1"@)
    } else if l == "kalama"@ || l == "kailua"@ {
        Some("Snapdragon 8 Gen 2"@)
    } else if l == "pineapple"@ {
        Some("Snapdragon 8 Gen 3"@)
    } else if l == "lahaina"@ {
        Some("Snapdragon 888"@)
    } else if l == "kona"@ {
        Some("Snapdragon 865"@)
    } else if l == "msmnile"@ || l == "sm8150"@ {
        Some("Snapdragon 855"@)
    } else if l == "sdm845"@ {
        Some("Snapdragon 845"@)
    } else if l == "crow"@ {
        Some("Snapdragon 7 Gen 3"@)
    } else if l == "cape"@ {
        Some("Snapdragon 7+ Gen 2"@)
    } else if l == "kodiak"@ {
        Some("Snapdragon 7 Gen 1"@)
    } else if l == "sm7250"@ || l == "lito"@ {
        Some("Snapdragon 765G"@)
    } else if l == "parrot"@ {
        Some("Snapdragon 6 Gen 1"@)
    } else if l == "bengal"@ {
        Some("Snapdragon 685/680"@)
    } else if l == "holi"@ {
        Some("Snapdragon 695"@)
    } else if l == "sm6150"@ {
        Some("Snapdragon 675"@)
    } else if l == "trinket"@ {
        Some("Snapdragon 665"@)
    } else if l == "khaje"@ {
        Some("Snapdragon 4 Gen 1"@)
    } else if l == "scuba"@ {
        Some("Snapdragon 460"@)
    } else if l == "mt6893"@ || l == "mt6891"@ {
        Some("Dimensity 1200"@)
    } else if l == "mt6885"@ || l == "mt6889"@ {
        Some("Dimensity 1000"@)
    } else if l == "mt6877"@ {
        Some("Dimensity 900"@)
    } else if l == "mt6873"@ || l == "mt6875"@ {
        Some("Dimensity 800"@)
    } else if l == "mt6853"@ {
        Some("Dimensity 720"@)
    } else if l == "mt6833"@ {
        Some("Dimensity 700"@)
    } else if l == "mt6769"@ {
        Some("Helio G85"@)
    } else if l == "mt6768"@ {
        Some("Helio G80"@)
    } else if l == "mt6765"@ || l == "mt6762"@ {
        Some("Helio P35"@)
    } else if l == "mt6785"@ {
        Some("Helio G95"@)
    } else if l == "exynos2200"@ {
        Some("Exynos 2200"@)
    } else if l == "exynos2100"@ {
        Some("Exynos 2100"@)
    } else if l == "exynos990"@ {
        Some("Exynos 990"@)
    } else if l == "exynos9820"@ || l == "exynos9825"@ {
        Some("Exynos 9825"@)
    } else if l == "exynos9810"@ {
        Some("Exynos 9810"@)
    } else if l == "exynos1280"@ {
        Some("Exynos 1280"@)
    } else if l == "s5e8825"@ {
        Some("Exynos 1280"@)
    } else if l == "oriole"@ || l == "raven"@ {
        Some("Google Tensor"@)
    } else if l == "cloudripper"@ || l == "bluejay"@ {
        Some("Google Tensor G2"@)
    } else if l == "zuma"@ {
        Some("Google Tensor G3"@)
    } else {
        None
    }
}

/// Every known codename and every marketing name is non-empty.
proof fn lemma_soc_marketing_nonempty(l: Seq<char>)
    ensures
        soc_marketing(l) matches Some(n) ==> n.len() > 0 && l.len() > 0,
{
    reveal_strlit("taro");
    reveal_strlit("Snapdragon 8 Gen 1");
    reveal_strlit("kalama");
    reveal_strlit("kailua");
    reveal_strlit("Snapdragon 8 Gen 2");
    reveal_strlit("pineapple");
    reveal_strlit("Snapdragon 8 Gen 3");
    reveal_strlit("lahaina");
    reveal_strlit("Snapdragon 888");
    reveal_strlit("kona");
    reveal_strlit("Snapdragon 865");
    reveal_strlit("msmnile");
    reveal_strlit("sm8150");
    reveal_strlit("Snapdragon 855");
    reveal_strlit("sdm845");
    reveal_strlit("Snapdragon 845");
    reveal_strlit("crow");
    reveal_strlit("Snapdragon 7 Gen 3");
    reveal_strlit("cape");
    reveal_strlit("Snapdragon 7+ Gen 2");
    reveal_strlit("kodiak");
    reveal_strlit("Snapdragon 7 Gen 1");
    reveal_strlit("sm7250");
    reveal_strlit("lito");
    reveal_strlit("Snapdragon 765G");
    reveal_strlit("parrot");
    reveal_strlit("Snapdragon 6 Gen 1");
    reveal_strlit("bengal");
    reveal_strlit("Snapdragon 685/680");
    reveal_strlit("holi");
    reveal_strlit("Snapdragon 695");
    reveal_strlit("sm6150");
    reveal_strlit("Snapdragon 675");
    reveal_strlit("trinket");
    reveal_strlit("Snapdragon 665");
    reveal_strlit("khaje");
    reveal_strlit("Snapdragon 4 Gen 1");
    reveal_strlit("scuba");
    reveal_strlit("Snapdragon 460");
    reveal_strlit("mt6893");
    reveal_strlit("mt6891");
    reveal_strlit("Dimensity 1200");
    reveal_strlit("mt6885");
    reveal_strlit("mt6889");
    reveal_strlit("Dimensity 1000");
    reveal_strlit("mt6877");
    reveal_strlit("Dimensity 900");
    reveal_strlit("mt6873");
    reveal_strlit("mt6875");
    reveal_strlit("Dimensity 800");
    reveal_strlit("mt6853");
    reveal_strlit("Dimensity 720");
    reveal_strlit("mt6833");
    reveal_strlit("Dimensity 700");
    reveal_strlit("mt6769");
    reveal_strlit("Helio G85");
    reveal_strlit("mt6768");
    reveal_strlit("Helio G80");
    reveal_strlit("mt6765");
    reveal_strlit("mt6762");
    reveal_strlit("Helio P35");
    reveal_strlit("mt6785");
    reveal_strlit("Helio G95");
    reveal_strlit("exynos2200");
    reveal_strlit("Exynos 2200");
    reveal_strlit("exynos2100");
    reveal_strlit("Exynos 2100");
    reveal_strlit("exynos990");
    reveal_strlit("Exynos 990");
    reveal_strlit("exynos9820");
    reveal_strlit("exynos9825");
    reveal_strlit("Exynos 9825");
    reveal_strlit("exynos9810");
    reveal_strlit("Exynos 9810");
    reveal_strlit("exynos1280");
    reveal_strlit("Exynos 1280");
    reveal_strlit("s5e8825");
    reveal_strlit("oriole");
    reveal_strlit("raven");
    reveal_strlit("Google Tensor");
    reveal_strlit("cloudripper");
    reveal_strlit("bluejay");
    reveal_strlit("Google Tensor G2");
    reveal_strlit("zuma");
    reveal_strlit("Google Tensor G3");
}

fn marketing_name(l: &Vec<char>) -> (r: Option<&'static str>)
    ensures
        match r {
            Some(s) => soc_marketing(l@) == Some(s@),
            None => soc_marketing(l@) is None,
        },
{
    if chars_eq_str(&l, "taro") {
        Some("Snapdragon 8 Gen 1")
    } else if chars_eq_str(&l, "kalama") || chars_eq_str(&l, "kailua") {
        Some("Snapdragon 8 Gen 2")
    } else if chars_eq_str(&l, "pineapple") {
        Some("Snapdragon 8 Gen 3")
    } else if chars_eq_str(&l, "lahaina") {
        Some("Snapdragon 888")
    } else if chars_eq_str(&l, "kona") {
        Some("Snapdragon 865")
    } else if chars_eq_str(&l, "msmnile") || chars_eq_str(&l, "sm8150") {
        Some("Snapdragon 855")
    } else if chars_eq_str(&l, "sdm845") {
        Some("Snapdragon 845")
    } else if chars_eq_str(&l, "crow") {
        Some("Snapdragon 7 Gen 3")
    } else if chars_eq_str(&l, "cape") {
        Some("Snapdragon 7+ Gen 2")
    } else if chars_eq_str(&l, "kodiak") {
        Some("Snapdragon 7 Gen 1")
    } else if chars_eq_str(&l, "sm7250") || chars_eq_str(&l, "lito") {
        Some("Snapdragon 765G")
    } else if chars_eq_str(&l, "parrot") {
        Some("Snapdragon 6 Gen 1")
    } else if chars_eq_str(&l, "bengal") {
        Some("Snapdragon 685/680")
    } else if chars_eq_str(&l, "holi") {
        Some("Snapdragon 695")
    } else if chars_eq_str(&l, "sm6150") {
        Some("Snapdragon 675")
    } else if chars_eq_str(&l, "trinket") {
        Some("Snapdragon 665")
    } else if chars_eq_str(&l, "khaje") {
        Some("Snapdragon 4 Gen 1")
    } else if chars_eq_str(&l, "scuba") {
        Some("Snapdragon 460")
    } else if chars_eq_str(&l, "mt6893") || chars_eq_str(&l, "mt6891") {
        Some("Dimensity 1200")
    } else if chars_eq_str(&l, "mt6885") || chars_eq_str(&l, "mt6889") {
        Some("Dimensity 1000")
    } else if chars_eq_str(&l, "mt6877") {
        Some("Dimensity 900")
    } else if chars_eq_str(&l, "mt6873") || chars_eq_str(&l, "mt6875") {
        Some("Dimensity 800")
    } else if chars_eq_str(&l, "mt6853") {
        Some("Dimensity 720")
    } else if chars_eq_str(&l, "mt6833") {
        Some("Dimensity 700")
    } else if chars_eq_str(&l, "mt6769") {
        Some("Helio G85")
    } else if chars_eq_str(&l, "mt6768") {
        Some("Helio G80")
    } else if chars_eq_str(&l, "mt6765") || chars_eq_str(&l, "mt6762") {
        Some("Helio P35")
    } else if chars_eq_str(&l, "mt6785") {
        Some("Helio G95")
    } else if chars_eq_str(&l, "exynos2200") {
        Some("Exynos 2200")
    } else if chars_eq_str(&l, "exynos2100") {
        Some("Exynos 2100")
    } else if chars_eq_str(&l, "exynos990") {
        Some("Exynos 990")
    } else if chars_eq_str(&l, "exynos9820") || chars_eq_str(&l, "exynos9825") {
        Some("Exynos 9825")
    } else if chars_eq_str(&l, "exynos9810") {
        Some("Exynos 9810")
    } else if chars_eq_str(&l, "exynos1280") {
        Some("Exynos 1280")
    } else if chars_eq_str(&l, "s5e8825") {
        Some("Exynos 1280")
    } else if chars_eq_str(&l, "oriole") || chars_eq_str(&l, "raven") {
        Some("Google Tensor")
    } else if chars_eq_str(&l, "cloudripper") || chars_eq_str(&l, "bluejay") {
        Some("Google Tensor G2")
    } else if chars_eq_str(&l, "zuma") {
        Some("Google Tensor G3")
    } else {
        None
    }
}

/// The chipset name shown for a codename whose lowercase form is `lower`: the
/// marketing name of a known codename, a name that already names a chipset
/// family as is, anything else with its first character uppercased.
pub open spec fn soc_name_from(lower: Seq<char>, codename: Seq<char>) -> Seq<char> {
    match soc_marketing(lower) {
        Some(n) => n,
        None => if contains(codename, "Snapdragon"@) || contains(codename, "Dimensity"@) || contains(
            codename,
            "Exynos"@,
        ) || contains(codename, "Helio"@) || contains(codename, "Tensor"@) {
            codename
        } else {
            capitalized(codename)
        },
    }
}

/// The chipset name shown for a codename, looked up in any case.
pub open spec fn soc_name(codename: Seq<char>) -> Seq<char> {
    soc_name_from(lowercase(codename), codename)
}

/// `b` with its first character uppercased, where that character is ASCII.
pub open spec fn ascii_capitalized(b: Seq<char>) -> Seq<char> {
    if b.len() == 0 {
        b
    } else {
        seq![ascii_upper_char(b[0])] + b.drop_first()
    }
}

/// The chipset name of an ASCII codename, in ASCII case mapping: the marketing
/// name of its lowercase form, a chipset family's name as is, anything else
/// with its first letter capitalized.
pub open spec fn soc_name_ascii(codename: Seq<char>) -> Seq<char> {
    match soc_marketing(ascii_lower(codename)) {
        Some(n) => n,
        None => if contains(codename, "Snapdragon"@) || contains(codename, "Dimensity"@) || contains(
            codename,
            "Exynos"@,
        ) || contains(codename, "Helio"@) || contains(codename, "Tensor"@) {
            codename
        } else {
            ascii_capitalized(codename)
        },
    }
}

/// A known codename maps alike in any case: for an ASCII codename, the name
/// found for its lowercase form is the name found for it.
pub proof fn law_lowercased_codename_maps_alike(s: Seq<char>)
    requires
        is_ascii_text(s),
        soc_marketing(ascii_lower(s)) is Some,
    ensures
        is_ascii_text(ascii_lower(s)),
        soc_name_ascii(ascii_lower(s)) == soc_name_ascii(s),
{
    lemma_ascii_lower(s);
}

/// The chipset name for a codename; it is empty only for an empty codename.
pub fn map_soc_codename(codename: &str) -> (r: String)
    ensures
        r@ == soc_name(codename@),
        is_ascii_text(codename@) ==> r@ == soc_name_ascii(codename@),
        (r@.len() == 0) == (codename@.len() == 0),
{
    let c = chars_of(codename);
    let l = lowercase_chars(&c);
    proof {
        lemma_soc_marketing_nonempty(l@);
    }
    match marketing_name(&l) {
        Some(n) => n.to_string(),
        None => {
            if contains_str(&c, "Snapdragon") || contains_str(&c, "Dimensity") || contains_str(
                &c,
                "Exynos",
            ) || contains_str(&c, "Helio") || contains_str(&c, "Tensor") {
                codename.to_string()
            } else if c.len() == 0 {
                String::new()
            } else {
                let mut out = char_to_uppercase(c[0]);
                let rest = string_of_range(&c, 1, c.len());
                out.append(rest.as_str());
                assert(c@.subrange(1, c.len() as int) =~= c@.drop_first());
                out
            }
        },
    }
}

/// The battery charge in percent: the number after the first `:` of the first
/// line whose trimmed text starts with `level:`.
pub open spec fn battery_level_of(text: Seq<char>) -> Option<int> {
    let ls = lines(text);
    match first_where(ls, trimmed_starts_with_test("level:"@), 0) {
        Some(i) => {
            let parts = split_str(ls[i], ":"@);
            if parts.len() > 1 {
                parse_unsigned(trim(parts[1]), 255)
            } else {
                None
            }
        },
        None => None,
    }
}

/// The device charges from USB, AC or wireless power.
pub open spec fn charging_of(text: Seq<char>) -> bool {
    contains(text, "USB powered: true"@) || contains(text, "AC powered: true"@) || contains(
        text,
        "Wireless powered: true"@,
    )
}

fn lit_vec(lit: &str) -> (r: Vec<char>)
    ensures
        r@ == lit@,
{
    let v = chars_of(lit);
    v
}

/// The text after the first `:` of a line and before any second one, trimmed.
fn second_field(line: &Vec<char>) -> (r: Option<Vec<char>>)
    ensures
        match r {
            Some(v) => split_str(line@, ":"@).len() > 1 && v@ == trim(split_str(line@, ":"@)[1]),
            None => split_str(line@, ":"@).len() <= 1,
        },
{
    let colon = lit_vec(":");
    proof {
        reveal_strlit(":");
    }
    let parts = split_str_chars(line, &colon);
    if parts.len() > 1 {
        assert(dv(parts@)[1] == parts@[1]@);
        Some(trimmed_chars(&parts[1]))
    } else {
        None
    }
}

/// Reads `dumpsys battery` output: the charge level and whether it charges.
pub fn parse_battery(text: &str) -> (r: (Option<u8>, bool))
    ensures
        match r.0 {
            Some(v) => battery_level_of(text@) == Some(v as int),
            None => battery_level_of(text@) is None,
        },
        r.1 == charging_of(text@),
{
    let ls = text_lines(text);
    let t = LineTest::TrimmedStartsWith(lit_vec("level:"));
    let level: Option<u8> = match first_line_where(&ls, &t) {
        Some(k) => match second_field(&ls[k]) {
            Some(v) => match parse_uint(&v, 255) {
                Some(n) => Some(n as u8),
                None => None,
            },
            None => None,
        },
        None => None,
    };
    let c = chars_of(text);
    let charging = contains_str(&c, "USB powered: true") || contains_str(&c, "AC powered: true")
        || contains_str(&c, "Wireless powered: true");
    (level, charging)
}

/// The screen size reported by `wm size`: from the first line naming the
/// physical or override size, the trimmed text after its first `:`.
pub open spec fn resolution_of(text: Seq<char>) -> Option<Seq<char>> {
    let ls = lines(text);
    match first_where(
        ls,
        contains_either_test("Physical size:"@, "Override size:"@),
        0,
    ) {
        Some(i) => {
            let parts = split_str(ls[i], ":"@);
            if parts.len() > 1 {
                Some(trim(parts[1]))
            } else {
                None
            }
        },
        None => None,
    }
}

pub fn parse_screen_resolution(text: &str) -> (r: Option<String>)
    ensures
        opt_view(r) == resolution_of(text@),
{
    let ls = text_lines(text);
    let t = LineTest::ContainsEither(lit_vec("Physical size:"), lit_vec("Override size:"));
    match first_line_where(&ls, &t) {
        Some(k) => match second_field(&ls[k]) {
            Some(v) => Some(string_of(v.as_slice())),
            None => None,
        },
        None => None,
    }
}

/// The total and available sizes (in KB, as printed) from the second line of
/// `df` output, when it has at least four fields.
pub open spec fn df_sizes_of(text: Seq<char>) -> Option<(Seq<char>, Seq<char>)> {
    let ls = lines(text);
    if ls.len() > 1 && words(ls[1]).len() >= 4 {
        Some((words(ls[1])[1], words(ls[1])[3]))
    } else {
        None
    }
}

pub fn parse_df_sizes(text: &str) -> (r: Option<(String, String)>)
    ensures
        match r {
            Some(p) => df_sizes_of(text@) == Some((p.0@, p.1@)),
            None => df_sizes_of(text@) is None,
        },
{
    let ls = text_lines(text);
    if ls.len() > 1 {
        let parts = split_whitespace(&ls[1]);
        assert(dv(ls@)[1] == ls@[1]@);
        if parts.len() >= 4 {
            assert(dv(parts@)[1] == parts@[1]@ && dv(parts@)[3] == parts@[3]@);
            return Some((string_of(parts[1].as_slice()), string_of(parts[3].as_slice())));
        }
    }
    None
}

/// Total memory in KB: the second field of the first line of
/// `/proc/meminfo` that starts with `MemTotal:`.
pub open spec fn mem_total_of(text: Seq<char>) -> Option<int> {
    let ls = lines(text);
    match first_where(ls, starts_with_test("MemTotal:"@), 0) {
        Some(i) => if words(ls[i]).len() > 1 {
            parse_unsigned(words(ls[i])[1], u64::MAX as int)
        } else {
            None
        },
        None => None,
    }
}

pub fn parse_mem_total_kb(text: &str) -> (r: Option<u64>)
    ensures
        match r {
            Some(v) => mem_total_of(text@) == Some(v as int),
            None => mem_total_of(text@) is None,
        },
{
    let ls = text_lines(text);
    let t = LineTest::StartsWith(lit_vec("MemTotal:"));
    match first_line_where(&ls, &t) {
        Some(k) => {
            let parts = split_whitespace(&ls[k]);
            if parts.len() > 1 {
                assert(dv(parts@)[1] == parts@[1]@);
                parse_uint(&parts[1], u64::MAX)
            } else {
                None
            }
        },
        None => None,
    }
}

/// The chipset property: the first of `ro.soc.model`, `ro.hardware.chipname`,
/// `ro.product.board` and `ro.hardware` that is present, by its shown name.
pub open spec fn cpu_of(props: Seq<char>) -> Option<Seq<char>> {
    let raw = match prop_of(props, "ro.soc.model"@) {
        Some(v) => Some(v),
        None => match prop_of(props, "ro.hardware.chipname"@) {
            Some(v) => Some(v),
            None => match prop_of(props, "ro.product.board"@) {
                Some(v) => Some(v),
                None => prop_of(props, "ro.hardware"@),
            },
        },
    };
    match raw {
        Some(r) => Some(soc_name(r)),
        None => None,
    }
}

pub fn cpu_name(props: &str) -> (r: Option<String>)
    ensures
        opt_view(r) == cpu_of(props@),
{
    let raw = match extract_prop(props, "ro.soc.model") {
        Some(v) => Some(v),
        None => match extract_prop(props, "ro.hardware.chipname") {
            Some(v) => Some(v),
            None => match extract_prop(props, "ro.product.board") {
                Some(v) => Some(v),
                None => extract_prop(props, "ro.hardware"),
            },
        },
    };
    match raw {
        Some(r) => Some(map_soc_codename(r.as_str())),
        None => None,
    }
}

/// A property's value, or `Unknown`.
pub open spec fn prop_or_unknown(props: Seq<char>, key: Seq<char>) -> Seq<char> {
    match prop_of(props, key) {
        Some(v) => v,
        None => "Unknown"@,
    }
}

fn prop_or_unknown_exec(props: &str, key: &str) -> (r: String)
    ensures
        r@ == prop_or_unknown(props@, key@),
{
    match extract_prop(props, key) {
        Some(v) => v,
        None => "Unknown".to_string(),
    }
}

/// Assembles the properties from the outputs of `getprop`, `dumpsys battery`
/// and `wm size` (`None` where the command could not run) and the storage and
/// memory texts.
pub fn get_device_props(
    props: &str,
    battery: Option<String>,
    screen: Option<String>,
    storage_total: Option<String>,
    storage_free: Option<String>,
    ram_total: Option<String>,
) -> (r: DeviceProps)
    ensures
        r.model@ == prop_or_unknown(props@, "ro.product.model"@),
        r.android_version@ == prop_or_unknown(props@, "ro.build.version.release"@),
        r.sdk_version@ == prop_or_unknown(props@, "ro.build.version.sdk"@),
        opt_view(r.manufacturer) == prop_of(props@, "ro.product.brand"@),
        opt_view(r.cpu) == cpu_of(props@),
        opt_view(r.build_number) == prop_of(props@, "ro.build.display.id"@),
        opt_view(r.security_patch) == prop_of(props@, "ro.build.version.security_patch"@),
        match battery {
            Some(b) => (match r.battery_level {
                Some(v) => battery_level_of(b@) == Some(v as int),
                None => battery_level_of(b@) is None,
            }) && r.is_charging == charging_of(b@),
            None => r.battery_level is None && !r.is_charging,
        },
        opt_view(r.screen_resolution) == match screen {
            Some(s) => resolution_of(s@),
            None => None,
        },
        opt_view(r.storage_total) == opt_view(storage_total),
        opt_view(r.storage_free) == opt_view(storage_free),
        opt_view(r.ram_total) == opt_view(ram_total),
{
    let (battery_level, is_charging) = match &battery {
        Some(b) => parse_battery(b.as_str()),
        None => (None, false),
    };
    let screen_resolution = match &screen {
        Some(s) => parse_screen_resolution(s.as_str()),
        None => None,
    };
    DeviceProps {
        model: prop_or_unknown_exec(props, "ro.product.model"),
        android_version: prop_or_unknown_exec(props, "ro.build.version.release"),
        sdk_version: prop_or_unknown_exec(props, "ro.build.version.sdk"),
        battery_level,
        is_charging,
        screen_resolution,
        storage_total,
        storage_free,
        ram_total,
        manufacturer: extract_prop(props, "ro.product.brand"),
        cpu: cpu_name(props),
        build_number: extract_prop(props, "ro.build.display.id"),
        security_patch: extract_prop(props, "ro.build.version.security_patch"),
    }
}

/// The error when `getprop` could not be run.
pub fn props_error(detail: &str) -> (r: AppError)
    ensures
        r.is("GET_PROPS_FAILED"@, "Failed to get props: "@ + detail@, None),
{
    let mut m = String::new();
    m.append("Failed to get props: ");
    m.append(detail);
    AppError::new("GET_PROPS_FAILED", m.as_str())
}

/// `adb -s <device> shell <words>`, without the executable.
fn shell_words(device_id: &str, words: &[&str]) -> (r: Vec<String>)
    ensures
        strs(r@) == seq!["-s"@, device_id@, "shell"@] + Seq::new(words@.len(), |i: int| words@[i]@),
{
    let mut v = args_of(&["-s", device_id, "shell"]);
    let w = args_of(words);
    let ghost a = strs(v@);
    let mut w = w;
    v.append(&mut w);
    assert(strs(v@) =~= a + Seq::new(words@.len(), |i: int| words@[i]@));
    v
}

/// `adb -s <device> shell getprop`, without the executable.
pub fn getprop_args(device_id: &str) -> (r: Vec<String>)
    ensures
        strs(r@) == seq!["-s"@, device_id@, "shell"@, "getprop"@],
{
    let r = shell_words(device_id, &["getprop"]);
    assert(strs(r@) =~= seq!["-s"@, device_id@, "shell"@, "getprop"@]);
    r
}

/// `adb -s <device> shell dumpsys battery`, without the executable.
pub fn battery_args(device_id: &str) -> (r: Vec<String>)
    ensures
        strs(r@) == seq!["-s"@, device_id@, "shell"@, "dumpsys"@, "battery"@],
{
    let r = shell_words(device_id, &["dumpsys", "battery"]);
    assert(strs(r@) =~= seq!["-s"@, device_id@, "shell"@, "dumpsys"@, "battery"@]);
    r
}

/// `adb -s <device> shell wm size`, without the executable.
pub fn screen_size_args(device_id: &str) -> (r: Vec<String>)
    ensures
        strs(r@) == seq!["-s"@, device_id@, "shell"@, "wm"@, "size"@],
{
    let r = shell_words(device_id, &["wm", "size"]);
    assert(strs(r@) =~= seq!["-s"@, device_id@, "shell"@, "wm"@, "size"@]);
    r
}

/// `adb -s <device> shell df /data`, without the executable.
pub fn storage_args(device_id: &str) -> (r: Vec<String>)
    ensures
        strs(r@) == seq!["-s"@, device_id@, "shell"@, "df"@, "/data"@],
{
    let r = shell_words(device_id, &["df", "/data"]);
    assert(strs(r@) =~= seq!["-s"@, device_id@, "shell"@, "df"@, "/data"@]);
    r
}

/// `adb -s <device> shell cat /proc/meminfo`, without the executable.
pub fn meminfo_args(device_id: &str) -> (r: Vec<String>)
    ensures
        strs(r@) == seq!["-s"@, device_id@, "shell"@, "cat"@, "/proc/meminfo"@],
{
    let r = shell_words(device_id, &["cat", "/proc/meminfo"]);
    assert(strs(r@) =~= seq!["-s"@, device_id@, "shell"@, "cat"@, "/proc/meminfo"@]);
    r
}

/// The chipset is read from the first present property in the order
/// `ro.soc.model`, `ro.hardware.chipname`, `ro.product.board`, `ro.hardware`:
/// a property further down the order is looked at only when every one before
/// it is absent, and then whatever the later ones hold does not matter.
pub proof fn law_cpu_property_order(props: Seq<char>)
    ensures
        prop_of(props, "ro.soc.model"@) matches Some(v) ==> cpu_of(props) == Some(soc_name(v)),
        prop_of(props, "ro.soc.model"@) is None ==> (prop_of(props, "ro.hardware.chipname"@) matches Some(v)
            ==> cpu_of(props) == Some(soc_name(v))),
        prop_of(props, "ro.soc.model"@) is None && prop_of(props, "ro.hardware.chipname"@) is None ==> (
        prop_of(props, "ro.product.board"@) matches Some(v) ==> cpu_of(props) == Some(soc_name(v))),
        prop_of(props, "ro.soc.model"@) is None && prop_of(props, "ro.hardware.chipname"@) is None
            && prop_of(props, "ro.product.board"@) is None ==> cpu_of(props) == match prop_of(
            props,
            "ro.hardware"@,
        ) {
            Some(v) => Some(soc_name(v)),
            None => None,
        },
{
}

/// Two property dumps that agree on `ro.soc.model` and name the same
/// `ro.hardware.chipname` give the same chipset, however their boards and
/// hardware differ.
pub proof fn law_chip_name_outranks_board(a: Seq<char>, b: Seq<char>)
    requires
        prop_of(a, "ro.soc.model"@) == prop_of(b, "ro.soc.model"@),
        prop_of(a, "ro.hardware.chipname"@) is Some,
        prop_of(a, "ro.hardware.chipname"@) == prop_of(b, "ro.hardware.chipname"@),
    ensures
        cpu_of(a) == cpu_of(b),
{
}

} // verus!
