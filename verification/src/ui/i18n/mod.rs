//! The texts of the user interface, and how a locale picks them.

pub mod en_us;
pub mod zh_cn;

use vstd::prelude::*;

use crate::text::{chars_of, same_text};

verus! {

/// A language that the texts exist in.
#[derive(Clone, Copy, Debug, PartialEq, Eq, Structural)]
pub enum Catalog {
    EnUs,
    ZhCn,
}

/// The texts of the user interface in one language.
#[derive(Clone, Copy, Debug, PartialEq, Eq)]
pub struct Messages {
    pub catalog: Catalog,
    pub locale: &'static str,
    pub cancel: &'static str,
    pub share: &'static str,
    pub share_screen: &'static str,
    pub remember_selection: &'static str,
    pub window: &'static str,
    pub display: &'static str,
    pub untitled_window: &'static str,
    pub protected_window: &'static str,
    pub hidden_from_screen_share: &'static str,
}

impl Messages {
    /// Whether these are the texts of the given language.
    pub open spec fn speaks(self, catalog: Catalog) -> bool {
        &&& self.catalog == catalog
        &&& match catalog {
            Catalog::EnUs => en_us::texts(self),
            Catalog::ZhCn => zh_cn::texts(self),
        }
    }

    /// The sentence that tells which app wants to share the screen.
    pub open spec fn description(self, app_id: Option<Seq<char>>) -> Seq<char> {
        match self.catalog {
            Catalog::EnUs => en_us::description(app_id),
            Catalog::ZhCn => zh_cn::description(app_id),
        }
    }

    /// Tells the user which app wants to share the screen.
    pub fn share_description(&self, app_id: Option<&str>) -> (s: String)
        ensures
            s@ == self.description(
                match app_id {
                    Some(app_id) => Some(app_id@),
                    None => None,
                },
            ),
    {
        match self.catalog {
            Catalog::EnUs => en_us::share_description(app_id),
            Catalog::ZhCn => zh_cn::share_description(app_id),
        }
    }
}

/// The tags that pick a language directly.
pub open spec fn tags(catalog: Catalog) -> Set<Seq<char>> {
    match catalog {
        Catalog::EnUs => set!["en"@, "en-us"@],
        Catalog::ZhCn => set!["zh-cn"@, "zh-sg"@, "zh-hans"@, "zh-hans-cn"@, "zh-hans-sg"@],
    }
}

/// Whether `c` has the Unicode property `White_Space`.
pub open spec fn is_white_space(c: char) -> bool {
    let n = c as int;
    ||| 0x9 <= n <= 0xd
    ||| n == 0x20
    ||| n == 0x85
    ||| n == 0xa0
    ||| n == 0x1680
    ||| 0x2000 <= n <= 0x200a
    ||| n == 0x2028
    ||| n == 0x2029
    ||| n == 0x202f
    ||| n == 0x205f
    ||| n == 0x3000
}

/// Where the white space at the start of `s` ends.
pub open spec fn leading_space(s: Seq<char>) -> nat
    decreases s.len(),
{
    if s.len() > 0 && is_white_space(s.first()) {
        1 + leading_space(s.drop_first())
    } else {
        0
    }
}

/// `s` without the white space at its end.
pub open spec fn without_trailing_space(s: Seq<char>) -> Seq<char>
    decreases s.len(),
{
    if s.len() > 0 && is_white_space(s.last()) {
        without_trailing_space(s.drop_last())
    } else {
        s
    }
}

/// `s` without the white space at both ends.
pub open spec fn trimmed(s: Seq<char>) -> Seq<char> {
    without_trailing_space(s.skip(leading_space(s) as int))
}

/// Whether `s` holds nothing but white space.
pub open spec fn is_blank(s: Seq<char>) -> bool {
    forall|i: int| 0 <= i < s.len() ==> is_white_space(#[trigger] s[i])
}

/// Whether `c` ends the language part of a locale name.
pub open spec fn ends_language(c: char) -> bool {
    c == '.' || c == '@'
}

/// `s` up to the first character that ends the language part, or the whole of `s`.
pub open spec fn language_part(s: Seq<char>) -> Seq<char>
    decreases s.len(),
{
    if s.len() == 0 || ends_language(s.first()) {
        Seq::empty()
    } else {
        seq![s.first()] + language_part(s.drop_first())
    }
}

/// A character of a tag: underscores become hyphens, and ASCII letters lower case.
pub open spec fn tag_char(c: char) -> char {
    if c == '_' {
        '-'
    } else if 'A' <= c <= 'Z' {
        ((c as int) + 32) as char
    } else {
        c
    }
}

/// The tag of a locale name such as `zh_CN.UTF-8`.
pub open spec fn locale_tag(locale: Seq<char>) -> Seq<char> {
    language_part(trimmed(locale)).map_values(|c: char| tag_char(c))
}

/// Where the last hyphen of `tag` stands.
pub open spec fn last_hyphen(tag: Seq<char>) -> Option<int>
    decreases tag.len(),
{
    if tag.len() == 0 {
        None
    } else if tag.last() == '-' {
        Some(tag.len() - 1)
    } else {
        last_hyphen(tag.drop_last())
    }
}

/// The language that `tag` picks: that of the longest prefix of `tag`, in whole parts between
/// hyphens, that picks one directly.
pub open spec fn catalog_of_tag(tag: Seq<char>) -> Option<Catalog>
    decreases tag.len(),
{
    if tags(Catalog::EnUs).contains(tag) {
        Some(Catalog::EnUs)
    } else if tags(Catalog::ZhCn).contains(tag) {
        Some(Catalog::ZhCn)
    } else {
        match last_hyphen(tag) {
            Some(i) => if 0 <= i < tag.len() {
                catalog_of_tag(tag.take(i))
            } else {
                None
            },
            None => None,
        }
    }
}

/// The language that a locale name picks. The names of the standard locale pick English.
pub open spec fn catalog_of_locale(locale: Seq<char>) -> Option<Catalog> {
    let tag = locale_tag(locale);
    if tag == "c"@ || tag == "posix"@ {
        Some(Catalog::EnUs)
    } else {
        catalog_of_tag(tag)
    }
}

/// The first of the values that is there and not blank.
pub open spec fn first_usable(values: Seq<Option<String>>) -> Option<Seq<char>>
    decreases values.len(),
{
    if values.len() == 0 {
        None
    } else {
        match values.first() {
            Some(value) => if !is_blank(value@) {
                Some(value@)
            } else {
                first_usable(values.drop_first())
            },
            None => first_usable(values.drop_first()),
        }
    }
}

/// The language for a chosen locale name: English where it picks none.
pub open spec fn catalog_or_english(locale: Option<Seq<char>>) -> Catalog {
    match locale {
        Some(locale) => match catalog_of_locale(locale) {
            Some(catalog) => catalog,
            None => Catalog::EnUs,
        },
        None => Catalog::EnUs,
    }
}

fn white_space(c: char) -> (r: bool)
    ensures
        r == is_white_space(c),
{
    let n = c as u32;
    (0x9 <= n && n <= 0xd) || n == 0x20 || n == 0x85 || n == 0xa0 || n == 0x1680 || (0x2000 <= n
        && n <= 0x200a) || n == 0x2028 || n == 0x2029 || n == 0x202f || n == 0x205f || n == 0x3000
}

/// The first `n` characters of `chars` as a string.
fn text_of(chars: &Vec<char>, n: usize) -> (s: String)
    requires
        n <= chars@.len(),
    ensures
        s@ == chars@.take(n as int),
{
    let mut s = String::new();
    assert(s@ =~= chars@.take(0));
    for i in 0..n
        invariant
            n <= chars@.len(),
            s@ == chars@.take(i as int),
    {
        s.push(chars[i]);
        assert(s@ =~= chars@.take(i + 1));
    }
    s
}

/// Whether `s` holds nothing but white space.
fn blank(s: &str) -> (r: bool)
    ensures
        r == is_blank(s@),
{
    let chars = chars_of(s);
    for i in 0..chars.len()
        invariant
            chars@ == s@,
            forall|j: int| 0 <= j < i ==> is_white_space(#[trigger] s@[j]),
    {
        if !white_space(chars[i]) {
            assert(!is_white_space(s@[i as int]));
            return false;
        }
    }
    true
}

proof fn language_part_stops(s: Seq<char>, n: int)
    requires
        0 <= n <= s.len(),
        forall|i: int| 0 <= i < n ==> !ends_language(#[trigger] s[i]),
        n < s.len() ==> ends_language(s[n]),
    ensures
        language_part(s) == s.take(n),
    decreases s.len(),
{
    if n == 0 {
        assert(language_part(s) =~= s.take(0));
    } else {
        assert(!ends_language(s[0]));
        let rest = s.drop_first();
        assert forall|i: int| 0 <= i < n - 1 implies !ends_language(#[trigger] rest[i]) by {
            assert(rest[i] == s[i + 1]);
        }
        language_part_stops(rest, n - 1);
        assert(seq![s.first()] + rest.take(n - 1) =~= s.take(n));
    }
}

/// The tag of a locale name such as `zh_CN.UTF-8`.
pub fn normalize_locale(locale: &str) -> (tag: String)
    ensures
        tag@ == locale_tag(locale@),
{
    let chars = chars_of(locale);
    let mut start: usize = 0;
    assert(chars@.skip(0) =~= chars@);
    while start < chars.len() && white_space(chars[start])
        invariant
            start <= chars@.len(),
            leading_space(chars@) == start + leading_space(chars@.skip(start as int)),
        decreases chars@.len() - start,
    {
        assert(chars@.skip(start as int).drop_first() =~= chars@.skip(start + 1));
        start = start + 1;
    }
    assert(leading_space(chars@) == start);
    let ghost body = chars@.skip(start as int);
    let mut end: usize = chars.len();
    assert(chars@.subrange(start as int, end as int) =~= body);
    while start < end && white_space(chars[end - 1])
        invariant
            start <= end <= chars@.len(),
            without_trailing_space(body) == without_trailing_space(
                chars@.subrange(start as int, end as int),
            ),
        decreases end,
    {
        let ghost part = chars@.subrange(start as int, end as int);
        assert(part.last() == chars@[end - 1]);
        assert(part.drop_last() =~= chars@.subrange(start as int, end - 1));
        end = end - 1;
    }
    let ghost text = chars@.subrange(start as int, end as int);
    assert(text.len() > 0 ==> text.last() == chars@[end - 1]);
    assert(trimmed(locale@) == text);
    let mut tag = String::new();
    let mut i: usize = start;
    assert(tag@ =~= text.take(0).map_values(|c: char| tag_char(c)));
    while i < end && chars[i] != '.' && chars[i] != '@'
        invariant
            start <= i <= end <= chars@.len(),
            text == chars@.subrange(start as int, end as int),
            forall|j: int| 0 <= j < i - start ==> !ends_language(#[trigger] text[j]),
            tag@ == text.take(i - start).map_values(|c: char| tag_char(c)),
        decreases end - i,
    {
        let c = chars[i];
        assert(text[i - start] == c);
        let c = if c == '_' {
            '-'
        } else if 'A' <= c && c <= 'Z' {
            ((c as u8) + 32u8) as char
        } else {
            c
        };
        assert(c == tag_char(text[i - start]));
        tag.push(c);
        assert(tag@ =~= text.take(i - start + 1).map_values(|c: char| tag_char(c)));
        i = i + 1;
    }
    proof {
        language_part_stops(text, i - start);
    }
    tag
}

/// The language that `tag` picks directly.
fn catalog_with_tag(tag: &str) -> (r: Option<Catalog>)
    ensures
        match r {
            Some(Catalog::EnUs) => tags(Catalog::EnUs).contains(tag@),
            Some(Catalog::ZhCn) => !tags(Catalog::EnUs).contains(tag@) && tags(
                Catalog::ZhCn,
            ).contains(tag@),
            None => !tags(Catalog::EnUs).contains(tag@) && !tags(Catalog::ZhCn).contains(tag@),
        },
{
    if same_text(tag, "en") || same_text(tag, "en-us") {
        Some(Catalog::EnUs)
    } else if same_text(tag, "zh-cn") || same_text(tag, "zh-sg") || same_text(tag, "zh-hans")
        || same_text(tag, "zh-hans-cn") || same_text(tag, "zh-hans-sg") {
        Some(Catalog::ZhCn)
    } else {
        None
    }
}

/// The texts of a language.
fn catalog_messages(catalog: Catalog) -> (m: Messages)
    ensures
        m.speaks(catalog),
{
    match catalog {
        Catalog::EnUs => en_us::messages(),
        Catalog::ZhCn => zh_cn::messages(),
    }
}

/// The texts that a locale name picks, if it picks any.
pub fn messages_for_locale(locale: &str) -> (r: Option<Messages>)
    ensures
        match catalog_of_locale(locale@) {
            Some(catalog) => r is Some && r->0.speaks(catalog),
            None => r is None,
        },
{
    let tag = normalize_locale(locale);
    if same_text(tag.as_str(), "c") || same_text(tag.as_str(), "posix") {
        return Some(en_us::messages());
    }
    let chars = chars_of(tag.as_str());
    let mut len: usize = chars.len();
    assert(chars@.take(len as int) =~= tag@);
    loop
        invariant
            len <= chars@.len(),
            catalog_of_locale(locale@) == catalog_of_tag(chars@.take(len as int)),
        decreases len,
    {
        let ghost prefix = chars@.take(len as int);
        let part = text_of(&chars, len);
        if let Some(catalog) = catalog_with_tag(part.as_str()) {
            return Some(catalog_messages(catalog));
        }
        let mut i: usize = len;
        assert(chars@.take(i as int) =~= prefix);
        while i > 0 && chars[i - 1] != '-'
            invariant
                i <= len <= chars@.len(),
                last_hyphen(prefix) == last_hyphen(chars@.take(i as int)),
            decreases i,
        {
            let ghost rest = chars@.take(i as int);
            assert(rest.last() == chars@[i - 1]);
            assert(rest.drop_last() =~= chars@.take(i - 1));
            i = i - 1;
        }
        if i == 0 {
            assert(last_hyphen(prefix) is None);
            return None;
        }
        assert(chars@.take(i as int).last() == '-');
        assert(last_hyphen(prefix) == Some(i - 1));
        assert(prefix.take(i - 1) =~= chars@.take(i - 1));
        len = i - 1;
    }
}

/// The texts for the values of the locale variables, in the order of their precedence: the first
/// value that is there and not blank counts, and without a match the texts are English.
pub fn messages_from_values(values: &Vec<Option<String>>) -> (m: Messages)
    ensures
        m.speaks(catalog_or_english(first_usable(values@))),
{
    assert(values@.skip(0) =~= values@);
    for i in 0..values.len()
        invariant
            first_usable(values@) == first_usable(values@.skip(i as int)),
    {
        let ghost rest = values@.skip(i as int);
        assert(rest.first() == values@[i as int]);
        assert(rest.drop_first() =~= values@.skip(i + 1));
        if let Some(value) = &values[i] {
            if !blank(value.as_str()) {
                return match messages_for_locale(value.as_str()) {
                    Some(messages) => messages,
                    None => en_us::messages(),
                };
            }
        }
    }
    assert(values@.skip(values@.len() as int).len() == 0);
    en_us::messages()
}

/// Whether a locale variable has a value that is not blank.
pub open spec fn usable(value: Option<String>) -> bool {
    value is Some && !is_blank(value->0@)
}

/// Whether `values` are what `lookup` gave when the locale variables were asked for in the order
/// of their precedence, until one had a value that is not blank.
pub open spec fn asked_in_order<F: FnMut(&str) -> Option<String>>(
    lookup: F,
    values: Seq<Option<String>>,
) -> bool {
    &&& 1 <= values.len() <= 3
    &&& call_ensures(lookup, ("LC_ALL",), values[0])
    &&& values.len() > 1 <==> !usable(values[0])
    &&& values.len() > 1 ==> call_ensures(lookup, ("LC_MESSAGES",), values[1])
    &&& values.len() > 2 <==> !usable(values[0]) && !usable(values[1])
    &&& values.len() > 2 ==> call_ensures(lookup, ("LANG",), values[2])
}

fn has_text(value: &Option<String>) -> (r: bool)
    ensures
        r == usable(*value),
{
    match value {
        Some(value) => !blank(value.as_str()),
        None => false,
    }
}

/// The texts for the locale variables as `lookup` gives them.
pub fn messages_from_lookup(mut lookup: impl FnMut(&str) -> Option<String>) -> (m: Messages)
    requires
        forall|name: &str| call_requires(lookup, (name,)),
    ensures
        exists|values: Seq<Option<String>>| #[trigger]
            asked_in_order(lookup, values) && m.speaks(catalog_or_english(first_usable(values))),
{
    let mut values: Vec<Option<String>> = Vec::new();
    values.push(lookup("LC_ALL"));
    if !has_text(&values[0]) {
        values.push(lookup("LC_MESSAGES"));
        if !has_text(&values[1]) {
            values.push(lookup("LANG"));
        }
    }
    assert(asked_in_order(lookup, values@));
    messages_from_values(&values)
}

proof fn trailing_space_is_all(s: Seq<char>)
    ensures
        without_trailing_space(s).len() == 0 <==> is_blank(s),
    decreases s.len(),
{
    if s.len() > 0 {
        if is_white_space(s.last()) {
            let head = s.drop_last();
            trailing_space_is_all(head);
            if is_blank(head) {
                assert forall|i: int| 0 <= i < s.len() implies is_white_space(#[trigger] s[i]) by {
                    if i < head.len() {
                        assert(is_white_space(head[i]));
                    }
                }
            }
            if is_blank(s) {
                assert forall|i: int| 0 <= i < head.len() implies is_white_space(
                    #[trigger] head[i],
                ) by {
                    assert(is_white_space(s[i]));
                }
            }
        } else {
            assert(!is_white_space(s[s.len() - 1]));
        }
    }
}

proof fn leading_space_is_space(s: Seq<char>)
    ensures
        leading_space(s) <= s.len(),
        forall|i: int| 0 <= i < leading_space(s) ==> is_white_space(#[trigger] s[i]),
    decreases s.len(),
{
    if s.len() > 0 && is_white_space(s.first()) {
        let rest = s.drop_first();
        leading_space_is_space(rest);
        assert forall|i: int| 0 <= i < leading_space(s) implies is_white_space(#[trigger] s[i]) by {
            if i > 0 {
                assert(is_white_space(rest[i - 1]));
            }
        }
    }
}

/// A value is blank exactly if nothing of it is left without the white space at its ends.
pub proof fn blank_values_trim_to_nothing(s: Seq<char>)
    ensures
        is_blank(s) <==> trimmed(s).len() == 0,
{
    leading_space_is_space(s);
    let n = leading_space(s) as int;
    let rest = s.skip(n);
    trailing_space_is_all(rest);
    if is_blank(rest) {
        assert forall|i: int| 0 <= i < s.len() implies is_white_space(#[trigger] s[i]) by {
            if i >= n {
                assert(is_white_space(rest[i - n]));
            }
        }
    }
    if is_blank(s) {
        assert forall|i: int| 0 <= i < rest.len() implies is_white_space(#[trigger] rest[i]) by {
            assert(is_white_space(s[i + n]));
        }
    }
}

/// Whether the first `i` characters of `tag` end where a part of it ends.
pub open spec fn ends_a_part(tag: Seq<char>, i: int) -> bool {
    i == tag.len() || (0 <= i < tag.len() && tag[i] == '-')
}

proof fn last_hyphen_is_last(tag: Seq<char>)
    ensures
        match last_hyphen(tag) {
            Some(i) => 0 <= i < tag.len() && tag[i] == '-' && forall|j: int|
                i < j < tag.len() ==> tag[j] != '-',
            None => forall|j: int| 0 <= j < tag.len() ==> tag[j] != '-',
        },
    decreases tag.len(),
{
    if tag.len() > 0 && tag.last() != '-' {
        let head = tag.drop_last();
        last_hyphen_is_last(head);
        assert forall|j: int| 0 <= j < head.len() implies head[j] == tag[j] by {}
        assert forall|j: int|
            0 <= j < tag.len() && (last_hyphen(tag) is Some ==> last_hyphen(tag)->0
                < j) implies tag[j] != '-' by {
            if j < head.len() {
                assert(head[j] != '-');
            }
        }
    }
}

proof fn tags_begin_apart(tag: Seq<char>)
    ensures
        tags(Catalog::EnUs).contains(tag) ==> tag.len() > 0 && tag[0] == 'e',
        tags(Catalog::ZhCn).contains(tag) ==> tag.len() > 0 && tag[0] == 'z',
{
    reveal_strlit("en");
    reveal_strlit("en-us");
    reveal_strlit("zh-cn");
    reveal_strlit("zh-sg");
    reveal_strlit("zh-hans");
    reveal_strlit("zh-hans-cn");
    reveal_strlit("zh-hans-sg");
}

/// A tag picks a language exactly if the tag, or a prefix of it that ends at a hyphen, picks that
/// language directly.
pub proof fn tag_picks_by_whole_parts(tag: Seq<char>, catalog: Catalog)
    ensures
        catalog_of_tag(tag) == Some(catalog) <==> exists|i: int| #[trigger]
            ends_a_part(tag, i) && tags(catalog).contains(tag.take(i)),
    decreases tag.len(),
{
    tags_begin_apart(tag);
    last_hyphen_is_last(tag);
    assert(tag.take(tag.len() as int) =~= tag);
    assert(ends_a_part(tag, tag.len() as int));
    assert forall|i: int|
        ends_a_part(tag, i) && tags(Catalog::EnUs).contains(tag.take(i)) implies tag.len() > 0
        && tag[0] == 'e' by {
        tags_begin_apart(tag.take(i));
    }
    assert forall|i: int|
        ends_a_part(tag, i) && tags(Catalog::ZhCn).contains(tag.take(i)) implies tag.len() > 0
        && tag[0] == 'z' by {
        tags_begin_apart(tag.take(i));
    }
    if !tags(Catalog::EnUs).contains(tag) && !tags(Catalog::ZhCn).contains(tag) {
        match last_hyphen(tag) {
            Some(k) => {
                let head = tag.take(k);
                tag_picks_by_whole_parts(head, catalog);
                assert forall|i: int|
                    ends_a_part(tag, i) && tags(catalog).contains(tag.take(i)) implies ends_a_part(
                    head,
                    i,
                ) && tags(catalog).contains(head.take(i)) by {
                    assert(i <= k);
                    assert(head.take(i) =~= tag.take(i));
                }
                assert forall|i: int|
                    ends_a_part(head, i) && tags(catalog).contains(head.take(i)) implies ends_a_part(
                    tag,
                    i,
                ) && tags(catalog).contains(tag.take(i)) by {
                    assert(head.take(i) =~= tag.take(i));
                }
                if catalog_of_tag(tag) == Some(catalog) {
                    let i = choose|i: int| #[trigger]
                        ends_a_part(head, i) && tags(catalog).contains(head.take(i));
                    assert(ends_a_part(tag, i) && tags(catalog).contains(tag.take(i)));
                }
            },
            None => {},
        }
    }
}

/// Traditional Chinese, by script or by region, picks no texts: it never gets the Simplified
/// Chinese ones.
pub proof fn scripts_are_not_crossed(tag: Seq<char>, i: int)
    requires
        ends_a_part(tag, i),
        tag.take(i) == "zh-hant"@ || tag.take(i) == "zh-tw"@ || tag.take(i) == "zh-hk"@,
    ensures
        catalog_of_tag(tag) is None,
{
    tag_picks_by_whole_parts(tag, Catalog::EnUs);
    tag_picks_by_whole_parts(tag, Catalog::ZhCn);
    reveal_strlit("zh-hant");
    reveal_strlit("zh-tw");
    reveal_strlit("zh-hk");
    reveal_strlit("zh-cn");
    reveal_strlit("zh-sg");
    reveal_strlit("zh-hans");
    reveal_strlit("zh-hans-cn");
    reveal_strlit("zh-hans-sg");
    assert(tag.take(i).len() == i);
    assert(i >= 5);
    assert(tag.take(i)[0] == tag[0]);
    assert(tag.take(i)[2] == tag[2]);
    assert(tag.take(i)[3] == tag[3]);
    assert(tag.take(i)[4] == tag[4]);
    assert forall|j: int| #[trigger] ends_a_part(tag, j) implies !tags(Catalog::EnUs).contains(
        tag.take(j),
    ) && !tags(Catalog::ZhCn).contains(tag.take(j)) by {
        let part = tag.take(j);
        tags_begin_apart(part);
        if tags(Catalog::ZhCn).contains(part) {
            assert(part[3] == tag[3]);
            assert(part[4] == tag[4]);
            assert(part.len() >= 5);
            if part.len() > 6 {
                assert(part[6] == tag[6]);
            }
            if i > 6 {
                assert(tag.take(i)[6] == tag[6]);
            }
        }
    }
    assert(catalog_of_tag(tag) != Some(Catalog::EnUs));
    assert(catalog_of_tag(tag) != Some(Catalog::ZhCn));
    match catalog_of_tag(tag) {
        Some(Catalog::EnUs) => {},
        Some(Catalog::ZhCn) => {},
        None => {},
    }
}

} // verus!
