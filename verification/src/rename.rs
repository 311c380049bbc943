//! The naming engine: eight case-conversion strategies plus the identity,
//! and the precedence rule between explicit renames and blanket rules.
//!
//! The segmentation and transition logic of the conversions is specified
//! exactly over `Seq<char>`. ASCII letters are folded by the
//! specification itself; what Unicode case mapping yields for other
//! characters is delegated to the standard library and carried through the
//! contracts by name.

use vstd::prelude::*;
use vstd::string::StrSliceExecFns;

use crate::text::push_char;
use crate::text::str_eq;

verus! {

// ---------------------------------------------------------------------
// Per-character case mapping.
// ---------------------------------------------------------------------
/// What `str::to_lowercase` returns for this character sequence.
pub uninterp spec fn lower_str_of(s: Seq<char>) -> Seq<char>;

/// What `str::to_uppercase` returns for this character sequence.
pub uninterp spec fn upper_str_of(s: Seq<char>) -> Seq<char>;

/// What `char::to_lowercase` yields for this character, in order.
pub uninterp spec fn lower_char_seq(c: char) -> Seq<char>;

/// What `char::to_uppercase` yields for this character, in order.
pub uninterp spec fn upper_char_seq(c: char) -> Seq<char>;

/// Whether `char::is_uppercase` holds of this character.
pub uninterp spec fn unicode_is_upper(c: char) -> bool;

/// Whether `char::is_lowercase` holds of this character.
pub uninterp spec fn unicode_is_lower(c: char) -> bool;

/// Relies on `str::to_lowercase`: the result depends on the characters
/// alone, and an empty string stays empty.
#[verifier::external_body]
fn str_to_lowercase(s: &str) -> (r: String)
    ensures
        r@ == lower_str_of(s@),
        s@.len() == 0 ==> r@.len() == 0,
{
    s.to_lowercase()
}

/// Relies on `str::to_uppercase`: the result depends on the characters
/// alone, and an empty string stays empty.
#[verifier::external_body]
fn str_to_uppercase(s: &str) -> (r: String)
    ensures
        r@ == upper_str_of(s@),
        s@.len() == 0 ==> r@.len() == 0,
{
    s.to_uppercase()
}

/// Relies on `char::to_lowercase`: the mapping depends on the character
/// alone and yields one or more characters.
#[verifier::external_body]
fn char_to_lowercase(c: char) -> (r: String)
    ensures
        r@ == lower_char_seq(c),
        r@.len() >= 1,
{
    c.to_lowercase().collect()
}

/// Relies on `char::to_uppercase`: the mapping depends on the character
/// alone and yields one or more characters.
#[verifier::external_body]
fn char_to_uppercase(c: char) -> (r: String)
    ensures
        r@ == upper_char_seq(c),
        r@.len() >= 1,
{
    c.to_uppercase().collect()
}

/// Relies on `char::is_uppercase`: the Unicode uppercase property of the
/// character.
#[verifier::external_body]
fn char_is_uppercase(c: char) -> (r: bool)
    ensures
        r == unicode_is_upper(c),
{
    c.is_uppercase()
}

/// Relies on `char::is_lowercase`: the Unicode lowercase property of the
/// character.
#[verifier::external_body]
fn char_is_lowercase(c: char) -> (r: bool)
    ensures
        r == unicode_is_lower(c),
{
    c.is_lowercase()
}

/// ASCII lowercase letter.
pub open spec fn is_ascii_lower(c: char) -> bool {
    97 <= c as u32 <= 122
}

/// ASCII uppercase letter.
pub open spec fn is_ascii_upper(c: char) -> bool {
    65 <= c as u32 <= 90
}

/// The uppercase counterpart of an ASCII lowercase letter.
pub open spec fn ascii_upper(c: char) -> char {
    (((c as u32) - 32) as u8) as char
}

/// The lowercase counterpart of an ASCII uppercase letter.
pub open spec fn ascii_lower(c: char) -> char {
    (((c as u32) + 32) as u8) as char
}

/// Uppercase property, over all characters.
pub open spec fn is_upper_of(c: char) -> bool {
    if (c as u32) < 128 {
        is_ascii_upper(c)
    } else {
        unicode_is_upper(c)
    }
}

/// Lowercase property, over all characters.
pub open spec fn is_lower_of(c: char) -> bool {
    if (c as u32) < 128 {
        is_ascii_lower(c)
    } else {
        unicode_is_lower(c)
    }
}

/// The first character of the uppercase mapping of `c`; characters
/// without an uppercase form stay as they are.
pub open spec fn upper_first_of(c: char) -> char {
    if is_ascii_lower(c) {
        ascii_upper(c)
    } else if (c as u32) < 128 {
        c
    } else {
        upper_char_seq(c)[0]
    }
}

/// The first character of the lowercase mapping of `c`.
pub open spec fn lower_first_of(c: char) -> char {
    if is_ascii_upper(c) {
        ascii_lower(c)
    } else if (c as u32) < 128 {
        c
    } else {
        lower_char_seq(c)[0]
    }
}

/// The full lowercase expansion of `c` (the mapping of a single character
/// may be more than one character long).
pub open spec fn lower_expand_of(c: char) -> Seq<char> {
    if is_ascii_upper(c) {
        seq![ascii_lower(c)]
    } else if (c as u32) < 128 {
        seq![c]
    } else {
        lower_char_seq(c)
    }
}

fn upper_first(c: char) -> (r: char)
    ensures
        r == upper_first_of(c),
{
    let u = c as u32;
    if 97 <= u && u <= 122 {
        ((u - 32) as u8) as char
    } else if u < 128 {
        c
    } else {
        let m = char_to_uppercase(c);
        m.as_str().get_char(0)
    }
}

fn lower_first(c: char) -> (r: char)
    ensures
        r == lower_first_of(c),
{
    let u = c as u32;
    if 65 <= u && u <= 90 {
        ((u + 32) as u8) as char
    } else if u < 128 {
        c
    } else {
        let m = char_to_lowercase(c);
        m.as_str().get_char(0)
    }
}

fn is_upper(c: char) -> (r: bool)
    ensures
        r == is_upper_of(c),
{
    let u = c as u32;
    if u < 128 {
        65 <= u && u <= 90
    } else {
        char_is_uppercase(c)
    }
}

fn is_lower(c: char) -> (r: bool)
    ensures
        r == is_lower_of(c),
{
    let u = c as u32;
    if u < 128 {
        97 <= u && u <= 122
    } else {
        char_is_lowercase(c)
    }
}

// ---------------------------------------------------------------------
// The conversions.
// ---------------------------------------------------------------------
/// Pascal conversion of the suffix of `s` from position `i` on, where
/// `cap` says whether the next letter starts a segment: `_` and `-`
/// separate segments and are dropped, and the first character of each
/// segment is uppercased.
pub open spec fn pascal_from(s: Seq<char>, i: int, cap: bool) -> Seq<char>
    decreases s.len() - i,
{
    if i < 0 || i >= s.len() {
        Seq::empty()
    } else if s[i] == '_' || s[i] == '-' {
        pascal_from(s, i + 1, true)
    } else if cap {
        seq![upper_first_of(s[i])] + pascal_from(s, i + 1, false)
    } else {
        seq![s[i]] + pascal_from(s, i + 1, false)
    }
}

/// PascalCase: split on `_` and `-`, uppercase each segment's first
/// letter, concatenate without separators.
pub open spec fn spec_pascal(s: Seq<char>) -> Seq<char> {
    pascal_from(s, 0, true)
}

/// camelCase: PascalCase with the very first character lowercased.
pub open spec fn spec_camel(s: Seq<char>) -> Seq<char> {
    let p = spec_pascal(s);
    if p.len() == 0 {
        Seq::empty()
    } else {
        lower_expand_of(p[0]) + p.skip(1)
    }
}

/// Snake conversion of the suffix of `s` from position `i` on, where
/// `prev_lower` says whether the previous kept character was lowercase:
/// `-` becomes `_`, and a `_` is inserted at every lower-to-upper
/// transition while uppercase letters are lowercased.
pub open spec fn snake_from(s: Seq<char>, i: int, prev_lower: bool) -> Seq<char>
    decreases s.len() - i,
{
    if i < 0 || i >= s.len() {
        Seq::empty()
    } else if s[i] == '-' {
        seq!['_'] + snake_from(s, i + 1, false)
    } else if is_upper_of(s[i]) {
        (if prev_lower {
            seq!['_']
        } else {
            Seq::empty()
        }) + seq![lower_first_of(s[i])] + snake_from(s, i + 1, false)
    } else {
        seq![s[i]] + snake_from(s, i + 1, is_lower_of(s[i]))
    }
}

/// snake_case: detect lower-to-upper transitions, lowercase every letter,
/// normalise `-` to `_`.
pub open spec fn spec_snake(s: Seq<char>) -> Seq<char> {
    snake_from(s, 0, false)
}

/// kebab-case: snake_case with `_` replaced by `-`.
pub open spec fn spec_kebab(s: Seq<char>) -> Seq<char> {
    spec_snake(s).map_values(
        |c: char|
            if c == '_' {
                '-'
            } else {
                c
            },
    )
}

pub fn to_pascal_case(s: &str) -> (r: String)
    ensures
        r@ == spec_pascal(s@),
{
    let n = s.unicode_len();
    let mut result = String::new();
    let mut cap = true;
    let mut i: usize = 0;
    while i < n
        invariant
            n == s@.len(),
            i <= n,
            spec_pascal(s@) == result@ + pascal_from(s@, i as int, cap),
        decreases n - i,
    {
        let c = s.get_char(i);
        if c == '_' || c == '-' {
            cap = true;
        } else if cap {
            let u = upper_first(c);
            push_char(&mut result, u);
            proof {
                assert(result@ + pascal_from(s@, i + 1 as int, false) =~= spec_pascal(s@));
            }
            cap = false;
        } else {
            push_char(&mut result, c);
            proof {
                assert(result@ + pascal_from(s@, i + 1 as int, false) =~= spec_pascal(s@));
            }
        }
        i += 1;
    }
    proof {
        assert(result@ =~= spec_pascal(s@));
    }
    result
}

pub fn to_camel_case(s: &str) -> (r: String)
    ensures
        r@ == spec_camel(s@),
{
    let pascal = to_pascal_case(s);
    let n = pascal.as_str().unicode_len();
    if n == 0 {
        proof {
            assert(Seq::<char>::empty() =~= spec_camel(s@));
        }
        return String::new();
    }
    let first = pascal.as_str().get_char(0);
    let u = first as u32;
    let mut result = String::new();
    if 65 <= u && u <= 90 {
        push_char(&mut result, ((u + 32) as u8) as char);
    } else if u < 128 {
        push_char(&mut result, first);
    } else {
        let m = char_to_lowercase(first);
        crate::text::push_str_chars(&mut result, m.as_str());
    }
    assert(result@ == lower_expand_of(pascal@[0]));
    let mut i: usize = 1;
    while i < n
        invariant
            n == pascal@.len(),
            1 <= i <= n,
            result@ == lower_expand_of(pascal@[0]) + pascal@.subrange(1, i as int),
        decreases n - i,
    {
        let c = pascal.as_str().get_char(i);
        push_char(&mut result, c);
        proof {
            assert(lower_expand_of(pascal@[0]) + pascal@.subrange(1, i + 1 as int) =~= (
            lower_expand_of(pascal@[0]) + pascal@.subrange(1, i as int)).push(pascal@[i as int]));
        }
        i += 1;
    }
    proof {
        assert(pascal@.subrange(1, n as int) =~= pascal@.skip(1));
        assert(result@ =~= spec_camel(s@));
    }
    result
}

pub fn to_snake_case(s: &str) -> (r: String)
    ensures
        r@ == spec_snake(s@),
{
    let n = s.unicode_len();
    let mut result = String::new();
    let mut prev_lower = false;
    let mut i: usize = 0;
    while i < n
        invariant
            n == s@.len(),
            i <= n,
            spec_snake(s@) == result@ + snake_from(s@, i as int, prev_lower),
        decreases n - i,
    {
        let c = s.get_char(i);
        if c == '-' {
            push_char(&mut result, '_');
            proof {
                assert(result@ + snake_from(s@, i + 1 as int, false) =~= spec_snake(s@));
            }
            prev_lower = false;
        } else if is_upper(c) {
            if prev_lower {
                push_char(&mut result, '_');
            }
            let l = lower_first(c);
            push_char(&mut result, l);
            proof {
                assert(result@ + snake_from(s@, i + 1 as int, false) =~= spec_snake(s@));
            }
            prev_lower = false;
        } else {
            push_char(&mut result, c);
            let pl = is_lower(c);
            proof {
                assert(result@ + snake_from(s@, i + 1 as int, is_lower_of(s@[i as int])) =~=
                spec_snake(s@));
            }
            prev_lower = pl;
        }
        i += 1;
    }
    proof {
        assert(result@ =~= spec_snake(s@));
    }
    result
}

pub fn to_kebab_case(s: &str) -> (r: String)
    ensures
        r@ == spec_kebab(s@),
{
    let snake = to_snake_case(s);
    let n = snake.as_str().unicode_len();
    let mut result = String::new();
    let mut i: usize = 0;
    while i < n
        invariant
            n == snake@.len(),
            snake@ == spec_snake(s@),
            i <= n,
            result@ == spec_kebab(s@).take(i as int),
        decreases n - i,
    {
        let c = snake.as_str().get_char(i);
        if c == '_' {
            push_char(&mut result, '-');
        } else {
            push_char(&mut result, c);
        }
        proof {
            assert(spec_kebab(s@).take(i + 1 as int) =~= spec_kebab(s@).take(i as int).push(
                spec_kebab(s@)[i as int],
            ));
        }
        i += 1;
    }
    proof {
        assert(spec_kebab(s@).take(n as int) =~= spec_kebab(s@));
    }
    result
}

// ---------------------------------------------------------------------
// The rules.
// ---------------------------------------------------------------------
/// An enumerated case-conversion strategy. `None` is the identity.
#[derive(Debug, Clone, Copy, PartialEq, Eq, Structural)]
pub enum RenameRule {
    Identity,
    LowerCase,
    UpperCase,
    PascalCase,
    CamelCase,
    SnakeCase,
    ScreamingSnakeCase,
    KebabCase,
    ScreamingKebabCase,
}

/// What applying a rule to an identifier yields. Total: every rule maps
/// every character sequence to a defined result.
pub open spec fn spec_apply(rule: RenameRule, s: Seq<char>) -> Seq<char> {
    match rule {
        RenameRule::Identity => s,
        RenameRule::LowerCase => lower_str_of(s),
        RenameRule::UpperCase => upper_str_of(s),
        RenameRule::PascalCase => spec_pascal(s),
        RenameRule::CamelCase => spec_camel(s),
        RenameRule::SnakeCase => spec_snake(s),
        RenameRule::ScreamingSnakeCase => upper_str_of(spec_snake(s)),
        RenameRule::KebabCase => spec_kebab(s),
        RenameRule::ScreamingKebabCase => upper_str_of(spec_kebab(s)),
    }
}

/// The rule named by a `rename_all` attribute value, if the value is one
/// of the nine recognised spellings.
pub open spec fn spec_rule_from_str(s: Seq<char>) -> Option<RenameRule> {
    if s == "lowercase"@ {
        Some(RenameRule::LowerCase)
    } else if s == "UPPERCASE"@ {
        Some(RenameRule::UpperCase)
    } else if s == "PascalCase"@ {
        Some(RenameRule::PascalCase)
    } else if s == "camelCase"@ {
        Some(RenameRule::CamelCase)
    } else if s == "snake_case"@ {
        Some(RenameRule::SnakeCase)
    } else if s == "SCREAMING_SNAKE_CASE"@ {
        Some(RenameRule::ScreamingSnakeCase)
    } else if s == "kebab-case"@ {
        Some(RenameRule::KebabCase)
    } else if s == "SCREAMING-KEBAB-CASE"@ {
        Some(RenameRule::ScreamingKebabCase)
    } else {
        None
    }
}

impl RenameRule {
    /// Looks a rule up by its attribute spelling; an unrecognised value
    /// yields `None` so that generation never fails on it.
    pub fn from_str(s: &str) -> (r: Option<RenameRule>)
        ensures
            r == spec_rule_from_str(s@),
    {
        if str_eq(s, "lowercase") {
            Some(RenameRule::LowerCase)
        } else if str_eq(s, "UPPERCASE") {
            Some(RenameRule::UpperCase)
        } else if str_eq(s, "PascalCase") {
            Some(RenameRule::PascalCase)
        } else if str_eq(s, "camelCase") {
            Some(RenameRule::CamelCase)
        } else if str_eq(s, "snake_case") {
            Some(RenameRule::SnakeCase)
        } else if str_eq(s, "SCREAMING_SNAKE_CASE") {
            Some(RenameRule::ScreamingSnakeCase)
        } else if str_eq(s, "kebab-case") {
            Some(RenameRule::KebabCase)
        } else if str_eq(s, "SCREAMING-KEBAB-CASE") {
            Some(RenameRule::ScreamingKebabCase)
        } else {
            None
        }
    }

    /// Applies the rule to an identifier.
    pub fn apply(&self, s: &str) -> (r: String)
        ensures
            r@ == spec_apply(*self, s@),
    {
        match self {
            RenameRule::Identity => s.to_owned(),
            RenameRule::LowerCase => str_to_lowercase(s),
            RenameRule::UpperCase => str_to_uppercase(s),
            RenameRule::PascalCase => to_pascal_case(s),
            RenameRule::CamelCase => to_camel_case(s),
            RenameRule::SnakeCase => to_snake_case(s),
            RenameRule::ScreamingSnakeCase => {
                let snake = to_snake_case(s);
                str_to_uppercase(snake.as_str())
            },
            RenameRule::KebabCase => to_kebab_case(s),
            RenameRule::ScreamingKebabCase => {
                let kebab = to_kebab_case(s);
                str_to_uppercase(kebab.as_str())
            },
        }
    }
}

// ---------------------------------------------------------------------
// Name resolution.
// ---------------------------------------------------------------------
/// The effective external name of an item: an explicit rename wins
/// verbatim; otherwise the blanket rule is applied to the identifier.
pub open spec fn spec_resolve_name(
    identifier: Seq<char>,
    explicit_rename: Option<Seq<char>>,
    blanket_rule: RenameRule,
) -> Seq<char> {
    match explicit_rename {
        Some(e) => e,
        None => spec_apply(blanket_rule, identifier),
    }
}

/// Resolves an item's effective external name.
pub fn resolve_name(identifier: &str, explicit_rename: Option<&str>, blanket_rule: RenameRule) -> (r:
    String)
    ensures
        explicit_rename is Some ==> r@ == spec_resolve_name(
            identifier@,
            Some(explicit_rename.unwrap()@),
            blanket_rule,
        ),
        explicit_rename is None ==> r@ == spec_resolve_name(identifier@, None, blanket_rule),
{
    match explicit_rename {
        Some(e) => e.to_owned(),
        None => blanket_rule.apply(identifier),
    }
}

/// Law: without an explicit rename, resolution is exactly the application
/// of the blanket rule — a function of the identifier and the rule alone.
pub proof fn lemma_resolve_is_rule_application(identifier: Seq<char>, blanket_rule: RenameRule)
    ensures
        spec_resolve_name(identifier, None, blanket_rule) == spec_apply(blanket_rule, identifier),
{
}

/// Law: an explicit rename always overrides the blanket rule, whatever
/// the rule would have yielded.
pub proof fn lemma_explicit_rename_overrides(
    identifier: Seq<char>,
    explicit: Seq<char>,
    blanket_rule: RenameRule,
)
    ensures
        spec_resolve_name(identifier, Some(explicit), blanket_rule) == explicit,
{
}

} // verus!

