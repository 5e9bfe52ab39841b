//! 5.1 Content Categories: the two-level IAB taxonomy. A category code is a
//! short string, `"IAB<n>"` for a parent category or `"IAB<n>-<m>"` for a
//! subcategory of parent `n`. Decoding is total: a code outside the declared
//! hierarchy is kept verbatim as an unknown category, because taxonomy
//! values are advisory metadata from third parties and must not abort
//! decoding of a whole message; re-encoding an unknown category yields the
//! original string unchanged.

use vstd::prelude::*;
use vstd::string::*;

use crate::scalar::digit_char;
use crate::scalar::digit_val;
use crate::scalar::is_digit;
use crate::scalar::push_decimal;
use crate::scalar::spec_decimal;

verus! {

// ---------------------------------------------------------------------------
// The declared hierarchy
// ---------------------------------------------------------------------------
/// How many subcategories each parent category declares. Parent 1 is Arts &
/// Entertainment (its subcategory 1 is Books & Literature), 2 Automotive, 3
/// Business, 4 Careers, 5 Education, 6 Family & Parenting, 7 Health &
/// Fitness, 8 Food & Drink, 9 Hobbies & Interests, 10 Home & Garden, 11 Law,
/// Government & Politics, 12 News, 13 Personal Finance, 14 Society, 15
/// Science, 16 Pets, 17 Sports, 18 Style & Fashion, 19 Technology &
/// Computing, 20 Travel, 21 Real Estate, 22 Shopping, 23 Religion &
/// Spirituality, 24 Uncategorized (no subcategories), 25 Non-Standard
/// Content, 26 Illegal Content. Zero for a number outside the hierarchy.
pub open spec fn spec_subcategory_count(parent: u32) -> u32 {
    if parent == 1 {
        7
    } else if parent == 2 {
        23
    } else if parent == 3 {
        12
    } else if parent == 4 {
        11
    } else if parent == 5 {
        15
    } else if parent == 6 {
        9
    } else if parent == 7 {
        45
    } else if parent == 8 {
        18
    } else if parent == 9 {
        31
    } else if parent == 10 {
        9
    } else if parent == 11 {
        5
    } else if parent == 12 {
        3
    } else if parent == 13 {
        12
    } else if parent == 14 {
        8
    } else if parent == 15 {
        10
    } else if parent == 16 {
        7
    } else if parent == 17 {
        44
    } else if parent == 18 {
        6
    } else if parent == 19 {
        36
    } else if parent == 20 {
        27
    } else if parent == 21 {
        3
    } else if parent == 22 {
        4
    } else if parent == 23 {
        10
    } else if parent == 24 {
        0
    } else if parent == 25 {
        7
    } else if parent == 26 {
        4
    } else {
        0
    }
}

/// The number of subcategories the given parent category declares.
pub fn subcategory_count(parent: u32) -> (r: u32)
    ensures
        r == spec_subcategory_count(parent),
{
    if parent == 1 {
        7
    } else if parent == 2 {
        23
    } else if parent == 3 {
        12
    } else if parent == 4 {
        11
    } else if parent == 5 {
        15
    } else if parent == 6 {
        9
    } else if parent == 7 {
        45
    } else if parent == 8 {
        18
    } else if parent == 9 {
        31
    } else if parent == 10 {
        9
    } else if parent == 11 {
        5
    } else if parent == 12 {
        3
    } else if parent == 13 {
        12
    } else if parent == 14 {
        8
    } else if parent == 15 {
        10
    } else if parent == 16 {
        7
    } else if parent == 17 {
        44
    } else if parent == 18 {
        6
    } else if parent == 19 {
        36
    } else if parent == 20 {
        27
    } else if parent == 21 {
        3
    } else if parent == 22 {
        4
    } else if parent == 23 {
        10
    } else if parent == 24 {
        0
    } else if parent == 25 {
        7
    } else if parent == 26 {
        4
    } else {
        0
    }
}

/// Whether the hierarchy declares this parent category.
pub open spec fn is_declared_parent(parent: u32) -> bool {
    1 <= parent <= 26
}

/// Whether the hierarchy declares this (parent, subcategory) pair.
pub open spec fn is_declared_pair(parent: u32, sub: u32) -> bool {
    is_declared_parent(parent) && 1 <= sub <= spec_subcategory_count(parent)
}

/// Whether the hierarchy declares the code formed from this pair, with a
/// subcategory number of zero standing for the bare parent code.
pub open spec fn is_declared_numbers(parent: u32, sub: u32) -> bool {
    if sub == 0 {
        is_declared_parent(parent)
    } else {
        is_declared_pair(parent, sub)
    }
}

// ---------------------------------------------------------------------------
// The category type
// ---------------------------------------------------------------------------
/// An IAB content category: a parent category alone, a specific subcategory
/// of a parent, or a verbatim string that is not in the declared hierarchy.
#[derive(Debug, Clone, PartialEq)]
pub enum Category {
    /// A parent category, identified by its number `n` in `"IAB<n>"`.
    Parent(u32),
    /// A subcategory: the parent's number and the subcategory's number, as
    /// in `"IAB<n>-<m>"`.
    Subcategory(u32, u32),
    /// Any string not present in the hierarchy, held verbatim with no
    /// further structure asserted.
    Unknown(String),
}

/// The mathematical shape of a category: as [`Category`], with the unknown
/// string abstracted to its character sequence.
pub enum CategoryView {
    Parent(u32),
    Subcategory(u32, u32),
    Unknown(Seq<char>),
}

impl View for Category {
    type V = CategoryView;

    open spec fn view(&self) -> CategoryView {
        match self {
            Category::Parent(n) => CategoryView::Parent(*n),
            Category::Subcategory(n, m) => CategoryView::Subcategory(*n, *m),
            Category::Unknown(s) => CategoryView::Unknown(s@),
        }
    }
}

/// A well-formed category names a declared parent or a declared pair;
/// unknown strings are unconstrained.
pub open spec fn view_wf(v: CategoryView) -> bool {
    match v {
        CategoryView::Parent(n) => is_declared_parent(n),
        CategoryView::Subcategory(n, m) => is_declared_pair(n, m),
        CategoryView::Unknown(_) => true,
    }
}

// ---------------------------------------------------------------------------
// Codes
// ---------------------------------------------------------------------------
/// The code body after the `"IAB"` prefix: the parent's decimal numeral,
/// followed for a subcategory (`sub != 0`) by a dash and the subcategory's
/// decimal numeral.
pub open spec fn spec_code_body(parent: u32, sub: u32) -> Seq<char> {
    if sub == 0 {
        spec_decimal(parent as nat)
    } else {
        spec_decimal(parent as nat) + seq!['-'] + spec_decimal(sub as nat)
    }
}

/// The full string code of a (parent, subcategory) pair, with zero again
/// standing for the bare parent code.
pub open spec fn spec_code_chars(parent: u32, sub: u32) -> Seq<char> {
    seq!['I', 'A', 'B'] + spec_code_body(parent, sub)
}

/// What encoding a category yields: parents and subcategories their string
/// code, unknown categories their string verbatim.
pub open spec fn spec_encode_category(v: CategoryView) -> Seq<char> {
    match v {
        CategoryView::Parent(n) => seq!['I', 'A', 'B'] + spec_decimal(n as nat),
        CategoryView::Subcategory(n, m) => seq!['I', 'A', 'B'] + spec_decimal(n as nat)
            + seq!['-'] + spec_decimal(m as nat),
        CategoryView::Unknown(s) => s,
    }
}

// ---------------------------------------------------------------------------
// Parsing (specification)
// ---------------------------------------------------------------------------
/// A strict one- or two-digit decimal numeral: no sign, no leading zero.
/// This covers every numeral in the declared hierarchy; longer inputs are
/// never declared codes, so they need no numeric reading.
pub open spec fn spec_num2(s: Seq<char>) -> Option<u32> {
    if s.len() == 1 && is_digit(s[0]) && s[0] != '0' {
        Some(digit_val(s[0]) as u32)
    } else if s.len() == 2 && is_digit(s[0]) && s[0] != '0' && is_digit(s[1]) {
        Some((10 * digit_val(s[0]) + digit_val(s[1])) as u32)
    } else {
        None
    }
}

/// Reads a code body: either one numeral, or two numerals separated by one
/// dash. Since a numeral has one or two digits, the dash can only sit at
/// position 1 or 2.
pub open spec fn spec_parse_body(s: Seq<char>) -> Option<(u32, u32)> {
    if s.len() >= 2 && s[1] == '-' {
        match spec_num2(s.take(1)) {
            Some(n) => match spec_num2(s.skip(2)) {
                Some(m) => Some((n, m)),
                None => None,
            },
            None => None,
        }
    } else if s.len() >= 3 && s[2] == '-' {
        match spec_num2(s.take(2)) {
            Some(n) => match spec_num2(s.skip(3)) {
                Some(m) => Some((n, m)),
                None => None,
            },
            None => None,
        }
    } else {
        match spec_num2(s) {
            Some(n) => Some((n, 0)),
            None => None,
        }
    }
}

/// Reads a full code: the literal `"IAB"` prefix, then a code body.
pub open spec fn spec_parse_code(s: Seq<char>) -> Option<(u32, u32)> {
    if s.len() >= 4 && s[0] == 'I' && s[1] == 'A' && s[2] == 'B' {
        spec_parse_body(s.skip(3))
    } else {
        None
    }
}

/// What decoding a string yields: the typed variant when the string reads
/// as a declared code, the string itself verbatim otherwise.
pub open spec fn spec_decode_category(s: Seq<char>) -> CategoryView {
    match spec_parse_code(s) {
        Some((n, m)) => if m == 0 && is_declared_parent(n) {
            CategoryView::Parent(n)
        } else if m != 0 && is_declared_pair(n, m) {
            CategoryView::Subcategory(n, m)
        } else {
            CategoryView::Unknown(s)
        },
        None => CategoryView::Unknown(s),
    }
}

// ---------------------------------------------------------------------------
// Executable encode and decode
// ---------------------------------------------------------------------------
impl Category {
    /// Whether the category names a declared parent or declared pair.
    pub open spec fn wf(&self) -> bool {
        view_wf(self@)
    }

    /// Encodes the category as its string code. Total: parent categories
    /// yield `"IAB<n>"`, subcategories `"IAB<n>-<m>"`, unknown categories
    /// their string verbatim.
    pub fn encode(&self) -> (r: String)
        ensures
            r@ == spec_encode_category(self@),
    {
        proof {
            reveal_strlit("IAB");
            reveal_strlit("-");
            assert("IAB"@ =~= seq!['I', 'A', 'B']);
            assert("-"@ =~= seq!['-']);
        }
        match self {
            Category::Parent(n) => {
                let mut out = String::from_str("IAB");
                push_decimal(&mut out, *n as u64);
                proof {
                    assert(out@ =~= spec_encode_category(self@));
                }
                out
            },
            Category::Subcategory(n, m) => {
                let mut out = String::from_str("IAB");
                push_decimal(&mut out, *n as u64);
                out.append("-");
                push_decimal(&mut out, *m as u64);
                proof {
                    assert(out@ =~= spec_encode_category(self@));
                }
                out
            },
            Category::Unknown(s) => s.clone(),
        }
    }

    /// Decodes a string code against the declared hierarchy. Total and
    /// infallible: on a miss the string is kept verbatim as an unknown
    /// category.
    pub fn decode(s: &str) -> (r: Category)
        ensures
            r@ == spec_decode_category(s@),
            r.wf(),
    {
        let len = s.unicode_len();
        if len < 4 {
            return Category::Unknown(String::from_str(s));
        }
        if !(s.get_char(0) == 'I' && s.get_char(1) == 'A' && s.get_char(2) == 'B') {
            return Category::Unknown(String::from_str(s));
        }
        let ghost body: Seq<char> = s@.skip(3);
        let parsed: Option<(u32, u32)> = if len >= 5 && s.get_char(4) == '-' {
            proof {
                assert(body.take(1) =~= s@.subrange(3, 4));
                assert(body.skip(2) =~= s@.subrange(5, len as int));
            }
            match parse_num2(s, 3, 4) {
                Some(n) => match parse_num2(s, 5, len) {
                    Some(m) => Some((n, m)),
                    None => None,
                },
                None => None,
            }
        } else if len >= 6 && s.get_char(5) == '-' {
            proof {
                assert(body.take(2) =~= s@.subrange(3, 5));
                assert(body.skip(3) =~= s@.subrange(6, len as int));
            }
            match parse_num2(s, 3, 5) {
                Some(n) => match parse_num2(s, 6, len) {
                    Some(m) => Some((n, m)),
                    None => None,
                },
                None => None,
            }
        } else {
            proof {
                assert(body =~= s@.subrange(3, len as int));
            }
            match parse_num2(s, 3, len) {
                Some(n) => Some((n, 0)),
                None => None,
            }
        };
        proof {
            assert(parsed == spec_parse_code(s@));
        }
        match parsed {
            Some((n, m)) => {
                if m == 0 {
                    if 1 <= n && n <= 26 {
                        Category::Parent(n)
                    } else {
                        Category::Unknown(String::from_str(s))
                    }
                } else {
                    if 1 <= n && n <= 26 && m <= subcategory_count(n) {
                        Category::Subcategory(n, m)
                    } else {
                        Category::Unknown(String::from_str(s))
                    }
                }
            },
            None => Category::Unknown(String::from_str(s)),
        }
    }
}

/// Reads the characters `from..to` of `s` as a strict one- or two-digit
/// numeral.
fn parse_num2(s: &str, from: usize, to: usize) -> (r: Option<u32>)
    requires
        from <= to <= s@.len(),
    ensures
        r == spec_num2(s@.subrange(from as int, to as int)),
{
    let ghost piece: Seq<char> = s@.subrange(from as int, to as int);
    if to - from == 1 {
        let d = char_digit(s.get_char(from));
        proof {
            assert(piece[0] == s@[from as int]);
        }
        if 1 <= d && d <= 9 {
            Some(d as u32)
        } else {
            None
        }
    } else if to - from == 2 {
        let d1 = char_digit(s.get_char(from));
        let d0 = char_digit(s.get_char(from + 1));
        proof {
            assert(piece[0] == s@[from as int]);
            assert(piece[1] == s@[from + 1]);
        }
        if 1 <= d1 && d1 <= 9 && d0 <= 9 {
            Some((10 * d1 + d0) as u32)
        } else {
            None
        }
    } else {
        None
    }
}

// ---------------------------------------------------------------------------
// Laws
// ---------------------------------------------------------------------------
/// Whether a string is one of the declared codes of the hierarchy.
pub open spec fn is_declared_code(s: Seq<char>) -> bool {
    exists|n: u32, m: u32| is_declared_numbers(n, m) && #[trigger] spec_code_chars(n, m) == s
}

/// Reading back the numeral of a value below one hundred recovers the value.
proof fn lemma_num2_complete(n: u32)
    requires
        1 <= n < 100,
    ensures
        spec_num2(spec_decimal(n as nat)) == Some(n),
{
    crate::scalar::lemma_decimal_len(n as nat);
    if n < 10 {
        crate::scalar::lemma_digit_char_val(n as nat);
        assert(spec_decimal(n as nat) =~= seq![digit_char(n as nat)]);
    } else {
        crate::scalar::lemma_decimal_two_digits(n as nat);
        crate::scalar::lemma_digit_char_val((n as nat) / 10);
        crate::scalar::lemma_digit_char_val((n as nat) % 10);
    }
}

/// A string that reads as a numeral is that value's numeral: the strict
/// form (no sign, no leading zero) is canonical.
proof fn lemma_num2_sound(s: Seq<char>)
    ensures
        match spec_num2(s) {
            Some(n) => 1 <= n < 100 && s == spec_decimal(n as nat),
            None => true,
        },
{
    if s.len() == 1 && is_digit(s[0]) && s[0] != '0' {
        crate::scalar::lemma_digit_val_char(s[0]);
        assert(s =~= spec_decimal(digit_val(s[0])));
    } else if s.len() == 2 && is_digit(s[0]) && s[0] != '0' && is_digit(s[1]) {
        crate::scalar::lemma_digit_val_char(s[0]);
        crate::scalar::lemma_digit_val_char(s[1]);
        let n = 10 * digit_val(s[0]) + digit_val(s[1]);
        assert(n / 10 == digit_val(s[0]) && n % 10 == digit_val(s[1]));
        crate::scalar::lemma_decimal_two_digits(n);
        assert(s =~= spec_decimal(n));
    }
}

/// Reading back the code body built from a declared-range pair recovers the
/// pair.
proof fn lemma_parse_body_complete(n: u32, m: u32)
    requires
        1 <= n < 100,
        m == 0 || 1 <= m < 100,
    ensures
        spec_parse_body(spec_code_body(n, m)) == Some((n, m)),
{
    lemma_num2_complete(n);
    crate::scalar::lemma_decimal_len(n as nat);
    let body = spec_code_body(n, m);
    if m == 0 {
        if body.len() >= 2 {
            crate::scalar::lemma_decimal_two_digits(n as nat);
            crate::scalar::lemma_digit_char_val((n as nat) % 10);
            assert(body[1] != '-');
        }
    } else {
        lemma_num2_complete(m);
        crate::scalar::lemma_decimal_len(m as nat);
        if n < 10 {
            assert(body[1] == '-');
            assert(body.take(1) =~= spec_decimal(n as nat));
            assert(body.skip(2) =~= spec_decimal(m as nat));
        } else {
            crate::scalar::lemma_decimal_two_digits(n as nat);
            crate::scalar::lemma_digit_char_val((n as nat) % 10);
            assert(body[1] == digit_char((n as nat) % 10));
            assert(body[1] != '-');
            assert(body[2] == '-');
            assert(body.take(2) =~= spec_decimal(n as nat));
            assert(body.skip(3) =~= spec_decimal(m as nat));
        }
    }
}

/// A string that reads as a code body is that pair's code body: the parse
/// accepts only the canonical spelling.
proof fn lemma_parse_body_sound(s: Seq<char>)
    ensures
        match spec_parse_body(s) {
            Some((n, m)) => s == spec_code_body(n, m) && 1 <= n < 100 && (m == 0 || 1 <= m
                < 100),
            None => true,
        },
{
    if s.len() >= 2 && s[1] == '-' {
        lemma_num2_sound(s.take(1));
        lemma_num2_sound(s.skip(2));
        if spec_num2(s.take(1)) is Some && spec_num2(s.skip(2)) is Some {
            assert(s =~= s.take(1) + seq![s[1]] + s.skip(2));
        }
    } else if s.len() >= 3 && s[2] == '-' {
        lemma_num2_sound(s.take(2));
        lemma_num2_sound(s.skip(3));
        if spec_num2(s.take(2)) is Some && spec_num2(s.skip(3)) is Some {
            assert(s =~= s.take(2) + seq![s[2]] + s.skip(3));
        }
    } else {
        lemma_num2_sound(s);
    }
}

/// Reading back the full code of a declared-range pair recovers the pair.
proof fn lemma_parse_code_complete(n: u32, m: u32)
    requires
        1 <= n < 100,
        m == 0 || 1 <= m < 100,
    ensures
        spec_parse_code(spec_code_chars(n, m)) == Some((n, m)),
{
    lemma_parse_body_complete(n, m);
    crate::scalar::lemma_decimal_len(n as nat);
    let s = spec_code_chars(n, m);
    assert(s.skip(3) =~= spec_code_body(n, m));
}

/// A string that reads as a full code is that pair's code.
proof fn lemma_parse_code_sound(s: Seq<char>)
    ensures
        match spec_parse_code(s) {
            Some((n, m)) => s == spec_code_chars(n, m) && 1 <= n < 100 && (m == 0 || 1 <= m
                < 100),
            None => true,
        },
{
    if s.len() >= 4 && s[0] == 'I' && s[1] == 'A' && s[2] == 'B' {
        lemma_parse_body_sound(s.skip(3));
        if spec_parse_body(s.skip(3)) is Some {
            assert(s =~= seq!['I', 'A', 'B'] + s.skip(3));
        }
    }
}

/// Every declared code decodes to its typed variant, and re-encoding that
/// variant yields the code unchanged: over the declared hierarchy the
/// string-to-value mapping is a bijection.
pub proof fn lemma_declared_code_decodes(n: u32, m: u32)
    requires
        is_declared_numbers(n, m),
    ensures
        spec_decode_category(spec_code_chars(n, m)) == (if m == 0 {
            CategoryView::Parent(n)
        } else {
            CategoryView::Subcategory(n, m)
        }),
        spec_encode_category(spec_decode_category(spec_code_chars(n, m))) == spec_code_chars(n, m),
{
    lemma_parse_code_complete(n, m);
    if m == 0 {
        assert(spec_encode_category(CategoryView::Parent(n)) =~= spec_code_chars(n, 0));
    } else {
        assert(spec_encode_category(CategoryView::Subcategory(n, m)) =~= spec_code_chars(n, m));
    }
}

/// Round trip from the value side: decoding the code of any well-formed
/// parent or subcategory gives the value back.
pub proof fn lemma_category_round_trip(v: CategoryView)
    requires
        view_wf(v),
        !(v is Unknown),
    ensures
        spec_decode_category(spec_encode_category(v)) == v,
{
    match v {
        CategoryView::Parent(n) => {
            lemma_declared_code_decodes(n, 0);
            assert(spec_encode_category(v) =~= spec_code_chars(n, 0));
        },
        CategoryView::Subcategory(n, m) => {
            lemma_declared_code_decodes(n, m);
            assert(spec_encode_category(v) =~= spec_code_chars(n, m));
        },
        CategoryView::Unknown(_) => {},
    }
}

/// Decoding is a total fallback: a string decodes to itself as an unknown
/// category exactly when it is not one of the declared codes, so no input
/// is ever rejected and nothing verbatim is lost.
pub proof fn lemma_unknown_passthrough(s: Seq<char>)
    ensures
        spec_decode_category(s) == CategoryView::Unknown(s) <==> !is_declared_code(s),
{
    if is_declared_code(s) {
        let (n, m) = choose|n: u32, m: u32| is_declared_numbers(n, m) && #[trigger] spec_code_chars(
            n,
            m,
        ) == s;
        lemma_declared_code_decodes(n, m);
    }
    if spec_decode_category(s) != CategoryView::Unknown(s) {
        lemma_parse_code_sound(s);
        match spec_parse_code(s) {
            Some((n, m)) => {
                if m == 0 {
                    assert(is_declared_numbers(n, 0) && spec_code_chars(n, 0) == s);
                } else {
                    assert(is_declared_numbers(n, m) && spec_code_chars(n, m) == s);
                }
            },
            None => {},
        }
    }
}

/// No two declared entries share a string code: the property that a
/// table-building step would otherwise have to check for duplicates at
/// build time holds of this hierarchy by proof.
pub proof fn lemma_codes_distinct(n1: u32, m1: u32, n2: u32, m2: u32)
    requires
        is_declared_numbers(n1, m1),
        is_declared_numbers(n2, m2),
        !(n1 == n2 && m1 == m2),
    ensures
        spec_code_chars(n1, m1) != spec_code_chars(n2, m2),
{
    lemma_parse_code_complete(n1, m1);
    lemma_parse_code_complete(n2, m2);
}

/// The decimal value of a digit character; ten for any other character.
fn char_digit(c: char) -> (r: u32)
    ensures
        r == digit_val(c),
{
    match c {
        '0' => 0,
        '1' => 1,
        '2' => 2,
        '3' => 3,
        '4' => 4,
        '5' => 5,
        '6' => 6,
        '7' => 7,
        '8' => 8,
        '9' => 9,
        _ => 10,
    }
}

} // verus!
