use vstd::prelude::*;

verus! {

/// The characters of `s`, in order.
pub fn chars_of(s: &str) -> (r: Vec<char>)
    ensures
        r@ == s@,
{
    broadcast use vstd::string::group_string_axioms;

    let mut r: Vec<char> = Vec::new();
    for c in iter: s.chars()
        invariant
            r@ == iter.seq().take(iter.index() as int),
    {
        r.push(c);
    }
    r
}

/// Builds a `String` from its characters with `String`'s `FromIterator<char>`,
/// which yields the string made of those characters in order.
#[verifier::external_body]
pub(crate) fn string_from_chars(chars: &Vec<char>) -> (s: String)
    ensures
        s@ == chars@,
{
    chars.iter().collect()
}

/// Moving `index` by `offset` positions on a ring of `max` positions; 0 when the ring is empty.
pub open spec fn spec_cycle_offset(index: u16, offset: i16, max: u16) -> u16 {
    if max == 0 {
        0
    } else {
        ((index as int + offset as int) % (max as int)) as u16
    }
}

/// Moves `index` by `offset` positions (negative: backwards) on a ring of
/// `max` positions, wrapping around at either end.
pub fn cycle_offset(index: u16, offset: i16, max: u16) -> (r: u16)
    ensures
        r == spec_cycle_offset(index, offset, max),
        max > 0 ==> r < max,
{
    if max == 0 {
        return 0;
    }
    let sum: i32 = index as i32 + offset as i32;
    let m: u32 = max as u32;
    if sum >= 0 {
        let a: u32 = sum as u32;
        let r: u32 = a % m;
        r as u16
    } else {
        let a: u32 = (-sum) as u32;
        let t: u32 = a % m;
        proof {
            lemma_neg_mod(a as int, m as int);
        }
        if t == 0 {
            0
        } else {
            (m - t) as u16
        }
    }
}

proof fn lemma_neg_mod(a: int, m: int)
    requires
        a > 0,
        m > 0,
    ensures
        a % m == 0 ==> (-a) % m == 0,
        a % m != 0 ==> (-a) % m == m - a % m,
{
    let q = a / m;
    let t = a % m;
    assert(a == q * m + t && 0 <= t < m) by (nonlinear_arith)
        requires
            m > 0,
            q == a / m,
            t == a % m,
    ;
    if t == 0 {
        assert(-a == (-q) * m) by (nonlinear_arith)
            requires
                a == q * m,
        ;
        vstd::arithmetic::div_mod::lemma_mod_multiples_basic(-q, m);
    } else {
        assert(-a == (-q - 1) * m + (m - t)) by (nonlinear_arith)
            requires
                a == q * m + t,
        ;
        vstd::arithmetic::div_mod::lemma_mod_multiples_vanish(-q - 1, m - t, m);
        vstd::arithmetic::div_mod::lemma_small_mod((m - t) as nat, m as nat);
    }
}

/// Moving one position forward and then one back, or back and then
/// forward, on a ring of `max` positions comes back to where one started.
pub proof fn law_cycle_back_and_forth(index: u16, max: u16)
    requires
        index < max,
    ensures
        spec_cycle_offset(spec_cycle_offset(index, 1i16, max), -1i16, max) == index,
        spec_cycle_offset(spec_cycle_offset(index, -1i16, max), 1i16, max) == index,
{
    let m = max as int;
    let i = index as int;
    if i + 1 < m {
        vstd::arithmetic::div_mod::lemma_small_mod((i + 1) as nat, m as nat);
        vstd::arithmetic::div_mod::lemma_small_mod(i as nat, m as nat);
    } else {
        vstd::arithmetic::div_mod::lemma_mod_self_0(m);
        lemma_neg_mod(1, m);
        if m > 1 {
            vstd::arithmetic::div_mod::lemma_small_mod(1, m as nat);
        } else {
            vstd::arithmetic::div_mod::lemma_mod_self_0(m);
        }
        vstd::arithmetic::div_mod::lemma_small_mod(i as nat, m as nat);
    }
    if i > 0 {
        vstd::arithmetic::div_mod::lemma_small_mod((i - 1) as nat, m as nat);
        vstd::arithmetic::div_mod::lemma_small_mod(i as nat, m as nat);
    } else {
        lemma_neg_mod(1, m);
        if m > 1 {
            vstd::arithmetic::div_mod::lemma_small_mod(1, m as nat);
        } else {
            vstd::arithmetic::div_mod::lemma_mod_self_0(m);
        }
        vstd::arithmetic::div_mod::lemma_mod_self_0(m);
    }
}

/// The hovered position after moving by `offset` among `max` items: the
/// first item when nothing was hovered.
pub open spec fn spec_cycle_hover(hovered: Option<usize>, offset: i16, max: u16) -> Option<usize> {
    match hovered {
        Some(h) => Some(spec_cycle_offset(h as u16, offset, max) as usize),
        None => Some(0),
    }
}

/// Moves the hovered position by `offset` among `max` items, wrapping
/// around; hovers the first item when nothing was hovered.
pub fn cycle_hover(hovered: Option<usize>, offset: i16, max: u16) -> (r: Option<usize>)
    ensures
        r == spec_cycle_hover(hovered, offset, max),
{
    match hovered {
        Some(h) => Some(cycle_offset(h as u16, offset, max) as usize),
        None => Some(0),
    }
}

/// The decimal digit character of `d` (below ten).
pub open spec fn digit_char(d: nat) -> char {
    (d + 48) as char
}

/// The decimal representation of `n`, most significant digit first, without leading zeros.
pub open spec fn decimal(n: nat) -> Seq<char>
    decreases n,
{
    if n < 10 {
        seq![digit_char(n)]
    } else {
        decimal(n / 10).push(digit_char(n % 10))
    }
}

/// The `n`-th alternative of `name`: `name (n)`.
pub open spec fn numbered_name(name: Seq<char>, n: nat) -> Seq<char> {
    name + seq![' ', '('] + decimal(n) + seq![')']
}

/// Some string of `names` is `s`.
pub open spec fn name_taken(names: Seq<Seq<char>>, s: Seq<char>) -> bool {
    exists|i: int| 0 <= i < names.len() && #[trigger] names[i] == s
}

/// The characters of each string of `names`.
pub open spec fn str_views(names: Seq<&str>) -> Seq<Seq<char>> {
    names.map_values(|s: &str| s@)
}

/// `r` is what `name` becomes among `names`: `name` itself when no string of
/// `names` is `name`, else `name (n)` for the least `n >= 1` that no string
/// of `names` is.
pub open spec fn is_auto_incremented(name: Seq<char>, names: Seq<Seq<char>>, r: Seq<char>) -> bool {
    if !name_taken(names, name) {
        r == name
    } else {
        exists|n: nat|
            #![trigger numbered_name(name, n)]
            n >= 1 && r == numbered_name(name, n) && !name_taken(names, numbered_name(name, n))
                && forall|m: nat| 1 <= m < n ==> name_taken(names, #[trigger] numbered_name(name, m))
    }
}

/// A name made free among `names` is taken by none of them: a new entry
/// never shares its name with an entry already there.
pub proof fn law_auto_incremented_is_free(name: Seq<char>, names: Seq<Seq<char>>, r: Seq<char>)
    requires
        is_auto_incremented(name, names, r),
    ensures
        !name_taken(names, r),
{
    if name_taken(names, name) {
        let n = choose|n: nat|
            #![trigger numbered_name(name, n)]
            n >= 1 && r == numbered_name(name, n) && !name_taken(names, numbered_name(name, n))
                && forall|m: nat| 1 <= m < n ==> name_taken(names, #[trigger] numbered_name(name, m));
    }
}

proof fn lemma_decimal_len(n: nat)
    ensures
        decimal(n).len() >= 1,
        n >= 10 ==> decimal(n).len() >= 2,
    decreases n,
{
    if n >= 10 {
        lemma_decimal_len(n / 10);
    }
}

proof fn lemma_decimal_injective(a: nat, b: nat)
    requires
        decimal(a) == decimal(b),
    ensures
        a == b,
    decreases a,
{
    lemma_decimal_len(a);
    lemma_decimal_len(b);
    let da = decimal(a);
    let db = decimal(b);
    assert(da.last() == db.last());
    if a < 10 && b < 10 {
        assert(da.last() == digit_char(a));
        assert(db.last() == digit_char(b));
        assert(digit_char(a) as int == a + 48);
        assert(digit_char(b) as int == b + 48);
    } else if a >= 10 && b >= 10 {
        assert(da.last() == digit_char(a % 10));
        assert(db.last() == digit_char(b % 10));
        assert(digit_char(a % 10) as int == a % 10 + 48);
        assert(digit_char(b % 10) as int == b % 10 + 48);
        assert(a % 10 == b % 10);
        assert(da.drop_last() =~= decimal(a / 10));
        assert(db.drop_last() =~= decimal(b / 10));
        lemma_decimal_injective(a / 10, b / 10);
        assert(a == 10 * (a / 10) + a % 10);
        assert(b == 10 * (b / 10) + b % 10);
    } else {
        assert(da.len() != db.len());
    }
}

proof fn lemma_numbered_name_injective(name: Seq<char>, a: nat, b: nat)
    requires
        numbered_name(name, a) == numbered_name(name, b),
    ensures
        a == b,
{
    let ca = numbered_name(name, a);
    let cb = numbered_name(name, b);
    let lo = name.len() + 2;
    assert(ca.len() == cb.len());
    assert(ca.subrange(lo as int, ca.len() - 1) =~= decimal(a));
    assert(cb.subrange(lo as int, cb.len() - 1) =~= decimal(b));
    lemma_decimal_injective(a, b);
}

/// When `name (1)` .. `name (n - 1)` are all taken, `names` holds at least `n - 1` strings.
proof fn lemma_numbered_names_bound(name: Seq<char>, names: Seq<Seq<char>>, n: nat)
    requires
        n >= 1,
        forall|m: nat| 1 <= m < n ==> name_taken(names, #[trigger] numbered_name(name, m)),
    ensures
        n - 1 <= names.len(),
{
    let taken_set = names;
    let cands = Seq::new((n - 1) as nat, |j: int| numbered_name(name, (j + 1) as nat));
    assert(cands.no_duplicates()) by {
        assert forall|i: int, j: int|
            0 <= i < cands.len() && 0 <= j < cands.len() && i != j implies cands[i] != cands[j] by {
            if cands[i] == cands[j] {
                lemma_numbered_name_injective(name, (i + 1) as nat, (j + 1) as nat);
            }
        }
    }
    cands.unique_seq_to_set();
    taken_set.lemma_cardinality_of_set();
    assert(cands.to_set().subset_of(taken_set.to_set())) by {
        assert forall|c: Seq<char>| cands.to_set().contains(c) implies taken_set.to_set().contains(
            c,
        ) by {
            let j = choose|j: int| 0 <= j < cands.len() && cands[j] == c;
            assert(name_taken(names, numbered_name(name, (j + 1) as nat)));
            let i = choose|i: int| 0 <= i < names.len() && #[trigger] names[i] == c;
            assert(taken_set[i] == c);
        }
    }
    vstd::seq_lib::seq_to_set_is_finite(taken_set);
    vstd::set_lib::lemma_len_subset(cands.to_set(), taken_set.to_set());
}

/// Appends the decimal representation of `n` to `v`.
fn push_decimal(v: &mut Vec<char>, n: usize)
    ensures
        final(v)@ == old(v)@ + decimal(n as nat),
    decreases n,
{
    if n >= 10 {
        push_decimal(v, n / 10);
    }
    let d: u8 = (n % 10) as u8;
    let c: char = (d + 48) as char;
    v.push(c);
    assert(decimal(n as nat) =~= if n >= 10 {
        decimal((n / 10) as nat).push(digit_char((n % 10) as nat))
    } else {
        seq![digit_char(n as nat)]
    });
}

/// The decimal representation of `n`, with a leading minus sign when `n` is negative.
pub open spec fn signed_decimal(n: int) -> Seq<char> {
    if n < 0 {
        seq!['-'] + decimal((-n) as nat)
    } else {
        decimal(n as nat)
    }
}

/// The characters of the decimal representation of `n`.
pub fn i16_to_chars(n: i16) -> (r: Vec<char>)
    ensures
        r@ == signed_decimal(n as int),
{
    let mut v: Vec<char> = Vec::new();
    if n < 0 {
        v.push('-');
        let m: usize = (-(n as i32)) as usize;
        push_decimal(&mut v, m);
        assert(v@ =~= seq!['-'] + decimal(m as nat));
    } else {
        push_decimal(&mut v, n as usize);
        assert(v@ =~= decimal(n as nat));
    }
    v
}

/// Whether `char::is_numeric` holds of `c`.
pub uninterp spec fn spec_is_numeric(c: char) -> bool;

/// `char::is_numeric`: whether `c` has one of Unicode's general categories for
/// numbers; the ASCII digits do.
#[verifier::external_body]
pub(crate) fn is_numeric(c: char) -> (r: bool)
    ensures
        r == spec_is_numeric(c),
        ('0' <= c <= '9') ==> r,
{
    c.is_numeric()
}

/// Whether some string of `names` has exactly the characters `s`.
fn name_is_taken(names: &[&str], s: &Vec<char>) -> (r: bool)
    ensures
        r == name_taken(str_views(names@), s@),
{
    let mut i: usize = 0;
    while i < names.len()
        invariant
            0 <= i <= names@.len(),
            forall|j: int| 0 <= j < i ==> names@[j]@ != s@,
        decreases names@.len() - i,
    {
        let c = chars_of(names[i]);
        if chars_equal(&c, s) {
            assert(str_views(names@)[i as int] == s@);
            return true;
        }
        i = i + 1;
    }
    assert forall|j: int| 0 <= j < names@.len() implies #[trigger] str_views(names@)[j] != s@ by {
        assert(str_views(names@)[j] == names@[j]@);
    }
    false
}

/// Whether `a` and `b` hold the same characters.
pub fn chars_equal(a: &Vec<char>, b: &Vec<char>) -> (r: bool)
    ensures
        r == (a@ == b@),
{
    if a.len() != b.len() {
        return false;
    }
    let mut i: usize = 0;
    while i < a.len()
        invariant
            0 <= i <= a@.len(),
            a@.len() == b@.len(),
            forall|j: int| 0 <= j < i ==> a@[j] == b@[j],
        decreases a@.len() - i,
    {
        if a[i] != b[i] {
            return false;
        }
        i = i + 1;
    }
    assert(a@ =~= b@);
    true
}

/// A name for `name` that no string of `names` has: `name` itself when it is
/// free, else `name (n)` for the least free `n >= 1`.
pub fn auto_increment_name(name: &str, names: &[&str]) -> (r: String)
    requires
        names@.len() < usize::MAX,
    ensures
        is_auto_incremented(name@, str_views(names@), r@),
        !name_taken(str_views(names@), r@),
{
    let name_chars = chars_of(name);
    if !name_is_taken(names, &name_chars) {
        return string_from_chars(&name_chars);
    }
    let mut n: usize = 1;
    loop
        invariant
            1 <= n <= names@.len() + 1,
            names@.len() < usize::MAX,
            name_chars@ == name@,
            name_taken(str_views(names@), name@),
            forall|m: nat| 1 <= m < n ==> name_taken(str_views(names@), #[trigger] numbered_name(name@, m)),
        decreases names@.len() + 1 - n,
    {
        let mut c = name_chars.clone();
        assert(c@ =~= name@);
        c.push(' ');
        c.push('(');
        push_decimal(&mut c, n);
        c.push(')');
        assert(c@ =~= numbered_name(name@, n as nat));
        if !name_is_taken(names, &c) {
            let r = string_from_chars(&c);
            return r;
        }
        proof {
            lemma_numbered_names_bound(name@, str_views(names@), (n + 1) as nat);
        }
        n = n + 1;
    }
}


/// The value of a run of decimal digits.
pub open spec fn digits_value(s: Seq<char>) -> int
    decreases s.len(),
{
    if s.len() == 0 {
        0
    } else {
        digits_value(s.drop_last()) * 10 + (s.last() as int - '0' as int)
    }
}

/// Every character is a decimal digit.
pub open spec fn all_digits(s: Seq<char>) -> bool {
    forall|i: int| 0 <= i < s.len() ==> '0' <= #[trigger] s[i] <= '9'
}

/// The text without its leading plus sign, if it has one.
pub open spec fn without_plus(s: Seq<char>) -> Seq<char> {
    if s.len() > 0 && s[0] == '+' {
        s.drop_first()
    } else {
        s
    }
}

/// What `str::parse::<u16>` gives: the value of an optional plus sign and
/// one or more decimal digits, when it fits in a `u16`.
pub open spec fn spec_parse_u16(s: Seq<char>) -> Option<u16> {
    let d = without_plus(s);
    if d.len() > 0 && all_digits(d) && digits_value(d) <= u16::MAX {
        Some(digits_value(d) as u16)
    } else {
        None
    }
}

/// `str::parse::<i64>` succeeds on the text with a value above zero: an
/// optional plus sign, then decimal digits whose value is positive and fits
/// in an `i64`.
pub open spec fn spec_is_positive_i64(s: Seq<char>) -> bool {
    let d = without_plus(s);
    &&& !(s.len() > 0 && s[0] == '-')
    &&& d.len() > 0
    &&& all_digits(d)
    &&& 0 < digits_value(d) <= i64::MAX
}

proof fn lemma_digits_value_grows(s: Seq<char>, k: int)
    requires
        all_digits(s),
        0 <= k <= s.len(),
    ensures
        0 <= digits_value(s.take(k)) <= digits_value(s),
    decreases s.len(),
{
    if s.len() > 0 {
        if k == s.len() {
            assert(s.take(k) =~= s);
            lemma_digits_value_grows(s.drop_last(), k - 1);
            assert(s.drop_last().take(k - 1) =~= s.drop_last().take(k - 1));
        } else {
            lemma_digits_value_grows(s.drop_last(), k);
            assert(s.drop_last().take(k) =~= s.take(k));
            lemma_digits_value_grows(s.drop_last(), s.len() - 1);
            assert(s.drop_last().take(s.len() - 1) =~= s.drop_last());
        }
    }
}

/// Reads the digits of `chars` from `start` on: their value while it stays
/// at most `cap`, or `None` when a character is not a digit, there are no
/// digits, or the value goes past `cap`.
fn read_digits(chars: &Vec<char>, start: usize, cap: u64) -> (r: Option<u64>)
    requires
        start <= chars@.len(),
        9 <= cap <= i64::MAX,
    ensures
        ({
            let d = chars@.skip(start as int);
            match r {
                Some(v) => d.len() > 0 && all_digits(d) && v == digits_value(d) && v <= cap,
                None => !(d.len() > 0 && all_digits(d) && digits_value(d) <= cap),
            }
        }),
{
    let ghost d = chars@.skip(start as int);
    if start == chars.len() {
        return None;
    }
    let mut acc: u64 = 0;
    let mut i: usize = start;
    while i < chars.len()
        invariant
            start <= i <= chars@.len(),
            d == chars@.skip(start as int),
            9 <= cap <= i64::MAX,
            all_digits(d.take(i - start)),
            acc == digits_value(d.take(i - start)),
            acc <= cap,
        decreases chars@.len() - i,
    {
        let c = chars[i];
        if !('0' <= c && c <= '9') {
            proof {
                assert(d[i - start] == c);
            }
            return None;
        }
        let digit: u64 = (c as u32 - '0' as u32) as u64;
        proof {
            assert(d.take(i - start + 1).drop_last() =~= d.take(i - start));
            assert(d.take(i - start + 1).last() == c);
        }
        if acc > (cap - digit) / 10 {
            proof {
                assert(digits_value(d.take(i - start + 1)) == acc * 10 + digit);
                assert(acc * 10 + digit > cap) by (nonlinear_arith)
                    requires
                        acc > (cap - digit) / 10,
                        digit <= 9,
                        9 <= cap,
                ;
                if all_digits(d) {
                    lemma_digits_value_grows(d, i - start + 1);
                }
            }
            return None;
        }
        acc = acc * 10 + digit;
        i = i + 1;
        proof {
            assert forall|j: int| 0 <= j < i - start implies '0' <= #[trigger] d.take(i - start)[j] <= '9' by {
                if j < i - start - 1 {
                    assert(d.take(i - start)[j] == d.take(i - start - 1)[j]);
                }
            }
        }
    }
    proof {
        assert(d.take(i - start) =~= d);
    }
    Some(acc)
}

/// `str::parse::<u16>`: the value of an optional plus sign and decimal
/// digits, when it fits.
pub fn parse_u16(s: &str) -> (r: Option<u16>)
    ensures
        r == spec_parse_u16(s@),
{
    let chars = chars_of(s);
    let start: usize = if chars.len() > 0 && chars[0] == '+' {
        1
    } else {
        0
    };
    proof {
        assert(chars@.skip(start as int) =~= without_plus(s@));
    }
    match read_digits(&chars, start, 65535) {
        Some(v) => Some(v as u16),
        None => None,
    }
}

/// `str::parse::<i64>` succeeds on the text and gives a value above zero.
pub fn is_positive_i64(s: &str) -> (r: bool)
    ensures
        r == spec_is_positive_i64(s@),
{
    let chars = chars_of(s);
    if chars.len() > 0 && chars[0] == '-' {
        return false;
    }
    let start: usize = if chars.len() > 0 && chars[0] == '+' {
        1
    } else {
        0
    };
    proof {
        assert(chars@.skip(start as int) =~= without_plus(s@));
    }
    match read_digits(&chars, start, 9223372036854775807) {
        Some(v) => v > 0,
        None => false,
    }
}


} // verus!
