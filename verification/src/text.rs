//! Text: what the login flows read out of strings, and how they build them.

use vstd::prelude::*;
use vstd::utf8::{decode_utf8, encode_utf8, encode_utf8_decode_utf8};

verus! {

/// The characters with the Unicode property `White_Space`.
pub open spec fn white_space(c: char) -> bool {
    let n = c as int;
    ||| 0x9 <= n <= 0xD
    ||| n == 0x20
    ||| n == 0x85
    ||| n == 0xA0
    ||| n == 0x1680
    ||| 0x2000 <= n <= 0x200A
    ||| n == 0x2028
    ||| n == 0x2029
    ||| n == 0x202F
    ||| n == 0x205F
    ||| n == 0x3000
}

/// `s` without its leading white space.
pub open spec fn trimmed_front(s: Seq<char>) -> Seq<char>
    decreases s.len(),
{
    if s.len() > 0 && white_space(s[0]) {
        trimmed_front(s.drop_first())
    } else {
        s
    }
}

/// `s` without its trailing white space.
pub open spec fn trimmed_back(s: Seq<char>) -> Seq<char>
    decreases s.len(),
{
    if s.len() > 0 && white_space(s.last()) {
        trimmed_back(s.drop_last())
    } else {
        s
    }
}

/// `s` without leading and trailing white space.
pub open spec fn trimmed(s: Seq<char>) -> Seq<char> {
    trimmed_back(trimmed_front(s))
}

/// `str::trim` of std: the text without the white space at its two ends, where white
/// space is what Unicode calls `White_Space`.
pub assume_specification[ str::trim ](s: &str) -> (r: &str)
    ensures
        r@ == trimmed(s@),
;

/// The text that `str::to_lowercase` returns for `s`.
pub uninterp spec fn lowercased(s: Seq<char>) -> Seq<char>;

/// `str::to_lowercase` of std: the lower case of the text after Unicode's rules, which
/// depends on the text alone. What these rules make of a given text is not stated.
pub assume_specification[ str::to_lowercase ](s: &str) -> (r: String)
    ensures
        r@ == lowercased(s@),
;

/// What follows the last `@` of `s`; all of `s` where it has none.
pub open spec fn after_last_at(s: Seq<char>) -> Seq<char>
    decreases s.len(),
{
    if s.len() == 0 || s.last() == '@' {
        Seq::empty()
    } else {
        after_last_at(s.drop_last()).push(s.last())
    }
}

/// What precedes the first `@` of `s`; all of `s` where it has none.
pub open spec fn before_first_at(s: Seq<char>) -> Seq<char>
    decreases s.len(),
{
    if s.len() == 0 || s[0] == '@' {
        Seq::empty()
    } else {
        seq![s[0]] + before_first_at(s.drop_first())
    }
}

/// `s` without its trailing slashes.
pub open spec fn without_trailing_slashes(s: Seq<char>) -> Seq<char>
    decreases s.len(),
{
    if s.len() > 0 && s.last() == '/' {
        without_trailing_slashes(s.drop_last())
    } else {
        s
    }
}

/// The decimal digit of `d`, for `d < 10`.
pub open spec fn digit(d: nat) -> char {
    if d == 0 {
        '0'
    } else if d == 1 {
        '1'
    } else if d == 2 {
        '2'
    } else if d == 3 {
        '3'
    } else if d == 4 {
        '4'
    } else if d == 5 {
        '5'
    } else if d == 6 {
        '6'
    } else if d == 7 {
        '7'
    } else if d == 8 {
        '8'
    } else {
        '9'
    }
}

/// `n` in decimal, without leading zeros.
pub open spec fn decimal(n: nat) -> Seq<char>
    decreases n,
{
    if n < 10 {
        seq![digit(n)]
    } else {
        decimal(n / 10).push(digit(n % 10))
    }
}

proof fn lemma_after_last_at(s: Seq<char>, k: int)
    requires
        0 <= k <= s.len(),
        forall|i: int| k <= i < s.len() ==> s[i] != '@',
        k == 0 || s[k - 1] == '@',
    ensures
        after_last_at(s) == s.subrange(k, s.len() as int),
    decreases s.len(),
{
    if k < s.len() {
        lemma_after_last_at(s.drop_last(), k);
        assert(s.subrange(k, s.len() as int) =~= s.drop_last().subrange(
            k,
            s.len() - 1,
        ).push(s.last()));
    } else {
        assert(s.subrange(k, s.len() as int) =~= Seq::empty());
    }
}

proof fn lemma_before_first_at(s: Seq<char>, k: int)
    requires
        0 <= k <= s.len(),
        forall|i: int| 0 <= i < k ==> s[i] != '@',
        k == s.len() || s[k] == '@',
    ensures
        before_first_at(s) == s.subrange(0, k),
    decreases s.len(),
{
    if k > 0 {
        lemma_before_first_at(s.drop_first(), k - 1);
        assert(s.subrange(0, k) =~= seq![s[0]] + s.drop_first().subrange(0, k - 1));
    } else {
        assert(s.subrange(0, k) =~= Seq::empty());
    }
}

proof fn lemma_without_trailing_slashes(s: Seq<char>, k: int)
    requires
        0 <= k <= s.len(),
        forall|i: int| k <= i < s.len() ==> s[i] == '/',
        k == 0 || s[k - 1] != '/',
    ensures
        without_trailing_slashes(s) == s.subrange(0, k),
    decreases s.len(),
{
    if k < s.len() {
        lemma_without_trailing_slashes(s.drop_last(), k);
        assert(s.subrange(0, k) =~= s.drop_last().subrange(0, k));
    } else {
        assert(s.subrange(0, k) =~= s);
    }
}

/// Two texts with the same UTF-8 bytes are the same text.
pub proof fn lemma_utf8_is_injective(a: Seq<char>, b: Seq<char>)
    requires
        encode_utf8(a) == encode_utf8(b),
    ensures
        a == b,
{
    encode_utf8_decode_utf8(a);
    encode_utf8_decode_utf8(b);
    assert(decode_utf8(encode_utf8(a)) == a);
}

/// The characters of a text, one by one.
pub(crate) fn characters(s: &str) -> (r: Vec<char>)
    ensures
        r@ == s@,
{
    let mut r: Vec<char> = Vec::new();
    for c in it: s.chars()
        invariant
            it.seq() == s@,
            r@ == s@.take(it.index() as int),
    {
        r.push(c);
    }
    assert(s@.take(s@.len() as int) =~= s@);
    r
}

/// Whether two texts are equal.
pub(crate) fn same_text(a: &str, b: &str) -> (r: bool)
    ensures
        r == (a@ == b@),
{
    let x = a.as_bytes();
    let y = b.as_bytes();
    if x.len() != y.len() {
        return false;
    }
    let n: usize = x.len();
    let mut i: usize = 0;
    while i < n
        invariant
            i <= n,
            n == x@.len(),
            n == y@.len(),
            x@ == encode_utf8(a@),
            y@ == encode_utf8(b@),
            forall|j: int| 0 <= j < i ==> x@[j] == y@[j],
        decreases n - i,
    {
        if x[i] != y[i] {
            return false;
        }
        i = i + 1;
    }
    proof {
        assert(x@ =~= y@);
        lemma_utf8_is_injective(a@, b@);
    }
    true
}

/// Whether `list` holds `text`.
pub(crate) fn holds_text(list: &[String], text: &str) -> (r: bool)
    ensures
        r == exists|i: int| 0 <= i < list@.len() && #[trigger] list@[i]@ == text@,
{
    let mut i: usize = 0;
    while i < list.len()
        invariant
            i <= list@.len(),
            forall|j: int| 0 <= j < i ==> #[trigger] list@[j]@ != text@,
        decreases list@.len() - i,
    {
        if same_text(list[i].as_str(), text) {
            assert(list@[i as int]@ == text@);
            return true;
        }
        i = i + 1;
    }
    false
}

/// The part of an address after its last `@`.
pub(crate) fn domain_of(address: &str) -> (r: &str)
    ensures
        r@ == after_last_at(address@),
{
    let chars: Vec<char> = characters(address);
    let n: usize = chars.len();
    let mut k: usize = n;
    while k > 0 && chars[k - 1] != '@'
        invariant
            k <= n,
            n == chars@.len(),
            chars@ == address@,
            forall|i: int| k <= i < n ==> address@[i] != '@',
        decreases k,
    {
        k = k - 1;
    }
    proof {
        lemma_after_last_at(address@, k as int);
    }
    address.substring_char(k, n)
}

/// The part of an address before its first `@`.
pub(crate) fn local_part_of(address: &str) -> (r: &str)
    ensures
        r@ == before_first_at(address@),
{
    let chars: Vec<char> = characters(address);
    let n: usize = chars.len();
    let mut k: usize = 0;
    while k < n && chars[k] != '@'
        invariant
            k <= n,
            n == chars@.len(),
            chars@ == address@,
            forall|i: int| 0 <= i < k ==> address@[i] != '@',
        decreases n - k,
    {
        k = k + 1;
    }
    proof {
        lemma_before_first_at(address@, k as int);
    }
    address.substring_char(0, k)
}

/// A text without its trailing slashes.
pub(crate) fn trim_trailing_slashes(s: &str) -> (r: &str)
    ensures
        r@ == without_trailing_slashes(s@),
{
    let chars: Vec<char> = characters(s);
    let n: usize = chars.len();
    let mut k: usize = n;
    while k > 0 && chars[k - 1] == '/'
        invariant
            k <= n,
            n == chars@.len(),
            chars@ == s@,
            forall|i: int| k <= i < n ==> s@[i] == '/',
        decreases k,
    {
        k = k - 1;
    }
    proof {
        lemma_without_trailing_slashes(s@, k as int);
    }
    s.substring_char(0, k)
}

/// Two texts, one after the other.
pub(crate) fn join(a: &str, b: &str) -> (r: String)
    ensures
        r@ == a@ + b@,
{
    a.to_owned().concat(b)
}

/// Three texts, one after the other.
pub(crate) fn join3(a: &str, b: &str, c: &str) -> (r: String)
    ensures
        r@ == a@ + b@ + c@,
{
    a.to_owned().concat(b).concat(c)
}

fn digit_text(d: u64) -> (r: &'static str)
    requires
        d < 10,
    ensures
        r@ == seq![digit(d as nat)],
{
    proof {
        reveal_strlit("0");
        reveal_strlit("1");
        reveal_strlit("2");
        reveal_strlit("3");
        reveal_strlit("4");
        reveal_strlit("5");
        reveal_strlit("6");
        reveal_strlit("7");
        reveal_strlit("8");
        reveal_strlit("9");
    }
    if d == 0 {
        "0"
    } else if d == 1 {
        "1"
    } else if d == 2 {
        "2"
    } else if d == 3 {
        "3"
    } else if d == 4 {
        "4"
    } else if d == 5 {
        "5"
    } else if d == 6 {
        "6"
    } else if d == 7 {
        "7"
    } else if d == 8 {
        "8"
    } else {
        "9"
    }
}

/// A number in decimal.
pub(crate) fn decimal_text(n: u64) -> (r: String)
    ensures
        r@ == decimal(n as nat),
    decreases n,
{
    if n < 10 {
        digit_text(n).to_owned()
    } else {
        let head = decimal_text(n / 10);
        let r = head.concat(digit_text(n % 10));
        assert(r@ =~= decimal(n as nat));
        r
    }
}

// ── What the texts are ──────────────────────────────────────────────
/// The last `@` parts an address: what follows it is the domain, whatever precedes it. A text
/// without one is a domain by itself.
pub proof fn law_domain_follows_the_last_at(user: Seq<char>, host: Seq<char>)
    requires
        !host.contains('@'),
    ensures
        after_last_at(user + seq!['@'] + host) == host,
        after_last_at(host) == host,
{
    let s = user + seq!['@'] + host;
    let k: int = user.len() as int + 1;
    assert forall|i: int| k <= i < s.len() implies s[i] != '@' by {
        assert(host.contains(host[i - k]));
    }
    lemma_after_last_at(s, k);
    assert(s.subrange(k, s.len() as int) =~= host);
    assert forall|i: int| 0 <= i < host.len() implies host[i] != '@' by {
        assert(host.contains(host[i]));
    }
    lemma_after_last_at(host, 0);
    assert(host.subrange(0, host.len() as int) =~= host);
}

/// The first `@` parts an address: what precedes it names the user, whatever follows it. A text
/// without one is a name by itself.
pub proof fn law_local_part_precedes_the_first_at(user: Seq<char>, host: Seq<char>)
    requires
        !user.contains('@'),
    ensures
        before_first_at(user + seq!['@'] + host) == user,
        before_first_at(user) == user,
{
    let s = user + seq!['@'] + host;
    assert forall|i: int| 0 <= i < user.len() implies user[i] != '@' by {
        assert(user.contains(user[i]));
    }
    lemma_before_first_at(s, user.len() as int);
    assert(s.subrange(0, user.len() as int) =~= user);
    lemma_before_first_at(user, user.len() as int);
    assert(user.subrange(0, user.len() as int) =~= user);
}

/// Any number of slashes behind a text that does not end in one is cut off, and nothing else.
pub proof fn law_trailing_slashes_are_cut(base: Seq<char>, slashes: Seq<char>)
    requires
        base.len() == 0 || base.last() != '/',
        forall|i: int| 0 <= i < slashes.len() ==> slashes[i] == '/',
    ensures
        without_trailing_slashes(base + slashes) == base,
{
    let s = base + slashes;
    lemma_without_trailing_slashes(s, base.len() as int);
    assert(s.subrange(0, base.len() as int) =~= base);
}

/// The number that a text of decimal digits denotes.
pub open spec fn number_of(s: Seq<char>) -> int
    decreases s.len(),
{
    if s.len() == 0 {
        0
    } else {
        number_of(s.drop_last()) * 10 + (s.last() as int - '0' as int)
    }
}

/// A number is written in digits that denote it, without leading zeros.
pub proof fn law_decimal_denotes_its_number(n: nat)
    ensures
        number_of(decimal(n)) == n,
        decimal(n).len() > 0,
        forall|i: int|
            0 <= i < decimal(n).len() ==> '0' as int <= #[trigger] decimal(n)[i] as int
                <= '9' as int,
        decimal(n)[0] == '0' ==> n == 0 && decimal(n).len() == 1,
    decreases n,
{
    reveal_with_fuel(number_of, 2);
    if n < 10 {
        assert(seq![digit(n)].drop_last() =~= Seq::empty());
    } else {
        law_decimal_denotes_its_number(n / 10);
        let head = decimal(n / 10);
        assert(decimal(n).drop_last() =~= head);
        assert(decimal(n)[0] == head[0]);
    }
}

} // verus!
