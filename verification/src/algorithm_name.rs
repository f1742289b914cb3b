//! Normalisation of WebCrypto algorithm names: surrounding white space is
//! dropped, ASCII letters are upper-cased, and the two registered names that
//! are not all upper case get their registered spelling back.
use vstd::prelude::*;

verus! {

/// Unicode's `White_Space` property, which `char::is_whitespace` and
/// `str::trim` use.
pub open spec fn is_white_space(c: char) -> bool {
    let u = c as u32;
    ||| 0x09 <= u <= 0x0D
    ||| u == 0x20
    ||| u == 0x85
    ||| u == 0xA0
    ||| u == 0x1680
    ||| 0x2000 <= u <= 0x200A
    ||| u == 0x2028
    ||| u == 0x2029
    ||| u == 0x202F
    ||| u == 0x205F
    ||| u == 0x3000
}

/// `s` without its leading white space.
pub open spec fn trim_start(s: Seq<char>) -> Seq<char>
    decreases s.len(),
{
    if s.len() > 0 && is_white_space(s[0]) {
        trim_start(s.drop_first())
    } else {
        s
    }
}

/// `s` without its trailing white space.
pub open spec fn trim_end(s: Seq<char>) -> Seq<char>
    decreases s.len(),
{
    if s.len() > 0 && is_white_space(s.last()) {
        trim_end(s.drop_last())
    } else {
        s
    }
}

/// `s` without leading and trailing white space, as `str::trim` gives it.
pub open spec fn trim(s: Seq<char>) -> Seq<char> {
    trim_end(trim_start(s))
}

/// The ASCII upper-case form of one character; other characters stay.
pub open spec fn ascii_upper_char(c: char) -> char {
    if 'a' <= c && c <= 'z' {
        ((c as u32) - 32) as char
    } else {
        c
    }
}

/// `s` with every ASCII lower-case letter upper-cased, as
/// `str::to_ascii_uppercase` gives it.
pub open spec fn ascii_upper(s: Seq<char>) -> Seq<char> {
    s.map_values(|c: char| ascii_upper_char(c))
}

/// The normalised form of an algorithm name.
pub open spec fn normalized_algorithm_name(name: Seq<char>) -> Seq<char> {
    let upper = ascii_upper(trim(name));
    if upper == "ED25519"@ {
        "Ed25519"@
    } else if upper == "RSASSA-PKCS1-V1_5"@ {
        "RSASSA-PKCS1-v1_5"@
    } else {
        upper
    }
}

/// Whether `c` has Unicode's `White_Space` property.
pub fn is_white_space_char(c: char) -> (b: bool)
    ensures
        b == is_white_space(c),
{
    let u = c as u32;
    (0x09 <= u && u <= 0x0D) || u == 0x20 || u == 0x85 || u == 0xA0 || u == 0x1680 || (0x2000
        <= u && u <= 0x200A) || u == 0x2028 || u == 0x2029 || u == 0x202F || u == 0x205F || u
        == 0x3000
}

/// The ASCII upper-case form of `c`.
pub fn ascii_upper_of(c: char) -> (r: char)
    ensures
        r == ascii_upper_char(c),
{
    if 'a' <= c && c <= 'z' {
        let b: u8 = (c as u32 - 32) as u8;
        b as char
    } else {
        c
    }
}

/// `String::push`: appends one character.
#[verifier::external_body]
fn push_char(s: &mut String, c: char)
    ensures
        final(s)@ == old(s)@.push(c),
{
    s.push(c);
}

proof fn lemma_trim_start_skip(s: Seq<char>, i: int)
    requires
        0 <= i < s.len(),
        is_white_space(s[i]),
    ensures
        trim_start(s.subrange(i, s.len() as int)) == trim_start(s.subrange(i + 1, s.len() as int)),
{
    let t = s.subrange(i, s.len() as int);
    assert(t.drop_first() =~= s.subrange(i + 1, s.len() as int));
}

proof fn lemma_trim_end_skip(s: Seq<char>, i: int, j: int)
    requires
        0 <= i < j <= s.len(),
        is_white_space(s[j - 1]),
    ensures
        trim_end(s.subrange(i, j)) == trim_end(s.subrange(i, j - 1)),
{
    let t = s.subrange(i, j);
    assert(t.drop_last() =~= s.subrange(i, j - 1));
}

/// The characters of `s` without leading and trailing white space.
pub fn trim_chars(s: &Vec<char>) -> (r: Vec<char>)
    ensures
        r@ == trim(s@),
{
    let n = s.len();
    let mut i: usize = 0;
    assert(s@.subrange(0, n as int) =~= s@);
    while i < n && is_white_space_char(s[i])
        invariant
            n == s.len(),
            i <= n,
            trim_start(s@.subrange(i as int, n as int)) == trim_start(s@),
        decreases n - i,
    {
        proof {
            lemma_trim_start_skip(s@, i as int);
        }
        i = i + 1;
    }
    let ghost start = s@.subrange(i as int, n as int);
    assert(trim_start(start) == start);
    let mut j: usize = n;
    while j > i && is_white_space_char(s[j - 1])
        invariant
            n == s.len(),
            i <= j <= n,
            trim_end(s@.subrange(i as int, j as int)) == trim_end(start),
        decreases j - i,
    {
        proof {
            lemma_trim_end_skip(s@, i as int, j as int);
        }
        j = j - 1;
    }
    let ghost kept = s@.subrange(i as int, j as int);
    assert(trim_end(kept) == kept);
    let mut r: Vec<char> = Vec::new();
    let mut k: usize = i;
    while k < j
        invariant
            n == s.len(),
            i <= k <= j <= n,
            r@ =~= s@.subrange(i as int, k as int),
        decreases j - k,
    {
        r.push(s[k]);
        k = k + 1;
    }
    r
}

/// The characters of a string slice, in order.
pub fn chars_of(s: &str) -> (r: Vec<char>)
    ensures
        r@ == s@,
{
    let mut r: Vec<char> = Vec::new();
    for c in it: s.chars()
        invariant
            it.seq() == s@,
            r@ == it.seq().take(it.index() as int),
    {
        r.push(c);
    }
    r
}

/// Normalises a WebCrypto algorithm name: drops surrounding white space,
/// upper-cases ASCII letters, and gives `Ed25519` and `RSASSA-PKCS1-v1_5`
/// their registered spelling.
pub fn normalize_algorithm_name(name: &str) -> (r: String)
    ensures
        r@ == normalized_algorithm_name(name@),
{
    let chars = chars_of(name);
    let trimmed = trim_chars(&chars);
    let mut upper = String::new();
    let mut k: usize = 0;
    while k < trimmed.len()
        invariant
            k <= trimmed.len(),
            upper@ =~= ascii_upper(trimmed@).take(k as int),
        decreases trimmed.len() - k,
    {
        let c = ascii_upper_of(trimmed[k]);
        push_char(&mut upper, c);
        k = k + 1;
    }
    assert(upper@ =~= ascii_upper(trim(name@)));
    let ed = String::from_str("ED25519");
    let rsa = String::from_str("RSASSA-PKCS1-V1_5");
    if upper == ed {
        String::from_str("Ed25519")
    } else if upper == rsa {
        String::from_str("RSASSA-PKCS1-v1_5")
    } else {
        upper
    }
}

/// Upper-casing keeps white space white space and everything else not.
proof fn lemma_ascii_upper_char_white_space(c: char)
    ensures
        is_white_space(ascii_upper_char(c)) == is_white_space(c),
        ascii_upper_char(ascii_upper_char(c)) == ascii_upper_char(c),
{
}

proof fn lemma_trim_start_ascii_upper(s: Seq<char>)
    ensures
        trim_start(ascii_upper(s)) == ascii_upper(trim_start(s)),
    decreases s.len(),
{
    if s.len() > 0 {
        lemma_ascii_upper_char_white_space(s[0]);
        if is_white_space(s[0]) {
            assert(ascii_upper(s).drop_first() =~= ascii_upper(s.drop_first()));
            lemma_trim_start_ascii_upper(s.drop_first());
        }
    }
}

proof fn lemma_trim_end_ascii_upper(s: Seq<char>)
    ensures
        trim_end(ascii_upper(s)) == ascii_upper(trim_end(s)),
    decreases s.len(),
{
    if s.len() > 0 {
        lemma_ascii_upper_char_white_space(s.last());
        if is_white_space(s.last()) {
            assert(ascii_upper(s).drop_last() =~= ascii_upper(s.drop_last()));
            lemma_trim_end_ascii_upper(s.drop_last());
        }
    }
}

/// Trimming and upper-casing may be done in either order.
pub proof fn lemma_trim_ascii_upper_commute(s: Seq<char>)
    ensures
        trim(ascii_upper(s)) == ascii_upper(trim(s)),
{
    lemma_trim_start_ascii_upper(s);
    lemma_trim_end_ascii_upper(trim_start(s));
}

/// Upper-casing twice is upper-casing once.
pub proof fn lemma_ascii_upper_idempotent(s: Seq<char>)
    ensures
        ascii_upper(ascii_upper(s)) == ascii_upper(s),
{
    assert forall|i: int| 0 <= i < s.len() implies ascii_upper(ascii_upper(s))[i] == ascii_upper(
        s,
    )[i] by {
        lemma_ascii_upper_char_white_space(s[i]);
    }
    assert(ascii_upper(ascii_upper(s)) =~= ascii_upper(s));
}

proof fn lemma_trim_end_is_prefix(s: Seq<char>)
    ensures
        trim_end(s).len() <= s.len(),
        trim_end(s) == s.take(trim_end(s).len() as int),
    decreases s.len(),
{
    if s.len() > 0 && is_white_space(s.last()) {
        lemma_trim_end_is_prefix(s.drop_last());
        assert(s.drop_last().take(trim_end(s).len() as int) =~= s.take(trim_end(s).len() as int));
    } else {
        assert(s.take(s.len() as int) =~= s);
    }
}

proof fn lemma_trim_start_starts_non_white(s: Seq<char>)
    ensures
        trim_start(s).len() == 0 || !is_white_space(trim_start(s)[0]),
    decreases s.len(),
{
    if s.len() > 0 && is_white_space(s[0]) {
        lemma_trim_start_starts_non_white(s.drop_first());
    }
}

proof fn lemma_trim_end_idempotent(s: Seq<char>)
    ensures
        trim_end(trim_end(s)) == trim_end(s),
    decreases s.len(),
{
    if s.len() > 0 && is_white_space(s.last()) {
        lemma_trim_end_idempotent(s.drop_last());
    }
}

/// Trimming twice is trimming once.
pub proof fn lemma_trim_idempotent(s: Seq<char>)
    ensures
        trim(trim(s)) == trim(s),
{
    let a = trim_start(s);
    let b = trim_end(a);
    lemma_trim_end_is_prefix(a);
    lemma_trim_start_starts_non_white(s);
    if b.len() > 0 {
        assert(b[0] == a[0]);
    }
    assert(trim_start(b) == b);
    lemma_trim_end_idempotent(a);
}

proof fn lemma_registered_spellings()
    ensures
        normalized_algorithm_name("Ed25519"@) == "Ed25519"@,
        normalized_algorithm_name("RSASSA-PKCS1-v1_5"@) == "RSASSA-PKCS1-v1_5"@,
{
    reveal_strlit("Ed25519");
    reveal_strlit("ED25519");
    reveal_strlit("RSASSA-PKCS1-v1_5");
    reveal_strlit("RSASSA-PKCS1-V1_5");
    let ed = "Ed25519"@;
    assert(trim_start(ed) == ed);
    assert(trim_end(ed) == ed);
    assert(ascii_upper(ed) =~= "ED25519"@);
    let rsa = "RSASSA-PKCS1-v1_5"@;
    assert(trim_start(rsa) == rsa);
    assert(trim_end(rsa) == rsa);
    assert(ascii_upper(rsa) =~= "RSASSA-PKCS1-V1_5"@);
}

/// Normalising a normalised name changes nothing.
pub proof fn lemma_normalize_idempotent(name: Seq<char>)
    ensures
        normalized_algorithm_name(normalized_algorithm_name(name)) == normalized_algorithm_name(
            name,
        ),
{
    let u = ascii_upper(trim(name));
    lemma_registered_spellings();
    if u != "ED25519"@ && u != "RSASSA-PKCS1-V1_5"@ {
        lemma_trim_ascii_upper_commute(trim(name));
        lemma_trim_idempotent(name);
        lemma_ascii_upper_idempotent(trim(name));
    }
}

/// Names that differ only in the case of ASCII letters normalise alike.
pub proof fn lemma_normalize_ignores_ascii_case(name: Seq<char>)
    ensures
        normalized_algorithm_name(ascii_upper(name)) == normalized_algorithm_name(name),
{
    lemma_trim_ascii_upper_commute(name);
    lemma_ascii_upper_idempotent(trim(name));
}

/// Names that differ only in surrounding white space normalise alike.
pub proof fn lemma_normalize_ignores_surrounding_white_space(name: Seq<char>)
    ensures
        normalized_algorithm_name(trim(name)) == normalized_algorithm_name(name),
{
    lemma_trim_idempotent(name);
}

proof fn lemma_trim_start_is_suffix(s: Seq<char>) -> (i: int)
    ensures
        0 <= i <= s.len(),
        trim_start(s) == s.subrange(i, s.len() as int),
        forall|k: int| 0 <= k < i ==> is_white_space(#[trigger] s[k]),
    decreases s.len(),
{
    if s.len() > 0 && is_white_space(s[0]) {
        let j = lemma_trim_start_is_suffix(s.drop_first());
        assert(s.drop_first().subrange(j, s.drop_first().len() as int) =~= s.subrange(
            j + 1,
            s.len() as int,
        ));
        assert forall|k: int| 0 <= k < j + 1 implies is_white_space(#[trigger] s[k]) by {
            if k > 0 {
                assert(s[k] == s.drop_first()[k - 1]);
            }
        }
        j + 1
    } else {
        assert(s.subrange(0, s.len() as int) =~= s);
        0
    }
}

proof fn lemma_trim_end_is_prefix_of_white(s: Seq<char>)
    ensures
        forall|k: int|
            trim_end(s).len() <= k < s.len() ==> is_white_space(#[trigger] s[k]),
        trim_end(s).len() == 0 || !is_white_space(trim_end(s).last()),
    decreases s.len(),
{
    lemma_trim_end_is_prefix(s);
    if s.len() > 0 && is_white_space(s.last()) {
        lemma_trim_end_is_prefix_of_white(s.drop_last());
        lemma_trim_end_is_prefix(s.drop_last());
        assert forall|k: int| trim_end(s).len() <= k < s.len() implies is_white_space(
            #[trigger] s[k],
        ) by {
            if k < s.len() - 1 {
                assert(s[k] == s.drop_last()[k]);
            }
        }
    }
}

/// Trimming keeps a contiguous run of `s`: it drops only white space, from
/// both ends, and what it keeps neither starts nor ends with white space.
pub proof fn lemma_trim_drops_only_surrounding_white_space(s: Seq<char>)
    ensures
        exists|i: int, j: int|
            #![trigger s.subrange(i, j)]
            0 <= i <= j <= s.len() && trim(s) == s.subrange(i, j) && (forall|k: int|
                0 <= k < i ==> is_white_space(#[trigger] s[k])) && (forall|k: int|
                j <= k < s.len() ==> is_white_space(#[trigger] s[k])),
        trim(s).len() == 0 || (!is_white_space(trim(s)[0]) && !is_white_space(trim(s).last())),
{
    let i = lemma_trim_start_is_suffix(s);
    let a = trim_start(s);
    lemma_trim_end_is_prefix(a);
    lemma_trim_end_is_prefix_of_white(a);
    lemma_trim_start_starts_non_white(s);
    let j = i + trim_end(a).len();
    assert(trim(s) =~= s.subrange(i, j));
    assert forall|k: int| j <= k < s.len() implies is_white_space(#[trigger] s[k]) by {
        assert(s[k] == a[k - i]);
    }
    if trim(s).len() > 0 {
        assert(trim(s)[0] == a[0]);
    }
}

/// Upper-casing keeps the length and changes exactly the ASCII lower-case
/// letters, each to the letter 32 code points below it.
pub proof fn lemma_ascii_upper_changes_only_lower_case_letters(s: Seq<char>)
    ensures
        ascii_upper(s).len() == s.len(),
        forall|i: int|
            0 <= i < s.len() ==> {
                let c = s[i];
                let u = #[trigger] ascii_upper(s)[i];
                &&& ('a' <= c && c <= 'z') ==> u as u32 == c as u32 - 32
                &&& !('a' <= c && c <= 'z') ==> u == c
            },
{
}

/// A name that is not one of the two registered spellings normalises to its
/// trimmed form upper-cased, character by character; the two registered
/// spellings come back as `Ed25519` and `RSASSA-PKCS1-v1_5`.
pub proof fn lemma_normalized_name_is_trimmed_upper_case(name: Seq<char>)
    ensures
        ascii_upper(trim(name)) == "ED25519"@ ==> normalized_algorithm_name(name) == "Ed25519"@,
        ascii_upper(trim(name)) == "RSASSA-PKCS1-V1_5"@ ==> normalized_algorithm_name(name)
            == "RSASSA-PKCS1-v1_5"@,
        ascii_upper(trim(name)) != "ED25519"@ && ascii_upper(trim(name)) != "RSASSA-PKCS1-V1_5"@
            ==> (normalized_algorithm_name(name).len() == trim(name).len() && forall|i: int|
            0 <= i < trim(name).len() ==> #[trigger] normalized_algorithm_name(name)[i]
                == ascii_upper_char(trim(name)[i])),
{
    reveal_strlit("ED25519");
    reveal_strlit("RSASSA-PKCS1-V1_5");
    assert("ED25519"@.len() != "RSASSA-PKCS1-V1_5"@.len());
    let t = trim(name);
    assert forall|i: int| 0 <= i < t.len() implies #[trigger] ascii_upper(t)[i]
        == ascii_upper_char(t[i]) by {}
}

} // verus!
