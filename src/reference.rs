use vstd::prelude::*;
use crate::article::{all_digits, digits_value, is_digit};
use crate::price::{decimal, digit_char};
use crate::text::{owned, push_char};
use vstd::string::*;

verus! {

/// The text a payment carries to name its buyer and item: the user id in
/// decimal, a colon, and the article id.
pub open spec fn reference_text(user_id: nat, article_id: Seq<char>) -> Seq<char> {
    decimal(user_id) + seq![':'] + article_id
}

/// Position of the first colon, if any.
pub open spec fn first_colon(s: Seq<char>) -> Option<int>
    decreases s.len(),
{
    if s.len() == 0 {
        None
    } else if s[0] == ':' {
        Some(0)
    } else {
        match first_colon(s.drop_first()) {
            Some(k) => Some(k + 1),
            None => None,
        }
    }
}

/// What a reference text names: digits before the first colon (a value
/// that fits a `usize`) and whatever follows it.
pub open spec fn decoded_reference(s: Seq<char>) -> Option<(usize, Seq<char>)> {
    match first_colon(s) {
        None => None,
        Some(k) => {
            let head = s.subrange(0, k);
            if all_digits(head) && digits_value(head) <= usize::MAX {
                Some((digits_value(head) as usize, s.subrange(k + 1, s.len() as int)))
            } else {
                None
            }
        },
    }
}

fn push_decimal_usize(s: &mut String, n: usize)
    ensures
        final(s)@ == old(s)@ + decimal(n as nat),
    decreases n,
{
    if n >= 10 {
        push_decimal_usize(s, n / 10);
    }
    push_char(s, ((n % 10) as u8 + 48) as char);
    assert(old(s)@ + decimal(n as nat) == if n >= 10 { old(s)@ + decimal((n / 10) as nat) + seq![digit_char((n % 10) as nat)] } else { old(s)@ + seq![digit_char(n as nat)] });
}

/// Writes the reference for a purchase of `article_id` by `user_id`.
pub fn encode_purchase_reference(user_id: usize, article_id: &str) -> (r: String)
    ensures
        r@ == reference_text(user_id as nat, article_id@),
{
    let mut r = String::new();
    push_decimal_usize(&mut r, user_id);
    push_char(&mut r, ':');
    r.append(article_id);
    r
}

/// Reads a reference back; `None` when it has no colon, the part before
/// the first colon is not all digits, or its value does not fit.
pub fn decode_purchase_reference(s: &str) -> (r: Option<(usize, String)>)
    ensures
        r matches Some(p) ==> decoded_reference(s@) == Some((p.0, p.1@)),
        r is None ==> decoded_reference(s@) is None,
{
    let n = s.unicode_len();
    let mut k: usize = 0;
    assert(s@.subrange(0, n as int) == s@);
    while k < n && s.get_char(k) != ':'
        invariant
            n == s@.len(),
            k <= n,
            forall|j: int| 0 <= j < k ==> s@[j] != ':',
            first_colon(s@) == match first_colon(s@.subrange(k as int, n as int)) {
                Some(m) => Some(m + k),
                None => None,
            },
        decreases n - k,
    {
        let ghost rest = s@.subrange(k as int, n as int);
        assert(rest.drop_first() == s@.subrange(k + 1, n as int));
        k = k + 1;
    }
    if k == n {
        assert(s@.subrange(n as int, n as int).len() == 0);
        return None;
    }
    let ghost rest = s@.subrange(k as int, n as int);
    assert(rest[0] == ':');
    assert(first_colon(s@) == Some(k as int));
    if k == 0 {
        assert(!all_digits(s@.subrange(0, 0)));
        return None;
    }
    let mut value: u128 = 0;
    let mut i: usize = 0;
    while i < k
        invariant
            k < n,
            n == s@.len(),
            i <= k,
            first_colon(s@) == Some(k as int),
            value <= usize::MAX,
            value == digits_value(s@.subrange(0, i as int)),
            forall|j: int| 0 <= j < i ==> is_digit(#[trigger] s@[j]),
        decreases k - i,
    {
        let c = s.get_char(i);
        if !('0' <= c && c <= '9') {
            assert(s@.subrange(0, k as int)[i as int] == c);
            assert(!all_digits(s@.subrange(0, k as int)));
            return None;
        }
        assert(s@.subrange(0, i + 1).drop_last() == s@.subrange(0, i as int));
        value = value * 10 + ((c as u32 - 48) as u128);
        if value > usize::MAX as u128 {
            proof {
                if all_digits(s@.subrange(0, k as int)) {
                    lemma_digits_value_grows(s@.subrange(0, k as int), i + 1);
                    assert(s@.subrange(0, k as int).subrange(0, i + 1) == s@.subrange(0, i + 1));
                }
            }
            return None;
        }
        i = i + 1;
    }
    assert(s@.subrange(0, k as int) == s@.subrange(0, i as int));
    let tail = s.substring_char(k + 1, n);
    Some((value as usize, owned(tail)))
}

/// Digit values only grow as digits are appended.
pub proof fn lemma_digits_value_grows(s: Seq<char>, i: int)
    requires
        all_digits(s),
        0 <= i <= s.len(),
    ensures
        digits_value(s.subrange(0, i)) <= digits_value(s),
    decreases s.len() - i,
{
    if i < s.len() {
        lemma_digits_value_grows(s, i + 1);
        assert(s.subrange(0, i + 1).drop_last() == s.subrange(0, i));
        assert(is_digit(s[i]));
        assert(digits_value(s.subrange(0, i)) >= 0) by {
            lemma_digits_value_nonneg(s.subrange(0, i));
        }
    } else {
        assert(s.subrange(0, i) == s);
    }
}

pub proof fn lemma_digits_value_nonneg(s: Seq<char>)
    requires
        forall|j: int| 0 <= j < s.len() ==> is_digit(#[trigger] s[j]),
    ensures
        digits_value(s) >= 0,
    decreases s.len(),
{
    if s.len() > 0 {
        lemma_digits_value_nonneg(s.drop_last());
        assert(is_digit(s[s.len() - 1]));
    }
}

/// Decimal digits read back to the number they were written from.
pub proof fn lemma_decimal_round_trip(n: nat)
    ensures
        all_digits(decimal(n)),
        digits_value(decimal(n)) == n,
        !decimal(n).contains(':'),
    decreases n,
{
    assert(digit_char((n % 10) as nat) as int == (n % 10) + 48);
    assert((n / 10) * 10 + n % 10 == n) by (nonlinear_arith);
    if n < 10 {
        let d = decimal(n);
        assert(d.drop_last() =~= Seq::<char>::empty());
        assert(digits_value(d.drop_last()) == 0);
        assert(d.last() == digit_char(n));
        assert(digits_value(d) == digits_value(d.drop_last()) * 10 + (d.last() as int - 48));
    }
    if n >= 10 {
        lemma_decimal_round_trip(n / 10);
        let d = decimal(n);
        assert(d.last() == digit_char((n % 10) as nat));
        assert(digits_value(d) == digits_value(d.drop_last()) * 10 + (d.last() as int - 48));
        assert(d.drop_last() == decimal(n / 10));
        assert(digits_value(d.drop_last()) == n / 10);
        assert(forall|j: int| 0 <= j < d.len() - 1 ==> d[j] == decimal(n / 10)[j]);
    }
}

/// A reference decodes to the user id and article id it was written from.
pub proof fn lemma_reference_round_trip(user_id: usize, article_id: Seq<char>)
    ensures
        decoded_reference(reference_text(user_id as nat, article_id)) == Some((user_id, article_id)),
{
    let d = decimal(user_id as nat);
    let s = reference_text(user_id as nat, article_id);
    lemma_decimal_round_trip(user_id as nat);
    assert forall|j: int| 0 <= j < d.len() implies s[j] != ':' by {
        assert(s[j] == d[j]);
    }
    lemma_first_colon_after_prefix(s, d.len() as int);
    assert(s.subrange(0, d.len() as int) == d);
    assert(s.subrange(d.len() as int + 1, s.len() as int) == article_id);
}

pub proof fn lemma_first_colon_after_prefix(s: Seq<char>, k: int)
    requires
        0 <= k < s.len(),
        s[k] == ':',
        forall|j: int| 0 <= j < k ==> s[j] != ':',
    ensures
        first_colon(s) == Some(k),
    decreases k,
{
    if k > 0 {
        lemma_first_colon_after_prefix(s.drop_first(), k - 1);
    }
}

} // verus!
