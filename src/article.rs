use vstd::prelude::*;
use html_editor::operation::{Queryable, Selector};
use crate::price::{Price, CurrencyCode};
use crate::text::{str_eq, owned};
use crate::htmlscan::{html_is_parse_safe, html_parse_safe};
use vstd::utf8::is_ascii_chars;

verus! {

/// The attributes, in document order, of the first element of the parsed
/// document that matches the CSS selector; `None` when the text does not
/// parse or nothing matches.
pub uninterp spec fn query_attrs_of(html: Seq<char>, selector: Seq<char>) -> Option<Seq<(Seq<char>, Seq<char>)>>;

pub open spec fn attrs_view(v: Seq<(String, String)>) -> Seq<(Seq<char>, Seq<char>)> {
    v.map_values(|p: (String, String)| (p.0@, p.1@))
}

/// Relies on html_editor::parse and `Queryable::query` on the parsed nodes:
/// the attributes of the first element that matches the selector. `parse`
/// and `Selector::from` panic on some inputs; `requires` keeps to documents
/// that pass `html_parse_safe` and to ASCII selectors.
#[verifier::external_body]
fn query_attrs(html: &str, selector: &str) -> (r: Option<Vec<(String, String)>>)
    requires
        html_parse_safe(html@),
        is_ascii_chars(selector@),
    ensures
        r is None <==> query_attrs_of(html@, selector@) is None,
        r matches Some(v) ==> query_attrs_of(html@, selector@) == Some(attrs_view(v@)),
{
    match html_editor::parse(html) {
        Ok(doc) => doc.query(&Selector::from(selector)).map(|el| el.attrs.clone()),
        Err(_) => None,
    }
}

pub open spec fn is_digit(c: char) -> bool {
    '0' <= c && c <= '9'
}

/// Value of a non-empty run of decimal digits.
pub open spec fn digits_value(s: Seq<char>) -> int
    decreases s.len(),
{
    if s.len() == 0 {
        0
    } else {
        digits_value(s.drop_last()) * 10 + (s.last() as int - 48)
    }
}

pub open spec fn all_digits(s: Seq<char>) -> bool {
    s.len() > 0 && forall|i: int| 0 <= i < s.len() ==> is_digit(#[trigger] s[i])
}

/// An optionally signed decimal integer.
pub open spec fn integer_text_value(s: Seq<char>) -> Option<int> {
    if s.len() > 0 && s[0] == '-' && all_digits(s.drop_first()) {
        Some(-digits_value(s.drop_first()))
    } else if s.len() > 0 && s[0] == '+' && all_digits(s.drop_first()) {
        Some(digits_value(s.drop_first()))
    } else if all_digits(s) {
        Some(digits_value(s))
    } else {
        None
    }
}

pub open spec fn parsed_i64(s: Seq<char>) -> Option<i64> {
    match integer_text_value(s) {
        Some(v) => if i64::MIN <= v <= i64::MAX { Some(v as i64) } else { None },
        None => None,
    }
}

/// Reads an optionally signed decimal integer that fits an `i64`, as
/// `str::parse::<i64>` does.
pub fn parse_i64(s: &str) -> (r: Option<i64>)
    ensures
        r == parsed_i64(s@),
{
    let n = s.unicode_len();
    if n == 0 {
        return None;
    }
    let first = s.get_char(0);
    let neg = first == '-';
    let start: usize = if first == '-' || first == '+' { 1 } else { 0 };
    if start == n {
        assert(!all_digits(s@.drop_first())) by {
            assert(s@.drop_first().len() == 0);
        }
        return None;
    }
    let mut value: i128 = 0;
    let mut i: usize = start;
    while i < n
        invariant
            n == s@.len(),
            start <= i <= n,
            start < n,
            start as int == if s@[0] == '-' || s@[0] == '+' { 1int } else { 0int },
            neg == (s@[0] == '-'),
            0 <= value <= 0x8000_0000_0000_0000i128,
            value == digits_value(s@.subrange(start as int, i as int)),
            forall|j: int| start <= j < i ==> is_digit(#[trigger] s@[j]),
        decreases n - i,
    {
        let c = s.get_char(i);
        if !('0' <= c && c <= '9') {
            proof {
                assert(s@.subrange(start as int, n as int)[i - start] == c);
                assert(!all_digits(s@.subrange(start as int, n as int)));
                lemma_text_value_shape(s@, start as int);
            }
            return None;
        }
        assert(s@.subrange(start as int, i + 1).drop_last() == s@.subrange(start as int, i as int));
        value = value * 10 + ((c as u32 - 48) as i128);
        if value > 0x8000_0000_0000_0000i128 {
            proof {
                let full = s@.subrange(start as int, n as int);
                if all_digits(full) {
                    crate::reference::lemma_digits_value_grows(full, i + 1 - start);
                    assert(full.subrange(0, i + 1 - start) == s@.subrange(start as int, i + 1));
                }
                lemma_text_value_shape(s@, start as int);
            }
            return None;
        }
        i = i + 1;
    }
    proof {
        assert(all_digits(s@.subrange(start as int, n as int)));
        lemma_text_value_shape(s@, start as int);
    }
    if neg {
        Some((-value) as i64)
    } else if value > 0x7fff_ffff_ffff_ffffi128 {
        None
    } else {
        Some(value as i64)
    }
}

/// How `integer_text_value` reads a text whose digits start at `start`.
proof fn lemma_text_value_shape(s: Seq<char>, start: int)
    requires
        s.len() > 0,
        start == if s[0] == '-' || s[0] == '+' { 1int } else { 0int },
    ensures
        ({
            let digits = s.subrange(start, s.len() as int);
            integer_text_value(s) == if !all_digits(digits) {
                None::<int>
            } else if s[0] == '-' {
                Some(-digits_value(digits))
            } else {
                Some(digits_value(digits))
            }
        }),
{
    let digits = s.subrange(start, s.len() as int);
    if start == 1 {
        assert(s.drop_first() == digits);
        assert(!is_digit(s[0]));
    } else {
        assert(s == digits);
    }
}

/// The value of the first attribute named `key`.
pub open spec fn find_attr(attrs: Seq<(Seq<char>, Seq<char>)>, key: Seq<char>) -> Option<Seq<char>>
    decreases attrs.len(),
{
    if attrs.len() == 0 {
        None
    } else if attrs[0].0 == key {
        Some(attrs[0].1)
    } else {
        find_attr(attrs.drop_first(), key)
    }
}

fn find_attr_exec<'a>(attrs: &'a Vec<(String, String)>, key: &str) -> (r: Option<&'a String>)
    ensures
        r is None <==> find_attr(attrs_view(attrs@), key@) is None,
        r matches Some(s) ==> find_attr(attrs_view(attrs@), key@) == Some(s@),
{
    let mut i: usize = 0;
    assert(attrs_view(attrs@).subrange(0, attrs@.len() as int) == attrs_view(attrs@));
    while i < attrs.len()
        invariant
            i <= attrs@.len(),
            find_attr(attrs_view(attrs@), key@) == find_attr(attrs_view(attrs@).subrange(i as int, attrs@.len() as int), key@),
        decreases attrs@.len() - i,
    {
        let ghost rest = attrs_view(attrs@).subrange(i as int, attrs@.len() as int);
        assert(rest[0] == (attrs@[i as int].0@, attrs@[i as int].1@));
        if str_eq(attrs[i].0.as_str(), key) {
            return Some(&attrs[i].1);
        }
        assert(rest.drop_first() == attrs_view(attrs@).subrange(i + 1, attrs@.len() as int));
        i = i + 1;
    }
    None
}

/// Paywall attributes read from an element's attributes: identifier,
/// title, price in minor units and currency code.
pub open spec fn fields_of_attrs(a: Seq<(Seq<char>, Seq<char>)>) -> Option<(Seq<char>, Seq<char>, i64, CurrencyCode)> {
    match (
        find_attr(a, "data-paywall-identifier"@),
        find_attr(a, "data-paywall-title"@),
        find_attr(a, "data-paywall-price"@),
        find_attr(a, "data-paywall-currency"@),
    ) {
        (Some(id), Some(title), Some(price), Some(cur)) => match parsed_i64(price) {
            Some(p) => if cur == "USD"@ {
                Some((id, title, p, CurrencyCode::USD))
            } else if cur == "EUR"@ {
                Some((id, title, p, CurrencyCode::EUR))
            } else {
                None
            },
            None => None,
        },
        _ => None,
    }
}

/// Paywall attributes of a document's first `.PAYWALLED` element; `None`
/// when the document is not one that html_editor is known to parse safely,
/// when it has no such element, or when an attribute is missing or
/// malformed.
pub open spec fn paywall_fields(html: Seq<char>) -> Option<(Seq<char>, Seq<char>, i64, CurrencyCode)> {
    if !html_parse_safe(html) {
        None
    } else {
        match query_attrs_of(html, ".PAYWALLED"@) {
            None => None,
            Some(a) => fields_of_attrs(a),
        }
    }
}

/// What a purchasable item is: identifier, canonical link, title and price.
#[derive(Clone, Debug, PartialEq, Eq, Hash)]
pub struct PaywallArticle {
    identifier: String,
    pub link: String,
    pub title: String,
    price: Price,
}

impl PaywallArticle {
    pub closed spec fn identifier(&self) -> Seq<char> {
        self.identifier@
    }

    pub closed spec fn link_text(&self) -> Seq<char> {
        self.link@
    }

    pub closed spec fn title_text(&self) -> Seq<char> {
        self.title@
    }

    pub closed spec fn price(&self) -> Price {
        self.price
    }

    /// This article holds exactly the fields `f`, under `link`.
    pub open spec fn holds(&self, f: (Seq<char>, Seq<char>, i64, CurrencyCode), link: Seq<char>) -> bool {
        &&& self.identifier() == f.0
        &&& self.title_text() == f.1
        &&& self.price().minor() == f.2 as int
        &&& self.price().currency().code() == f.3
        &&& self.link_text() == link
    }

    pub fn new(identifier: String, link: String, title: String, price: Price) -> (r: PaywallArticle)
        ensures
            r.identifier() == identifier@,
            r.link_text() == link@,
            r.title_text() == title@,
            r.price() == price,
    {
        PaywallArticle { identifier, link, title, price }
    }

    /// A field-by-field copy.
    pub fn duplicate(&self) -> (r: PaywallArticle)
        ensures
            r == *self,
    {
        PaywallArticle {
            identifier: self.identifier.clone(),
            link: self.link.clone(),
            title: self.title.clone(),
            price: self.price,
        }
    }

    /// The article described by an element's paywall attributes, served
    /// under `link`; `None` when an attribute is missing or malformed.
    pub fn from_attrs(attrs: &Vec<(String, String)>, link: &str) -> (r: Option<PaywallArticle>)
        ensures
            r is Some <==> fields_of_attrs(attrs_view(attrs@)) is Some,
            r matches Some(a) ==> a.holds(fields_of_attrs(attrs_view(attrs@))->Some_0, link@),
    {
        proof {
            reveal_strlit("USD");
            reveal_strlit("EUR");
            assert("USD"@[0] != "EUR"@[0]);
        }
        let identifier = match find_attr_exec(attrs, "data-paywall-identifier") {
            Some(v) => v.clone(),
            None => return None,
        };
        let title = match find_attr_exec(attrs, "data-paywall-title") {
            Some(v) => v.clone(),
            None => return None,
        };
        let price_text = match find_attr_exec(attrs, "data-paywall-price") {
            Some(v) => v,
            None => return None,
        };
        let currency_text = match find_attr_exec(attrs, "data-paywall-currency") {
            Some(v) => v,
            None => return None,
        };
        let price_in_minor = match parse_i64(price_text.as_str()) {
            Some(p) => p,
            None => return None,
        };
        let price = match Price::from_currency_string(price_in_minor, currency_text.as_str()) {
            Ok(p) => p,
            Err(_) => return None,
        };
        Some(PaywallArticle { identifier, link: owned(link), title, price })
    }

    /// Reads the paywall attributes of the first `.PAYWALLED` element of an
    /// HTML document; `None` when the document is not one that html_editor
    /// is known to parse safely, when there is no such element, or when an
    /// attribute is missing or malformed.
    pub fn from_html_string(html: &str, link: &str) -> (r: Option<PaywallArticle>)
        ensures
            r is Some <==> paywall_fields(html@) is Some,
            r matches Some(a) ==> a.holds(paywall_fields(html@)->Some_0, link@),
    {
        if !html_is_parse_safe(html) {
            return None;
        }
        proof {
            reveal_strlit(".PAYWALLED");
        }
        match query_attrs(html, ".PAYWALLED") {
            Some(attrs) => PaywallArticle::from_attrs(&attrs, link),
            None => None,
        }
    }

    /// Same as `from_html_string`, for an owned document.
    pub fn from_html_string_noref(html: String, link: &str) -> (r: Option<PaywallArticle>)
        ensures
            r is Some <==> paywall_fields(html@) is Some,
            r matches Some(a) ==> a.holds(paywall_fields(html@)->Some_0, link@),
    {
        PaywallArticle::from_html_string(html.as_str(), link)
    }

    pub fn get_link(&self) -> (r: &str)
        ensures
            r@ == self.link_text(),
    {
        self.link.as_str()
    }

    pub fn get_title(&self) -> (r: &str)
        ensures
            r@ == self.title_text(),
    {
        self.title.as_str()
    }

    pub fn get_identifier(&self) -> (r: &str)
        ensures
            r@ == self.identifier(),
    {
        self.identifier.as_str()
    }

    pub fn link_matches(&self, target: &str) -> (r: bool)
        ensures
            r == (self.link_text() == target@),
    {
        str_eq(self.link.as_str(), target)
    }

    pub fn identifer_matches(&self, target: &str) -> (r: bool)
        ensures
            r == (self.identifier() == target@),
    {
        str_eq(self.identifier.as_str(), target)
    }

    pub fn get_price_in_major_unit_str(&self) -> (r: String)
        ensures
            r@ == crate::price::major_unit_text(self.price().minor()),
    {
        self.price.get_in_major_unit_str()
    }

    pub fn get_price_in_minor_unit(&self) -> (r: i64)
        ensures
            r == self.price().minor(),
    {
        self.price.get_in_minor_unit()
    }
}

} // verus!
