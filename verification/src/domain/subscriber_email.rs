//! The email address of a subscriber, checked when the value is made.
//!
//! An address is a local part, an `@` and a domain. The local part is a
//! non-empty run of letters, digits and the signs ``.!#$%&'*+/=?^_`{|}~-``.
//! The domain is one or more labels joined by dots; a label is a non-empty
//! run of letters, digits and hyphens that neither starts nor ends with a
//! hyphen. Nothing is trimmed and no case is changed.

use vstd::prelude::*;
use vstd::string::is_ascii;
use vstd::utf8::is_ascii_chars;

verus! {

/// Whether `c` is an ASCII letter or digit.
pub open spec fn is_letter_or_digit(c: char) -> bool {
    ('a' <= c && c <= 'z') || ('A' <= c && c <= 'Z') || ('0' <= c && c <= '9')
}

/// Whether `c` is one of the signs that a local part may hold besides
/// letters and digits.
pub open spec fn is_local_sign(c: char) -> bool {
    c == '.' || c == '!' || c == '#' || c == '$' || c == '%' || c == '&' || c == '\'' || c == '*'
        || c == '+' || c == '/' || c == '=' || c == '?' || c == '^' || c == '_' || c == '`' || c
        == '{' || c == '|' || c == '}' || c == '~' || c == '-'
}

/// Whether `c` may stand in a local part.
pub open spec fn is_local_char(c: char) -> bool {
    is_letter_or_digit(c) || is_local_sign(c)
}

/// Whether `c` may stand in a domain.
pub open spec fn is_domain_char(c: char) -> bool {
    is_letter_or_digit(c) || c == '-' || c == '.'
}

/// Whether `text` is a local part: not empty, and made of the characters of
/// a local part.
pub open spec fn is_local_part(text: Seq<char>) -> bool {
    &&& text.len() > 0
    &&& forall|i: int| 0 <= i < text.len() ==> is_local_char(#[trigger] text[i])
}

/// Whether `text` is a label of a domain: a non-empty run of letters, digits
/// and hyphens with a letter or digit at either end.
pub open spec fn is_label(text: Seq<char>) -> bool {
    &&& text.len() > 0
    &&& is_letter_or_digit(text[0])
    &&& is_letter_or_digit(text[text.len() - 1])
    &&& forall|i: int|
        0 <= i < text.len() ==> is_letter_or_digit(#[trigger] text[i]) || text[i] == '-'
}

/// Whether `text` is a domain: labels joined by dots. Said of the
/// characters: the text starts and ends with a letter or digit, holds only
/// letters, digits, hyphens and dots, and each dot stands between two
/// letters or digits.
pub open spec fn is_domain(text: Seq<char>) -> bool {
    &&& text.len() > 0
    &&& is_letter_or_digit(text[0])
    &&& is_letter_or_digit(text[text.len() - 1])
    &&& forall|i: int| 0 <= i < text.len() ==> is_domain_char(#[trigger] text[i])
    &&& forall|i: int|
        0 < i < text.len() - 1 && #[trigger] text[i] == '.' ==> is_letter_or_digit(text[i - 1])
            && is_letter_or_digit(text[i + 1])
}

/// Whether `text` splits at `at` into a local part, an `@` and a domain.
pub open spec fn splits_at(text: Seq<char>, at: int) -> bool {
    &&& 0 <= at < text.len()
    &&& text[at] == '@'
    &&& is_local_part(text.subrange(0, at))
    &&& is_domain(text.subrange(at + 1, text.len() as int))
}

/// Whether `text` is a well-formed email address.
pub open spec fn is_email(text: Seq<char>) -> bool {
    exists|at: int| splits_at(text, at)
}

/// The message that rejects `text`.
pub open spec fn rejection(text: Seq<char>) -> Seq<char> {
    text + " is not a valid subscriber email."@
}

/// An email address that is known to be well formed.
#[derive(Debug)]
pub struct SubscriberEmail {
    address: String,
}

impl View for SubscriberEmail {
    type V = Seq<char>;

    /// The characters of the address.
    closed spec fn view(&self) -> Seq<char> {
        self.address@
    }
}

impl Clone for SubscriberEmail {
    fn clone(&self) -> (copy: Self)
        ensures
            copy@ == self@,
    {
        proof {
            use_type_invariant(self);
        }
        SubscriberEmail { address: self.address.clone() }
    }
}

impl SubscriberEmail {
    #[verifier::type_invariant]
    spec fn well_formed(self) -> bool {
        is_email(self.address@)
    }

    /// Makes an address of `text` if `text` is a well-formed email address,
    /// and says so in words if it is not.
    pub fn parse(text: String) -> (parsed: Result<SubscriberEmail, String>)
        ensures
            match parsed {
                Ok(email) => is_email(text@) && email@ == text@,
                Err(message) => !is_email(text@) && message@ == rejection(text@),
            },
    {
        if is_well_formed(text.as_str()) {
            Ok(SubscriberEmail { address: text })
        } else {
            let mut message = text;
            message.append(" is not a valid subscriber email.");
            Err(message)
        }
    }

    /// The address as text, which is well formed.
    pub fn as_str(&self) -> (text: &str)
        ensures
            text@ == self@,
            is_email(text@),
    {
        proof {
            use_type_invariant(self);
        }
        self.address.as_str()
    }
}

/// Whether the byte is an ASCII letter or digit.
fn letter_or_digit(byte: u8) -> (yes: bool)
    ensures
        yes == is_letter_or_digit(byte as char),
{
    (97 <= byte && byte <= 122) || (65 <= byte && byte <= 90) || (48 <= byte && byte <= 57)
}

/// Whether the byte may stand in a local part.
fn local_char(byte: u8) -> (yes: bool)
    ensures
        yes == is_local_char(byte as char),
{
    letter_or_digit(byte) || byte == 46 || byte == 33 || (35 <= byte && byte <= 39) || byte == 42
        || byte == 43 || byte == 45 || byte == 47 || byte == 61 || byte == 63 || (94 <= byte
        && byte <= 96) || (123 <= byte && byte <= 126)
}

/// The index of the first character of `text` that may not stand in a local
/// part, or the length of `text` if there is none.
fn local_part_end(text: &str, length: usize) -> (end: usize)
    requires
        is_ascii(text),
        length == text@.len(),
    ensures
        end <= length,
        forall|i: int| 0 <= i < end ==> is_local_char(#[trigger] text@[i]),
        end < length ==> !is_local_char(text@[end as int]),
{
    let mut end: usize = 0;
    while end < length
        invariant
            is_ascii(text),
            length == text@.len(),
            end <= length,
            forall|i: int| 0 <= i < end ==> is_local_char(#[trigger] text@[i]),
        decreases length - end,
    {
        let byte = text.get_ascii(end);
        assert(text@[end as int] == byte as char);
        if !local_char(byte) {
            return end;
        }
        end = end + 1;
    }
    end
}

/// Whether the characters of `text` from `start` on are a domain.
fn domain_from(text: &str, start: usize, length: usize) -> (yes: bool)
    requires
        is_ascii(text),
        length == text@.len(),
        start <= length,
    ensures
        yes == is_domain(text@.subrange(start as int, length as int)),
{
    let ghost domain = text@.subrange(start as int, length as int);
    if start == length {
        return false;
    }
    let first = text.get_ascii(start);
    let last = text.get_ascii(length - 1);
    assert(domain[0] == first as char);
    assert(domain[domain.len() - 1] == last as char);
    if !letter_or_digit(first) || !letter_or_digit(last) {
        return false;
    }
    let mut previous: u8 = first;
    let mut index: usize = start + 1;
    while index < length
        invariant
            is_ascii(text),
            length == text@.len(),
            start < index <= length,
            domain == text@.subrange(start as int, length as int),
            is_letter_or_digit(domain[0]),
            is_letter_or_digit(domain[domain.len() - 1]),
            previous as char == text@[index - 1],
            forall|i: int| 0 <= i < index - start ==> is_domain_char(#[trigger] domain[i]),
            forall|i: int|
                0 < i < index - start - 1 && #[trigger] domain[i] == '.' ==> is_letter_or_digit(
                    domain[i - 1],
                ) && is_letter_or_digit(domain[i + 1]),
            index - start >= 2 && domain[index - start - 1] == '.' ==> is_letter_or_digit(
                domain[index - start - 2],
            ),
        decreases length - index,
    {
        let byte = text.get_ascii(index);
        let ghost here = index - start;
        assert(domain[here] == byte as char);
        assert(domain[here - 1] == previous as char);
        if byte == 46 {
            if !letter_or_digit(previous) {
                assert(!is_domain(domain)) by {
                    if here < domain.len() - 1 {
                        assert(domain[here] == '.');
                    }
                }
                return false;
            }
        } else if letter_or_digit(byte) {
        } else if byte == 45 {
            if previous == 46 {
                assert(!is_domain(domain)) by {
                    assert(domain[here - 1] == '.');
                }
                return false;
            }
        } else {
            assert(!is_domain(domain)) by {
                assert(!is_domain_char(domain[here]));
            }
            return false;
        }
        previous = byte;
        index = index + 1;
    }
    true
}

/// Whether `text` is a well-formed email address.
pub fn is_well_formed(text: &str) -> (yes: bool)
    ensures
        yes == is_email(text@),
{
    if !text.is_ascii() {
        proof {
            if is_email(text@) {
                lemma_email_is_ascii(text@);
            }
        }
        return false;
    }
    let length = text.unicode_len();
    let at = local_part_end(text, length);
    if at == length {
        assert(!is_email(text@)) by {
            assert forall|k: int| !splits_at(text@, k) by {
                if 0 <= k < text@.len() {
                    assert(is_local_char(text@[k]));
                }
            }
        }
        return false;
    }
    let byte = text.get_ascii(at);
    assert(text@[at as int] == byte as char);
    if byte != 64 || at == 0 {
        assert(!is_email(text@)) by {
            assert forall|k: int| !splits_at(text@, k) by {
                lemma_split_follows_local_part(text@, at as int, k);
            }
        }
        return false;
    }
    let yes = domain_from(text, at + 1, length);
    proof {
        let local = text@.subrange(0, at as int);
        assert forall|i: int| 0 <= i < local.len() implies is_local_char(#[trigger] local[i]) by {
            assert(local[i] == text@[i]);
        }
        if yes {
            assert(splits_at(text@, at as int));
        } else {
            assert forall|k: int| !splits_at(text@, k) by {
                lemma_split_follows_local_part(text@, at as int, k);
            }
        }
    }
    yes
}

/// Where the first `end` characters of `text` may stand in a local part and
/// the next one may not, `text` splits at `end` or nowhere, and only if
/// `end` is not the start.
proof fn lemma_split_follows_local_part(text: Seq<char>, end: int, k: int)
    requires
        0 <= end < text.len(),
        forall|i: int| 0 <= i < end ==> is_local_char(#[trigger] text[i]),
        !is_local_char(text[end]),
    ensures
        splits_at(text, k) ==> k == end && end > 0 && text[end] == '@',
{
    if splits_at(text, k) {
        let local = text.subrange(0, k);
        if k < end {
            assert(is_local_char(text[k]));
        } else if k > end {
            assert(local[end] == text[end]);
        } else {
            assert(local.len() > 0);
        }
    }
}

/// A well-formed email address holds only ASCII characters.
pub proof fn lemma_email_is_ascii(text: Seq<char>)
    requires
        is_email(text),
    ensures
        is_ascii_chars(text),
{
    let at = choose|at: int| splits_at(text, at);
    let local = text.subrange(0, at);
    let domain = text.subrange(at + 1, text.len() as int);
    assert forall|i: int| 0 <= i < text.len() implies '\0' <= #[trigger] text[i] <= '\u{7f}' by {
        if i < at {
            assert(local[i] == text[i]);
            assert(is_local_char(local[i]));
        } else if i > at {
            assert(domain[i - at - 1] == text[i]);
            assert(is_domain_char(domain[i - at - 1]));
        }
    }
}

/// A well-formed email address holds exactly one `@`, with text on both
/// sides: a text without `@`, an empty text, and a text that starts or ends
/// with `@` are no addresses.
pub proof fn lemma_email_has_one_at(text: Seq<char>)
    requires
        is_email(text),
    ensures
        text.len() >= 3,
        exists|at: int|
            0 < at < text.len() - 1 && #[trigger] text[at] == '@' && forall|other: int|
                0 <= other < text.len() && #[trigger] text[other] == '@' ==> other == at,
{
    let at = choose|at: int| splits_at(text, at);
    let local = text.subrange(0, at);
    let domain = text.subrange(at + 1, text.len() as int);
    assert forall|other: int| 0 <= other < text.len() && #[trigger] text[other] == '@' implies other
        == at by {
        if other < at {
            assert(local[other] == text[other]);
            assert(is_local_char(local[other]));
        } else if other > at {
            assert(domain[other - at - 1] == text[other]);
            assert(is_domain_char(domain[other - at - 1]));
        }
    }
    assert(local.len() > 0);
    assert(domain.len() > 0);
}

/// A text in which no `@` has text on both sides is no email address. This
/// holds of the empty text, of a text without `@`, of one that starts with
/// its only `@` and of one that ends with it.
pub proof fn lemma_missing_part_is_rejected(text: Seq<char>)
    requires
        forall|at: int|
            0 <= at < text.len() && #[trigger] text[at] == '@' ==> at == 0 || at == text.len() - 1,
    ensures
        !is_email(text),
{
    if is_email(text) {
        lemma_email_has_one_at(text);
    }
}

/// A local part, an `@` and a domain make a well-formed email address.
pub proof fn lemma_parts_make_email(local: Seq<char>, domain: Seq<char>)
    requires
        is_local_part(local),
        is_domain(domain),
    ensures
        is_email(local + seq!['@'] + domain),
{
    let text = local + seq!['@'] + domain;
    let at = local.len() as int;
    assert(text[at] == '@');
    assert(text.subrange(0, at) =~= local);
    assert(text.subrange(at + 1, text.len() as int) =~= domain);
    assert(splits_at(text, at));
}

/// A label alone is a domain.
pub proof fn lemma_label_is_domain(label: Seq<char>)
    requires
        is_label(label),
    ensures
        is_domain(label),
{
    assert forall|i: int| 0 <= i < label.len() implies is_domain_char(#[trigger] label[i]) by {
        assert(is_letter_or_digit(label[i]) || label[i] == '-');
    }
    assert forall|i: int| 0 < i < label.len() - 1 && #[trigger] label[i] == '.' implies false by {
        assert(is_letter_or_digit(label[i]) || label[i] == '-');
    }
}

/// A label, a dot and a domain make a domain.
pub proof fn lemma_label_extends_domain(label: Seq<char>, domain: Seq<char>)
    requires
        is_label(label),
        is_domain(domain),
    ensures
        is_domain(label + seq!['.'] + domain),
{
    let text = label + seq!['.'] + domain;
    let dot = label.len() as int;
    assert(text[0] == label[0]);
    assert(text[text.len() - 1] == domain[domain.len() - 1]);
    assert forall|i: int| 0 <= i < text.len() implies is_domain_char(#[trigger] text[i]) by {
        if i < dot {
            assert(text[i] == label[i]);
        } else if i > dot {
            assert(text[i] == domain[i - dot - 1]);
        }
    }
    assert forall|i: int| 0 < i < text.len() - 1 && #[trigger] text[i] == '.' implies
        is_letter_or_digit(text[i - 1]) && is_letter_or_digit(text[i + 1]) by {
        if i < dot {
            assert(text[i] == label[i]);
        } else if i == dot {
            assert(text[i - 1] == label[label.len() - 1]);
            assert(text[i + 1] == domain[0]);
        } else {
            let j = i - dot - 1;
            assert(text[i] == domain[j]);
            assert(is_letter_or_digit(domain[0]));
            assert(j > 0);
            assert(j < domain.len() - 1);
            assert(text[i - 1] == domain[j - 1]);
            assert(text[i + 1] == domain[j + 1]);
        }
    }
}

/// A domain is made of labels: without a dot it is a label, and at its
/// first dot it splits into a label and a domain.
pub proof fn lemma_domain_is_labels(domain: Seq<char>, dot: int)
    requires
        is_domain(domain),
        forall|i: int| 0 <= i < dot && i < domain.len() ==> #[trigger] domain[i] != '.',
    ensures
        dot >= domain.len() ==> is_label(domain),
        0 <= dot < domain.len() && domain[dot] == '.' ==> is_label(domain.subrange(0, dot))
            && is_domain(domain.subrange(dot + 1, domain.len() as int)),
{
    if dot >= domain.len() {
        assert forall|i: int| 0 <= i < domain.len() implies is_letter_or_digit(
            #[trigger] domain[i],
        ) || domain[i] == '-' by {
            assert(is_domain_char(domain[i]));
        }
    } else if 0 <= dot && domain[dot] == '.' {
        let label = domain.subrange(0, dot);
        let rest = domain.subrange(dot + 1, domain.len() as int);
        assert(0 < dot < domain.len() - 1);
        assert(label[label.len() - 1] == domain[dot - 1]);
        assert forall|i: int| 0 <= i < label.len() implies is_letter_or_digit(#[trigger] label[i])
            || label[i] == '-' by {
            assert(label[i] == domain[i]);
            assert(is_domain_char(domain[i]));
        }
        assert(rest[0] == domain[dot + 1]);
        assert(rest[rest.len() - 1] == domain[domain.len() - 1]);
        assert forall|i: int| 0 <= i < rest.len() implies is_domain_char(#[trigger] rest[i]) by {
            assert(rest[i] == domain[dot + 1 + i]);
        }
        assert forall|i: int| 0 < i < rest.len() - 1 && #[trigger] rest[i] == '.' implies
            is_letter_or_digit(rest[i - 1]) && is_letter_or_digit(rest[i + 1]) by {
            assert(rest[i] == domain[dot + 1 + i]);
            assert(rest[i - 1] == domain[dot + 1 + i - 1]);
            assert(rest[i + 1] == domain[dot + 1 + i + 1]);
        }
    }
}

/// An address of the shape `local@name.tld` is well formed.
pub proof fn lemma_plain_address_is_email(local: Seq<char>, name: Seq<char>, tld: Seq<char>)
    requires
        is_local_part(local),
        is_label(name),
        is_label(tld),
    ensures
        is_email(local + seq!['@'] + (name + seq!['.'] + tld)),
{
    lemma_label_is_domain(tld);
    lemma_label_extends_domain(name, tld);
    lemma_parts_make_email(local, name + seq!['.'] + tld);
}

} // verus!
