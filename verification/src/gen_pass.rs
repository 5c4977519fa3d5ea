use vstd::prelude::*;
use vstd::utf8::{encode_utf8, valid_utf8};
use rand::seq::SliceRandom;
use crate::error::CryptoError;
use crate::strutil::string_from_utf8;

verus! {

pub open spec fn is_upper_byte(b: u8) -> bool {
    65 <= b <= 90
}

pub open spec fn is_lower_byte(b: u8) -> bool {
    97 <= b <= 122
}

pub open spec fn is_digit_byte(b: u8) -> bool {
    48 <= b <= 57
}

/// The symbol class: the bytes of `!@#$%^&*()-_=+`.
pub open spec fn symbol_bytes() -> Seq<u8> {
    seq![33u8, 64u8, 35u8, 36u8, 37u8, 94u8, 38u8, 42u8, 40u8, 41u8, 45u8, 95u8, 61u8, 43u8]
}

pub open spec fn is_symbol_byte(b: u8) -> bool {
    symbol_bytes().contains(b)
}

/// Whether `b` belongs to one of the selected character classes.
pub open spec fn allowed_byte(b: u8, upper: bool, lower: bool, number: bool, symbol: bool) -> bool {
    ||| (upper && is_upper_byte(b))
    ||| (lower && is_lower_byte(b))
    ||| (number && is_digit_byte(b))
    ||| (symbol && is_symbol_byte(b))
}

/// What the password generator promises of its output: the requested
/// length, only bytes of the selected classes, and at least one byte
/// of every selected class.
pub open spec fn password_ok(
    p: Seq<u8>,
    length: int,
    upper: bool,
    lower: bool,
    number: bool,
    symbol: bool,
) -> bool {
    &&& p.len() == length
    &&& forall|i: int| 0 <= i < p.len() ==> allowed_byte(#[trigger] p[i], upper, lower, number, symbol)
    &&& upper ==> exists|i: int| 0 <= i < p.len() && is_upper_byte(#[trigger] p[i])
    &&& lower ==> exists|i: int| 0 <= i < p.len() && is_lower_byte(#[trigger] p[i])
    &&& number ==> exists|i: int| 0 <= i < p.len() && is_digit_byte(#[trigger] p[i])
    &&& symbol ==> exists|i: int| 0 <= i < p.len() && is_symbol_byte(#[trigger] p[i])
}

/// How many character classes are selected.
pub open spec fn classes_selected(upper: bool, lower: bool, number: bool, symbol: bool) -> int {
    (if upper { 1int } else { 0int }) + (if lower { 1int } else { 0int }) + (if number {
        1int
    } else {
        0int
    }) + (if symbol { 1int } else { 0int })
}

fn upper_chars() -> (v: Vec<u8>)
    ensures
        v@.len() == 26,
        forall|i: int| 0 <= i < v@.len() ==> is_upper_byte(#[trigger] v@[i]),
{
    let mut v: Vec<u8> = Vec::new();
    let mut c: u8 = 65;
    while c <= 90
        invariant
            65 <= c <= 91,
            v@.len() == c - 65,
            forall|i: int| 0 <= i < v@.len() ==> is_upper_byte(#[trigger] v@[i]),
        decreases 91 - c,
    {
        v.push(c);
        c = c + 1;
    }
    v
}

fn lower_chars() -> (v: Vec<u8>)
    ensures
        v@.len() == 26,
        forall|i: int| 0 <= i < v@.len() ==> is_lower_byte(#[trigger] v@[i]),
{
    let mut v: Vec<u8> = Vec::new();
    let mut c: u8 = 97;
    while c <= 122
        invariant
            97 <= c <= 123,
            v@.len() == c - 97,
            forall|i: int| 0 <= i < v@.len() ==> is_lower_byte(#[trigger] v@[i]),
        decreases 123 - c,
    {
        v.push(c);
        c = c + 1;
    }
    v
}

fn digit_chars() -> (v: Vec<u8>)
    ensures
        v@.len() == 10,
        forall|i: int| 0 <= i < v@.len() ==> is_digit_byte(#[trigger] v@[i]),
{
    let mut v: Vec<u8> = Vec::new();
    let mut c: u8 = 48;
    while c <= 57
        invariant
            48 <= c <= 58,
            v@.len() == c - 48,
            forall|i: int| 0 <= i < v@.len() ==> is_digit_byte(#[trigger] v@[i]),
        decreases 58 - c,
    {
        v.push(c);
        c = c + 1;
    }
    v
}

fn symbol_chars() -> (v: Vec<u8>)
    ensures
        v@.len() == 14,
        v@ == symbol_bytes(),
        forall|i: int| 0 <= i < v@.len() ==> is_symbol_byte(#[trigger] v@[i]),
{
    let v: Vec<u8> = vec![33u8, 64u8, 35u8, 36u8, 37u8, 94u8, 38u8, 42u8, 40u8, 41u8, 45u8, 95u8, 61u8, 43u8];
    proof {
        assert(v@ =~= symbol_bytes());
    }
    v
}

/// Append every byte of `set` to `chars`, keeping the class property.
fn append_all(chars: &mut Vec<u8>, set: &Vec<u8>, upper: bool, lower: bool, number: bool, symbol: bool)
    requires
        forall|i: int|
            0 <= i < old(chars)@.len() ==> allowed_byte(
                #[trigger] old(chars)@[i],
                upper,
                lower,
                number,
                symbol,
            ),
        forall|i: int|
            0 <= i < set@.len() ==> allowed_byte(#[trigger] set@[i], upper, lower, number, symbol),
    ensures
        final(chars)@.len() == old(chars)@.len() + set@.len(),
        forall|i: int|
            0 <= i < final(chars)@.len() ==> allowed_byte(
                #[trigger] final(chars)@[i],
                upper,
                lower,
                number,
                symbol,
            ),
{
    let mut k: usize = 0;
    while k < set.len()
        invariant
            0 <= k <= set@.len(),
            chars@.len() == old(chars)@.len() + k,
            forall|i: int|
                0 <= i < chars@.len() ==> allowed_byte(
                    #[trigger] chars@[i],
                    upper,
                    lower,
                    number,
                    symbol,
                ),
            forall|i: int|
                0 <= i < set@.len() ==> allowed_byte(#[trigger] set@[i], upper, lower, number, symbol),
        decreases set@.len() - k,
    {
        chars.push(set[k]);
        k = k + 1;
    }
}

/// Relies on rand's `SliceRandom::choose` with `thread_rng`: it
/// returns one of the slice's elements; which one is random, so
/// nothing more is claimed.
#[verifier::external_body]
fn pick_byte(chars: &Vec<u8>) -> (r: u8)
    requires
        chars@.len() > 0,
    ensures
        chars@.contains(r),
{
    *chars.as_slice().choose(&mut rand::thread_rng()).unwrap()
}

/// Relies on rand's `SliceRandom::shuffle` with `thread_rng`: it
/// permutes the elements in place; the order is random, so only the
/// multiset of elements is claimed.
#[verifier::external_body]
fn shuffle_bytes(v: &mut Vec<u8>)
    ensures
        final(v)@.to_multiset() == old(v)@.to_multiset(),
{
    v.as_mut_slice().shuffle(&mut rand::thread_rng());
}

/// Sequences with equal multisets hold the same elements.
proof fn lemma_multiset_eq_same_elements(a: Seq<u8>, b: Seq<u8>)
    requires
        a.to_multiset() == b.to_multiset(),
    ensures
        a.len() == b.len(),
        forall|x: u8| a.contains(x) <==> b.contains(x),
{
    a.to_multiset_ensures();
    b.to_multiset_ensures();
    assert forall|x: u8| a.contains(x) <==> b.contains(x) by {
        assert(a.contains(x) <==> a.to_multiset().count(x) > 0);
        assert(b.contains(x) <==> b.to_multiset().count(x) > 0);
    }
}

/// Pushing an element keeps every class already present in a sequence.
proof fn lemma_push_keeps_classes(s: Seq<u8>, b: u8)
    ensures
        (exists|i: int| 0 <= i < s.len() && is_upper_byte(#[trigger] s[i])) ==> (exists|i: int|
            0 <= i < s.push(b).len() && is_upper_byte(#[trigger] s.push(b)[i])),
        (exists|i: int| 0 <= i < s.len() && is_lower_byte(#[trigger] s[i])) ==> (exists|i: int|
            0 <= i < s.push(b).len() && is_lower_byte(#[trigger] s.push(b)[i])),
        (exists|i: int| 0 <= i < s.len() && is_digit_byte(#[trigger] s[i])) ==> (exists|i: int|
            0 <= i < s.push(b).len() && is_digit_byte(#[trigger] s.push(b)[i])),
        (exists|i: int| 0 <= i < s.len() && is_symbol_byte(#[trigger] s[i])) ==> (exists|i: int|
            0 <= i < s.push(b).len() && is_symbol_byte(#[trigger] s.push(b)[i])),
{
    if exists|i: int| 0 <= i < s.len() && is_upper_byte(#[trigger] s[i]) {
        let w = choose|i: int| 0 <= i < s.len() && is_upper_byte(#[trigger] s[i]);
        assert(s.push(b)[w] == s[w]);
    }
    if exists|i: int| 0 <= i < s.len() && is_lower_byte(#[trigger] s[i]) {
        let w = choose|i: int| 0 <= i < s.len() && is_lower_byte(#[trigger] s[i]);
        assert(s.push(b)[w] == s[w]);
    }
    if exists|i: int| 0 <= i < s.len() && is_digit_byte(#[trigger] s[i]) {
        let w = choose|i: int| 0 <= i < s.len() && is_digit_byte(#[trigger] s[i]);
        assert(s.push(b)[w] == s[w]);
    }
    if exists|i: int| 0 <= i < s.len() && is_symbol_byte(#[trigger] s[i]) {
        let w = choose|i: int| 0 <= i < s.len() && is_symbol_byte(#[trigger] s[i]);
        assert(s.push(b)[w] == s[w]);
    }
}

/// Generate the raw bytes of a password of `length` characters drawn
/// from the selected classes, with at least one character of each
/// selected class.
pub fn gen_pass_bytes(length: u8, upper: bool, lower: bool, number: bool, symbol: bool) -> (r: Vec<
    u8,
>)
    requires
        upper || lower || number || symbol,
        classes_selected(upper, lower, number, symbol) <= length as int,
    ensures
        password_ok(r@, length as int, upper, lower, number, symbol),
{
    let mut password: Vec<u8> = Vec::new();
    let mut chars: Vec<u8> = Vec::new();
    if upper {
        let set = upper_chars();
        append_all(&mut chars, &set, upper, lower, number, symbol);
        let b = pick_byte(&set);
        let ghost bp = password@;
        proof {
            let k = choose|k: int| 0 <= k < set@.len() && set@[k] == b;
            lemma_push_keeps_classes(bp, b);
        }
        password.push(b);
        proof {
            assert(is_upper_byte(password@[bp.len() as int]));
        }
    }
    if lower {
        let set = lower_chars();
        append_all(&mut chars, &set, upper, lower, number, symbol);
        let b = pick_byte(&set);
        let ghost bp = password@;
        proof {
            let k = choose|k: int| 0 <= k < set@.len() && set@[k] == b;
            lemma_push_keeps_classes(bp, b);
        }
        password.push(b);
        proof {
            assert(is_lower_byte(password@[bp.len() as int]));
        }
    }
    if number {
        let set = digit_chars();
        append_all(&mut chars, &set, upper, lower, number, symbol);
        let b = pick_byte(&set);
        let ghost bp = password@;
        proof {
            let k = choose|k: int| 0 <= k < set@.len() && set@[k] == b;
            lemma_push_keeps_classes(bp, b);
        }
        password.push(b);
        proof {
            assert(is_digit_byte(password@[bp.len() as int]));
        }
    }
    if symbol {
        let set = symbol_chars();
        append_all(&mut chars, &set, upper, lower, number, symbol);
        let b = pick_byte(&set);
        let ghost bp = password@;
        proof {
            let k = choose|k: int| 0 <= k < set@.len() && set@[k] == b;
            lemma_push_keeps_classes(bp, b);
        }
        password.push(b);
        proof {
            assert(is_symbol_byte(password@[bp.len() as int]));
        }
    }
    while password.len() < length as usize
        invariant
            chars@.len() > 0,
            password@.len() <= length as int,
            forall|i: int|
                0 <= i < chars@.len() ==> allowed_byte(#[trigger] chars@[i], upper, lower, number, symbol),
            forall|i: int|
                0 <= i < password@.len() ==> allowed_byte(
                    #[trigger] password@[i],
                    upper,
                    lower,
                    number,
                    symbol,
                ),
            upper ==> exists|i: int| 0 <= i < password@.len() && is_upper_byte(#[trigger] password@[i]),
            lower ==> exists|i: int| 0 <= i < password@.len() && is_lower_byte(#[trigger] password@[i]),
            number ==> exists|i: int| 0 <= i < password@.len() && is_digit_byte(#[trigger] password@[i]),
            symbol ==> exists|i: int| 0 <= i < password@.len() && is_symbol_byte(#[trigger] password@[i]),
        decreases length as int - password@.len(),
    {
        let b = pick_byte(&chars);
        let ghost bp = password@;
        proof {
            let k = choose|k: int| 0 <= k < chars@.len() && chars@[k] == b;
            assert(allowed_byte(chars@[k], upper, lower, number, symbol));
            lemma_push_keeps_classes(bp, b);
        }
        password.push(b);
    }
    let ghost before = password@;
    shuffle_bytes(&mut password);
    proof {
        lemma_multiset_eq_same_elements(before, password@);
        assert forall|i: int| 0 <= i < password@.len() implies allowed_byte(
            #[trigger] password@[i],
            upper,
            lower,
            number,
            symbol,
        ) by {
            assert(password@.contains(password@[i]));
            assert(before.contains(password@[i]));
            let k = choose|k: int| 0 <= k < before.len() && before[k] == password@[i];
            assert(allowed_byte(before[k], upper, lower, number, symbol));
        }
        if upper {
            let k = choose|k: int| 0 <= k < before.len() && is_upper_byte(before[k]);
            assert(before.contains(before[k]));
            assert(password@.contains(before[k]));
        }
        if lower {
            let k = choose|k: int| 0 <= k < before.len() && is_lower_byte(before[k]);
            assert(before.contains(before[k]));
            assert(password@.contains(before[k]));
        }
        if number {
            let k = choose|k: int| 0 <= k < before.len() && is_digit_byte(before[k]);
            assert(before.contains(before[k]));
            assert(password@.contains(before[k]));
        }
        if symbol {
            let k = choose|k: int| 0 <= k < before.len() && is_symbol_byte(before[k]);
            assert(before.contains(before[k]));
            assert(password@.contains(before[k]));
        }
    }
    password
}

/// All password bytes are ASCII, so they are valid UTF-8.
proof fn lemma_password_bytes_utf8(p: Seq<u8>, upper: bool, lower: bool, number: bool, symbol: bool)
    requires
        forall|i: int| 0 <= i < p.len() ==> allowed_byte(#[trigger] p[i], upper, lower, number, symbol),
    ensures
        valid_utf8(p),
{
    assert(forall|i: int|
        0 <= i < p.len() ==> vstd::utf8::is_leading_byte_width_1(#[trigger] p[i]));
    assert(vstd::utf8::partial_valid_utf8(p, 0)) by {
        assert(p.subrange(0, 0) =~= Seq::<u8>::empty());
    }
    vstd::utf8::partial_valid_utf8_extend_ascii_block(p, 0, p.len() as int);
    assert(p.subrange(0, p.len() as int) =~= p);
}

/// Generate a password of `length` characters drawn from the selected
/// classes, with at least one character of each selected class.
pub fn process_gen_pass(length: u8, upper: bool, lower: bool, number: bool, symbol: bool) -> (r:
    Result<String, CryptoError>)
    requires
        upper || lower || number || symbol,
        classes_selected(upper, lower, number, symbol) <= length as int,
    ensures
        r matches Ok(s) && password_ok(
            encode_utf8(s@),
            length as int,
            upper,
            lower,
            number,
            symbol,
        ),
{
    let bytes = gen_pass_bytes(length, upper, lower, number, symbol);
    proof {
        lemma_password_bytes_utf8(bytes@, upper, lower, number, symbol);
    }
    let ghost bs = bytes@;
    match string_from_utf8(bytes) {
        Some(s) => {
            proof {
                broadcast use vstd::utf8::decode_utf8_encode_utf8;

                assert(encode_utf8(s@) == bs);
            }
            Ok(s)
        },
        None => Err(CryptoError::EncodingError),
    }
}

} // verus!
