//! Random passwords drawn from chosen character classes.
use vstd::prelude::*;

verus! {

broadcast use vstd::seq_lib::group_to_multiset_ensures;

/// Upper-case letters, without `O`.
pub open spec fn is_upper(b: u8) -> bool {
    65 <= b <= 90 && b != 79
}

/// Lower-case letters, without `l`.
pub open spec fn is_lower(b: u8) -> bool {
    97 <= b <= 122 && b != 108
}

/// The digits `2` to `9`.
pub open spec fn is_number(b: u8) -> bool {
    50 <= b <= 57
}

/// The symbols `!@#$%^&*`.
pub open spec fn is_symbol(b: u8) -> bool {
    b == 33 || b == 64 || b == 35 || b == 36 || b == 37 || b == 94 || b == 38 || b == 42
}

/// Whether `b` belongs to one of the chosen classes.
pub open spec fn allowed(b: u8, upper: bool, lower: bool, number: bool, symbol: bool) -> bool {
    (upper && is_upper(b)) || (lower && is_lower(b)) || (number && is_number(b)) || (symbol
        && is_symbol(b))
}

/// How many classes are chosen.
pub open spec fn classes_chosen(upper: bool, lower: bool, number: bool, symbol: bool) -> nat {
    (if upper { 1nat } else { 0nat }) + (if lower { 1nat } else { 0nat }) + (if number {
        1nat
    } else {
        0nat
    }) + (if symbol { 1nat } else { 0nat })
}

/// Whether some byte of `s` satisfies the class predicate `class`.
pub open spec fn has_class(s: Seq<u8>, class: spec_fn(u8) -> bool) -> bool {
    exists|i: int| 0 <= i < s.len() && class(#[trigger] s[i])
}

/// Relies on `IndexedRandom::choose` of `rand`, with the thread-local
/// generator of `rand::rng`: some element of the non-empty slice.
#[verifier::external_body]
fn pick(chars: &[u8]) -> (r: u8)
    requires
        chars@.len() > 0,
    ensures
        chars@.contains(r),
{
    *rand::seq::IndexedRandom::choose(chars, &mut rand::rng()).expect("a non-empty slice")
}

/// Relies on `SliceRandom::shuffle` of `rand`, with the thread-local generator
/// of `rand::rng`: the bytes are permuted, by swaps.
#[verifier::external_body]
fn shuffle(bytes: &mut Vec<u8>)
    ensures
        final(bytes)@.to_multiset() == old(bytes)@.to_multiset(),
{
    rand::seq::SliceRandom::shuffle(bytes.as_mut_slice(), &mut rand::rng())
}

/// The bytes from `lo` to `hi`, both included, except `skip`.
fn byte_range(lo: u8, hi: u8, skip: u8) -> (r: Vec<u8>)
    requires
        lo < hi,
        lo != skip,
    ensures
        r@.len() > 0,
        forall|i: int| 0 <= i < r@.len() ==> lo <= #[trigger] r@[i] <= hi && r@[i] != skip,
{
    let mut out: Vec<u8> = Vec::new();
    let mut c: u8 = lo;
    while c < hi
        invariant
            lo <= c <= hi,
            lo != skip,
            c > lo ==> out@.len() > 0,
            forall|i: int| 0 <= i < out@.len() ==> lo <= #[trigger] out@[i] <= hi && out@[i] != skip,
        decreases hi - c,
    {
        if c != skip {
            out.push(c);
        }
        c = c + 1;
    }
    if hi != skip {
        out.push(hi);
    }
    out
}

/// The upper-case letters that passwords use.
fn upper_chars() -> (r: Vec<u8>)
    ensures
        r@.len() > 0,
        forall|i: int| 0 <= i < r@.len() ==> is_upper(#[trigger] r@[i]),
{
    byte_range(65, 90, 79)
}

/// The lower-case letters that passwords use.
fn lower_chars() -> (r: Vec<u8>)
    ensures
        r@.len() > 0,
        forall|i: int| 0 <= i < r@.len() ==> is_lower(#[trigger] r@[i]),
{
    byte_range(97, 122, 108)
}

/// The digits that passwords use.
fn number_chars() -> (r: Vec<u8>)
    ensures
        r@.len() > 0,
        forall|i: int| 0 <= i < r@.len() ==> is_number(#[trigger] r@[i]),
{
    byte_range(50, 57, 0)
}

/// The symbols that passwords use.
fn symbol_chars() -> (r: Vec<u8>)
    ensures
        r@.len() > 0,
        forall|i: int| 0 <= i < r@.len() ==> is_symbol(#[trigger] r@[i]),
{
    let r: Vec<u8> = vec![33, 64, 35, 36, 37, 94, 38, 42];
    assert(r@.len() == 8);
    r
}

/// Adds one byte drawn from `set` to the password and all of `set` to the pool.
fn take_class(password: &mut Vec<u8>, pool: &mut Vec<u8>, set: &Vec<u8>)
    requires
        set@.len() > 0,
    ensures
        final(password)@ == old(password)@.push(final(password)@.last()),
        set@.contains(final(password)@.last()),
        final(pool)@ == old(pool)@ + set@,
{
    let c = pick(set.as_slice());
    password.push(c);
    pool.extend_from_slice(set.as_slice());
}

/// A random password of `length` bytes. Each byte belongs to one of the chosen
/// classes, and each chosen class gives at least one byte.
pub fn generate_password(length: u8, upper: bool, lower: bool, number: bool, symbol: bool) -> (r:
    Vec<u8>)
    requires
        classes_chosen(upper, lower, number, symbol) <= length,
        length > 0 ==> classes_chosen(upper, lower, number, symbol) > 0,
    ensures
        r@.len() == length,
        forall|i: int| 0 <= i < r@.len() ==> allowed(#[trigger] r@[i], upper, lower, number, symbol),
        upper ==> has_class(r@, |b: u8| is_upper(b)),
        lower ==> has_class(r@, |b: u8| is_lower(b)),
        number ==> has_class(r@, |b: u8| is_number(b)),
        symbol ==> has_class(r@, |b: u8| is_symbol(b)),
{
    let ghost ok = |b: u8| allowed(b, upper, lower, number, symbol);
    let mut password: Vec<u8> = Vec::new();
    let mut pool: Vec<u8> = Vec::new();
    if upper {
        take_class(&mut password, &mut pool, &upper_chars());
        assert(is_upper(password@[0]));
    }
    assert(forall|i: int| 0 <= i < password@.len() ==> ok(#[trigger] password@[i]));
    assert(forall|i: int| 0 <= i < pool@.len() ==> ok(#[trigger] pool@[i]));
    assert(upper ==> is_upper(password@[0]));
    if lower {
        let ghost before = password@;
        take_class(&mut password, &mut pool, &lower_chars());
        assert(password@[password@.len() - 1] == password@.last());
        assert(forall|i: int| 0 <= i < before.len() ==> password@[i] == before[i]);
    }
    assert(forall|i: int| 0 <= i < password@.len() ==> ok(#[trigger] password@[i]));
    assert(forall|i: int| 0 <= i < pool@.len() ==> ok(#[trigger] pool@[i]));
    assert(upper ==> has_class(password@, |b: u8| is_upper(b)));
    assert(lower ==> has_class(password@, |b: u8| is_lower(b)));
    if number {
        let ghost before = password@;
        take_class(&mut password, &mut pool, &number_chars());
        assert(password@[password@.len() - 1] == password@.last());
        assert(forall|i: int| 0 <= i < before.len() ==> password@[i] == before[i]);
    }
    assert(forall|i: int| 0 <= i < password@.len() ==> ok(#[trigger] password@[i]));
    assert(forall|i: int| 0 <= i < pool@.len() ==> ok(#[trigger] pool@[i]));
    assert(upper ==> has_class(password@, |b: u8| is_upper(b)));
    assert(lower ==> has_class(password@, |b: u8| is_lower(b)));
    assert(number ==> has_class(password@, |b: u8| is_number(b)));
    if symbol {
        let ghost before = password@;
        take_class(&mut password, &mut pool, &symbol_chars());
        assert(password@[password@.len() - 1] == password@.last());
        assert(forall|i: int| 0 <= i < before.len() ==> password@[i] == before[i]);
    }
    assert(forall|i: int| 0 <= i < password@.len() ==> ok(#[trigger] password@[i]));
    assert(forall|i: int| 0 <= i < pool@.len() ==> ok(#[trigger] pool@[i]));
    assert(password@.len() == classes_chosen(upper, lower, number, symbol));
    assert(classes_chosen(upper, lower, number, symbol) > 0 ==> pool@.len() > 0);
    let ghost chosen = password@;
    while password.len() < length as usize
        invariant
            chosen.len() <= password@.len() <= length,
            forall|i: int| 0 <= i < chosen.len() ==> password@[i] == chosen[i],
            forall|i: int| 0 <= i < password@.len() ==> ok(#[trigger] password@[i]),
            forall|i: int| 0 <= i < pool@.len() ==> ok(#[trigger] pool@[i]),
            password@.len() < length ==> pool@.len() > 0,
            length > 0 ==> classes_chosen(upper, lower, number, symbol) > 0,
            chosen.len() == classes_chosen(upper, lower, number, symbol),
        decreases length - password@.len(),
    {
        let c = pick(pool.as_slice());
        password.push(c);
    }
    assert(upper ==> has_class(password@, |b: u8| is_upper(b))) by {
        if upper {
            let w = choose|i: int| 0 <= i < chosen.len() && is_upper(#[trigger] chosen[i]);
            assert(is_upper(password@[w]));
        }
    }
    assert(lower ==> has_class(password@, |b: u8| is_lower(b))) by {
        if lower {
            let w = choose|i: int| 0 <= i < chosen.len() && is_lower(#[trigger] chosen[i]);
            assert(is_lower(password@[w]));
        }
    }
    assert(number ==> has_class(password@, |b: u8| is_number(b))) by {
        if number {
            let w = choose|i: int| 0 <= i < chosen.len() && is_number(#[trigger] chosen[i]);
            assert(is_number(password@[w]));
        }
    }
    assert(symbol ==> has_class(password@, |b: u8| is_symbol(b))) by {
        if symbol {
            assert(is_symbol(password@[chosen.len() - 1]));
        }
    }
    let ghost unshuffled = password@;
    shuffle(&mut password);
    proof {
        lemma_permutation_keeps(unshuffled, password@, ok);
        lemma_permutation_keeps_class(unshuffled, password@, |b: u8| is_upper(b));
        lemma_permutation_keeps_class(unshuffled, password@, |b: u8| is_lower(b));
        lemma_permutation_keeps_class(unshuffled, password@, |b: u8| is_number(b));
        lemma_permutation_keeps_class(unshuffled, password@, |b: u8| is_symbol(b));
    }
    password
}

/// A permutation of a sequence whose elements all satisfy `p` has the same length
/// and elements that all satisfy `p`.
proof fn lemma_permutation_keeps(a: Seq<u8>, b: Seq<u8>, p: spec_fn(u8) -> bool)
    requires
        a.to_multiset() == b.to_multiset(),
        forall|i: int| 0 <= i < a.len() ==> p(#[trigger] a[i]),
    ensures
        b.len() == a.len(),
        forall|i: int| 0 <= i < b.len() ==> p(#[trigger] b[i]),
{
    vstd::seq_lib::to_multiset_len(a);
    vstd::seq_lib::to_multiset_len(b);
    assert forall|i: int| 0 <= i < b.len() implies p(#[trigger] b[i]) by {
        assert(b.contains(b[i]));
        assert(b.to_multiset().count(b[i]) > 0);
        assert(a.contains(b[i]));
    }
}

/// A permutation keeps an element of a class.
proof fn lemma_permutation_keeps_class(a: Seq<u8>, b: Seq<u8>, class: spec_fn(u8) -> bool)
    requires
        a.to_multiset() == b.to_multiset(),
    ensures
        has_class(a, class) ==> has_class(b, class),
{
    if has_class(a, class) {
        let w = choose|i: int| 0 <= i < a.len() && class(#[trigger] a[i]);
        assert(a.contains(a[w]));
        assert(a.to_multiset().count(a[w]) > 0);
        assert(b.contains(a[w]));
    }
}

} // verus!
