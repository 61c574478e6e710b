//! Web app identifiers and their text form.

use vstd::prelude::*;

verus! {

/// The lower-case hexadecimal digit for `d` (taken modulo 16).
pub open spec fn hex_char(d: nat) -> char {
    seq!['0', '1', '2', '3', '4', '5', '6', '7', '8', '9', 'a', 'b', 'c', 'd', 'e', 'f'][(d
        % 16) as int]
}

/// The last `count` hexadecimal digits of `v`, most significant first.
pub open spec fn hex_digits(v: nat, count: nat) -> Seq<char>
    decreases count,
{
    if count == 0 {
        Seq::empty()
    } else {
        hex_digits(v / 16, (count - 1) as nat).push(hex_char(v % 16))
    }
}

/// The hyphenated text form of a 128-bit identifier: 32 lower-case hex digits in
/// groups of 8, 4, 4, 4 and 12.
pub open spec fn hyphenated(v: u128) -> Seq<char> {
    let h = hex_digits(v as nat, 32);
    h.subrange(0, 8) + seq!['-'] + h.subrange(8, 12) + seq!['-'] + h.subrange(12, 16) + seq!['-']
        + h.subrange(16, 20) + seq!['-'] + h.subrange(20, 32)
}

pub open spec fn pow16(n: nat) -> nat
    decreases n,
{
    if n == 0 {
        1
    } else {
        16 * pow16((n - 1) as nat)
    }
}

proof fn lemma_hex_digits_len(v: nat, n: nat)
    ensures
        hex_digits(v, n).len() == n,
    decreases n,
{
    if n > 0 {
        lemma_hex_digits_len(v / 16, (n - 1) as nat);
    }
}

proof fn lemma_hex_digits_injective(v: nat, w: nat, n: nat)
    requires
        v < pow16(n),
        w < pow16(n),
        hex_digits(v, n) == hex_digits(w, n),
    ensures
        v == w,
    decreases n,
{
    if n > 0 {
        let m = (n - 1) as nat;
        assert(hex_digits(v, n).last() == hex_char(v % 16));
        assert(hex_digits(w, n).last() == hex_char(w % 16));
        assert(hex_char((v % 16) as nat) == hex_char((w % 16) as nat));
        assert(v % 16 == w % 16);
        assert(hex_digits(v / 16, m) == hex_digits(v, n).drop_last());
        assert(hex_digits(w / 16, m) == hex_digits(w, n).drop_last());
        assert(v / 16 < pow16(m)) by (nonlinear_arith)
            requires
                v < 16 * pow16(m),
        ;
        assert(w / 16 < pow16(m)) by (nonlinear_arith)
            requires
                w < 16 * pow16(m),
        ;
        lemma_hex_digits_injective(v / 16, w / 16, m);
    }
}

/// The text form of an identifier is 36 characters long.
pub proof fn lemma_text_len(a: WebAppId)
    ensures
        a.text_view().len() == 36,
{
    lemma_hex_digits_len(a.value as nat, 32);
}

/// Distinct identifiers have distinct text forms.
pub proof fn lemma_text_injective(a: WebAppId, b: WebAppId)
    requires
        a.text_view() == b.text_view(),
    ensures
        a == b,
{
    let ha = hex_digits(a.value as nat, 32);
    let hb = hex_digits(b.value as nat, 32);
    lemma_hex_digits_len(a.value as nat, 32);
    lemma_hex_digits_len(b.value as nat, 32);
    let ta = a.text_view();
    let tb = b.text_view();
    assert forall|k: int| 0 <= k < 32 implies ha[k] == hb[k] by {
        if k < 8 {
            assert(ta[k] == ha[k] && tb[k] == hb[k]);
        } else if k < 12 {
            assert(ta[k + 1] == ha[k] && tb[k + 1] == hb[k]);
        } else if k < 16 {
            assert(ta[k + 2] == ha[k] && tb[k + 2] == hb[k]);
        } else if k < 20 {
            assert(ta[k + 3] == ha[k] && tb[k + 3] == hb[k]);
        } else {
            assert(ta[k + 4] == ha[k] && tb[k + 4] == hb[k]);
        }
    }
    assert(ha =~= hb);
    assert(pow16(32) == 0x1_0000_0000_0000_0000_0000_0000_0000_0000) by {
        reveal_with_fuel(pow16, 33);
    }
    lemma_hex_digits_injective(a.value as nat, b.value as nat, 32);
}

/// Identifier of a web app: an opaque 128-bit token, fixed for the life of the entity.
#[derive(Clone, Copy, Debug, PartialEq, Eq, Structural, Hash)]
pub struct WebAppId {
    pub value: u128,
}

/// Relies on `uuid::Uuid`'s `Display`, which writes the hyphenated lower-case form.
#[verifier::external_body]
fn uuid_text(v: u128) -> (r: String)
    ensures
        r@ == hyphenated(v),
{
    uuid::Uuid::from_u128(v).to_string()
}

/// Relies on `uuid::Uuid::new_v4`: a fresh random identifier; nothing is known of its value.
#[verifier::external_body]
fn random_uuid() -> (r: u128) {
    uuid::Uuid::new_v4().as_u128()
}

impl WebAppId {
    pub fn from_u128(value: u128) -> (r: WebAppId)
        ensures
            r.value == value,
    {
        WebAppId { value }
    }

    pub fn as_u128(&self) -> (r: u128)
        ensures
            r == self.value,
    {
        self.value
    }

    /// A fresh random identifier.
    pub fn new_v4() -> (r: WebAppId) {
        WebAppId { value: random_uuid() }
    }

    /// The identifier's text form, as used in file names and on the command line.
    pub open spec fn text_view(&self) -> Seq<char> {
        hyphenated(self.value)
    }

    pub fn text(&self) -> (r: String)
        ensures
            r@ == self.text_view(),
    {
        uuid_text(self.value)
    }
}

} // verus!
