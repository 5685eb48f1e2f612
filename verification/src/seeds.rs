//! The seeds from which the program derives the address of each of its accounts.
use crate::address::Address;
use vstd::prelude::*;

verus! {

/// The seeds held in a vector of byte vectors, as a sequence of byte sequences.
pub open spec fn seeds_view(s: &Vec<Vec<u8>>) -> Seq<Seq<u8>> {
    s@.map_values(|v: Vec<u8>| v@)
}

/// The bytes of the ASCII text `config`.
pub open spec fn config_tag() -> Seq<u8> {
    seq![99, 111, 110, 102, 105, 103]
}

/// The bytes of the ASCII text `treasury`.
pub open spec fn treasury_tag() -> Seq<u8> {
    seq![116, 114, 101, 97, 115, 117, 114, 121]
}

/// The bytes of the ASCII text `merchant`.
pub open spec fn merchant_tag() -> Seq<u8> {
    seq![109, 101, 114, 99, 104, 97, 110, 116]
}

/// The bytes of the ASCII text `vault`.
pub open spec fn vault_tag() -> Seq<u8> {
    seq![118, 97, 117, 108, 116]
}

/// The bytes of the ASCII text `payment`.
pub open spec fn payment_tag() -> Seq<u8> {
    seq![112, 97, 121, 109, 101, 110, 116]
}

/// The eight little-endian bytes of `n`.
pub open spec fn le_bytes(n: u64) -> Seq<u8> {
    Seq::new(8, |i: int| ((n as int / pow256(i)) % 256) as u8)
}

pub open spec fn pow256(i: int) -> int
    decreases i,
{
    if i <= 0 {
        1
    } else {
        256 * pow256(i - 1)
    }
}

/// Seeds of the one configuration account.
pub open spec fn config_seeds() -> Seq<Seq<u8>> {
    seq![config_tag()]
}

/// Seeds of the one treasury account.
pub open spec fn treasury_seeds() -> Seq<Seq<u8>> {
    seq![treasury_tag()]
}

/// Seeds of the merchant account of `authority`.
pub open spec fn merchant_seeds(authority: Seq<u8>) -> Seq<Seq<u8>> {
    seq![merchant_tag(), authority]
}

/// Seeds of the vault of the merchant account `merchant`.
pub open spec fn vault_seeds(merchant: Seq<u8>) -> Seq<Seq<u8>> {
    seq![vault_tag(), merchant]
}

/// Seeds of the record of the `count`-th SOL payment to `merchant`.
pub open spec fn sol_payment_seeds(merchant: Seq<u8>, count: u64) -> Seq<Seq<u8>> {
    seq![payment_tag(), merchant, le_bytes(count)]
}

/// Seeds of the record of the token payment of `payer` to `merchant`.
pub open spec fn token_payment_seeds(merchant: Seq<u8>, payer: Seq<u8>) -> Seq<Seq<u8>> {
    seq![payment_tag(), merchant, payer]
}

fn bytes_of(a: &Address) -> (v: Vec<u8>)
    ensures
        v@ == a@,
{
    let mut v: Vec<u8> = Vec::new();
    let mut i: usize = 0;
    while i < 32
        invariant
            i <= 32,
            a@.len() == 32,
            v@ == a@.subrange(0, i as int),
        decreases 32 - i,
    {
        v.push(a.bytes[i]);
        i = i + 1;
        assert(v@ =~= a@.subrange(0, i as int));
    }
    assert(a@.subrange(0, 32) =~= a@);
    v
}

/// The eight little-endian bytes of `n`.
pub fn le_bytes_of(n: u64) -> (v: Vec<u8>)
    ensures
        v@ == le_bytes(n),
{
    let mut v: Vec<u8> = Vec::new();
    let mut rest: u64 = n;
    let mut i: usize = 0;
    while i < 8
        invariant
            i <= 8,
            v@.len() == i,
            rest as int == n as int / pow256(i as int),
            forall|j: int| 0 <= j < i ==> v@[j] == le_bytes(n)[j],
        decreases 8 - i,
    {
        assert(pow256(i as int + 1) == 256 * pow256(i as int));
        assert(pow256(i as int) > 0) by {
            lemma_pow256_positive(i as int);
        }
        proof {
            vstd::arithmetic::div_mod::lemma_div_denominator(n as int, pow256(i as int), 256);
        }
        v.push((rest % 256) as u8);
        rest = rest / 256;
        i = i + 1;
    }
    assert(v@ =~= le_bytes(n));
    v
}

/// Every power of 256 is positive.
pub proof fn lemma_pow256_positive(i: int)
    ensures
        pow256(i) > 0,
    decreases i,
{
    if i > 0 {
        lemma_pow256_positive(i - 1);
    }
}

fn config_tag_bytes() -> (v: Vec<u8>)
    ensures
        v@ == config_tag(),
{
    let v: Vec<u8> = vec![99, 111, 110, 102, 105, 103];
    assert(v@ =~= config_tag());
    v
}

fn treasury_tag_bytes() -> (v: Vec<u8>)
    ensures
        v@ == treasury_tag(),
{
    let v: Vec<u8> = vec![116, 114, 101, 97, 115, 117, 114, 121];
    assert(v@ =~= treasury_tag());
    v
}

fn merchant_tag_bytes() -> (v: Vec<u8>)
    ensures
        v@ == merchant_tag(),
{
    let v: Vec<u8> = vec![109, 101, 114, 99, 104, 97, 110, 116];
    assert(v@ =~= merchant_tag());
    v
}

fn vault_tag_bytes() -> (v: Vec<u8>)
    ensures
        v@ == vault_tag(),
{
    let v: Vec<u8> = vec![118, 97, 117, 108, 116];
    assert(v@ =~= vault_tag());
    v
}

fn payment_tag_bytes() -> (v: Vec<u8>)
    ensures
        v@ == payment_tag(),
{
    let v: Vec<u8> = vec![112, 97, 121, 109, 101, 110, 116];
    assert(v@ =~= payment_tag());
    v
}

/// The seeds of the configuration account.
pub fn config_seeds_of() -> (s: Vec<Vec<u8>>)
    ensures
        seeds_view(&s) == config_seeds(),
{
    let mut s: Vec<Vec<u8>> = Vec::new();
    s.push(config_tag_bytes());
    assert(seeds_view(&s) =~= config_seeds());
    s
}

/// The seeds of the treasury account.
pub fn treasury_seeds_of() -> (s: Vec<Vec<u8>>)
    ensures
        seeds_view(&s) == treasury_seeds(),
{
    let mut s: Vec<Vec<u8>> = Vec::new();
    s.push(treasury_tag_bytes());
    assert(seeds_view(&s) =~= treasury_seeds());
    s
}

/// The seeds of the merchant account of `authority`.
pub fn merchant_seeds_of(authority: &Address) -> (s: Vec<Vec<u8>>)
    ensures
        seeds_view(&s) == merchant_seeds(authority@),
{
    let mut s: Vec<Vec<u8>> = Vec::new();
    s.push(merchant_tag_bytes());
    s.push(bytes_of(authority));
    assert(seeds_view(&s) =~= merchant_seeds(authority@));
    s
}

/// The seeds of the vault of the merchant account `merchant`.
pub fn vault_seeds_of(merchant: &Address) -> (s: Vec<Vec<u8>>)
    ensures
        seeds_view(&s) == vault_seeds(merchant@),
{
    let mut s: Vec<Vec<u8>> = Vec::new();
    s.push(vault_tag_bytes());
    s.push(bytes_of(merchant));
    assert(seeds_view(&s) =~= vault_seeds(merchant@));
    s
}

/// The seeds of the record of the `count`-th SOL payment to `merchant`.
pub fn sol_payment_seeds_of(merchant: &Address, count: u64) -> (s: Vec<Vec<u8>>)
    ensures
        seeds_view(&s) == sol_payment_seeds(merchant@, count),
{
    let mut s: Vec<Vec<u8>> = Vec::new();
    s.push(payment_tag_bytes());
    s.push(bytes_of(merchant));
    s.push(le_bytes_of(count));
    assert(seeds_view(&s) =~= sol_payment_seeds(merchant@, count));
    s
}

/// The seeds of the record of the token payment of `payer` to `merchant`.
pub fn token_payment_seeds_of(merchant: &Address, payer: &Address) -> (s: Vec<Vec<u8>>)
    ensures
        seeds_view(&s) == token_payment_seeds(merchant@, payer@),
{
    let mut s: Vec<Vec<u8>> = Vec::new();
    s.push(payment_tag_bytes());
    s.push(bytes_of(merchant));
    s.push(bytes_of(payer));
    assert(seeds_view(&s) =~= token_payment_seeds(merchant@, payer@));
    s
}

} // verus!
